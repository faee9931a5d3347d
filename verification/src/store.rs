//! The store of per-symbol aggregates and the step that applies one event.

use vstd::prelude::*;
use vstd::hash_map::StringHashMap;
use crate::aggregate::{AggregateView, SymbolData, is_range_of};
use crate::message::{MarketMessage, MarketMessageType};

verus! {

/// What applying one event did.
#[derive(Debug, Clone, Copy, PartialEq, Eq, Structural)]
pub enum ApplyOutcome {
    /// The trade was recorded in its symbol's aggregate.
    Applied,
    /// The event is no trade; nothing changed.
    NotATrade,
    /// The trade lacks its price or its quantity; nothing changed.
    MissingField,
    /// Recording the trade would take the symbol's daily volume past
    /// `u64::MAX`; nothing changed.
    VolumeOverflow,
}

/// Mathematical content of a [`SymbolStore`]: the aggregate of each symbol
/// that has traded.
pub type StoreView = Map<Seq<char>, AggregateView>;

/// The aggregate that a trade for `symbol` is recorded into: the stored one,
/// or an empty one where the symbol has not traded yet.
pub open spec fn aggregate_of(store: StoreView, symbol: Seq<char>) -> AggregateView {
    if store.contains_key(symbol) {
        store[symbol]
    } else {
        AggregateView::empty()
    }
}

/// What applying `message` to `store` does.
pub open spec fn outcome_of(store: StoreView, message: MarketMessage) -> ApplyOutcome {
    if !message.is_trade() {
        ApplyOutcome::NotATrade
    } else if message.price is None || message.quantity is None {
        ApplyOutcome::MissingField
    } else if !aggregate_of(store, message.symbol@).has_room(message.quantity->0) {
        ApplyOutcome::VolumeOverflow
    } else {
        ApplyOutcome::Applied
    }
}

/// The store after `message` was applied to `store`.
pub open spec fn apply(store: StoreView, message: MarketMessage) -> StoreView {
    if outcome_of(store, message) == ApplyOutcome::Applied {
        store.insert(
            message.symbol@,
            aggregate_of(store, message.symbol@).record(
                message.timestamp_ns,
                message.price->0,
                message.quantity->0,
            ),
        )
    } else {
        store
    }
}

/// The store after the events of `messages` were applied in order, first to
/// last.
pub open spec fn apply_all(store: StoreView, messages: Seq<MarketMessage>) -> StoreView
    decreases messages.len(),
{
    if messages.len() == 0 {
        store
    } else {
        apply(apply_all(store, messages.drop_last()), messages.last())
    }
}

/// The event at position `i` of `messages` is recorded when the events are
/// applied in order, starting from `store`.
pub open spec fn applied_at(store: StoreView, messages: Seq<MarketMessage>, i: int) -> bool {
    outcome_of(apply_all(store, messages.take(i)), messages[i]) == ApplyOutcome::Applied
}

/// How many events of `messages` are recorded when they are applied in
/// order, starting from `store`.
pub open spec fn applied_count(store: StoreView, messages: Seq<MarketMessage>) -> nat
    decreases messages.len(),
{
    if messages.len() == 0 {
        0
    } else {
        applied_count(store, messages.drop_last()) + if applied_at(
            store,
            messages,
            messages.len() - 1,
        ) {
            1nat
        } else {
            0nat
        }
    }
}

/// Last trade price of `symbol`, if it has traded.
pub open spec fn last_price_of(store: StoreView, symbol: Seq<char>) -> Option<u64> {
    if store.contains_key(symbol) {
        Some(store[symbol].last_price)
    } else {
        None
    }
}

/// Cumulative traded volume of `symbol`, if it has traded.
pub open spec fn daily_volume_of(store: StoreView, symbol: Seq<char>) -> Option<u64> {
    if store.contains_key(symbol) {
        Some(store[symbol].daily_volume)
    } else {
        None
    }
}

/// Timestamp of the last trade of `symbol`, if it has traded.
pub open spec fn last_update_time_of(store: StoreView, symbol: Seq<char>) -> Option<u64> {
    if store.contains_key(symbol) {
        Some(store[symbol].last_update_time)
    } else {
        None
    }
}

/// Bucketed prices of `symbol`; empty if it has not traded.
pub open spec fn price_history_of(store: StoreView, symbol: Seq<char>) -> Map<u64, u64> {
    aggregate_of(store, symbol).price_history
}

/// Bucketed volumes of `symbol`; empty if it has not traded.
pub open spec fn volume_history_of(store: StoreView, symbol: Seq<char>) -> Map<u64, u64> {
    aggregate_of(store, symbol).volume_history
}

/// Every stored aggregate has seen a trade and is consistent.
pub open spec fn all_traded(store: StoreView) -> bool {
    forall|symbol: Seq<char>| #[trigger] store.contains_key(symbol) ==> store[symbol].traded()
}

/// Per-symbol aggregates, found by symbol.
///
/// The index gives each symbol the slot of its aggregate, so that a trade
/// updates the aggregate where it lies.
pub struct SymbolStore {
    index: StringHashMap<usize>,
    aggregates: Vec<SymbolData>,
}

impl View for SymbolStore {
    type V = StoreView;

    closed spec fn view(&self) -> StoreView {
        Map::new(
            |symbol: Seq<char>| self.index@.contains_key(symbol),
            |symbol: Seq<char>| self.aggregates@[self.index@[symbol] as int]@,
        )
    }
}

impl SymbolStore {
    /// Each symbol has a slot of its own, and every slot's aggregate has seen
    /// a trade.
    pub closed spec fn wf(&self) -> bool {
        &&& forall|symbol: Seq<char>| #[trigger]
            self.index@.contains_key(symbol) ==> self.index@[symbol] < self.aggregates.len()
        &&& forall|a: Seq<char>, b: Seq<char>|
            self.index@.contains_key(a) && self.index@.contains_key(b) && #[trigger] self.index@[a]
                == #[trigger] self.index@[b] ==> a == b
        &&& forall|i: int| 0 <= i < self.aggregates.len() ==> (#[trigger] self.aggregates@[i])@.traded()
    }

    /// A well-formed store holds only aggregates that have seen a trade.
    pub proof fn lemma_wf_all_traded(&self)
        requires
            self.wf(),
        ensures
            all_traded(self@),
    {
    }

    /// A store in which no symbol has traded.
    pub fn new() -> (store: SymbolStore)
        ensures
            store.wf(),
            store@ == Map::<Seq<char>, AggregateView>::empty(),
    {
        let store = SymbolStore { index: StringHashMap::new(), aggregates: Vec::new() };
        assert(store@ =~= Map::<Seq<char>, AggregateView>::empty());
        store
    }

    /// Price of the symbol's most recent trade; `None` if it has not traded.
    pub fn last_price(&self, symbol: &str) -> (price: Option<u64>)
        requires
            self.wf(),
        ensures
            price == last_price_of(self@, symbol@),
    {
        match self.index.get(symbol) {
            Some(slot) => Some(self.aggregates[*slot].last_price()),
            None => None,
        }
    }

    /// Sum of the symbol's traded quantities; `None` if it has not traded.
    pub fn daily_volume(&self, symbol: &str) -> (volume: Option<u64>)
        requires
            self.wf(),
        ensures
            volume == daily_volume_of(self@, symbol@),
    {
        match self.index.get(symbol) {
            Some(slot) => Some(self.aggregates[*slot].daily_volume()),
            None => None,
        }
    }

    /// Timestamp of the symbol's most recent trade; `None` if it has not
    /// traded.
    pub fn last_update_time(&self, symbol: &str) -> (timestamp_ns: Option<u64>)
        requires
            self.wf(),
        ensures
            timestamp_ns == last_update_time_of(self@, symbol@),
    {
        match self.index.get(symbol) {
            Some(slot) => Some(self.aggregates[*slot].last_update_time()),
            None => None,
        }
    }

    /// The symbol's recorded prices whose buckets lie in `start..=end`, in
    /// ascending bucket order; empty if the symbol has not traded, if no
    /// bucket lies in the range, or if `start > end`.
    pub fn price_history(&self, symbol: &str, start: u64, end: u64) -> (entries: Vec<(u64, u64)>)
        requires
            self.wf(),
        ensures
            is_range_of(entries@, price_history_of(self@, symbol@), start, end),
    {
        match self.index.get(symbol) {
            Some(slot) => self.aggregates[*slot].price_range(start, end),
            None => Vec::new(),
        }
    }

    /// The symbol's recorded volumes whose buckets lie in `start..=end`, in
    /// ascending bucket order; empty if the symbol has not traded, if no
    /// bucket lies in the range, or if `start > end`.
    pub fn volume_history(&self, symbol: &str, start: u64, end: u64) -> (entries: Vec<(u64, u64)>)
        requires
            self.wf(),
        ensures
            is_range_of(entries@, volume_history_of(self@, symbol@), start, end),
    {
        match self.index.get(symbol) {
            Some(slot) => self.aggregates[*slot].volume_range(start, end),
            None => Vec::new(),
        }
    }

    /// Applies one event.  A trade with price and quantity is recorded in its
    /// symbol's aggregate, which is created on the symbol's first trade; every
    /// other event leaves the store as it was.
    pub fn process_message(&mut self, message: &MarketMessage) -> (outcome: ApplyOutcome)
        requires
            old(self).wf(),
        ensures
            final(self).wf(),
            outcome == outcome_of(old(self)@, *message),
            final(self)@ == apply(old(self)@, *message),
    {
        match message.message_type {
            MarketMessageType::Trade => {},
            _ => {
                return ApplyOutcome::NotATrade;
            },
        }
        let (price, quantity) = match (message.price, message.quantity) {
            (Some(price), Some(quantity)) => (price, quantity),
            _ => {
                return ApplyOutcome::MissingField;
            },
        };
        let found: Option<usize> = match self.index.get(message.symbol.as_str()) {
            Some(slot) => Some(*slot),
            None => None,
        };
        match found {
            Some(slot) => {
                if !self.aggregates[slot].has_room(quantity) {
                    return ApplyOutcome::VolumeOverflow;
                }
                self.aggregates[slot].record(message.timestamp_ns, price, quantity);
                assert(final(self)@ =~= apply(old(self)@, *message));
            },
            None => {
                let mut data = SymbolData::new();
                data.record(message.timestamp_ns, price, quantity);
                let slot = self.aggregates.len();
                self.aggregates.push(data);
                self.index.insert(message.symbol.clone(), slot);
                assert(final(self)@ =~= apply(old(self)@, *message));
            },
        }
        ApplyOutcome::Applied
    }

    /// Applies the events of `messages` in order, first to last, and returns
    /// how many of them were recorded.
    pub fn process_all(&mut self, messages: &Vec<MarketMessage>) -> (recorded: usize)
        requires
            old(self).wf(),
        ensures
            final(self).wf(),
            final(self)@ == apply_all(old(self)@, messages@),
            recorded == applied_count(old(self)@, messages@),
    {
        let mut recorded: usize = 0;
        let mut done: usize = 0;
        while done < messages.len()
            invariant
                done <= messages.len(),
                recorded <= done,
                self.wf(),
                self@ == apply_all(old(self)@, messages@.take(done as int)),
                recorded == applied_count(old(self)@, messages@.take(done as int)),
            decreases messages.len() - done,
        {
            proof {
                let next = messages@.take(done + 1);
                assert(next.drop_last() =~= messages@.take(done as int));
                assert(next.take(done as int) =~= messages@.take(done as int));
            }
            let outcome = self.process_message(&messages[done]);
            if outcome == ApplyOutcome::Applied {
                recorded = recorded + 1;
            }
            done = done + 1;
        }
        assert(messages@.take(done as int) =~= messages@);
        recorded
    }
}

} // verus!
