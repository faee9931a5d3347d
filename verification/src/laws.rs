//! Laws of event application, proved over the store's mathematical content.

use vstd::prelude::*;
use crate::aggregate::is_range_of;
use crate::message::MarketMessage;
use crate::store::{
    aggregate_of, all_traded, applied_at, apply, apply_all, daily_volume_of, last_price_of,
    last_update_time_of, outcome_of, price_history_of, ApplyOutcome, StoreView,
};

verus! {

/// Sum of the quantities of those events of `messages` that are recorded for
/// `symbol` when the events are applied in order, starting from `store`.
pub open spec fn recorded_quantity(
    store: StoreView,
    messages: Seq<MarketMessage>,
    symbol: Seq<char>,
) -> nat
    decreases messages.len(),
{
    if messages.len() == 0 {
        0
    } else {
        let last = messages.last();
        recorded_quantity(store, messages.drop_last(), symbol) + if applied_at(
            store,
            messages,
            messages.len() - 1,
        ) && last.symbol@ == symbol {
            last.quantity->0 as nat
        } else {
            0nat
        }
    }
}

/// Sum of the quantities that the events of `messages` carry for `symbol`.
pub open spec fn offered_quantity(messages: Seq<MarketMessage>, symbol: Seq<char>) -> nat
    decreases messages.len(),
{
    if messages.len() == 0 {
        0
    } else {
        let last = messages.last();
        offered_quantity(messages.drop_last(), symbol) + if last.symbol@ == symbol
            && last.quantity is Some {
            last.quantity->0 as nat
        } else {
            0nat
        }
    }
}

/// An event that is no trade, or a trade that lacks its price or its
/// quantity, leaves every aggregate as it was.
pub proof fn lemma_incomplete_event_changes_nothing(store: StoreView, message: MarketMessage)
    requires
        !message.is_complete_trade(),
    ensures
        apply(store, message) == store,
        outcome_of(store, message) == ApplyOutcome::NotATrade || outcome_of(store, message)
            == ApplyOutcome::MissingField,
{
}

/// Applying an event touches no symbol but the event's own.
pub proof fn lemma_other_symbols_untouched(
    store: StoreView,
    message: MarketMessage,
    symbol: Seq<char>,
)
    requires
        message.symbol@ != symbol,
    ensures
        apply(store, message).contains_key(symbol) == store.contains_key(symbol),
        aggregate_of(apply(store, message), symbol) == aggregate_of(store, symbol),
{
}

/// A recorded trade shows in every field at once: last price, last update
/// time, its bucket's price, its bucket's volume and the daily volume.
pub proof fn lemma_recorded_trade_is_visible(store: StoreView, message: MarketMessage)
    requires
        outcome_of(store, message) == ApplyOutcome::Applied,
    ensures
        ({
            let before = aggregate_of(store, message.symbol@);
            let after = apply(store, message);
            let quantity = message.quantity->0;
            &&& last_price_of(after, message.symbol@) == message.price
            &&& last_update_time_of(after, message.symbol@) == Some(message.timestamp_ns)
            &&& daily_volume_of(after, message.symbol@) == Some(
                (before.daily_volume + quantity) as u64,
            )
            &&& before.daily_volume + quantity <= u64::MAX
            &&& price_history_of(after, message.symbol@) == before.price_history.insert(
                message.bucket(),
                message.price->0,
            )
            &&& after[message.symbol@].volume_history == before.volume_history.insert(
                message.bucket(),
                (before.volume_in(message.bucket()) + quantity) as u64,
            )
        }),
{
}

/// Applying an event keeps every aggregate consistent: both histories have
/// the same buckets, the bucket volumes add up to the daily volume, and the
/// bucket of the last update holds the last price.
pub proof fn lemma_apply_keeps_aggregates_consistent(store: StoreView, message: MarketMessage)
    requires
        all_traded(store),
    ensures
        all_traded(apply(store, message)),
{
    if outcome_of(store, message) == ApplyOutcome::Applied {
        aggregate_of(store, message.symbol@).lemma_record_keeps_consistent(
            message.timestamp_ns,
            message.price->0,
            message.quantity->0,
        );
    }
}

/// A batch of events keeps every aggregate consistent.
pub proof fn lemma_batch_keeps_aggregates_consistent(
    store: StoreView,
    messages: Seq<MarketMessage>,
)
    requires
        all_traded(store),
    ensures
        all_traded(apply_all(store, messages)),
    decreases messages.len(),
{
    if messages.len() > 0 {
        lemma_batch_keeps_aggregates_consistent(store, messages.drop_last());
        lemma_apply_keeps_aggregates_consistent(
            apply_all(store, messages.drop_last()),
            messages.last(),
        );
    }
}

/// A symbol that has not traded has no last price, no daily volume and no
/// price in any range of buckets.
pub proof fn lemma_unseen_symbol(
    store: StoreView,
    symbol: Seq<char>,
    entries: Seq<(u64, u64)>,
    start: u64,
    end: u64,
)
    requires
        !store.contains_key(symbol),
        is_range_of(entries, price_history_of(store, symbol), start, end),
    ensures
        last_price_of(store, symbol) is None,
        daily_volume_of(store, symbol) is None,
        entries.len() == 0,
{
    if entries.len() > 0 {
        assert(price_history_of(store, symbol).contains_key(entries[0].0));
    }
}

/// A range of buckets has one answer: two sequences that both list the
/// entries of `history` in `start..=end` are the same sequence.
pub proof fn lemma_range_is_unique(
    first: Seq<(u64, u64)>,
    second: Seq<(u64, u64)>,
    history: Map<u64, u64>,
    start: u64,
    end: u64,
)
    requires
        is_range_of(first, history, start, end),
        is_range_of(second, history, start, end),
    ensures
        first == second,
    decreases first.len(),
{
    if first.len() == 0 {
        if second.len() > 0 {
            assert(history.contains_key(second[0].0));
        }
        assert(first =~= second);
    } else {
        let top = first.last();
        assert(history.contains_key(top.0));
        let at = choose|i: int| 0 <= i < second.len() && (#[trigger] second[i]).0 == top.0;
        if at != second.len() - 1 {
            let beyond = second.last();
            assert(history.contains_key(beyond.0));
            let back = choose|i: int| 0 <= i < first.len() && (#[trigger] first[i]).0 == beyond.0;
            assert(first[back].0 <= top.0);
            assert(second[at].0 < beyond.0);
        }
        assert(second.last() == top);
        let rest = history.remove(top.0);
        let first_rest = first.drop_last();
        let second_rest = second.drop_last();
        assert forall|b: u64| start <= b <= end && #[trigger] rest.contains_key(b) implies exists|
            i: int,
        | 0 <= i < first_rest.len() && (#[trigger] first_rest[i]).0 == b by {
            assert(history.contains_key(b));
            let i = choose|i: int| 0 <= i < first.len() && (#[trigger] first[i]).0 == b;
            assert(first_rest[i] == first[i]);
        }
        assert forall|b: u64| start <= b <= end && #[trigger] rest.contains_key(b) implies exists|
            i: int,
        | 0 <= i < second_rest.len() && (#[trigger] second_rest[i]).0 == b by {
            assert(history.contains_key(b));
            let i = choose|i: int| 0 <= i < second.len() && (#[trigger] second[i]).0 == b;
            assert(second_rest[i] == second[i]);
        }
        assert forall|i: int| 0 <= i < first_rest.len() implies ({
            let (bucket, value) = #[trigger] first_rest[i];
            &&& start <= bucket <= end
            &&& rest.contains_key(bucket)
            &&& rest[bucket] == value
        }) by {
            assert(first_rest[i] == first[i]);
            assert(first[i].0 < first[first.len() - 1].0);
        }
        assert forall|i: int| 0 <= i < second_rest.len() implies ({
            let (bucket, value) = #[trigger] second_rest[i];
            &&& start <= bucket <= end
            &&& rest.contains_key(bucket)
            &&& rest[bucket] == value
        }) by {
            assert(second_rest[i] == second[i]);
            assert(second[i].0 < second[second.len() - 1].0);
        }
        assert(is_range_of(first_rest, rest, start, end));
        assert(is_range_of(second_rest, rest, start, end));
        lemma_range_is_unique(first_rest, second_rest, rest, start, end);
        assert(first =~= first_rest.push(top));
        assert(second =~= second_rest.push(top));
    }
}

/// Events take effect in the order they are applied: the price that a bucket
/// of a symbol holds after a batch is the price of the last trade of the
/// batch that was recorded for that symbol in that bucket.
pub proof fn lemma_last_recorded_price_wins(
    store: StoreView,
    messages: Seq<MarketMessage>,
    winner: int,
)
    requires
        0 <= winner < messages.len(),
        applied_at(store, messages, winner),
        forall|later: int|
            winner < later < messages.len() && messages[later].symbol@ == messages[winner].symbol@
                && messages[later].bucket() == messages[winner].bucket() ==> !#[trigger] applied_at(
                store,
                messages,
                later,
            ),
    ensures
        price_history_of(apply_all(store, messages), messages[winner].symbol@).contains_key(
            messages[winner].bucket(),
        ),
        price_history_of(apply_all(store, messages), messages[winner].symbol@)[messages[winner].bucket()]
            == messages[winner].price->0,
    decreases messages.len(),
{
    let earlier = messages.drop_last();
    let last = messages.last();
    assert(messages.take(messages.len() - 1) =~= earlier);
    if winner < messages.len() - 1 {
        assert(earlier.take(winner) =~= messages.take(winner));
        assert forall|later: int|
            winner < later < earlier.len() && earlier[later].symbol@ == earlier[winner].symbol@
                && earlier[later].bucket() == earlier[winner].bucket() implies !#[trigger] applied_at(
            store,
            earlier,
            later,
        ) by {
            assert(earlier.take(later) =~= messages.take(later));
            assert(!applied_at(store, messages, later));
        }
        lemma_last_recorded_price_wins(store, earlier, winner);
        assert(!(last.symbol@ == messages[winner].symbol@ && last.bucket()
            == messages[winner].bucket()) || !applied_at(store, messages, messages.len() - 1));
    }
}

/// The daily volume of a symbol after a batch is its daily volume before,
/// plus the quantities of the batch's trades that were recorded for it.
pub proof fn lemma_daily_volume_adds_recorded_quantities(
    store: StoreView,
    messages: Seq<MarketMessage>,
    symbol: Seq<char>,
)
    ensures
        aggregate_of(apply_all(store, messages), symbol).daily_volume == aggregate_of(
            store,
            symbol,
        ).daily_volume + recorded_quantity(store, messages, symbol),
    decreases messages.len(),
{
    if messages.len() > 0 {
        let earlier = messages.drop_last();
        assert(messages.take(messages.len() - 1) =~= earlier);
        lemma_daily_volume_adds_recorded_quantities(store, earlier, symbol);
    }
}

/// Volume is conserved: where every event of a batch is recorded, the daily
/// volume of a symbol grows by exactly the sum of the quantities that the
/// batch carries for it.
pub proof fn lemma_volume_conserved(
    store: StoreView,
    messages: Seq<MarketMessage>,
    symbol: Seq<char>,
)
    requires
        forall|i: int| 0 <= i < messages.len() ==> #[trigger] applied_at(store, messages, i),
    ensures
        aggregate_of(apply_all(store, messages), symbol).daily_volume == aggregate_of(
            store,
            symbol,
        ).daily_volume + offered_quantity(messages, symbol),
{
    lemma_daily_volume_adds_recorded_quantities(store, messages, symbol);
    lemma_recorded_is_offered(store, messages, symbol);
}

/// Where every event of a batch is recorded, what is recorded for a symbol is
/// what the batch carries for it.
proof fn lemma_recorded_is_offered(
    store: StoreView,
    messages: Seq<MarketMessage>,
    symbol: Seq<char>,
)
    requires
        forall|i: int| 0 <= i < messages.len() ==> #[trigger] applied_at(store, messages, i),
    ensures
        recorded_quantity(store, messages, symbol) == offered_quantity(messages, symbol),
    decreases messages.len(),
{
    if messages.len() > 0 {
        let earlier = messages.drop_last();
        assert forall|i: int| 0 <= i < earlier.len() implies #[trigger] applied_at(
            store,
            earlier,
            i,
        ) by {
            assert(earlier.take(i) =~= messages.take(i));
            assert(applied_at(store, messages, i));
        }
        lemma_recorded_is_offered(store, earlier, symbol);
        assert(applied_at(store, messages, messages.len() - 1));
    }
}

/// The daily volume of a symbol never decreases.
pub proof fn lemma_daily_volume_never_decreases(
    store: StoreView,
    message: MarketMessage,
    symbol: Seq<char>,
)
    ensures
        aggregate_of(apply(store, message), symbol).daily_volume >= aggregate_of(
            store,
            symbol,
        ).daily_volume,
{
}

} // verus!
