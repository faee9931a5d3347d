//! The running summary kept for one symbol.

use vstd::prelude::*;
use std::collections::BTreeMap;
use crate::message::{bucket_of, bucket_for};

verus! {

/// Sum of the volumes of all buckets of a history.
pub open spec fn total_volume(history: Map<u64, u64>) -> nat
    decreases history.dom().len(),
    when history.dom().finite()
{
    if history.dom().len() == 0 {
        0
    } else {
        let bucket = history.dom().choose();
        history[bucket] as nat + total_volume(history.remove(bucket))
    }
}

/// The total of a history is the volume of any one of its buckets plus the
/// total of the others.
pub proof fn lemma_total_volume_split(history: Map<u64, u64>, bucket: u64)
    requires
        history.dom().finite(),
        history.contains_key(bucket),
    ensures
        total_volume(history) == history[bucket] + total_volume(history.remove(bucket)),
    decreases history.dom().len(),
{
    assert(history.dom().len() != 0);
    let chosen = history.dom().choose();
    if chosen != bucket {
        lemma_total_volume_split(history.remove(chosen), bucket);
        lemma_total_volume_split(history.remove(bucket), chosen);
        assert(history.remove(chosen).remove(bucket) =~= history.remove(bucket).remove(chosen));
    }
}

/// Setting one bucket of a history changes the total by the change in that
/// bucket.
pub proof fn lemma_total_volume_insert(history: Map<u64, u64>, bucket: u64, volume: u64)
    requires
        history.dom().finite(),
    ensures
        total_volume(history.insert(bucket, volume)) + (if history.contains_key(bucket) {
            history[bucket]
        } else {
            0
        }) == total_volume(history) + volume,
{
    let after = history.insert(bucket, volume);
    lemma_total_volume_split(after, bucket);
    assert(after.remove(bucket) =~= history.remove(bucket));
    if history.contains_key(bucket) {
        lemma_total_volume_split(history, bucket);
    } else {
        assert(history.remove(bucket) =~= history);
    }
}

/// Mathematical content of a [`SymbolData`].
pub struct AggregateView {
    pub last_price: u64,
    pub daily_volume: u64,
    pub last_update_time: u64,
    pub price_history: Map<u64, u64>,
    pub volume_history: Map<u64, u64>,
}

impl AggregateView {
    /// The aggregate of a symbol before its first trade.
    pub open spec fn empty() -> AggregateView {
        AggregateView {
            last_price: 0,
            daily_volume: 0,
            last_update_time: 0,
            price_history: Map::empty(),
            volume_history: Map::empty(),
        }
    }

    /// Volume recorded so far in `bucket`, 0 where the bucket is absent.
    pub open spec fn volume_in(self, bucket: u64) -> u64 {
        if self.volume_history.contains_key(bucket) {
            self.volume_history[bucket]
        } else {
            0
        }
    }

    /// The trade can be added without the daily volume leaving `u64`.
    pub open spec fn has_room(self, quantity: u64) -> bool {
        self.daily_volume + quantity <= u64::MAX
    }

    /// The aggregate after one more trade.
    pub open spec fn record(self, timestamp_ns: u64, price: u64, quantity: u64) -> AggregateView {
        let bucket = bucket_of(timestamp_ns);
        AggregateView {
            last_price: price,
            daily_volume: (self.daily_volume + quantity) as u64,
            last_update_time: timestamp_ns,
            price_history: self.price_history.insert(bucket, price),
            volume_history: self.volume_history.insert(
                bucket,
                (self.volume_in(bucket) + quantity) as u64,
            ),
        }
    }

    /// Both histories have the same buckets, finitely many, and the volumes
    /// of all buckets add up to the daily volume.
    pub open spec fn consistent(self) -> bool {
        &&& self.price_history.dom() == self.volume_history.dom()
        &&& self.volume_history.dom().finite()
        &&& total_volume(self.volume_history) == self.daily_volume
    }

    /// The aggregate is consistent and has seen a trade: the bucket of the
    /// last update holds the last price.
    pub open spec fn traded(self) -> bool {
        &&& self.consistent()
        &&& self.price_history.contains_key(bucket_of(self.last_update_time))
        &&& self.price_history[bucket_of(self.last_update_time)] == self.last_price
    }

    /// In a consistent aggregate no bucket holds more volume than the day.
    pub proof fn lemma_bucket_within_day(self, bucket: u64)
        requires
            self.consistent(),
        ensures
            self.volume_in(bucket) <= self.daily_volume,
    {
        if self.volume_history.contains_key(bucket) {
            lemma_total_volume_split(self.volume_history, bucket);
        }
    }

    /// Recording a trade that fits keeps the aggregate consistent, adds the
    /// quantity to the daily volume and to the trade's bucket without
    /// wrapping, and leaves the trade visible as the last one.
    pub proof fn lemma_record_keeps_consistent(self, timestamp_ns: u64, price: u64, quantity: u64)
        requires
            self.consistent(),
            self.has_room(quantity),
        ensures
            self.record(timestamp_ns, price, quantity).traded(),
            self.record(timestamp_ns, price, quantity).daily_volume == self.daily_volume
                + quantity,
            self.record(timestamp_ns, price, quantity).volume_in(bucket_of(timestamp_ns))
                == self.volume_in(bucket_of(timestamp_ns)) + quantity,
    {
        let bucket = bucket_of(timestamp_ns);
        self.lemma_bucket_within_day(bucket);
        lemma_total_volume_insert(
            self.volume_history,
            bucket,
            (self.volume_in(bucket) + quantity) as u64,
        );
        let after = self.record(timestamp_ns, price, quantity);
        assert(after.price_history.dom() =~= after.volume_history.dom());
    }
}

/// `entries` lists, in ascending bucket order and without repeats, exactly the
/// buckets of `history` that lie in `start..=end`, each with its value.
pub open spec fn is_range_of(
    entries: Seq<(u64, u64)>,
    history: Map<u64, u64>,
    start: u64,
    end: u64,
) -> bool {
    &&& forall|i: int, j: int|
        0 <= i < j < entries.len() ==> (#[trigger] entries[i]).0 < (#[trigger] entries[j]).0
    &&& forall|i: int|
        0 <= i < entries.len() ==> {
            let (bucket, value) = #[trigger] entries[i];
            &&& start <= bucket <= end
            &&& history.contains_key(bucket)
            &&& history[bucket] == value
        }
    &&& forall|b: u64|
        start <= b <= end && #[trigger] history.contains_key(b) ==> exists|i: int|
            0 <= i < entries.len() && (#[trigger] entries[i]).0 == b
}

/// `entries` is in strictly ascending bucket order and every bucket lies in
/// `start..=end`.
pub open spec fn ascending_within(entries: Seq<(u64, u64)>, start: u64, end: u64) -> bool {
    &&& forall|i: int, j: int|
        0 <= i < j < entries.len() ==> (#[trigger] entries[i]).0 < (#[trigger] entries[j]).0
    &&& forall|i: int| 0 <= i < entries.len() ==> start <= (#[trigger] entries[i]).0 <= end
}

/// Calls `BTreeMap::range` of std with the inclusive range `start..=end` and
/// collects what it yields.  Trusted: std documents that the iterator visits
/// the entries whose keys lie in the range, each once, in ascending key order,
/// and that it panics where `start > end`.
#[verifier::external_body]
fn range_entries(history: &BTreeMap<u64, u64>, start: u64, end: u64) -> (entries: Vec<(u64, u64)>)
    requires
        start <= end,
    ensures
        is_range_of(entries@, history@, start, end),
{
    history.range(start..=end).map(|(k, v)| (*k, *v)).collect()
}

/// Last price, cumulative volume and bucketed histories of one symbol.
pub struct SymbolData {
    last_price: u64,
    daily_volume: u64,
    last_update_time: u64,
    price_history: BTreeMap<u64, u64>,
    volume_history: BTreeMap<u64, u64>,
}

impl View for SymbolData {
    type V = AggregateView;

    closed spec fn view(&self) -> AggregateView {
        AggregateView {
            last_price: self.last_price,
            daily_volume: self.daily_volume,
            last_update_time: self.last_update_time,
            price_history: self.price_history@,
            volume_history: self.volume_history@,
        }
    }
}

impl SymbolData {
    /// An aggregate that has seen no trade.
    pub fn new() -> (data: SymbolData)
        ensures
            data@ == AggregateView::empty(),
            data@.consistent(),
    {
        SymbolData {
            last_price: 0,
            daily_volume: 0,
            last_update_time: 0,
            price_history: BTreeMap::new(),
            volume_history: BTreeMap::new(),
        }
    }

    /// Price of the most recently recorded trade.
    pub fn last_price(&self) -> (price: u64)
        ensures
            price == self@.last_price,
    {
        self.last_price
    }

    /// Sum of the quantities recorded so far.
    pub fn daily_volume(&self) -> (volume: u64)
        ensures
            volume == self@.daily_volume,
    {
        self.daily_volume
    }

    /// Timestamp of the most recently recorded trade.
    pub fn last_update_time(&self) -> (timestamp_ns: u64)
        ensures
            timestamp_ns == self@.last_update_time,
    {
        self.last_update_time
    }

    /// Whether one more trade of `quantity` fits.
    pub fn has_room(&self, quantity: u64) -> (fits: bool)
        ensures
            fits == self@.has_room(quantity),
    {
        quantity <= u64::MAX - self.daily_volume
    }

    /// The recorded prices whose buckets lie in `start..=end`, in ascending
    /// bucket order; empty where `start > end`.
    pub fn price_range(&self, start: u64, end: u64) -> (entries: Vec<(u64, u64)>)
        ensures
            is_range_of(entries@, self@.price_history, start, end),
    {
        if start > end {
            Vec::new()
        } else {
            range_entries(&self.price_history, start, end)
        }
    }

    /// The recorded volumes whose buckets lie in `start..=end`, in ascending
    /// bucket order; empty where `start > end`.
    pub fn volume_range(&self, start: u64, end: u64) -> (entries: Vec<(u64, u64)>)
        ensures
            is_range_of(entries@, self@.volume_history, start, end),
    {
        if start > end {
            Vec::new()
        } else {
            range_entries(&self.volume_history, start, end)
        }
    }

    /// Records a trade: the price overwrites its bucket, the quantity adds to
    /// its bucket and to the daily volume.
    pub fn record(&mut self, timestamp_ns: u64, price: u64, quantity: u64)
        requires
            old(self)@.consistent(),
            old(self)@.has_room(quantity),
        ensures
            final(self)@ == old(self)@.record(timestamp_ns, price, quantity),
            final(self)@.traded(),
    {
        let bucket = bucket_for(timestamp_ns);
        let earlier: u64 = match self.volume_history.get(&bucket) {
            Some(v) => *v,
            None => 0,
        };
        proof {
            assert(earlier == self@.volume_in(bucket));
            self@.lemma_record_keeps_consistent(timestamp_ns, price, quantity);
        }
        self.last_price = price;
        self.daily_volume = self.daily_volume + quantity;
        self.last_update_time = timestamp_ns;
        self.price_history.insert(bucket, price);
        self.volume_history.insert(bucket, earlier + quantity);
    }
}

} // verus!
