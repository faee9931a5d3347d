//! The processor: queue, worker and queries around one shared store.

use vstd::prelude::*;
use vstd::rwlock::{RwLock, RwLockPredicate};
use std::sync::Arc;
use std::sync::atomic::{AtomicUsize, Ordering};
use crossbeam_channel::{Receiver, Sender};
use crate::aggregate::ascending_within;
use crate::channel::{
    another_receiver, another_sender, bounded_queue, queue_capacity, receive_message,
    submission_result, try_send_message, Error, MAX_QUEUE_CAPACITY,
};
use crate::message::MarketMessage;
use crate::store::{ApplyOutcome, SymbolStore};

verus! {

/// What the lock around the store guarantees of the store it hands out.
pub struct StoreInvariant {}

impl RwLockPredicate<SymbolStore> for StoreInvariant {
    open spec fn inv(self, store: SymbolStore) -> bool {
        store.wf()
    }
}

/// Calls `Arc::clone`.  Trusted: the new handle points to the value that the
/// old one points to.
#[verifier::external_body]
fn another_handle<T>(shared: &Arc<T>) -> (handle: Arc<T>)
    ensures
        *handle == *shared,
{
    Arc::clone(shared)
}

/// The outcomes that `message` can have, whatever the store holds.
pub open spec fn may_result_in(message: MarketMessage, outcome: ApplyOutcome) -> bool {
    if !message.is_trade() {
        outcome == ApplyOutcome::NotATrade
    } else if !message.is_complete_trade() {
        outcome == ApplyOutcome::MissingField
    } else {
        outcome == ApplyOutcome::Applied || outcome == ApplyOutcome::VolumeOverflow
    }
}

/// The consuming side of a processor: takes events from the queue and applies
/// them to the shared store.  Exactly one worker should be at work.
pub struct AggregationWorker {
    receiver: Receiver<MarketMessage>,
    message_count: Arc<AtomicUsize>,
    symbol_data: Arc<RwLock<SymbolStore, StoreInvariant>>,
}

impl AggregationWorker {
    /// Applies `message` to the store under the write lock, then counts it.
    /// The event is counted whether or not it changed anything.
    pub fn handle(&self, message: &MarketMessage) -> (outcome: ApplyOutcome)
        ensures
            may_result_in(*message, outcome),
    {
        let (mut store, held) = self.symbol_data.acquire_write();
        let outcome = store.process_message(message);
        held.release_write(store);
        self.message_count.fetch_add(1, Ordering::Relaxed);
        outcome
    }

    /// Handles what the queue handed over: an event is applied and counted,
    /// and `None`, the queue's word that it is closed and drained, is passed
    /// on.
    pub fn handle_next(&self, next: Option<MarketMessage>) -> (step: Option<ApplyOutcome>)
        ensures
            step is None <==> next is None,
            next is Some ==> may_result_in(next->0, step->0),
    {
        match next {
            Some(message) => Some(self.handle(&message)),
            None => None,
        }
    }

    /// Waits for the next event and handles it.  `None` once the queue is
    /// empty and every sender is gone.
    pub fn process_next(&self) -> (step: Option<ApplyOutcome>) {
        self.handle_next(receive_message(&self.receiver))
    }

    /// The worker works for `processor`: it writes to the store behind the
    /// processor's lock and counts on the processor's counter.
    pub closed spec fn serves(&self, processor: &MarketDataProcessor) -> bool {
        &&& *self.symbol_data == *processor.symbol_data
        &&& *self.message_count == *processor.message_count
    }

    /// Handles events in arrival order until the queue is closed and drained
    /// or `limit` events were handled; returns how many were handled.
    pub fn drain(&self, limit: usize) -> (handled: usize)
        ensures
            handled <= limit,
    {
        let mut handled: usize = 0;
        while handled < limit
            invariant
                handled <= limit,
            decreases limit - handled,
        {
            match self.process_next() {
                Some(_) => {
                    handled = handled + 1;
                },
                None => {
                    return handled;
                },
            }
        }
        handled
    }
}

/// A handle for submitting events that outlives the processor it came from.
pub struct Producer {
    sender: Sender<MarketMessage>,
}

impl Producer {
    /// Capacity of the queue that the handle submits to.
    pub closed spec fn capacity(&self) -> usize {
        queue_capacity(self.sender)
    }

    /// Offers an event to the queue without waiting.  `QueueFull` if the
    /// queue has no free slot, `QueueClosed` if nothing can receive from it
    /// any more; either way the event is dropped.
    pub fn submit_message(&self, message: MarketMessage) -> (accepted: Result<(), Error>) {
        submission_result(try_send_message(&self.sender, message))
    }
}

/// Queue, throughput counter and shared store of one aggregation pipeline.
pub struct MarketDataProcessor {
    sender: Sender<MarketMessage>,
    receiver: Receiver<MarketMessage>,
    message_count: Arc<AtomicUsize>,
    symbol_data: Arc<RwLock<SymbolStore, StoreInvariant>>,
}

impl MarketDataProcessor {
    /// Capacity of the processor's queue.
    pub closed spec fn capacity(&self) -> usize {
        queue_capacity(self.sender)
    }

    /// A processor with an empty queue of `buffer_size` slots, an empty store
    /// and a counter at 0.
    pub fn new(buffer_size: usize) -> (processor: MarketDataProcessor)
        requires
            0 < buffer_size <= MAX_QUEUE_CAPACITY,
        ensures
            processor.capacity() == buffer_size,
    {
        let (sender, receiver) = bounded_queue(buffer_size);
        let store = SymbolStore::new();
        MarketDataProcessor {
            sender,
            receiver,
            message_count: Arc::new(AtomicUsize::new(0)),
            symbol_data: Arc::new(RwLock::new(store, Ghost(StoreInvariant {}))),
        }
    }

    /// Offers an event to the queue without waiting.  `QueueFull` if the
    /// queue has no free slot, `QueueClosed` if nothing can receive from it
    /// any more; either way the event is dropped.
    pub fn submit_message(&self, message: MarketMessage) -> (accepted: Result<(), Error>) {
        submission_result(try_send_message(&self.sender, message))
    }

    /// Another handle for submitting to this processor's queue.
    pub fn producer(&self) -> (producer: Producer)
        ensures
            producer.capacity() == self.capacity(),
    {
        Producer { sender: another_sender(&self.sender) }
    }

    /// Number of events the worker has handled so far.
    pub fn get_message_count(&self) -> (count: usize) {
        self.message_count.load(Ordering::Relaxed)
    }

    /// A worker on this processor's queue, store and counter.
    pub fn worker(&self) -> (worker: AggregationWorker)
        ensures
            worker.serves(self),
    {
        AggregationWorker {
            receiver: another_receiver(&self.receiver),
            message_count: another_handle(&self.message_count),
            symbol_data: another_handle(&self.symbol_data),
        }
    }

    /// Price of the symbol's most recent trade; `None` if it has not traded.
    pub fn get_last_price(&self, symbol: &str) -> (price: Option<u64>) {
        let held = self.symbol_data.acquire_read();
        let price = held.borrow().last_price(symbol);
        held.release_read();
        price
    }

    /// Sum of the symbol's traded quantities; `None` if it has not traded.
    pub fn get_daily_volume(&self, symbol: &str) -> (volume: Option<u64>) {
        let held = self.symbol_data.acquire_read();
        let volume = held.borrow().daily_volume(symbol);
        held.release_read();
        volume
    }

    /// A snapshot of the symbol's recorded prices whose buckets lie in
    /// `start_time..=end_time`, in ascending bucket order.
    pub fn get_price_history(&self, symbol: &str, start_time: u64, end_time: u64) -> (entries: Vec<
        (u64, u64),
    >)
        ensures
            ascending_within(entries@, start_time, end_time),
    {
        let held = self.symbol_data.acquire_read();
        let entries = held.borrow().price_history(symbol, start_time, end_time);
        held.release_read();
        entries
    }
}

} // verus!
