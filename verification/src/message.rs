//! Market events as they arrive from producers.

use vstd::prelude::*;

verus! {

/// Width of one history bucket: a millisecond, in nanoseconds.
pub const NANOS_PER_BUCKET: u64 = 1_000_000;

/// The millisecond bucket that a nanosecond timestamp falls into.
pub open spec fn bucket_of(timestamp_ns: u64) -> u64 {
    timestamp_ns / NANOS_PER_BUCKET
}

/// Computes the millisecond bucket of a nanosecond timestamp.
pub fn bucket_for(timestamp_ns: u64) -> (bucket: u64)
    ensures
        bucket == bucket_of(timestamp_ns),
{
    timestamp_ns / NANOS_PER_BUCKET
}

/// What an event reports about an order or a trade.
#[derive(Debug, Clone, Copy, PartialEq, Eq, Structural)]
pub enum MarketMessageType {
    Add,
    Modify,
    Cancel,
    Trade,
}

/// One market event.  Only a trade that carries both a price and a quantity
/// changes any aggregate.
#[derive(Debug, Clone)]
pub struct MarketMessage {
    pub timestamp_ns: u64,
    pub symbol: String,
    pub message_type: MarketMessageType,
    pub order_id: Option<String>,
    pub price: Option<u64>,
    pub quantity: Option<u64>,
    pub is_buy: Option<bool>,
    pub trade_id: Option<String>,
}

impl MarketMessage {
    /// The event is a trade.
    pub open spec fn is_trade(&self) -> bool {
        self.message_type == MarketMessageType::Trade
    }

    /// The event is a trade with both price and quantity present.
    pub open spec fn is_complete_trade(&self) -> bool {
        self.is_trade() && self.price is Some && self.quantity is Some
    }

    /// The bucket that the event's timestamp falls into.
    pub open spec fn bucket(&self) -> u64 {
        bucket_of(self.timestamp_ns)
    }
}

} // verus!
