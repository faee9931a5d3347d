use market_data::aggregate::SymbolData;
use market_data::clock::{current_time_ns, timestamp_from_elapsed, timestamp_from_nanos};
use market_data::message::{bucket_for, MarketMessageType, NANOS_PER_BUCKET};

#[test]
fn new_aggregate_is_empty() {
    let data = SymbolData::new();
    assert_eq!(data.last_price(), 0);
    assert_eq!(data.daily_volume(), 0);
    assert_eq!(data.last_update_time(), 0);
    assert_eq!(data.price_range(0, u64::MAX), Vec::<(u64, u64)>::new());
    assert_eq!(data.volume_range(0, u64::MAX), Vec::<(u64, u64)>::new());
    assert!(data.has_room(u64::MAX));
}

#[test]
fn record_updates_every_field() {
    let mut data = SymbolData::new();
    data.record(12_345_678, 250, 40);
    assert_eq!(data.last_price(), 250);
    assert_eq!(data.daily_volume(), 40);
    assert_eq!(data.last_update_time(), 12_345_678);
    assert_eq!(data.price_range(12, 12), vec![(12, 250)]);
    assert_eq!(data.volume_range(12, 12), vec![(12, 40)]);
    data.record(12_999_999, 260, 2);
    assert_eq!(data.price_range(0, 100), vec![(12, 260)]);
    assert_eq!(data.volume_range(0, 100), vec![(12, 42)]);
    assert_eq!(data.daily_volume(), 42);
}

#[test]
fn has_room_is_exact_at_the_limit() {
    let mut data = SymbolData::new();
    data.record(0, 1, u64::MAX - 10);
    assert!(data.has_room(0));
    assert!(data.has_room(10));
    assert!(!data.has_room(11));
    assert!(!data.has_room(u64::MAX));
}

#[test]
fn range_excludes_buckets_outside_the_bounds() {
    let mut data = SymbolData::new();
    for bucket in [10u64, 20, 30, 40] {
        data.record(bucket * NANOS_PER_BUCKET, bucket + 1, 1);
    }
    assert_eq!(data.price_range(20, 30), vec![(20, 21), (30, 31)]);
    assert_eq!(data.price_range(11, 39), vec![(20, 21), (30, 31)]);
    assert_eq!(data.price_range(41, u64::MAX), Vec::<(u64, u64)>::new());
    assert_eq!(data.price_range(30, 20), Vec::<(u64, u64)>::new());
    assert_eq!(data.volume_range(0, 10), vec![(10, 1)]);
}

#[test]
fn bucket_is_the_timestamp_in_whole_milliseconds() {
    assert_eq!(NANOS_PER_BUCKET, 1_000_000);
    assert_eq!(bucket_for(0), 0);
    assert_eq!(bucket_for(999_999), 0);
    assert_eq!(bucket_for(1_000_000), 1);
    assert_eq!(bucket_for(1_700_000_000_123_456_789), 1_700_000_000_123);
    assert_eq!(bucket_for(u64::MAX), 18_446_744_073_709);
}

#[test]
fn timestamp_keeps_the_low_64_bits() {
    assert_eq!(timestamp_from_nanos(0), 0);
    assert_eq!(timestamp_from_nanos(1_700_000_000_123_456_789), 1_700_000_000_123_456_789);
    assert_eq!(timestamp_from_nanos(u64::MAX as u128), u64::MAX);
    assert_eq!(timestamp_from_nanos(u64::MAX as u128 + 1), 0);
    assert_eq!(timestamp_from_nanos((7u128 << 64) + 5), 5);
    assert_eq!(timestamp_from_nanos(u128::MAX), u64::MAX);
}

#[test]
fn clock_reads_a_time_after_the_epoch() {
    let first = current_time_ns();
    // 2001-09-09 in nanoseconds; any working clock is past it.
    assert!(first > 1_000_000_000_000_000_000);
}

#[test]
fn message_types_compare_by_variant() {
    assert_eq!(MarketMessageType::Trade, MarketMessageType::Trade);
    assert_ne!(MarketMessageType::Trade, MarketMessageType::Add);
    assert_ne!(MarketMessageType::Modify, MarketMessageType::Cancel);
}

#[test]
fn reading_before_the_epoch_gives_timestamp_zero() {
    assert_eq!(timestamp_from_elapsed(None), 0);
    assert_eq!(timestamp_from_elapsed(Some(0)), 0);
    assert_eq!(timestamp_from_elapsed(Some(1_700_000_000_123_456_789)), 1_700_000_000_123_456_789);
    assert_eq!(timestamp_from_elapsed(Some((3u128 << 64) + 9)), 9);
}
