use market_data::channel::{submission_result, Delivery, Error};
use market_data::message::{MarketMessage, MarketMessageType};
use market_data::processor::MarketDataProcessor;
use market_data::store::ApplyOutcome;

fn event(
    kind: MarketMessageType,
    symbol: &str,
    timestamp_ns: u64,
    price: Option<u64>,
    quantity: Option<u64>,
) -> MarketMessage {
    MarketMessage {
        timestamp_ns,
        symbol: symbol.to_string(),
        message_type: kind,
        order_id: None,
        price,
        quantity,
        is_buy: None,
        trade_id: None,
    }
}

fn trade_event(symbol: &str, timestamp_ns: u64, price: u64, quantity: u64) -> MarketMessage {
    event(MarketMessageType::Trade, symbol, timestamp_ns, Some(price), Some(quantity))
}

#[test]
fn overflow_submissions_report_queue_full() {
    let processor = MarketDataProcessor::new(2);
    assert_eq!(processor.submit_message(trade_event("X", 1, 10, 1)), Ok(()));
    assert_eq!(processor.submit_message(trade_event("X", 2, 11, 1)), Ok(()));
    assert_eq!(processor.submit_message(trade_event("X", 3, 12, 1)), Err(Error::QueueFull));
    assert_eq!(processor.submit_message(trade_event("X", 4, 13, 1)), Err(Error::QueueFull));
    assert_eq!(processor.get_message_count(), 0);
}

#[test]
fn draining_one_event_frees_one_slot() {
    let processor = MarketDataProcessor::new(1);
    let worker = processor.worker();
    assert_eq!(processor.submit_message(trade_event("X", 1, 10, 1)), Ok(()));
    assert_eq!(processor.submit_message(trade_event("X", 2, 11, 1)), Err(Error::QueueFull));
    assert_eq!(worker.process_next(), Some(ApplyOutcome::Applied));
    assert_eq!(processor.submit_message(trade_event("X", 3, 12, 1)), Ok(()));
    assert_eq!(worker.process_next(), Some(ApplyOutcome::Applied));
    assert_eq!(processor.get_last_price("X"), Some(12));
    assert_eq!(processor.get_message_count(), 2);
}

#[test]
fn worker_applies_events_in_submission_order() {
    let processor = MarketDataProcessor::new(8);
    let worker = processor.worker();
    // Both trades fall into bucket 5; the one submitted last decides its price.
    assert_eq!(processor.submit_message(trade_event("X", 5_000_001, 200, 3)), Ok(()));
    assert_eq!(processor.submit_message(trade_event("X", 5_999_999, 100, 4)), Ok(()));
    assert_eq!(worker.drain(2), 2);
    assert_eq!(processor.get_price_history("X", 0, 10), vec![(5, 100)]);
    assert_eq!(processor.get_last_price("X"), Some(100));
    assert_eq!(processor.get_daily_volume("X"), Some(7));
    assert_eq!(processor.get_message_count(), 2);
}

#[test]
fn trade_without_quantity_is_counted_and_changes_nothing() {
    let processor = MarketDataProcessor::new(8);
    let worker = processor.worker();
    assert_eq!(processor.submit_message(trade_event("X", 7_000_000, 50, 2)), Ok(()));
    assert_eq!(worker.process_next(), Some(ApplyOutcome::Applied));
    let malformed = event(MarketMessageType::Trade, "X", 9_000_000, Some(99), None);
    assert_eq!(processor.submit_message(malformed), Ok(()));
    assert_eq!(worker.process_next(), Some(ApplyOutcome::MissingField));
    assert_eq!(processor.get_message_count(), 2);
    assert_eq!(processor.get_last_price("X"), Some(50));
    assert_eq!(processor.get_daily_volume("X"), Some(2));
    assert_eq!(processor.get_price_history("X", 0, u64::MAX), vec![(7, 50)]);
}

#[test]
fn malformed_first_event_does_not_create_the_symbol() {
    let processor = MarketDataProcessor::new(4);
    let worker = processor.worker();
    let malformed = event(MarketMessageType::Trade, "Y", 1_000_000, None, Some(5));
    assert_eq!(processor.submit_message(malformed), Ok(()));
    assert_eq!(worker.process_next(), Some(ApplyOutcome::MissingField));
    assert_eq!(processor.get_message_count(), 1);
    assert_eq!(processor.get_last_price("Y"), None);
    assert_eq!(processor.get_daily_volume("Y"), None);
    assert_eq!(processor.get_price_history("Y", 0, u64::MAX), Vec::<(u64, u64)>::new());
}

#[test]
fn order_events_are_counted_and_change_nothing() {
    let processor = MarketDataProcessor::new(4);
    let worker = processor.worker();
    for kind in [MarketMessageType::Add, MarketMessageType::Modify, MarketMessageType::Cancel] {
        let order = event(kind, "X", 1_000_000, Some(10), Some(1));
        assert_eq!(processor.submit_message(order), Ok(()));
        assert_eq!(worker.process_next(), Some(ApplyOutcome::NotATrade));
    }
    assert_eq!(processor.get_message_count(), 3);
    assert_eq!(processor.get_last_price("X"), None);
}

#[test]
fn unseen_symbol_has_no_price_volume_or_history() {
    let processor = MarketDataProcessor::new(4);
    assert_eq!(processor.get_last_price("UNKNOWN"), None);
    assert_eq!(processor.get_daily_volume("UNKNOWN"), None);
    assert_eq!(processor.get_price_history("UNKNOWN", 0, u64::MAX), Vec::<(u64, u64)>::new());
    assert_eq!(processor.get_message_count(), 0);
}

#[test]
fn repeated_queries_return_the_same_results() {
    let processor = MarketDataProcessor::new(4);
    let worker = processor.worker();
    assert_eq!(processor.submit_message(trade_event("X", 100_000_000, 1000, 5)), Ok(()));
    assert_eq!(processor.submit_message(trade_event("X", 150_000_000, 1050, 6)), Ok(()));
    assert_eq!(worker.drain(2), 2);
    let price = processor.get_last_price("X");
    let volume = processor.get_daily_volume("X");
    let history = processor.get_price_history("X", 0, 1_000);
    for _ in 0..3 {
        assert_eq!(processor.get_last_price("X"), price);
        assert_eq!(processor.get_daily_volume("X"), volume);
        assert_eq!(processor.get_price_history("X", 0, 1_000), history);
    }
    assert_eq!(price, Some(1050));
    assert_eq!(volume, Some(11));
    assert_eq!(history, vec![(100, 1000), (150, 1050)]);
}

#[test]
fn processor_range_query_matches_inclusive_bounds() {
    let processor = MarketDataProcessor::new(4);
    let worker = processor.worker();
    assert_eq!(processor.submit_message(trade_event("X", 100_000_000, 1000, 1)), Ok(()));
    assert_eq!(processor.submit_message(trade_event("X", 150_000_000, 1050, 1)), Ok(()));
    assert_eq!(processor.submit_message(trade_event("X", 200_000_000, 1100, 1)), Ok(()));
    assert_eq!(worker.drain(3), 3);
    assert_eq!(processor.get_price_history("X", 100, 150), vec![(100, 1000), (150, 1050)]);
    assert_eq!(processor.get_price_history("X", 201, 300), Vec::<(u64, u64)>::new());
    assert_eq!(processor.get_price_history("X", 150, 100), Vec::<(u64, u64)>::new());
}

#[test]
fn drain_stops_at_its_limit() {
    let processor = MarketDataProcessor::new(4);
    let worker = processor.worker();
    for i in 0..3u64 {
        assert_eq!(processor.submit_message(trade_event("X", i * 1_000_000, 10 + i, 1)), Ok(()));
    }
    assert_eq!(worker.drain(0), 0);
    assert_eq!(processor.get_message_count(), 0);
    assert_eq!(worker.drain(2), 2);
    assert_eq!(processor.get_message_count(), 2);
    assert_eq!(processor.get_last_price("X"), Some(11));
}

#[test]
fn worker_stops_once_the_queue_is_closed_and_drained() {
    let processor = MarketDataProcessor::new(4);
    let worker = processor.worker();
    assert_eq!(processor.submit_message(trade_event("X", 1_000_000, 10, 1)), Ok(()));
    assert_eq!(processor.submit_message(trade_event("X", 2_000_000, 11, 1)), Ok(()));
    drop(processor);
    assert_eq!(worker.drain(100), 2);
    assert_eq!(worker.process_next(), None);
}

#[test]
fn producer_outlives_the_processor_and_finds_the_queue_closed() {
    let processor = MarketDataProcessor::new(2);
    let producer = processor.producer();
    assert_eq!(producer.submit_message(trade_event("X", 1_000_000, 10, 1)), Ok(()));
    drop(processor);
    assert_eq!(
        producer.submit_message(trade_event("X", 2_000_000, 11, 1)),
        Err(Error::QueueClosed)
    );
}

#[test]
fn producer_and_processor_share_one_queue() {
    let processor = MarketDataProcessor::new(2);
    let producer = processor.producer();
    let worker = processor.worker();
    assert_eq!(producer.submit_message(trade_event("X", 1_000_000, 10, 1)), Ok(()));
    assert_eq!(processor.submit_message(trade_event("X", 2_000_000, 11, 1)), Ok(()));
    assert_eq!(producer.submit_message(trade_event("X", 3_000_000, 12, 1)), Err(Error::QueueFull));
    assert_eq!(worker.drain(2), 2);
    assert_eq!(processor.get_price_history("X", 0, 10), vec![(1, 10), (2, 11)]);
}

#[test]
fn two_workers_share_one_store_and_counter() {
    let processor = MarketDataProcessor::new(4);
    let first = processor.worker();
    let second = processor.worker();
    assert_eq!(processor.submit_message(trade_event("X", 1_000_000, 10, 1)), Ok(()));
    assert_eq!(processor.submit_message(trade_event("X", 2_000_000, 11, 2)), Ok(()));
    assert_eq!(first.process_next(), Some(ApplyOutcome::Applied));
    assert_eq!(second.process_next(), Some(ApplyOutcome::Applied));
    assert_eq!(processor.get_message_count(), 2);
    assert_eq!(processor.get_daily_volume("X"), Some(3));
}

#[test]
fn handle_applies_an_event_without_the_queue() {
    let processor = MarketDataProcessor::new(1);
    let worker = processor.worker();
    assert_eq!(worker.handle(&trade_event("X", 1_000_000, 10, 1)), ApplyOutcome::Applied);
    assert_eq!(
        worker.handle(&trade_event("X", 2_000_000, 11, u64::MAX)),
        ApplyOutcome::VolumeOverflow
    );
    assert_eq!(processor.get_message_count(), 2);
    assert_eq!(processor.get_last_price("X"), Some(10));
}

#[test]
fn volume_is_conserved_through_the_queue() {
    let processor = MarketDataProcessor::new(64);
    let worker = processor.worker();
    let mut expected: u64 = 0;
    for i in 0..64u64 {
        expected += i + 1;
        assert_eq!(processor.submit_message(trade_event("X", i * 1_000, 100 + i, i + 1)), Ok(()));
    }
    assert_eq!(worker.drain(64), 64);
    assert_eq!(expected, 2080);
    assert_eq!(processor.get_daily_volume("X"), Some(2080));
    assert_eq!(processor.get_message_count(), 64);
}

#[test]
fn errors_describe_themselves() {
    assert_eq!(Error::QueueFull.message(), "sending on a full channel");
    assert_eq!(Error::QueueClosed.message(), "sending on a disconnected channel");
    assert_ne!(Error::QueueFull, Error::QueueClosed);
}

#[test]
fn every_step_is_visible_as_a_whole() {
    let processor = MarketDataProcessor::new(16);
    let worker = processor.worker();
    for i in 0..16u64 {
        assert_eq!(processor.submit_message(trade_event("X", i * 1_000_000, 100 + i, 2)), Ok(()));
    }
    for i in 0..16u64 {
        assert_eq!(worker.process_next(), Some(ApplyOutcome::Applied));
        let history = processor.get_price_history("X", 0, u64::MAX);
        assert_eq!(history.len() as u64, i + 1);
        assert_eq!(history.last(), Some(&(i, 100 + i)));
        assert_eq!(processor.get_last_price("X"), Some(100 + i));
        assert_eq!(processor.get_daily_volume("X"), Some(2 * (i + 1)));
        assert_eq!(processor.get_message_count() as u64, i + 1);
    }
}

#[test]
fn each_answer_of_the_queue_has_its_submission_result() {
    assert_eq!(submission_result(Delivery::Accepted), Ok(()));
    assert_eq!(submission_result(Delivery::Full), Err(Error::QueueFull));
    assert_eq!(submission_result(Delivery::Disconnected), Err(Error::QueueClosed));
}

#[test]
fn handle_next_passes_on_the_end_of_the_queue() {
    let processor = MarketDataProcessor::new(1);
    let worker = processor.worker();
    assert_eq!(worker.handle_next(None), None);
    assert_eq!(processor.get_message_count(), 0);
    assert_eq!(
        worker.handle_next(Some(trade_event("X", 3_000_000, 30, 4))),
        Some(ApplyOutcome::Applied)
    );
    let order = event(MarketMessageType::Cancel, "X", 4_000_000, None, None);
    assert_eq!(worker.handle_next(Some(order)), Some(ApplyOutcome::NotATrade));
    assert_eq!(processor.get_message_count(), 2);
    assert_eq!(processor.get_last_price("X"), Some(30));
    assert_eq!(processor.get_daily_volume("X"), Some(4));
}
