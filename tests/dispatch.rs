use datadog_logs::config::DataDogConfig;
use datadog_logs::dispatch::{Action, AfterDelivery, Dispatcher, Event, Phase, FLUSH_THRESHOLD};
use datadog_logs::level::DataDogLogLevel;
use datadog_logs::logger::{DataDogLogger, DispatcherEnds};
use datadog_logs::record::DataDogLog;

fn rec(message: &str) -> DataDogLog {
    DataDogLog {
        message: message.to_string(),
        ddtags: None,
        ddsource: "rust".to_string(),
        host: String::new(),
        service: String::new(),
        level: "info".to_string(),
        trace_id: String::new(),
        span_id: String::new(),
    }
}

fn messages(batch: &[DataDogLog]) -> Vec<String> {
    batch.iter().map(|r| r.message.clone()).collect()
}

#[test]
fn threshold_is_fifty() {
    assert_eq!(FLUSH_THRESHOLD, 50);
}

#[test]
fn fifty_records_make_one_batch() {
    let mut d = Dispatcher::new();
    for i in 0..49 {
        let dir = d.step(Event::Record(rec(&i.to_string())));
        assert_eq!(dir.action, Action::Poll);
        assert!(dir.report.is_none());
    }
    let dir = d.step(Event::Record(rec("49")));
    assert_eq!(dir.action, Action::Deliver);
    assert_eq!(d.phase(), Phase::Delivering(AfterDelivery::Resume));
    let expected: Vec<String> = (0..50).map(|i| i.to_string()).collect();
    assert_eq!(messages(d.batch()), expected);
    let dir = d.step(Event::Delivered(Ok(())));
    assert_eq!(dir.action, Action::Poll);
    assert!(d.batch().is_empty());
    assert_eq!(d.phase(), Phase::Collecting);
    let dir = d.step(Event::Record(rec("50")));
    assert_eq!(dir.action, Action::Poll);
    assert_eq!(messages(d.batch()), vec!["50".to_string()]);
}

#[test]
fn idle_channel_flushes_partial_batch_then_waits() {
    let mut d = Dispatcher::new();
    d.step(Event::Record(rec("a")));
    d.step(Event::Record(rec("b")));
    let dir = d.step(Event::Empty);
    assert_eq!(dir.action, Action::Deliver);
    assert_eq!(messages(d.batch()), vec!["a".to_string(), "b".to_string()]);
    let dir = d.step(Event::Delivered(Ok(())));
    assert_eq!(dir.action, Action::Wait);
    assert!(d.batch().is_empty());
}

#[test]
fn empty_channel_with_empty_batch_waits() {
    let mut d = Dispatcher::new();
    let dir = d.step(Event::Empty);
    assert_eq!(dir.action, Action::Wait);
    assert_eq!(d.phase(), Phase::Collecting);
}

#[test]
fn close_drains_remaining_batch_then_stops() {
    let mut d = Dispatcher::new();
    d.step(Event::Record(rec("last")));
    let dir = d.step(Event::Closed);
    assert_eq!(dir.action, Action::Deliver);
    assert_eq!(messages(d.batch()), vec!["last".to_string()]);
    let dir = d.step(Event::Delivered(Ok(())));
    assert_eq!(dir.action, Action::Stop);
    assert_eq!(d.phase(), Phase::Finished);
    assert!(d.batch().is_empty());
}

#[test]
fn close_with_nothing_pending_stops_at_once() {
    let mut d = Dispatcher::new();
    let dir = d.step(Event::Closed);
    assert_eq!(dir.action, Action::Stop);
    assert_eq!(d.phase(), Phase::Finished);
}

#[test]
fn failed_delivery_is_reported_and_batch_discarded() {
    let mut d = Dispatcher::new();
    d.step(Event::Record(rec("x")));
    d.step(Event::Empty);
    let dir = d.step(Event::Delivered(Err("connection refused".to_string())));
    assert_eq!(dir.action, Action::Wait);
    assert_eq!(dir.report, Some("connection refused".to_string()));
    assert!(d.batch().is_empty());
}

#[test]
fn advance_offers_failure_to_self_log() {
    let (tx, rx) = flume::bounded::<String>(1);
    let selflog = Some(tx);
    let mut d = Dispatcher::new();
    assert_eq!(d.advance(&selflog, Event::Record(rec("x"))), (Action::Poll, None));
    assert_eq!(d.advance(&selflog, Event::Closed), (Action::Deliver, None));
    assert_eq!(
        d.advance(&selflog, Event::Delivered(Err("timeout".to_string()))),
        (Action::Stop, Some(Ok(())))
    );
    assert_eq!(rx.try_iter().collect::<Vec<String>>(), vec!["timeout".to_string()]);
}

#[test]
fn advance_without_self_log_drops_failure() {
    let mut d = Dispatcher::new();
    d.advance(&None, Event::Record(rec("x")));
    d.advance(&None, Event::Empty);
    assert_eq!(d.advance(&None, Event::Delivered(Err("e".to_string()))), (Action::Wait, None));
}

#[test]
fn advance_reports_full_self_log() {
    let (tx, rx) = flume::bounded::<String>(1);
    tx.try_send("earlier".to_string()).unwrap();
    let selflog = Some(tx);
    let mut d = Dispatcher::new();
    d.advance(&selflog, Event::Record(rec("x")));
    d.advance(&selflog, Event::Empty);
    assert_eq!(
        d.advance(&selflog, Event::Delivered(Err("e".to_string()))),
        (Action::Wait, Some(Err("sending on a full channel".to_string())))
    );
    assert_eq!(rx.try_iter().collect::<Vec<String>>(), vec!["earlier".to_string()]);
}

fn run_to_end(ends: &DispatcherEnds, mut deliver: impl FnMut(&[DataDogLog]) -> Result<(), String>) {
    let mut d = Dispatcher::new();
    let mut event = match ends.records.try_recv() {
        Ok(r) => Event::Record(r),
        Err(flume::TryRecvError::Empty) => Event::Empty,
        Err(flume::TryRecvError::Disconnected) => Event::Closed,
    };
    loop {
        event = match d.advance(&ends.selflog, event).0 {
            Action::Poll => match ends.records.try_recv() {
                Ok(r) => Event::Record(r),
                Err(flume::TryRecvError::Empty) => Event::Empty,
                Err(flume::TryRecvError::Disconnected) => Event::Closed,
            },
            Action::Deliver => Event::Delivered(deliver(d.batch())),
            Action::Wait => match ends.records.recv() {
                Ok(r) => Event::Record(r),
                Err(_) => Event::Closed,
            },
            Action::Stop => break,
        };
    }
}

#[test]
fn closing_logger_delivers_everything_in_order() {
    let config = DataDogConfig {
        tags: None,
        service: None,
        hostname: None,
        source: "rust".to_string(),
        enable_self_log: true,
        messages_channel_capacity: None,
    };
    let (mut logger, ends) = DataDogLogger::open(config);
    for i in 0..120 {
        logger.log(&i.to_string(), DataDogLogLevel::Informational);
    }
    logger.close();
    let mut batches: Vec<Vec<String>> = Vec::new();
    run_to_end(&ends, |b| {
        batches.push(messages(b));
        Ok(())
    });
    let sizes: Vec<usize> = batches.iter().map(|b| b.len()).collect();
    assert_eq!(sizes, vec![50, 50, 20]);
    let all: Vec<String> = batches.concat();
    let expected: Vec<String> = (0..120).map(|i| i.to_string()).collect();
    assert_eq!(all, expected);
    assert!(logger.selflog().as_ref().unwrap().is_empty());
}

#[test]
fn failed_deliveries_are_reported_until_close() {
    let config = DataDogConfig {
        tags: None,
        service: None,
        hostname: None,
        source: "rust".to_string(),
        enable_self_log: true,
        messages_channel_capacity: Some(60),
    };
    let (mut logger, ends) = DataDogLogger::open(config);
    for i in 0..55 {
        logger.log(&i.to_string(), DataDogLogLevel::Error);
    }
    logger.close();
    let mut attempted: Vec<usize> = Vec::new();
    run_to_end(&ends, |b| {
        attempted.push(b.len());
        Err("backend down".to_string())
    });
    assert_eq!(attempted, vec![50, 5]);
    let notes: Vec<String> = logger.selflog().as_ref().unwrap().try_iter().collect();
    assert_eq!(notes, vec!["backend down".to_string(), "backend down".to_string()]);
}
