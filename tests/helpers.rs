use event_bus::channel_utils::{LoggingSender, LoggingTx};
use event_bus::draw_command_batcher::DrawCommandBatcher;
use event_bus::running_tracker::RunningTracker;

#[derive(Debug, PartialEq, Clone)]
enum Item {
    A,
    B,
    C,
}

#[test]
fn batch_is_one_message_in_queue_order() {
    let (tx, mut rx) = tokio::sync::mpsc::unbounded_channel::<Vec<Item>>();
    let mut batcher = DrawCommandBatcher::new(LoggingTx::attach(tx, "draw".to_string()));
    batcher.queue(Item::A).unwrap();
    batcher.queue(Item::B).unwrap();
    batcher.queue(Item::C).unwrap();
    batcher.send_batch().unwrap();
    assert_eq!(rx.try_recv().unwrap(), vec![Item::A, Item::B, Item::C]);
    assert!(rx.try_recv().is_err());
    batcher.queue(Item::C).unwrap();
    batcher.send_batch().unwrap();
    assert_eq!(rx.try_recv().unwrap(), vec![Item::C]);
}

#[test]
fn empty_batch_is_still_sent() {
    let (tx, mut rx) = tokio::sync::mpsc::unbounded_channel::<Vec<Item>>();
    let mut batcher = DrawCommandBatcher::new(LoggingTx::attach(tx, "draw".to_string()));
    batcher.send_batch().unwrap();
    assert_eq!(rx.try_recv().unwrap(), Vec::<Item>::new());
}

#[test]
fn batch_comes_back_when_receiver_is_gone() {
    let (tx, rx) = tokio::sync::mpsc::unbounded_channel::<Vec<Item>>();
    drop(rx);
    let mut batcher = DrawCommandBatcher::new(LoggingTx::attach(tx, "draw".to_string()));
    batcher.queue(Item::B).unwrap();
    let err = batcher.send_batch().unwrap_err();
    assert_eq!(err.0, vec![Item::B]);
}

#[test]
fn logging_tx_forwards_and_clones_share_the_queue() {
    let (tx, mut rx) = tokio::sync::mpsc::unbounded_channel::<u32>();
    let logging = LoggingTx::attach(tx, "numbers".to_string());
    let other = logging.clone();
    assert_eq!(other.channel_name(), "numbers");
    logging.send(1).unwrap();
    other.send(2).unwrap();
    assert_eq!(rx.try_recv().unwrap(), 1);
    assert_eq!(rx.try_recv().unwrap(), 2);
}

#[test]
fn logging_tx_gives_value_back_when_closed() {
    let (tx, rx) = tokio::sync::mpsc::unbounded_channel::<u32>();
    drop(rx);
    let logging = LoggingTx::attach(tx, "numbers".to_string());
    assert_eq!(logging.send(42).unwrap_err().0, 42);
}

#[test]
fn logging_sender_forwards_and_gives_value_back() {
    let (tx, rx) = std::sync::mpsc::channel::<String>();
    let logging = LoggingSender::attach(tx, "text".to_string());
    assert_eq!(logging.channel_name(), "text");
    logging.send("hello".to_string()).unwrap();
    assert_eq!(rx.recv().unwrap(), "hello");
    drop(rx);
    assert_eq!(logging.send("late".to_string()).unwrap_err().0, "late");
}

#[test]
fn tracker_starts_running_with_code_zero() {
    let tracker = RunningTracker::new();
    assert!(tracker.is_running());
    assert_eq!(tracker.exit_code(), 0);
}

#[test]
fn quit_stops_and_keeps_code() {
    let mut tracker = RunningTracker::new();
    tracker.quit("done");
    assert!(!tracker.is_running());
    assert_eq!(tracker.exit_code(), 0);
}

#[test]
fn quit_with_code_records_code() {
    let mut tracker = RunningTracker::new();
    tracker.quit_with_code(3, "failed");
    assert!(!tracker.is_running());
    assert_eq!(tracker.exit_code(), 3);
    tracker.quit("again");
    assert_eq!(tracker.exit_code(), 3);
}
