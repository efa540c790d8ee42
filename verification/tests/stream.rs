use logstream::{
    log_stream, Action, Event, FilterTemplate, Log, LogStream, LogStreamInit, LogStreamItem,
    LogStreamState, StreamError,
};

fn empty_filter() -> FilterTemplate {
    FilterTemplate { addresses: Vec::new(), topics: Vec::new() }
}

fn stream(after: u64, confirmations: u64) -> LogStream {
    log_stream(LogStreamInit {
        after,
        filter: empty_filter(),
        poll_interval_ms: 1000,
        confirmations,
    })
}

fn sample_log(tag: u8) -> Log {
    Log {
        address: vec![tag; 20],
        topics: vec![vec![tag; 32]],
        data: vec![tag, tag],
    }
}

/// Drives one full tick: feeds the tick, the given height, and, if a range
/// is planned, the given logs; returns the item yielded, if any.
fn drive_tick(s: &mut LogStream, height: u64, logs: Vec<Log>) -> Option<LogStreamItem> {
    assert!(s.accepts(&Event::Tick));
    assert_eq!(s.step(Event::Tick), Action::FetchHeight);
    assert!(s.accepts(&Event::Height(height)));
    match s.step(Event::Height(height)) {
        Action::FetchLogs { from, to } => {
            assert!(s.accepts(&Event::Logs(Vec::new())));
            match s.step(Event::Logs(logs)) {
                Action::Yield(item) => {
                    assert_eq!(item.from, from);
                    assert_eq!(item.to, to);
                    assert!(s.accepts(&Event::Delivered));
                    assert_eq!(s.step(Event::Delivered), Action::AwaitTick);
                    Some(item)
                }
                other => panic!("expected a yielded item, got {:?}", other),
            }
        }
        Action::AwaitTick => None,
        other => panic!("unexpected action {:?}", other),
    }
}

#[test]
fn fresh_stream_waits_for_a_tick() {
    let s = stream(100, 0);
    assert_eq!(*s.state(), LogStreamState::Wait);
    assert_eq!(s.after(), 100);
    assert_eq!(s.confirmations(), 0);
    assert_eq!(s.poll_interval_ms(), 1000);
    assert_eq!(*s.filter(), empty_filter());
    assert!(s.accepts(&Event::Tick));
    assert!(!s.accepts(&Event::Height(5)));
    assert!(!s.accepts(&Event::Logs(Vec::new())));
    assert!(!s.accepts(&Event::Delivered));
}

#[test]
fn single_range_without_confirmation_depth() {
    // after=100, confirmations=0, node reports 105: single item {101, 105}.
    let mut s = stream(100, 0);
    let item = drive_tick(&mut s, 105, Vec::new()).expect("an item is due");
    assert_eq!(item.from, 101);
    assert_eq!(item.to, 105);
    assert_eq!(item.logs, Vec::new());
    assert_eq!(s.after(), 105);
}

#[test]
fn confirmation_depth_holds_range_back() {
    // after=100, confirmations=10, node reports 105: confirmed height 95
    // has not passed the cursor, so nothing is emitted and the cursor stays.
    let mut s = stream(100, 10);
    assert_eq!(drive_tick(&mut s, 105, Vec::new()), None);
    assert_eq!(s.after(), 100);
    assert_eq!(*s.state(), LogStreamState::Wait);
}

#[test]
fn sequential_ticks_emit_contiguous_ranges() {
    // Heights 105 then 110 with confirmations=0 from after=100:
    // items {101,105} then {106,110}, contiguous.
    let mut s = stream(100, 0);
    let first = drive_tick(&mut s, 105, Vec::new()).expect("first item");
    let second = drive_tick(&mut s, 110, Vec::new()).expect("second item");
    assert_eq!((first.from, first.to), (101, 105));
    assert_eq!((second.from, second.to), (106, 110));
    assert_eq!(second.from, first.to + 1);
    assert_eq!(s.after(), 110);
}

#[test]
fn logs_are_passed_through_unchanged() {
    let mut s = stream(100, 0);
    let logs = vec![sample_log(1), sample_log(2)];
    let item = drive_tick(&mut s, 103, logs.clone()).expect("an item is due");
    assert_eq!(item.logs, logs);
}

#[test]
fn a_range_may_carry_zero_logs() {
    let mut s = stream(7, 0);
    let item = drive_tick(&mut s, 8, Vec::new()).expect("an item is due");
    assert_eq!((item.from, item.to), (8, 8));
    assert!(item.logs.is_empty());
}

#[test]
fn failed_logs_fetch_stops_the_stream() {
    // First tick succeeds; on the second, the logs fetch fails: the stream
    // reports the terminal error and the driver processes no further tick.
    let mut s = stream(100, 0);
    let first = drive_tick(&mut s, 105, Vec::new()).expect("first item");
    assert_eq!((first.from, first.to), (101, 105));
    assert_eq!(s.step(Event::Tick), Action::FetchHeight);
    match s.step(Event::Height(110)) {
        Action::FetchLogs { from, to } => {
            assert_eq!((from, to), (106, 110));
            assert!(s.accepts(&Event::Failed(StreamError::Rpc)));
            assert_eq!(
                s.step(Event::Failed(StreamError::Rpc)),
                Action::Stop(StreamError::Rpc)
            );
        }
        other => panic!("unexpected action {:?}", other),
    }
    // The cursor still names only what was delivered.
    assert_eq!(s.after(), 105);
}

#[test]
fn failed_height_fetch_stops_the_stream() {
    let mut s = stream(100, 0);
    assert_eq!(s.step(Event::Tick), Action::FetchHeight);
    assert_eq!(
        s.step(Event::Failed(StreamError::Rpc)),
        Action::Stop(StreamError::Rpc)
    );
    assert_eq!(s.after(), 100);
}

#[test]
fn failed_timer_stops_the_stream() {
    let mut s = stream(100, 0);
    assert!(s.accepts(&Event::Failed(StreamError::Timer)));
    assert_eq!(
        s.step(Event::Failed(StreamError::Timer)),
        Action::Stop(StreamError::Timer)
    );
}

#[test]
fn restart_from_checkpoint_reproduces_the_run() {
    // An uninterrupted run over heights 105 then 110 ...
    let mut run = stream(100, 0);
    let first = drive_tick(&mut run, 105, vec![sample_log(3)]).expect("first item");
    let second = drive_tick(&mut run, 110, vec![sample_log(4)]).expect("second item");

    // ... and a stream re-created from the checkpoint after the first item
    // yields the identical subsequent sequence.
    let mut restarted = stream(first.to, 0);
    let replayed = drive_tick(&mut restarted, 110, vec![sample_log(4)]).expect("replayed item");
    assert_eq!(replayed, second);
    assert_eq!(restarted.after(), run.after());
}

#[test]
fn no_emitted_range_overlaps_the_starting_prefix() {
    // Starting at after=200, every emitted range lies strictly above 200,
    // whatever heights the node reports.
    let mut s = stream(200, 5);
    let mut emitted: Vec<LogStreamItem> = Vec::new();
    for height in [190, 203, 210, 208, 230] {
        if let Some(item) = drive_tick(&mut s, height, Vec::new()) {
            emitted.push(item);
        }
    }
    assert!(!emitted.is_empty());
    for item in &emitted {
        assert!(item.from > 200);
        assert!(item.to >= item.from);
    }
    for pair in emitted.windows(2) {
        assert_eq!(pair[1].from, pair[0].to + 1);
    }
}

#[test]
fn stale_height_is_a_silent_no_op() {
    // A node answering with an older height than the cursor plans nothing.
    let mut s = stream(100, 0);
    assert_eq!(drive_tick(&mut s, 90, Vec::new()), None);
    assert_eq!(drive_tick(&mut s, 100, Vec::new()), None);
    assert_eq!(s.after(), 100);
}
