use kline_history::candle::DecodeError;
use kline_history::checkpoint::{Backup, ToSave};
use kline_history::worker::{Action, Event, PairWorker, Phase, TransportError, MAX_FAILURES};

const BASE: &str = "http://stub/klines";

fn row(open_time: i64, close_time: i64) -> String {
    format!(
        "[{},\"1.0\",\"2.0\",\"0.5\",\"1.5\",\"10.0\",{},\"15.0\",4,\"5.0\",\"7.5\",\"0\"]",
        open_time, close_time
    )
}

fn worker(start_time: i64) -> PairWorker {
    let pair = ToSave::new("BTCUSDT".to_string(), "1d".to_string(), start_time);
    PairWorker::new(BASE.to_string(), &pair)
}

fn url(start_time: i64) -> String {
    format!("{}?symbol=BTCUSDT&interval=1d&startTime={}&limit=1000", BASE, start_time)
}

fn expect_fetch(a: &Action, start_time: i64, delay: u64) {
    match a {
        Action::Fetch { url: u, delay_ms } => {
            assert_eq!(*u, url(start_time));
            assert_eq!(*delay_ms, delay);
        }
        other => panic!("expected a request, got {:?}", other),
    }
}

#[test]
fn end_to_end_single_page_then_exhaustion() {
    let mut store = Backup::from_entries(&vec![ToSave::new("BTCUSDT".to_string(), "1d".to_string(), 0)]);
    let mut w = worker(store.symbols[0].get_start_time());
    expect_fetch(&w.request(), 0, 0);
    let body = format!("[{},{},{}]", row(0, 100), row(101, 200), row(201, 300));
    let mut written = vec![];
    let a = w.step(Event::Body(body.into_bytes()));
    match a {
        Action::Write { name, page } => {
            assert_eq!(name, "BTCUSDT-1d/BTCUSDT_0-300.json");
            assert_eq!(page.len(), 3);
            written.push(name);
        }
        other => panic!("expected a write, got {:?}", other),
    }
    assert_eq!(w.phase, Phase::Writing { next: 301 });
    let a = w.step(Event::Written);
    let t = match a {
        Action::Checkpoint { start_time } => start_time,
        other => panic!("expected a checkpoint, got {:?}", other),
    };
    assert_eq!(t, 301);
    store.advance(&w.symbol, &w.interval, t);
    assert_eq!(store.start_time_of(&w.symbol, &w.interval), Some(301));
    let a = w.step(Event::Checkpointed);
    expect_fetch(&a, 301, 0);
    assert_eq!(w.cursor, 301);
    let a = w.step(Event::Body(b"[]".to_vec()));
    let t = match a {
        Action::Checkpoint { start_time } => start_time,
        other => panic!("expected the final checkpoint, got {:?}", other),
    };
    assert_eq!(t, 301);
    assert_eq!(w.phase, Phase::Finalizing);
    store.advance(&w.symbol, &w.interval, t);
    let a = w.step(Event::Checkpointed);
    assert!(matches!(a, Action::Stop));
    assert_eq!(w.phase, Phase::Terminated);
    assert_eq!(store.start_time_of(&w.symbol, &w.interval), Some(301));
    assert_eq!(written.len(), 1);
    // Terminated is absorbing: nothing more is asked for.
    assert!(matches!(w.step(Event::Body(b"[]".to_vec())), Action::Ignore));
    assert!(matches!(w.step(Event::Checkpointed), Action::Ignore));
    assert_eq!(w.phase, Phase::Terminated);
}

#[test]
fn connectivity_errors_twice_then_success() {
    let mut w = worker(1000);
    let a = w.step(Event::Transport(TransportError::Connect));
    expect_fetch(&a, 1000, 500);
    assert_eq!(w.cursor, 1000);
    let a = w.step(Event::Transport(TransportError::Connect));
    expect_fetch(&a, 1000, 1000);
    assert_eq!(w.cursor, 1000);
    assert_eq!(w.failures, 2);
    let body = format!("[{}]", row(1000, 1999));
    assert!(matches!(w.step(Event::Body(body.into_bytes())), Action::Write { .. }));
    assert!(matches!(w.step(Event::Written), Action::Checkpoint { start_time: 2000 }));
    expect_fetch(&w.step(Event::Checkpointed), 2000, 0);
    assert_eq!(w.failures, 0);
    assert_eq!(w.cursor, 2000);
}

#[test]
fn repeated_failures_end_in_failed_state() {
    let mut w = worker(7);
    let delays = [500u64, 1000, 2000, 4000];
    for d in delays {
        expect_fetch(&w.step(Event::Transport(TransportError::Status { code: 500 })), 7, d);
    }
    assert_eq!(w.failures, MAX_FAILURES - 1);
    assert!(matches!(w.step(Event::Transport(TransportError::Connect)), Action::GiveUp));
    assert_eq!(w.phase, Phase::Failed);
    assert!(matches!(w.step(Event::Body(b"[]".to_vec())), Action::Ignore));
    assert_eq!(w.cursor, 7);
}

#[test]
fn decode_error_keeps_cursor_and_retries() {
    let mut w = worker(40);
    let bad = b"[[0,\"x\",\"1\",\"1\",\"1\",\"1\",100,\"1\",3,\"1\",\"1\",\"0\"]]".to_vec();
    expect_fetch(&w.step(Event::Body(bad)), 40, 500);
    assert_eq!(w.cursor, 40);
    expect_fetch(&w.on_decoded(Err(DecodeError::Syntax)), 40, 1000);
    assert_eq!(w.cursor, 40);
    assert_eq!(w.phase, Phase::Requesting);
}

#[test]
fn write_failure_refetches_same_page() {
    let mut w = worker(0);
    let body = format!("[{}]", row(0, 50));
    assert!(matches!(w.step(Event::Body(body.into_bytes())), Action::Write { .. }));
    expect_fetch(&w.step(Event::WriteFailed), 0, 500);
    assert_eq!(w.cursor, 0);
}

#[test]
fn checkpoint_failure_refetches_same_page() {
    let mut w = worker(0);
    let body = format!("[{}]", row(0, 50));
    w.step(Event::Body(body.into_bytes()));
    w.step(Event::Written);
    expect_fetch(&w.step(Event::CheckpointFailed), 0, 500);
    assert_eq!(w.cursor, 0);
    assert!(matches!(w.step(Event::Body(b"[]".to_vec())), Action::Checkpoint { start_time: 0 }));
    expect_fetch(&w.step(Event::CheckpointFailed), 0, 1000);
}

#[test]
fn empty_page_finalizes() {
    let mut w = worker(123);
    let a = w.on_decoded(Ok(vec![]));
    assert!(matches!(a, Action::Checkpoint { start_time: 123 }));
    assert_eq!(w.phase, Phase::Finalizing);
}

#[test]
fn out_of_phase_events_are_ignored() {
    let mut w = worker(5);
    assert!(matches!(w.step(Event::Written), Action::Ignore));
    assert!(matches!(w.step(Event::Checkpointed), Action::Ignore));
    assert!(matches!(w.step(Event::WriteFailed), Action::Ignore));
    assert!(matches!(w.step(Event::CheckpointFailed), Action::Ignore));
    assert_eq!(w.phase, Phase::Requesting);
    assert_eq!(w.failures, 0);
}

#[test]
fn last_close_at_time_limit_keeps_cursor_in_range() {
    let mut w = worker(0);
    let body = format!("[{}]", row(0, i64::MAX));
    w.step(Event::Body(body.into_bytes()));
    assert_eq!(w.phase, Phase::Writing { next: i64::MAX });
}
