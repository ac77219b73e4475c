use kline_history::checkpoint::{Backup, ToSave};

fn entry(symbol: &str, interval: &str, start_time: i64) -> ToSave {
    ToSave::new(symbol.to_string(), interval.to_string(), start_time)
}

fn s(x: &str) -> String {
    x.to_string()
}

#[test]
fn getters_return_fields() {
    let e = entry("BTCUSDT", "1d", 42);
    assert_eq!(e.get_symbol(), "BTCUSDT");
    assert_eq!(e.get_interval(), "1d");
    assert_eq!(e.get_start_time(), 42);
}

#[test]
fn advance_moves_cursor_of_known_pair() {
    let mut b = Backup::from_entries(&vec![entry("BTCUSDT", "1d", 0), entry("ETHUSDT", "1d", 5)]);
    b.advance(&s("BTCUSDT"), &s("1d"), 301);
    assert_eq!(b.start_time_of(&s("BTCUSDT"), &s("1d")), Some(301));
    assert_eq!(b.start_time_of(&s("ETHUSDT"), &s("1d")), Some(5));
    assert_eq!(b.symbols.len(), 2);
}

#[test]
fn advance_never_moves_cursor_back() {
    let mut b = Backup::from_entries(&vec![entry("BTCUSDT", "1d", 500)]);
    b.advance(&s("BTCUSDT"), &s("1d"), 100);
    assert_eq!(b.start_time_of(&s("BTCUSDT"), &s("1d")), Some(500));
    b.advance(&s("BTCUSDT"), &s("1d"), 500);
    assert_eq!(b.start_time_of(&s("BTCUSDT"), &s("1d")), Some(500));
}

#[test]
fn advance_adds_unknown_pair() {
    let mut b = Backup::from_entries(&vec![]);
    assert_eq!(b.start_time_of(&s("BTCUSDT"), &s("1d")), None);
    b.advance(&s("BTCUSDT"), &s("1d"), 9);
    assert_eq!(b.start_time_of(&s("BTCUSDT"), &s("1d")), Some(9));
    b.advance(&s("BTCUSDT"), &s("1h"), 3);
    assert_eq!(b.symbols.len(), 2);
    assert_eq!(b.start_time_of(&s("BTCUSDT"), &s("1h")), Some(3));
}

#[test]
fn many_advances_on_distinct_pairs_are_all_kept() {
    let mut b = Backup::from_entries(&vec![]);
    let n: i64 = 50;
    for k in 0..n {
        b.advance(&format!("SYM{}", k), &s("1m"), 1000 + k);
    }
    for k in (0..n).rev() {
        b.advance(&format!("SYM{}", k), &s("1m"), 2000 + k);
    }
    for k in 0..n {
        assert_eq!(b.start_time_of(&format!("SYM{}", k), &s("1m")), Some(2000 + k));
    }
    assert_eq!(b.symbols.len(), 50);
}

#[test]
fn stored_duplicates_keep_first_entry() {
    let b = Backup::from_entries(&vec![
        entry("BTCUSDT", "1d", 10),
        entry("ETHUSDT", "1d", 20),
        entry("BTCUSDT", "1d", 30),
        entry("BTCUSDT", "1h", 40),
    ]);
    assert_eq!(b.symbols.len(), 3);
    assert_eq!(b.start_time_of(&s("BTCUSDT"), &s("1d")), Some(10));
    assert_eq!(b.symbols[2].get_interval(), "1h");
}
