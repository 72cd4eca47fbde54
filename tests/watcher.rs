use clipcat::error::ClipboardError;
use clipcat::event::ClipboardType;
use clipcat::watcher::{Watcher, WatcherPhase};

fn published(w: &mut Watcher, running: bool, content: &str) -> Option<String> {
    w.on_change(running, content.to_string()).map(|e| {
        assert_eq!(e.clipboard_type, w.clipboard_type);
        e.data
    })
}

#[test]
fn distinct_changes_are_published_in_order() {
    let mut w = Watcher::new(ClipboardType::Clipboard, 0);
    let mut seen = Vec::new();
    for c in ["first", "second"] {
        if let Some(d) = published(&mut w, true, c) {
            seen.push(d);
        }
    }
    assert_eq!(seen, vec!["first".to_string(), "second".to_string()]);
    assert_eq!(w.last, "second");
}

#[test]
fn repeated_content_is_published_once() {
    let mut w = Watcher::new(ClipboardType::Primary, 0);
    let e = w.on_change(true, "same".to_string()).unwrap();
    assert_eq!(e.clipboard_type, ClipboardType::Primary);
    assert_eq!(e.data, "same");
    assert!(w.on_change(true, "same".to_string()).is_none());
    assert_eq!(published(&mut w, true, "other"), Some("other".to_string()));
    assert_eq!(published(&mut w, true, "same"), Some("same".to_string()));
}

#[test]
fn short_content_is_filtered() {
    let mut w = Watcher::new(ClipboardType::Clipboard, 5);
    assert_eq!(published(&mut w, true, "ab"), None);
    assert_eq!(w.last, "");
    assert_eq!(published(&mut w, true, "abcdef"), Some("abcdef".to_string()));
}

#[test]
fn filter_counts_bytes_and_is_strict() {
    let mut w = Watcher::new(ClipboardType::Clipboard, 5);
    assert_eq!(published(&mut w, true, "abcde"), None);
    // two characters of two bytes each and two of one byte: six bytes
    assert_eq!(published(&mut w, true, "\u{e9}\u{e9}ab"), Some("\u{e9}\u{e9}ab".to_string()));
}

#[test]
fn disabled_then_enabled() {
    let mut w = Watcher::new(ClipboardType::Clipboard, 0);
    assert_eq!(published(&mut w, false, "while off"), None);
    assert_eq!(w.last, "");
    assert_eq!(published(&mut w, true, "back on"), Some("back on".to_string()));
}

#[test]
fn content_seen_while_disabled_is_published_after_enable() {
    let mut w = Watcher::new(ClipboardType::Clipboard, 0);
    assert_eq!(published(&mut w, false, "text"), None);
    assert_eq!(published(&mut w, true, "text"), Some("text".to_string()));
}

#[test]
fn initial_content_is_published_and_tracked() {
    let mut w = Watcher::new(ClipboardType::Clipboard, 2);
    let e = w.load_initial(Some("start".to_string())).unwrap();
    assert_eq!(e.data, "start");
    assert_eq!(e.clipboard_type, ClipboardType::Clipboard);
    assert_eq!(w.last, "start");
    assert_eq!(published(&mut w, true, "start"), None);
}

#[test]
fn short_or_missing_initial_content_is_not_tracked() {
    let mut w = Watcher::new(ClipboardType::Primary, 2);
    assert!(w.load_initial(Some("ab".to_string())).is_none());
    assert_eq!(w.last, "");
    assert!(w.load_initial(None).is_none());
    assert_eq!(w.last, "");
}

#[test]
fn failed_wait_then_reconnect() {
    let mut w = Watcher::new(ClipboardType::Clipboard, 0);
    assert_eq!(published(&mut w, true, "kept"), Some("kept".to_string()));
    w.on_wait_failed();
    assert_eq!(w.phase, WatcherPhase::Reconnecting);
    assert_eq!(published(&mut w, true, "during"), None);
    assert!(w.on_reconnect(Ok(())).is_ok());
    assert_eq!(w.phase, WatcherPhase::Watching);
    assert_eq!(w.last, "kept");
    assert_eq!(published(&mut w, true, "after"), Some("after".to_string()));
}

#[test]
fn failed_reconnect_stops_with_error() {
    let mut w = Watcher::new(ClipboardType::Primary, 0);
    w.on_wait_failed();
    match w.on_reconnect(Err("no display".to_string())) {
        Err(ClipboardError::InitializeX11Clipboard { message }) => assert_eq!(message, "no display"),
        other => panic!("unexpected {:?}", other),
    }
    assert!(w.is_stopped());
    assert_eq!(published(&mut w, true, "ignored"), None);
}

#[test]
fn reconnect_outside_failure_changes_nothing() {
    let mut w = Watcher::new(ClipboardType::Clipboard, 0);
    assert!(w.on_reconnect(Err("x".to_string())).is_ok());
    assert_eq!(w.phase, WatcherPhase::Watching);
}

#[test]
fn closed_bus_stops_watcher() {
    let mut w = Watcher::new(ClipboardType::Clipboard, 0);
    assert!(!w.is_stopped());
    w.on_publish_failed();
    assert!(w.is_stopped());
}
