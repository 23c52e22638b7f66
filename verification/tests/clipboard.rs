use streamhaul::clipboard::{ClipboardAccess, ClipboardError, NoopClipboard, RecordingClipboard};

#[test]
fn get_text_is_always_empty() {
    let mut cb = NoopClipboard::new();
    assert_eq!(cb.get_text(), Ok(None));
}

#[test]
fn set_text_always_ok_and_does_not_persist() {
    let mut cb = NoopClipboard::new();
    assert_eq!(cb.set_text("hello"), Ok(()));
    // A write is discarded: a subsequent read is still empty (fail-closed stub behavior).
    assert_eq!(cb.get_text(), Ok(None));
}

#[test]
fn noop_clipboard_is_dyn_compatible() {
    let _boxed: Box<dyn ClipboardAccess> = Box::new(NoopClipboard::new());
}

#[test]
fn starts_empty() {
    let cb = RecordingClipboard::new();
    assert!(cb.is_empty());
    assert_eq!(cb.len(), 0);
    assert_eq!(cb.writes(), &[] as &[String]);
}

#[test]
fn get_text_defaults_to_none() {
    let mut cb = RecordingClipboard::new();
    assert_eq!(cb.get_text(), Ok(None));
}

#[test]
fn get_text_serves_preset_value() {
    let mut cb = RecordingClipboard::new();
    cb.set_read_value(Some("hello, 世界 🌍".to_owned()));
    assert_eq!(cb.get_text(), Ok(Some("hello, 世界 🌍".to_owned())));
    // Reading does not consume the value: a second read returns it again.
    assert_eq!(cb.get_text(), Ok(Some("hello, 世界 🌍".to_owned())));
}

#[test]
fn set_read_value_overwrites_rather_than_accumulates() {
    let mut cb = RecordingClipboard::new();
    cb.set_read_value(Some("first".to_owned()));
    cb.set_read_value(Some("second".to_owned()));
    // The latest preset replaces the previous one; reads never see a stale value.
    assert_eq!(cb.get_text(), Ok(Some("second".to_owned())));
}

#[test]
fn set_read_value_none_returns_empty() {
    let mut cb = RecordingClipboard::new();
    cb.set_read_value(Some("x".to_owned()));
    cb.set_read_value(None);
    assert_eq!(cb.get_text(), Ok(None));
}

#[test]
fn records_single_write() {
    let mut cb = RecordingClipboard::new();
    cb.set_text("one").unwrap();
    assert_eq!(cb.len(), 1);
    assert!(!cb.is_empty());
    assert_eq!(cb.writes(), &["one".to_owned()]);
}

#[test]
fn preserves_write_order() {
    let mut cb = RecordingClipboard::new();
    for s in ["a", "b", "c"] {
        cb.set_text(s).unwrap();
    }
    assert_eq!(
        cb.writes(),
        &["a".to_owned(), "b".to_owned(), "c".to_owned()]
    );
}

#[test]
fn clear_resets_writes_but_not_read_value() {
    let mut cb = RecordingClipboard::new();
    cb.set_read_value(Some("keep".to_owned()));
    cb.set_text("gone").unwrap();
    cb.clear();
    assert!(cb.is_empty());
    assert_eq!(cb.writes(), &[] as &[String]);
    // The preset read value survives a `clear`.
    assert_eq!(cb.get_text(), Ok(Some("keep".to_owned())));
}

#[test]
fn recording_clipboard_is_dyn_compatible() {
    let _boxed: Box<dyn ClipboardAccess> = Box::new(RecordingClipboard::new());
}

#[test]
fn empty_string_write_is_recorded_distinct_from_no_write() {
    let mut cb = RecordingClipboard::new();
    cb.set_text("").unwrap();
    // An empty-string write is a real write, distinct from never having written.
    assert_eq!(cb.len(), 1);
    assert_eq!(cb.writes(), &[String::new()]);
}

#[test]
fn clipboard_errors_as_text() {
    let e = ClipboardError::Unsupported { reason: "read-only" };
    assert_eq!(e.to_text(), "unsupported clipboard operation: read-only");
    let e = ClipboardError::Backend("no owner".to_owned());
    assert_eq!(e.to_text(), "clipboard backend error: no owner");
}
