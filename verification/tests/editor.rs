use project1::editor::Project1;
use project1::editor::WindowHint;
use std::collections::HashMap;

#[test]
fn fresh_document_defaults() {
    let d = Project1::default();
    assert_eq!(d.text_buffer, "");
    assert_eq!(d.file_path, None);
    assert!(!d.is_window_pinned);
}

#[test]
fn edit_replaces_buffer() {
    let mut d = Project1::default();
    d.edit("first".to_string());
    assert_eq!(d.text_buffer, "first");
    d.edit("second".to_string());
    assert_eq!(d.text_buffer, "second");
    assert_eq!(d.file_path, None);
    assert!(!d.is_window_pinned);
}

#[test]
fn toggle_pin_sets_flag() {
    let mut d = Project1::default();
    d.toggle_pin(true);
    assert!(d.is_window_pinned);
    assert_eq!(d.window_hint(), WindowHint::AlwaysOnTop);
    d.toggle_pin(false);
    assert!(!d.is_window_pinned);
    assert_eq!(d.window_hint(), WindowHint::Normal);
}

#[test]
fn open_success_replaces_buffer_and_binds() {
    let mut d = Project1::default();
    d.edit("unsaved".to_string());
    d.open(Some("/tmp/notes.txt".to_string()), Some("from disk".to_string()));
    assert_eq!(d.text_buffer, "from disk");
    assert_eq!(d.file_path, Some("/tmp/notes.txt".to_string()));
}

#[test]
fn open_cancel_changes_nothing() {
    let mut d = Project1::default();
    d.edit("kept".to_string());
    d.open(None, None);
    assert_eq!(d.text_buffer, "kept");
    assert_eq!(d.file_path, None);
}

#[test]
fn open_read_failure_changes_nothing() {
    let mut d = Project1::default();
    d.edit("kept".to_string());
    d.open(Some("/tmp/old.txt".to_string()), Some("old".to_string()));
    // A later Open whose read fails must leave both buffer and binding as
    // they were before the call.
    d.open(Some("/tmp/unreadable.txt".to_string()), None);
    assert_eq!(d.text_buffer, "old");
    assert_eq!(d.file_path, Some("/tmp/old.txt".to_string()));
}

#[test]
fn save_unbound_cancel_no_write() {
    let mut d = Project1::default();
    d.edit("draft".to_string());
    assert!(d.needs_save_prompt());
    let w = d.save(None);
    assert!(w.is_none());
    assert_eq!(d.file_path, None);
    assert_eq!(d.text_buffer, "draft");
}

#[test]
fn save_unbound_prompt_binds_and_writes() {
    let mut d = Project1::default();
    d.edit("draft".to_string());
    assert!(d.needs_save_prompt());
    let w = d.save(Some("/tmp/draft.txt".to_string())).unwrap();
    assert_eq!(w.path, "/tmp/draft.txt");
    assert_eq!(w.contents, "draft");
    assert_eq!(d.file_path, Some("/tmp/draft.txt".to_string()));
}

#[test]
fn save_bound_never_prompts_same_target() {
    let mut d = Project1::default();
    d.edit("v1".to_string());
    d.save(Some("/tmp/doc.txt".to_string()));
    // Every consecutive Save on a bound document skips the prompt and
    // targets the same path.
    for round in 0..3 {
        assert!(!d.needs_save_prompt());
        let w = d.save(None).unwrap();
        assert_eq!(w.path, "/tmp/doc.txt");
        assert_eq!(w.contents, "v1");
        assert_eq!(d.file_path, Some("/tmp/doc.txt".to_string()));
        let _ = round;
    }
}

#[test]
fn save_as_prompts_even_when_bound_rebinds() {
    let mut d = Project1::default();
    d.edit("body".to_string());
    d.save(Some("/tmp/a.txt".to_string()));
    assert_eq!(d.file_path, Some("/tmp/a.txt".to_string()));
    // Save-As goes by the prompt alone, even though the document is bound.
    let w = d.save_as_request(Some("/tmp/b.txt".to_string())).unwrap();
    assert_eq!(w.path, "/tmp/b.txt");
    assert_eq!(w.contents, "body");
    d.finish_save_as(w.path.clone(), true);
    assert_eq!(d.file_path, Some("/tmp/b.txt".to_string()));
    assert_eq!(d.text_buffer, "body");
}

#[test]
fn save_as_write_failure_keeps_binding() {
    let mut d = Project1::default();
    d.edit("body".to_string());
    d.save(Some("/tmp/a.txt".to_string()));
    let w = d.save_as_request(Some("/mnt/readonly/b.txt".to_string())).unwrap();
    d.finish_save_as(w.path.clone(), false);
    assert_eq!(d.file_path, Some("/tmp/a.txt".to_string()));
    assert_eq!(d.text_buffer, "body");
}

#[test]
fn save_as_cancel_no_write() {
    let mut d = Project1::default();
    d.edit("body".to_string());
    let w = d.save_as_request(None);
    assert!(w.is_none());
    assert_eq!(d.file_path, None);
    assert_eq!(d.text_buffer, "body");
}

#[test]
fn round_trip_save_as_then_open() {
    let mut fs: HashMap<String, String> = HashMap::new();
    let mut d = Project1::default();
    d.edit("line one\nline two\n".to_string());
    let w = d.save_as_request(Some("/tmp/rt.txt".to_string())).unwrap();
    fs.insert(w.path.clone(), w.contents.clone());
    d.finish_save_as(w.path.clone(), true);

    let mut d2 = Project1::default();
    let chosen = "/tmp/rt.txt".to_string();
    let contents = fs.get(&chosen).cloned();
    d2.open(Some(chosen.clone()), contents);
    assert_eq!(d2.text_buffer, "line one\nline two\n");
    assert_eq!(d2.file_path, Some("/tmp/rt.txt".to_string()));
}

#[test]
fn scenario_edit_save_edit_save() {
    let mut fs: HashMap<String, String> = HashMap::new();
    let mut d = Project1::default();
    assert_eq!(d.text_buffer, "");
    assert_eq!(d.file_path, None);
    assert!(!d.is_window_pinned);

    d.edit("hello".to_string());
    assert!(d.needs_save_prompt());
    let w = d.save(Some("/tmp/a.txt".to_string())).unwrap();
    fs.insert(w.path.clone(), w.contents.clone());
    assert_eq!(d.text_buffer, "hello");
    assert_eq!(d.file_path, Some("/tmp/a.txt".to_string()));
    assert!(!d.is_window_pinned);

    d.edit("hello world".to_string());
    assert!(!d.needs_save_prompt());
    let w2 = d.save(None).unwrap();
    fs.insert(w2.path.clone(), w2.contents.clone());
    assert_eq!(w2.path, "/tmp/a.txt");
    assert_eq!(fs.get("/tmp/a.txt"), Some(&"hello world".to_string()));
    assert_eq!(d.file_path, Some("/tmp/a.txt".to_string()));
}

#[test]
fn pin_hint_issued_every_tick() {
    let mut d = Project1::default();
    d.toggle_pin(true);
    // Ticks on which the pin is untouched keep issuing the always-on-top
    // hint, whatever else happens on them.
    assert_eq!(d.window_hint(), WindowHint::AlwaysOnTop);
    d.edit("typing".to_string());
    assert_eq!(d.window_hint(), WindowHint::AlwaysOnTop);
    let w = d.save(Some("/tmp/pinned.txt".to_string()));
    assert!(w.is_some());
    assert_eq!(d.window_hint(), WindowHint::AlwaysOnTop);
    d.open(Some("/tmp/missing.txt".to_string()), None);
    assert_eq!(d.window_hint(), WindowHint::AlwaysOnTop);
    d.toggle_pin(false);
    assert_eq!(d.window_hint(), WindowHint::Normal);
}
