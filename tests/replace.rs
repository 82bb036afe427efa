use jtsearch::replace::{replace_line, temp_name, ReplaceAction, ReplaceEvent, Replacement};
use jtsearch::request::{Options, Search};

fn search(what: &str) -> Search {
    let o = Options {
        what: what.to_string(),
        content: true,
        recursive: false,
        insensitive: false,
        sort: false,
        mute: false,
        counts: false,
        regex: false,
        linenos: false,
        replace: Some("X".to_string()),
        ignore_exts: Vec::new(),
        threads: 1,
        paths: Vec::new(),
    };
    match Search::new(o) {
        Ok(s) => s,
        Err(_) => panic!("the predicate should build"),
    }
}

fn kind(a: &ReplaceAction) -> &'static str {
    match a {
        ReplaceAction::ReadLine => "read",
        ReplaceAction::Write(_) => "write",
        ReplaceAction::Flush => "flush",
        ReplaceAction::Rename => "rename",
        ReplaceAction::RemoveTemp => "remove",
        ReplaceAction::Done => "done",
    }
}

#[test]
fn temp_copy_name() {
    assert_eq!(temp_name("notes.txt"), "notes.txt.jtsearch");
}

#[test]
fn replaced_line_ends_in_newline() {
    let s = search("o");
    assert_eq!(replace_line(&s, "foo", "X"), "fXX\n");
    assert_eq!(replace_line(&s, "", "X"), "\n");
}

#[test]
fn undecodable_rest_truncates_and_still_renames() {
    let s = search("a");
    let mut r = Replacement::new();
    let mut written = Vec::new();
    assert_eq!(kind(&r.step(&s, "X", ReplaceEvent::TempCreated)), "read");
    for line in ["a1", "ba"] {
        match r.step(&s, "X", ReplaceEvent::Line(line.to_string())) {
            ReplaceAction::Write(t) => written.push(t),
            other => panic!("expected a write, got {}", kind(&other)),
        }
        assert_eq!(kind(&r.step(&s, "X", ReplaceEvent::Written)), "read");
    }
    assert_eq!(kind(&r.step(&s, "X", ReplaceEvent::EndOfInput)), "flush");
    assert_eq!(kind(&r.step(&s, "X", ReplaceEvent::Flushed)), "rename");
    assert_eq!(kind(&r.step(&s, "X", ReplaceEvent::Renamed)), "done");
    assert!(r.is_finished());
    assert_eq!(written, vec!["X1\n".to_string(), "bX\n".to_string()]);
}

#[test]
fn failed_temp_creation_touches_nothing() {
    let s = search("a");
    let mut r = Replacement::new();
    assert_eq!(kind(&r.step(&s, "X", ReplaceEvent::TempFailed)), "done");
    assert!(r.is_finished());
}

#[test]
fn read_failure_removes_copy() {
    let s = search("a");
    let mut r = Replacement::new();
    r.step(&s, "X", ReplaceEvent::TempCreated);
    r.step(&s, "X", ReplaceEvent::Line("a".to_string()));
    r.step(&s, "X", ReplaceEvent::Written);
    assert_eq!(kind(&r.step(&s, "X", ReplaceEvent::ReadFailed)), "remove");
    assert_eq!(kind(&r.step(&s, "X", ReplaceEvent::Removed)), "done");
    assert_eq!(kind(&r.step(&s, "X", ReplaceEvent::Flushed)), "done");
}

#[test]
fn write_and_flush_failures_remove_copy() {
    let s = search("a");
    let mut r = Replacement::new();
    r.step(&s, "X", ReplaceEvent::TempCreated);
    r.step(&s, "X", ReplaceEvent::Line("a".to_string()));
    assert_eq!(kind(&r.step(&s, "X", ReplaceEvent::WriteFailed)), "remove");
    let mut r = Replacement::new();
    r.step(&s, "X", ReplaceEvent::TempCreated);
    r.step(&s, "X", ReplaceEvent::EndOfInput);
    assert_eq!(kind(&r.step(&s, "X", ReplaceEvent::FlushFailed)), "remove");
}

#[test]
fn failed_rename_leaves_copy() {
    let s = search("a");
    let mut r = Replacement::new();
    r.step(&s, "X", ReplaceEvent::TempCreated);
    r.step(&s, "X", ReplaceEvent::EndOfInput);
    r.step(&s, "X", ReplaceEvent::Flushed);
    assert_eq!(kind(&r.step(&s, "X", ReplaceEvent::RenameFailed)), "done");
    assert!(r.is_finished());
}
