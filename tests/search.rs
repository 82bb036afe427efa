use jtsearch::engine::{task_for, worker_count, PathKind, Task};
use jtsearch::predicate::{PredicateError, What};
use jtsearch::request::{unescape_term, Options, Search};
use jtsearch::results::{sort_lines, strip_dot_slash, text_le, Collector};
use jtsearch::scan::{line_matches, scan_lines, LineScan};
use jtsearch::walk::{
    extension, file_action, is_ignored, join_path, keep_file, plan_entry, EntryKind,
    FileAction,
};

fn opts(what: &str) -> Options {
    Options {
        what: what.to_string(),
        content: false,
        recursive: false,
        insensitive: false,
        sort: false,
        mute: false,
        counts: false,
        regex: false,
        linenos: false,
        replace: None,
        ignore_exts: Vec::new(),
        threads: 1,
        paths: Vec::new(),
    }
}

fn search(o: Options) -> Search {
    match Search::new(o) {
        Ok(s) => s,
        Err(_) => panic!("the predicate should build"),
    }
}

fn lines(text: &[&str]) -> Vec<String> {
    text.iter().map(|l| l.to_string()).collect()
}

#[test]
fn content_search_skips_ignored_extension() {
    let mut o = opts("hello");
    o.content = true;
    o.ignore_exts = vec!["log".to_string()];
    let s = search(o);
    assert_eq!(s.opts.paths, vec![".".to_string()]);
    let mut col = Collector::new(false);
    let mut printed = Vec::new();
    for (name, body) in [("a.txt", vec!["hello", "world"]), ("b.log", vec!["hello"])] {
        let plan = plan_entry(&s, ".", name, EntryKind::File);
        assert!(plan.scan);
        assert!(plan.report.is_none());
        if !keep_file(&s, name, body.join("\n").as_bytes()) {
            continue;
        }
        if let Some(found) = scan_lines(&s, &plan.path, &lines(&body)) {
            if let Some(line) = col.accept(&found) {
                printed.push(line);
            }
        }
    }
    assert_eq!(printed, vec!["a.txt".to_string()]);
}

#[test]
fn recursive_content_line_numbers() {
    let mut o = opts("needle");
    o.content = true;
    o.recursive = true;
    o.linenos = true;
    o.paths = vec!["root".to_string()];
    let s = search(o);
    let sub = plan_entry(&s, "root", "sub", EntryKind::Dir);
    assert!(sub.descend);
    assert!(!sub.scan);
    assert_eq!(sub.path, "root/sub");
    let deep = plan_entry(&s, &sub.path, "deep.txt", EntryKind::File);
    assert!(deep.scan);
    let body = lines(&["a", "b", "c", "d", "the needle", "f"]);
    assert_eq!(scan_lines(&s, &deep.path, &body), Some("root/sub/deep.txt | 5".to_string()));
}

#[test]
fn line_numbers_ascending() {
    let mut o = opts("x");
    o.linenos = true;
    let s = search(o);
    let body = lines(&["a", "b", "x", "d", "e", "f", "x", "h", "x", "j"]);
    assert_eq!(scan_lines(&s, "path", &body), Some("path | 3,7,9".to_string()));
}

#[test]
fn line_numbers_with_count() {
    let mut o = opts("x");
    o.linenos = true;
    o.counts = true;
    let s = search(o);
    let body = lines(&["x", "b", "x"]);
    assert_eq!(scan_lines(&s, "f", &body), Some("f | 1,3 | (2)".to_string()));
}

#[test]
fn count_only() {
    let mut o = opts("o");
    o.counts = true;
    let s = search(o);
    let body = lines(&["one", "two", "three", "four"]);
    assert_eq!(scan_lines(&s, "f", &body), Some("f | (3)".to_string()));
    assert_eq!(scan_lines(&s, "f", &lines(&["a", "b"])), None);
}

#[test]
fn first_match_reports_path_and_stops() {
    let s = search(opts("b"));
    let mut scan = LineScan::new(&s);
    assert_eq!(scan.feed(&s, "f", "a"), None);
    assert_eq!(scan.feed(&s, "f", "abc"), Some("f".to_string()));
    assert_eq!(scan.finish(&s, "f"), None);
    assert_eq!(scan_lines(&s, "f", &lines(&["zz"])), None);
}

#[test]
fn no_matches_report_nothing() {
    let mut o = opts("q");
    o.linenos = true;
    let s = search(o);
    assert_eq!(scan_lines(&s, "f", &lines(&[])), None);
    assert_eq!(scan_lines(&s, "f", &lines(&["a"])), None);
}

#[test]
fn insensitive_lowercases_term_and_lines() {
    let mut o = opts("HeLLo");
    o.insensitive = true;
    let s = search(o);
    match &s.what {
        What::Text(t) => assert_eq!(t, "hello"),
        What::Regex(_) => panic!("expected a literal"),
    }
    assert!(line_matches(&s, "say HELLO"));
    let s2 = search(opts("hello"));
    assert!(!line_matches(&s2, "say HELLO"));
}

#[test]
fn name_mode_reports_with_directory_slash() {
    let mut o = opts("src");
    o.recursive = true;
    let s = search(o);
    let d = plan_entry(&s, ".", "src", EntryKind::Dir);
    assert_eq!(d.report, Some("./src/".to_string()));
    assert!(d.descend);
    let f = plan_entry(&s, ".", "src.rs", EntryKind::File);
    assert_eq!(f.report, Some("./src.rs".to_string()));
    assert!(!f.descend);
    assert!(!f.scan);
    let n = plan_entry(&s, ".", "main.rs", EntryKind::File);
    assert_eq!(n.report, None);
}

#[test]
fn symlinks_are_skipped() {
    let mut o = opts("link");
    o.recursive = true;
    let s = search(o);
    let p = plan_entry(&s, "d", "link", EntryKind::Symlink);
    assert_eq!(p.report, None);
    assert!(!p.scan);
    assert!(!p.descend);
    let mut o = opts("link");
    o.content = true;
    let s = search(o);
    let p = plan_entry(&s, "d", "link", EntryKind::Symlink);
    assert!(!p.scan);
}

#[test]
fn replace_implies_content_mode() {
    let mut o = opts("a");
    o.replace = Some("b".to_string());
    let s = search(o);
    let p = plan_entry(&s, ".", "a.txt", EntryKind::File);
    assert_eq!(p.report, None);
    assert!(p.scan);
}

#[test]
fn content_mode_directories_are_walked_not_scanned() {
    let mut o = opts("a");
    o.content = true;
    let s = search(o);
    let p = plan_entry(&s, ".", "a", EntryKind::Dir);
    assert!(!p.scan);
    assert!(!p.descend);
    assert_eq!(p.report, None);
}

#[test]
fn leading_backslash_escapes_dash() {
    assert_eq!(unescape_term("\\--foo"), "--foo");
    assert_eq!(unescape_term("\\\\--foo"), "\\--foo");
    assert_eq!(unescape_term("\\-"), "-");
    assert_eq!(unescape_term("\\a-b"), "\\a-b");
    assert_eq!(unescape_term("\\\\"), "\\\\");
    assert_eq!(unescape_term("plain"), "plain");
    assert_eq!(unescape_term(""), "");
    let s = search(opts("\\--help"));
    match &s.what {
        What::Text(t) => assert_eq!(t, "--help"),
        What::Regex(_) => panic!("expected a literal"),
    }
}

#[test]
fn invalid_regex_is_an_error() {
    let mut o = opts("a(b");
    o.regex = true;
    match Search::new(o) {
        Err(PredicateError::InvalidRegex(_)) => {}
        Ok(_) => panic!("an unbalanced group should not compile"),
    }
}

#[test]
fn regex_matches_and_replaces() {
    let mut o = opts("a+b");
    o.regex = true;
    let s = search(o);
    assert!(s.what.matches("xxaaab"));
    assert!(!s.what.matches("ba"));
    assert_eq!(s.what.replace("aab-ab-b", "X"), "X-X-b");
    let mut o = opts("(\\w+)@(\\w+)");
    o.regex = true;
    let s = search(o);
    assert_eq!(s.what.replace("me@host", "$2 at $1"), "host at me");
    assert_eq!(s.what.replace("no match here", "X"), "no match here");
}

#[test]
fn literal_replace_non_overlapping() {
    let s = search(opts("aa"));
    assert_eq!(s.what.replace("aaaa", "b"), "bb");
    assert_eq!(s.what.replace("aaa", "b"), "ba");
    assert_eq!(s.what.replace("xyz", "b"), "xyz");
    let e = search(opts(""));
    assert_eq!(e.what.replace("ab", "-"), "-a-b-");
    assert!(e.what.matches(""));
}

#[test]
fn paths_join_with_one_separator() {
    assert_eq!(join_path("a", "b"), "a/b");
    assert_eq!(join_path("a/", "b"), "a/b");
    assert_eq!(join_path("", "b"), "b");
    assert_eq!(join_path("/", "etc"), "/etc");
}

#[test]
fn extensions_like_path_extension() {
    assert_eq!(extension("a.txt"), Some("txt".to_string()));
    assert_eq!(extension("a.tar.gz"), Some("gz".to_string()));
    assert_eq!(extension(".bashrc"), None);
    assert_eq!(extension("noext"), None);
    assert_eq!(extension("a."), Some("".to_string()));
    assert_eq!(extension(".."), None);
    assert_eq!(extension("..."), Some("".to_string()));
    let exts = vec!["log".to_string(), "md".to_string()];
    assert!(is_ignored(&exts, "x.log"));
    assert!(!is_ignored(&exts, "x.LOG"));
    assert!(!is_ignored(&exts, "log"));
}

#[test]
fn sniffing_rejects_binary_types() {
    let png = [0x89u8, 0x50, 0x4E, 0x47, 0x0D, 0x0A, 0x1A, 0x0A, 0, 0, 0, 0];
    let s = search(opts("x"));
    assert!(keep_file(&s, "page.txt", b"<!DOCTYPE html><html></html>"));
    assert!(keep_file(&s, "words.txt", b"hello world\n"));
    assert!(!keep_file(&s, "image.txt", &png));
    assert!(keep_file(&s, "notes.txt", b"plain"));
}

#[test]
fn sorted_collector_orders_lines() {
    let mut col = Collector::new(true);
    assert_eq!(col.accept("./b"), None);
    assert_eq!(col.accept("a/"), None);
    assert_eq!(col.accept("./B"), None);
    assert_eq!(col.finish(), vec!["B".to_string(), "a/".to_string(), "b".to_string()]);
}

#[test]
fn sorted_output_is_independent_of_arrival_order() {
    let one = vec!["c".to_string(), "a".to_string(), "b".to_string(), "a".to_string()];
    let two = vec!["a".to_string(), "b".to_string(), "a".to_string(), "c".to_string()];
    assert_eq!(sort_lines(&one), sort_lines(&two));
    let expected: Vec<String> = vec!["a", "a", "b", "c"].into_iter().map(String::from).collect();
    assert_eq!(sort_lines(&one), expected);
}

#[test]
fn unsorted_collector_passes_lines_through() {
    let mut col = Collector::new(false);
    assert_eq!(col.accept("./x"), Some("x".to_string()));
    assert_eq!(col.accept("y"), Some("y".to_string()));
    assert!(col.finish().is_empty());
    assert_eq!(strip_dot_slash("./"), "");
    assert_eq!(strip_dot_slash("../a"), "../a");
}

#[test]
fn byte_order_comparison() {
    assert!(text_le("a", "b"));
    assert!(text_le("a", "ab"));
    assert!(!text_le("b", "a"));
    assert!(text_le("Z", "a"));
    assert!(text_le("", ""));
    assert!(text_le("z", "\u{e9}"));
}

#[test]
fn thread_count_does_not_change_results() {
    assert_eq!(worker_count(0), 1);
    assert_eq!(worker_count(8), 8);
    let mut o1 = opts("m");
    o1.threads = 1;
    let mut o8 = opts("m");
    o8.threads = 8;
    let (s1, s8) = (search(o1), search(o8));
    let mut r1 = Vec::new();
    let mut r8 = Vec::new();
    for i in 0..500 {
        let name = if i % 10 == 0 { format!("m{}", i) } else { format!("f{}", i) };
        r1.extend(plan_entry(&s1, ".", &name, EntryKind::File).report);
        r8.extend(plan_entry(&s8, ".", &name, EntryKind::File).report);
    }
    assert_eq!(r1.len(), 50);
    assert_eq!(sort_lines(&r1), sort_lines(&r8));
    assert_eq!(task_for(PathKind::Dir), Task::ListDir);
    assert_eq!(task_for(PathKind::File), Task::SearchFile);
    assert_eq!(task_for(PathKind::Other), Task::Skip);
}

#[test]
fn file_dispatch() {
    let mut o = opts("a");
    o.ignore_exts = vec!["bin".to_string()];
    let s = search(o);
    assert_eq!(file_action(&s, "x.bin", b"text"), FileAction::Skip);
    assert_eq!(file_action(&s, "x.txt", b"text"), FileAction::Scan);
    let mut o = opts("a");
    o.replace = Some("b".to_string());
    let s = search(o);
    assert_eq!(file_action(&s, "x.txt", b"text"), FileAction::Replace);
    let png = [0x89u8, 0x50, 0x4E, 0x47, 0x0D, 0x0A, 0x1A, 0x0A, 0, 0, 0, 0];
    assert_eq!(file_action(&s, "x.txt", &png), FileAction::Skip);
}
