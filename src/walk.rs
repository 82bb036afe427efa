//! What the walker does with each directory entry, and which files it scans.
use vstd::prelude::*;
use crate::request::Search;
use crate::text::{from_chars, opt_chars, to_chars};

verus! {

/// What a directory entry is, as its file type tells without following links.
#[derive(Clone, Copy, Debug, PartialEq, Eq, Structural)]
pub enum EntryKind {
    File,
    Dir,
    Symlink,
    Other,
}

/// What to do with one directory entry.
pub struct EntryPlan {
    /// The entry's path: the directory joined with its name.
    pub path: String,
    /// The line to report for a matching name.
    pub report: Option<String>,
    /// Scan (or replace in) the entry's contents now, on this worker.
    pub scan: bool,
    /// Queue the entry as a directory to walk.
    pub descend: bool,
}

/// `name` appended to `dir` as a path component.
pub open spec fn joined_path(dir: Seq<char>, name: Seq<char>) -> Seq<char> {
    if dir.len() == 0 {
        name
    } else if dir.last() == '/' {
        dir + name
    } else {
        dir + seq!['/'] + name
    }
}

/// The line reported for an entry whose name matches: directories end in `/`.
pub open spec fn name_report(path: Seq<char>, kind: EntryKind) -> Seq<char> {
    if kind == EntryKind::Dir {
        path + seq!['/']
    } else {
        path
    }
}

/// Names are matched only when neither contents are searched nor replaced.
pub open spec fn name_mode(s: &Search) -> bool {
    !s.opts.content && s.opts.replace is None
}

/// Whether the entry is reported by name.
pub open spec fn reports_name(s: &Search, name: Seq<char>, kind: EntryKind) -> bool {
    kind != EntryKind::Symlink && name_mode(s) && s.what.spec_matches(name)
}

/// Whether the entry's contents are scanned (or replaced in) in place: a
/// replacement implies content mode.
pub open spec fn scans_entry(s: &Search, kind: EntryKind) -> bool {
    kind != EntryKind::Symlink && (s.opts.content || s.opts.replace is Some) && kind
        != EntryKind::Dir
}

/// Whether the entry is walked as a directory of its own.
pub open spec fn descends(s: &Search, kind: EntryKind) -> bool {
    s.opts.recursive && kind == EntryKind::Dir
}

/// `name` with `/` appended to `dir` between them when needed.
pub fn join_path(dir: &str, name: &str) -> (r: String)
    ensures
        r@ == joined_path(dir@, name@),
{
    let mut out = to_chars(dir);
    let n = to_chars(name);
    if out.len() > 0 && out[out.len() - 1] != '/' {
        out.push('/');
    }
    let ghost start = out@;
    let mut i: usize = 0;
    while i < n.len()
        invariant
            i <= n.len(),
            out@ == start + n@.subrange(0, i as int),
        decreases n.len() - i,
    {
        out.push(n[i]);
        i += 1;
        assert(out@ =~= start + n@.subrange(0, i as int));
    }
    assert(n@.subrange(0, i as int) =~= n@);
    assert(out@ =~= joined_path(dir@, name@));
    from_chars(&out)
}

/// Decides what to do with the entry `name` of directory `dir`: symbolic links
/// are skipped; in name mode a matching name is reported (a directory with a
/// trailing `/`); in content or replace mode a non-directory is scanned at once; in
/// recursive mode a directory is queued.
pub fn plan_entry(s: &Search, dir: &str, name: &str, kind: EntryKind) -> (r: EntryPlan)
    ensures
        r.path@ == joined_path(dir@, name@),
        r.report is Some <==> reports_name(s, name@, kind),
        r.report matches Some(o) ==> o@ == name_report(joined_path(dir@, name@), kind),
        r.scan == scans_entry(s, kind),
        r.descend == descends(s, kind),
{
    let path = join_path(dir, name);
    if kind == EntryKind::Symlink {
        return EntryPlan { path, report: None, scan: false, descend: false };
    }
    if (s.opts.content || s.opts.replace.is_some()) && kind != EntryKind::Dir {
        return EntryPlan { path, report: None, scan: true, descend: false };
    }
    let mut report: Option<String> = None;
    if !s.opts.content && s.opts.replace.is_none() && s.what.matches(name) {
        let mut out = to_chars(path.as_str());
        if kind == EntryKind::Dir {
            out.push('/');
        }
        report = Some(from_chars(&out));
    }
    let descend = s.opts.recursive && kind == EntryKind::Dir;
    EntryPlan { path, report, scan: false, descend }
}

/// The position of the last `.` in `name`, or -1.
pub open spec fn last_dot(name: Seq<char>) -> int
    decreases name.len(),
{
    if name.len() == 0 {
        -1
    } else if name.last() == '.' {
        name.len() - 1
    } else {
        last_dot(name.drop_last())
    }
}

/// The extension of a file name: what follows its last `.`, unless that dot
/// starts the name or the name is `..`.
pub open spec fn extension_of(name: Seq<char>) -> Option<Seq<char>> {
    let d = last_dot(name);
    if name == seq!['.', '.'] || d <= 0 {
        None
    } else {
        Some(name.subrange(d + 1, name.len() as int))
    }
}

/// Whether a file with this name is never scanned for its extension.
pub open spec fn ignored(exts: Seq<String>, name: Seq<char>) -> bool {
    match extension_of(name) {
        Some(e) => exists|k: int| 0 <= k < exts.len() && exts[k]@ == e,
        None => false,
    }
}

proof fn lemma_last_dot(name: Seq<char>, i: int)
    requires
        0 <= i <= name.len(),
        forall|k: int| i <= k < name.len() ==> name[k] != '.',
    ensures
        last_dot(name) == last_dot(name.subrange(0, i)),
    decreases name.len() - i,
{
    if i < name.len() {
        lemma_last_dot(name, i + 1);
        assert(name.subrange(0, i + 1).drop_last() =~= name.subrange(0, i));
    } else {
        assert(name.subrange(0, i) =~= name);
    }
}

fn text_eq(a: &Vec<char>, b: &str) -> (r: bool)
    ensures
        r == (a@ == b@),
{
    let v = to_chars(b);
    if a.len() != v.len() {
        return false;
    }
    let mut i: usize = 0;
    while i < a.len()
        invariant
            a.len() == v.len(),
            v@ == b@,
            i <= a.len(),
            forall|k: int| 0 <= k < i ==> a@[k] == v@[k],
        decreases a.len() - i,
    {
        if a[i] != v[i] {
            assert(a@[i as int] != v@[i as int]);
            return false;
        }
        i += 1;
    }
    assert(a@ =~= v@);
    true
}

/// The extension of the file name `name`, as `Path::extension` finds it.
pub fn extension(name: &str) -> (r: Option<String>)
    ensures
        opt_chars(r) == extension_of(name@),
{
    let v = to_chars(name);
    if v.len() == 2 && v[0] == '.' && v[1] == '.' {
        assert(v@ =~= seq!['.', '.']);
        return None;
    }
    let mut i: usize = v.len();
    while i > 0 && v[i - 1] != '.'
        invariant
            i <= v.len(),
            forall|k: int| i <= k < v.len() ==> v@[k] != '.',
        decreases i,
    {
        i -= 1;
    }
    proof {
        lemma_last_dot(v@, i as int);
        if i > 0 {
            assert(v@.subrange(0, i as int).last() == '.');
        }
    }
    if i <= 1 {
        return None;
    }
    let mut out: Vec<char> = Vec::new();
    let mut k: usize = i;
    while k < v.len()
        invariant
            i <= k <= v.len(),
            out@ == v@.subrange(i as int, k as int),
        decreases v.len() - k,
    {
        out.push(v[k]);
        k += 1;
        assert(out@ =~= v@.subrange(i as int, k as int));
    }
    Some(from_chars(&out))
}

/// Whether the extension of `name` is one of `exts` (compared exactly).
pub fn is_ignored(exts: &Vec<String>, name: &str) -> (r: bool)
    ensures
        r == ignored(exts@, name@),
{
    match extension(name) {
        None => false,
        Some(e) => {
            let ev = to_chars(e.as_str());
            let mut k: usize = 0;
            while k < exts.len()
                invariant
                    k <= exts.len(),
                    ev@ == e@,
                    extension_of(name@) == Some(e@),
                    forall|j: int| 0 <= j < k ==> exts@[j]@ != e@,
                decreases exts.len() - k,
            {
                if text_eq(&ev, exts[k].as_str()) {
                    return true;
                }
                k += 1;
            }
            false
        },
    }
}

/// What `infer` makes of a file's first bytes: `None` when it knows no type
/// for them, `Some(true)` for a text type, `Some(false)` for any other type.
pub uninterp spec fn inferred_text(b: Seq<u8>) -> Option<bool>;

/// Relies on `infer::get`: the type its matchers find for the bytes, and
/// whether that type is of the text kind.
#[verifier::external_body]
pub(crate) fn sniff_text(buf: &[u8]) -> (r: Option<bool>)
    ensures
        r == inferred_text(buf@),
{
    infer::get(buf).map(|k| k.matcher_type() == infer::MatcherType::Text)
}

/// Whether a file is searched: its extension is not ignored, and its inferred
/// type, if any, is text.
pub open spec fn keeps_file(exts: Seq<String>, name: Seq<char>, head: Seq<u8>) -> bool {
    !ignored(exts, name) && inferred_text(head) != Some(false)
}

/// Decides whether to scan the file `name` whose first bytes are `head`.
pub fn keep_file(s: &Search, name: &str, head: &[u8]) -> (r: bool)
    ensures
        r == keeps_file(s.opts.ignore_exts@, name@, head@),
{
    if is_ignored(&s.opts.ignore_exts, name) {
        return false;
    }
    match sniff_text(head) {
        Some(false) => false,
        _ => true,
    }
}

/// What becomes of a file that reaches the walker.
#[derive(Clone, Copy, Debug, PartialEq, Eq, Structural)]
pub enum FileAction {
    /// Its extension is ignored, or it is not text.
    Skip,
    /// Search its lines.
    Scan,
    /// Replace matches in it.
    Replace,
}

/// Decides what to do with the file `name` whose first bytes are `head`:
/// skip it when filtered out, else replace in it when a replacement is asked
/// for, else scan it.
pub fn file_action(s: &Search, name: &str, head: &[u8]) -> (r: FileAction)
    ensures
        r == if !keeps_file(s.opts.ignore_exts@, name@, head@) {
            FileAction::Skip
        } else if s.opts.replace is Some {
            FileAction::Replace
        } else {
            FileAction::Scan
        },
{
    if !keep_file(s, name, head) {
        FileAction::Skip
    } else if s.opts.replace.is_some() {
        FileAction::Replace
    } else {
        FileAction::Scan
    }
}

} // verus!
