//! The worker pool's decisions: how many workers run, and what becomes of a
//! path taken from the work queue.
use vstd::prelude::*;
use crate::request::Search;
use crate::scan::{hits, report};
use crate::walk::{descends, keeps_file, reports_name, scans_entry, EntryKind};

verus! {

/// The number of workers for a requested thread count: at least one.
pub fn worker_count(threads: usize) -> (r: usize)
    ensures
        r == if threads == 0 { 1 } else { threads },
        r >= 1,
{
    if threads == 0 {
        1
    } else {
        threads
    }
}

/// What a path taken from the work queue is, following links.
#[derive(Clone, Copy, Debug, PartialEq, Eq, Structural)]
pub enum PathKind {
    Dir,
    File,
    Other,
}

/// What a worker does with a path from the work queue.
#[derive(Clone, Copy, Debug, PartialEq, Eq, Structural)]
pub enum Task {
    /// List the directory and plan each entry.
    ListDir,
    /// Filter the file, then scan or replace in it.
    SearchFile,
    /// Nothing.
    Skip,
}

/// Directories are listed, files searched, anything else left alone.
pub fn task_for(kind: PathKind) -> (r: Task)
    ensures
        r == match kind {
            PathKind::Dir => Task::ListDir,
            PathKind::File => Task::SearchFile,
            PathKind::Other => Task::Skip,
        },
{
    match kind {
        PathKind::Dir => Task::ListDir,
        PathKind::File => Task::SearchFile,
        PathKind::Other => Task::Skip,
    }
}

/// Two searches that differ at most in their thread count.
pub open spec fn same_but_threads(a: &Search, b: &Search) -> bool {
    &&& a.what == b.what
    &&& a.opts.what == b.opts.what
    &&& a.opts.content == b.opts.content
    &&& a.opts.recursive == b.opts.recursive
    &&& a.opts.insensitive == b.opts.insensitive
    &&& a.opts.sort == b.opts.sort
    &&& a.opts.mute == b.opts.mute
    &&& a.opts.counts == b.opts.counts
    &&& a.opts.regex == b.opts.regex
    &&& a.opts.linenos == b.opts.linenos
    &&& a.opts.replace == b.opts.replace
    &&& a.opts.ignore_exts == b.opts.ignore_exts
    &&& a.opts.paths == b.opts.paths
}

proof fn lemma_hits_ignore_threads(a: &Search, b: &Search, lines: Seq<Seq<char>>)
    requires
        same_but_threads(a, b),
    ensures
        hits(a, lines) == hits(b, lines),
    decreases lines.len(),
{
    if lines.len() > 0 {
        lemma_hits_ignore_threads(a, b, lines.drop_last());
    }
}

/// The number of workers changes nothing that is reported: every decision on
/// an entry, every file filter and every line reported for a file are the same
/// for two searches that differ only in their thread count.
pub proof fn lemma_thread_count_invariance(
    a: &Search,
    b: &Search,
    name: Seq<char>,
    kind: EntryKind,
    head: Seq<u8>,
    path: Seq<char>,
    lines: Seq<Seq<char>>,
)
    requires
        same_but_threads(a, b),
    ensures
        reports_name(a, name, kind) == reports_name(b, name, kind),
        scans_entry(a, kind) == scans_entry(b, kind),
        descends(a, kind) == descends(b, kind),
        keeps_file(a.opts.ignore_exts@, name, head) == keeps_file(b.opts.ignore_exts@, name, head),
        report(a, path, lines) == report(b, path, lines),
{
    lemma_hits_ignore_threads(a, b, lines);
}

/// Symbolic links are neither reported, nor scanned, nor walked into.
pub proof fn lemma_symlinks_skipped(s: &Search, name: Seq<char>)
    ensures
        !reports_name(s, name, EntryKind::Symlink),
        !scans_entry(s, EntryKind::Symlink),
        !descends(s, EntryKind::Symlink),
{
}

} // verus!
