//! Searching a file's lines: which lines match, and the line reported for the file.
use vstd::prelude::*;
use crate::request::Search;
use crate::text::{ascii_lower, dec, opt_chars, from_chars, make_ascii_lower, push_dec, to_chars};

verus! {

/// The line as the predicate sees it: lower-cased when the search ignores case.
pub open spec fn prepared_line(line: Seq<char>, insensitive: bool) -> Seq<char> {
    if insensitive {
        ascii_lower(line)
    } else {
        line
    }
}

/// Whether `line` matches the search.
pub open spec fn line_hit(s: &Search, line: Seq<char>) -> bool {
    s.what.spec_matches(prepared_line(line, s.opts.insensitive))
}

/// The 1-based numbers of the matching lines, in increasing order.
pub open spec fn hits(s: &Search, lines: Seq<Seq<char>>) -> Seq<nat>
    decreases lines.len(),
{
    if lines.len() == 0 {
        seq![]
    } else {
        let prev = hits(s, lines.drop_last());
        if line_hit(s, lines.last()) {
            prev.push(lines.len())
        } else {
            prev
        }
    }
}

/// Numbers in decimal, separated by commas.
pub open spec fn joined(ns: Seq<nat>) -> Seq<char>
    decreases ns.len(),
{
    if ns.len() == 0 {
        seq![]
    } else if ns.len() == 1 {
        dec(ns[0])
    } else {
        joined(ns.drop_last()) + seq![','] + dec(ns.last())
    }
}

/// The separator between the fields of a reported line.
pub open spec fn bar() -> Seq<char> {
    seq![' ', '|', ' ']
}

/// A count as it is reported: in parentheses.
pub open spec fn paren_count(n: nat) -> Seq<char> {
    seq!['('] + dec(n) + seq![')']
}

/// Neither line numbers nor counts are asked for: the file is reported at its
/// first matching line.
pub open spec fn first_hit_mode(s: &Search) -> bool {
    !s.opts.linenos && !s.opts.counts
}

/// The line reported once all of `lines` has been read, in line-number or count
/// mode: `path | 3,7,9`, `path | 3,7,9 | (3)` or `path | (3)`; nothing when no
/// line matched.
pub open spec fn summary(s: &Search, path: Seq<char>, lines: Seq<Seq<char>>) -> Option<Seq<char>> {
    let h = hits(s, lines);
    if first_hit_mode(s) || h.len() == 0 {
        None
    } else if s.opts.linenos {
        if s.opts.counts {
            Some(path + bar() + joined(h) + bar() + paren_count(h.len()))
        } else {
            Some(path + bar() + joined(h))
        }
    } else {
        Some(path + bar() + paren_count(h.len()))
    }
}

/// The line reported for a file with these lines, if any: the bare path when
/// some line matches and neither line numbers nor counts are asked for, the
/// summary otherwise.
pub open spec fn report(s: &Search, path: Seq<char>, lines: Seq<Seq<char>>) -> Option<Seq<char>> {
    if first_hit_mode(s) {
        if hits(s, lines).len() > 0 {
            Some(path)
        } else {
            None
        }
    } else {
        summary(s, path, lines)
    }
}

proof fn lemma_hits_bounded(s: &Search, lines: Seq<Seq<char>>)
    ensures
        hits(s, lines).len() <= lines.len(),
        forall|k: int| 0 <= k < hits(s, lines).len() ==> 1 <= #[trigger] hits(s, lines)[k] <= lines.len(),
    decreases lines.len(),
{
    if lines.len() > 0 {
        lemma_hits_bounded(s, lines.drop_last());
    }
}

/// The reported line numbers strictly increase, start at 1 or later, and
/// never pass the number of lines read.
pub proof fn lemma_hits_increasing(s: &Search, lines: Seq<Seq<char>>)
    ensures
        forall|i: int, j: int|
            0 <= i < j < hits(s, lines).len() ==> #[trigger] hits(s, lines)[i] < #[trigger] hits(
                s,
                lines,
            )[j],
        forall|k: int| 0 <= k < hits(s, lines).len() ==> 1 <= #[trigger] hits(s, lines)[k] <= lines.len(),
    decreases lines.len(),
{
    lemma_hits_bounded(s, lines);
    if lines.len() > 0 {
        lemma_hits_increasing(s, lines.drop_last());
        lemma_hits_bounded(s, lines.drop_last());
    }
}

/// Whether `line` matches the search, after lower-casing it when the search
/// ignores case.
pub fn line_matches(s: &Search, line: &str) -> (r: bool)
    ensures
        r == line_hit(s, line@),
{
    if s.opts.insensitive {
        let mut v = to_chars(line);
        make_ascii_lower(&mut v);
        let l = from_chars(&v);
        s.what.matches(l.as_str())
    } else {
        s.what.matches(line)
    }
}

/// The state of a scan through one file, fed one line at a time.
pub struct LineScan {
    seen: usize,
    count: usize,
    linenos: Vec<usize>,
    lines: Ghost<Seq<Seq<char>>>,
}

impl LineScan {
    /// The lines fed so far.
    pub closed spec fn lines(&self) -> Seq<Seq<char>> {
        self.lines@
    }

    /// The scan's counters agree with the lines fed so far.
    pub closed spec fn wf(&self, s: &Search) -> bool {
        &&& self.seen as nat == self.lines@.len()
        &&& self.count as nat == hits(s, self.lines@).len()
        &&& s.opts.linenos ==> self.linenos@.map_values(|n: usize| n as nat) == hits(s, self.lines@)
    }

    /// In first-match mode the file is done at its first matching line.
    pub open spec fn stopped(&self, s: &Search) -> bool {
        first_hit_mode(s) && hits(s, self.lines()).len() > 0
    }

    /// A scan that has read nothing yet.
    pub fn new(s: &Search) -> (r: LineScan)
        ensures
            r.wf(s),
            r.lines() == Seq::<Seq<char>>::empty(),
    {
        let r = LineScan { seen: 0, count: 0, linenos: Vec::new(), lines: Ghost(Seq::empty()) };
        assert(r.linenos@.map_values(|n: usize| n as nat) =~= Seq::<nat>::empty());
        r
    }

    /// Feeds the next line. In first-match mode a matching line gives the path
    /// to report, and the file is done.
    pub fn feed(&mut self, s: &Search, path: &str, line: &str) -> (r: Option<String>)
        requires
            old(self).wf(s),
            old(self).lines().len() < usize::MAX,
            !old(self).stopped(s),
        ensures
            final(self).wf(s),
            final(self).lines() == old(self).lines().push(line@),
            r is Some <==> (first_hit_mode(s) && line_hit(s, line@)),
            r matches Some(o) ==> o@ == path@,
    {
        let ghost old_lines = self.lines@;
        let ghost new_lines = old_lines.push(line@);
        assert(new_lines.drop_last() =~= old_lines);
        proof {
            lemma_hits_bounded(s, old_lines);
        }
        self.lines = Ghost(new_lines);
        self.seen = self.seen + 1;
        if line_matches(s, line) {
            self.count = self.count + 1;
            if s.opts.linenos {
                let ghost before = self.linenos@;
                self.linenos.push(self.seen);
                assert(self.linenos@.map_values(|n: usize| n as nat) =~= before.map_values(
                    |n: usize| n as nat,
                ).push(self.seen as nat));
            }
            if !s.opts.linenos && !s.opts.counts {
                return Some(from_chars(&to_chars(path)));
            }
        }
        None
    }

    /// The line to report once the whole file has been read: the summary of
    /// line numbers and counts, or nothing.
    pub fn finish(&self, s: &Search, path: &str) -> (r: Option<String>)
        requires
            self.wf(s),
        ensures
            opt_chars(r) == summary(s, path@, self.lines()),
    {
        if (!s.opts.linenos && !s.opts.counts) || self.count == 0 {
            return None;
        }
        let mut out = to_chars(path);
        let ghost h = hits(s, self.lines@);
        if s.opts.linenos {
            push_bar(&mut out);
            let ghost start = out@;
            let mut k: usize = 0;
            while k < self.linenos.len()
                invariant
                    k <= self.linenos.len(),
                    self.linenos@.map_values(|n: usize| n as nat) == h,
                    h.len() > 0,
                    out@ == start + joined(h.subrange(0, k as int)),
                decreases self.linenos.len() - k,
            {
                let ghost prev = out@;
                if k > 0 {
                    out.push(',');
                }
                push_dec(&mut out, self.linenos[k]);
                proof {
                    let hk = h.subrange(0, k + 1);
                    assert(hk.drop_last() =~= h.subrange(0, k as int));
                    assert(hk.last() == self.linenos@[k as int] as nat);
                    if k == 0 {
                        assert(joined(h.subrange(0, 0)) =~= Seq::<char>::empty());
                    }
                }
                k += 1;
            }
            assert(h.subrange(0, k as int) =~= h);
            if s.opts.counts {
                push_bar(&mut out);
                push_paren_count(&mut out, self.count);
            }
        } else {
            push_bar(&mut out);
            push_paren_count(&mut out, self.count);
        }
        Some(from_chars(&out))
    }
}

fn push_bar(out: &mut Vec<char>)
    ensures
        final(out)@ == old(out)@ + bar(),
{
    out.push(' ');
    out.push('|');
    out.push(' ');
    assert(final(out)@ =~= old(out)@ + bar());
}

fn push_paren_count(out: &mut Vec<char>, n: usize)
    ensures
        final(out)@ == old(out)@ + paren_count(n as nat),
{
    out.push('(');
    push_dec(out, n);
    out.push(')');
    assert(final(out)@ =~= old(out)@ + paren_count(n as nat));
}

/// The line reported for a file whose lines are `lines`, read top to bottom
/// and no further than the first match when that settles it.
pub fn scan_lines(s: &Search, path: &str, lines: &Vec<String>) -> (r: Option<String>)
    requires
        lines.len() < usize::MAX,
    ensures
        opt_chars(r) == report(s, path@, lines@.map_values(|l: String| l@)),
{
    let ghost all = lines@.map_values(|l: String| l@);
    let mut scan = LineScan::new(s);
    let mut i: usize = 0;
    while i < lines.len()
        invariant
            i <= lines.len(),
            lines.len() < usize::MAX,
            all == lines@.map_values(|l: String| l@),
            scan.wf(s),
            scan.lines() == all.subrange(0, i as int),
            !scan.stopped(s),
        decreases lines.len() - i,
    {
        let found = scan.feed(s, path, lines[i].as_str());
        assert(all.subrange(0, i + 1) =~= all.subrange(0, i as int).push(lines@[i as int]@));
        assert(scan.lines().drop_last() =~= all.subrange(0, i as int));
        i += 1;
        if let Some(p) = found {
            proof {
                lemma_hits_prefix(s, all, i as int);
            }
            return Some(p);
        }
    }
    assert(all.subrange(0, i as int) =~= all);
    scan.finish(s, path)
}

proof fn lemma_hits_prefix(s: &Search, lines: Seq<Seq<char>>, i: int)
    requires
        0 <= i <= lines.len(),
        hits(s, lines.subrange(0, i)).len() > 0,
    ensures
        hits(s, lines).len() > 0,
    decreases lines.len() - i,
{
    if i < lines.len() {
        assert(lines.subrange(0, i + 1).drop_last() =~= lines.subrange(0, i));
        lemma_hits_prefix(s, lines, i + 1);
    } else {
        assert(lines.subrange(0, i) =~= lines);
    }
}

} // verus!
