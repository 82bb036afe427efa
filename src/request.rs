//! The search request: options as given, and the prepared predicate.
use vstd::prelude::*;
use crate::predicate::{regex_valid, CompiledRegex, PredicateError, What};
use crate::text::{ascii_lower, from_chars, make_ascii_lower, to_chars};

verus! {

/// The options of one run, as the command line gives them.
pub struct Options {
    /// What to search for, before normalisation.
    pub what: String,
    /// Search file contents instead of names.
    pub content: bool,
    /// Descend into subdirectories.
    pub recursive: bool,
    /// Match without regard to ASCII case.
    pub insensitive: bool,
    /// Sort the results before printing them.
    pub sort: bool,
    /// Do not report recoverable errors.
    pub mute: bool,
    /// Report the number of matching lines.
    pub counts: bool,
    /// Treat the term as a regular expression.
    pub regex: bool,
    /// Report the numbers of matching lines.
    pub linenos: bool,
    /// Replace matches in file contents with this text.
    pub replace: Option<String>,
    /// File extensions whose files are never scanned.
    pub ignore_exts: Vec<String>,
    /// Number of worker threads.
    pub threads: usize,
    /// Roots to search.
    pub paths: Vec<String>,
}

/// `s` has a `-` that only backslashes precede.
pub open spec fn dash_after_backslashes(s: Seq<char>) -> bool {
    exists|i: int| 0 <= i < s.len() && s[i] == '-' && forall|j: int| 0 <= j < i ==> s[j] == '\\'
}

/// The term with one leading backslash removed where it escapes a leading dash
/// (`\--foo` is `--foo`, `\\--foo` is `\--foo`).
pub open spec fn unescaped(w: Seq<char>) -> Seq<char> {
    if w.len() > 0 && w[0] == '\\' && dash_after_backslashes(w.drop_first()) {
        w.drop_first()
    } else {
        w
    }
}

/// The pattern a request searches with.
pub open spec fn prepared_term(w: Seq<char>, insensitive: bool) -> Seq<char> {
    if insensitive {
        ascii_lower(unescaped(w))
    } else {
        unescaped(w)
    }
}

/// `w` is the predicate for `term`: compiled when `regex`, literal otherwise.
pub open spec fn built_from(w: What, regex: bool, term: Seq<char>) -> bool {
    match w {
        What::Regex(c) => regex && c.pattern() == term,
        What::Text(t) => !regex && t@ == term,
    }
}

/// The roots a request searches: the current directory when none is given.
pub open spec fn effective_roots(paths: Seq<String>) -> Seq<Seq<char>> {
    if paths.len() == 0 {
        seq![seq!['.']]
    } else {
        paths.map_values(|p: String| p@)
    }
}

/// Removes the escaping backslash of a term that starts with `\` and whose
/// first character past the backslashes is a `-`.
pub fn unescape_term(w: &str) -> (r: String)
    ensures
        r@ == unescaped(w@),
{
    let v = to_chars(w);
    if v.len() == 0 || v[0] != '\\' {
        return from_chars(&v);
    }
    let ghost tail = v@.drop_first();
    let mut i: usize = 1;
    while i < v.len()
        invariant
            1 <= i <= v.len(),
            v@ == w@,
            v@[0] == '\\',
            tail == v@.drop_first(),
            forall|j: int| 1 <= j < i ==> v@[j] == '\\',
        decreases v.len() - i,
    {
        if v[i] == '-' {
            assert(tail[i - 1] == '-');
            assert forall|j: int| 0 <= j < i - 1 implies tail[j] == '\\' by {
                assert(v@[j + 1] == '\\');
            }
            let mut out: Vec<char> = Vec::new();
            let mut k: usize = 1;
            while k < v.len()
                invariant
                    1 <= k <= v.len(),
                    out@ == v@.subrange(1, k as int),
                decreases v.len() - k,
            {
                out.push(v[k]);
                k += 1;
                assert(out@ =~= v@.subrange(1, k as int));
            }
            assert(out@ =~= tail);
            assert(dash_after_backslashes(tail));
            return from_chars(&out);
        }
        if v[i] != '\\' {
            assert forall|m: int| 0 <= m < tail.len() && tail[m] == '-' implies !(forall|j: int|
                0 <= j < m ==> tail[j] == '\\') by {
                assert(tail[i - 1] != '\\');
                assert(m + 1 != i as int);
                if m + 1 > i {
                    assert(0 <= i - 1 < m);
                } else {
                    assert(v@[m + 1] == '\\');
                }
            }
            assert(!dash_after_backslashes(tail));
            return from_chars(&v);
        }
        i += 1;
    }
    assert forall|m: int| 0 <= m < tail.len() implies tail[m] != '-' by {
        assert(v@[m + 1] == '\\');
    }
    from_chars(&v)
}

/// One search: its options, with the roots filled in, and its predicate.
pub struct Search {
    pub opts: Options,
    pub what: What,
}

impl Search {
    /// Prepares a search: unescapes the term, lower-cases it when the search
    /// ignores case, compiles it when it is a regular expression, and searches
    /// the current directory when no root is given.
    pub fn new(opts: Options) -> (r: Result<Search, PredicateError>)
        ensures
            r.is_ok() == (!opts.regex || regex_valid(prepared_term(opts.what@, opts.insensitive))),
            r matches Ok(s) ==> {
                &&& built_from(s.what, opts.regex, prepared_term(opts.what@, opts.insensitive))
                &&& s.opts.paths@.map_values(|p: String| p@) == effective_roots(opts.paths@)
                &&& s.opts.what == opts.what
                &&& s.opts.content == opts.content
                &&& s.opts.recursive == opts.recursive
                &&& s.opts.insensitive == opts.insensitive
                &&& s.opts.sort == opts.sort
                &&& s.opts.mute == opts.mute
                &&& s.opts.counts == opts.counts
                &&& s.opts.regex == opts.regex
                &&& s.opts.linenos == opts.linenos
                &&& s.opts.replace == opts.replace
                &&& s.opts.ignore_exts == opts.ignore_exts
                &&& s.opts.threads == opts.threads
            },
    {
        let mut opts = opts;
        let term = unescape_term(opts.what.as_str());
        let mut tv = to_chars(term.as_str());
        if opts.insensitive {
            make_ascii_lower(&mut tv);
        }
        let term = from_chars(&tv);
        let what = if opts.regex {
            match CompiledRegex::compile(term.as_str()) {
                Ok(c) => What::Regex(c),
                Err(e) => {
                    return Err(PredicateError::InvalidRegex(e));
                },
            }
        } else {
            What::Text(term)
        };
        if opts.paths.len() == 0 {
            let mut roots: Vec<String> = Vec::new();
            let mut dot: Vec<char> = Vec::new();
            dot.push('.');
            roots.push(from_chars(&dot));
            opts.paths = roots;
            assert(opts.paths@.map_values(|p: String| p@) =~= seq![seq!['.']]);
        }
        Ok(Search { opts, what })
    }
}

} // verus!
