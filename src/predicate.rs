//! The search predicate: a literal text or a compiled regular expression.
use vstd::prelude::*;
use crate::text::{
    contains, contains_exec, from_chars, lemma_replaced_no_match, replace_exec, replaced, to_chars,
};

verus! {

#[verifier::external_type_specification]
#[verifier::external_body]
pub struct ExRegex(regex::Regex);

#[verifier::external_type_specification]
#[verifier::external_body]
pub struct ExRegexError(regex::Error);

/// Whether `regex::Regex::new` accepts the pattern `p`.
pub uninterp spec fn regex_valid(p: Seq<char>) -> bool;

/// Whether the regular expression `p` matches somewhere in `t`.
pub uninterp spec fn regex_found(p: Seq<char>, t: Seq<char>) -> bool;

/// `t` with every non-overlapping match of `p` replaced by the expansion of `to`.
pub uninterp spec fn regex_replaced(p: Seq<char>, t: Seq<char>, to: Seq<char>) -> Seq<char>;

/// A regular expression together with the pattern it was compiled from.
/// Only `compile` builds one, so the two always agree.
pub struct CompiledRegex {
    re: regex::Regex,
    pattern: String,
}

impl CompiledRegex {
    /// The pattern this expression was compiled from.
    pub closed spec fn pattern(&self) -> Seq<char> {
        self.pattern@
    }

    /// Relies on `regex::Regex::new`: it fails exactly on the patterns it rejects.
    #[verifier::external_body]
    pub(crate) fn compile(p: &str) -> (r: Result<CompiledRegex, regex::Error>)
        ensures
            r.is_ok() == regex_valid(p@),
            r matches Ok(c) ==> c.pattern() == p@,
    {
        match regex::Regex::new(p) {
            Ok(re) => Ok(CompiledRegex { re, pattern: p.to_string() }),
            Err(e) => Err(e),
        }
    }

    /// Relies on `regex::Regex::is_match`: whether the expression matches anywhere in `t`.
    #[verifier::external_body]
    pub(crate) fn is_match(&self, t: &str) -> (r: bool)
        ensures
            r == regex_found(self.pattern(), t@),
    {
        self.re.is_match(t)
    }

    /// Relies on `regex::Regex::replace_all`: every match replaced by `to`, with
    /// capture references in `to` expanded; with no match, the text unchanged.
    #[verifier::external_body]
    pub(crate) fn replace_all(&self, t: &str, to: &str) -> (r: String)
        ensures
            r@ == regex_replaced(self.pattern(), t@, to@),
            !regex_found(self.pattern(), t@) ==> r@ == t@,
    {
        self.re.replace_all(t, to).into_owned()
    }
}

/// Why a predicate could not be built.
pub enum PredicateError {
    /// The pattern is not a valid regular expression.
    InvalidRegex(regex::Error),
}

/// What to look for.
pub enum What {
    /// A literal text, found as a substring.
    Text(String),
    /// A regular expression, found anywhere in the text.
    Regex(CompiledRegex),
}

impl What {
    /// Whether the predicate holds of `t`.
    pub open spec fn spec_matches(&self, t: Seq<char>) -> bool {
        match self {
            What::Text(s) => contains(t, s@),
            What::Regex(r) => regex_found(r.pattern(), t),
        }
    }

    /// `t` with every match replaced by `to`.
    pub open spec fn spec_replace(&self, t: Seq<char>, to: Seq<char>) -> Seq<char> {
        match self {
            What::Text(s) => replaced(t, s@, to),
            What::Regex(r) => regex_replaced(r.pattern(), t, to),
        }
    }

    /// Whether `text` matches: substring containment for a literal, a search
    /// anywhere for a regular expression.
    pub fn matches(&self, text: &str) -> (r: bool)
        ensures
            r == self.spec_matches(text@),
    {
        match self {
            What::Text(s) => {
                let t = to_chars(text);
                let p = to_chars(s.as_str());
                contains_exec(&t, &p)
            },
            What::Regex(re) => re.is_match(text),
        }
    }

    /// `text` with all non-overlapping matches replaced by `to`; a text with no
    /// match comes back unchanged.
    pub fn replace(&self, text: &str, to: &str) -> (r: String)
        ensures
            r@ == self.spec_replace(text@, to@),
            !self.spec_matches(text@) ==> r@ == text@,
    {
        match self {
            What::Text(s) => {
                proof {
                    if !contains(text@, s@) {
                        lemma_replaced_no_match(text@, s@, to@);
                    }
                }
                let t = to_chars(text);
                let p = to_chars(s.as_str());
                let w = to_chars(to);
                let out = replace_exec(&t, &p, &w);
                from_chars(&out)
            },
            What::Regex(re) => re.replace_all(text, to),
        }
    }
}

} // verus!
