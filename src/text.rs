//! Character-level text operations, each stated over `Seq<char>`.
use vstd::prelude::*;

verus! {

/// `p` occurs in `t` starting at position `i`.
pub open spec fn occurs_at(t: Seq<char>, p: Seq<char>, i: int) -> bool {
    0 <= i && i + p.len() <= t.len() && t.subrange(i, i + p.len()) == p
}

/// `p` occurs somewhere in `t` (the empty pattern occurs everywhere).
pub open spec fn contains(t: Seq<char>, p: Seq<char>) -> bool {
    exists|i: int| occurs_at(t, p, i)
}

/// Every non-overlapping occurrence of `p` in `t`, scanning left to right,
/// replaced by `to`. An empty `p` matches before every character and at the end.
pub open spec fn replaced(t: Seq<char>, p: Seq<char>, to: Seq<char>) -> Seq<char>
    decreases t.len(),
{
    if p.len() == 0 {
        if t.len() == 0 {
            to
        } else {
            to + seq![t[0]] + replaced(t.drop_first(), p, to)
        }
    } else if t.len() < p.len() {
        t
    } else if t.subrange(0, p.len() as int) == p {
        to + replaced(t.subrange(p.len() as int, t.len() as int), p, to)
    } else {
        seq![t[0]] + replaced(t.drop_first(), p, to)
    }
}

/// ASCII lower-casing of one character; every other character is kept.
pub open spec fn lower_char(c: char) -> char {
    if 'A' <= c && c <= 'Z' {
        ((c as u32) + 32) as u8 as char
    } else {
        c
    }
}

/// ASCII lower-casing of a whole text.
pub open spec fn ascii_lower(s: Seq<char>) -> Seq<char> {
    s.map_values(|c: char| lower_char(c))
}

/// The decimal digit for `d < 10`.
pub open spec fn digit(d: nat) -> char {
    ((48 + d) as u8) as char
}

/// The decimal rendering of `n`, without leading zeros.
pub open spec fn dec(n: nat) -> Seq<char>
    decreases n,
{
    if n < 10 {
        seq![digit(n)]
    } else {
        dec(n / 10) + seq![digit(n % 10)]
    }
}

/// The characters of an optional string.
pub open spec fn opt_chars(o: Option<String>) -> Option<Seq<char>> {
    match o {
        Some(t) => Some(t@),
        None => None,
    }
}

/// Relies on `str::chars`: the characters of `s`, in order.
#[verifier::external_body]
pub(crate) fn to_chars(s: &str) -> (r: Vec<char>)
    ensures
        r@ == s@,
{
    s.chars().collect()
}

/// Relies on `String: FromIterator<char>`: the string made of `v`'s characters.
#[verifier::external_body]
pub(crate) fn from_chars(v: &Vec<char>) -> (r: String)
    ensures
        r@ == v@,
{
    v.iter().collect()
}

/// Whether `p` occurs in `t` at position `i`.
pub fn occurs_at_exec(t: &Vec<char>, p: &Vec<char>, i: usize) -> (r: bool)
    ensures
        r == occurs_at(t@, p@, i as int),
{
    if i > t.len() || p.len() > t.len() - i {
        return false;
    }
    let mut j: usize = 0;
    while j < p.len()
        invariant
            i + p.len() <= t.len(),
            j <= p.len(),
            forall|k: int| 0 <= k < j ==> t@[i + k] == p@[k],
        decreases p.len() - j,
    {
        if t[i + j] != p[j] {
            assert(t@.subrange(i as int, i + p.len())[j as int] != p@[j as int]);
            return false;
        }
        j += 1;
    }
    assert(t@.subrange(i as int, i + p.len()) =~= p@);
    true
}

/// Whether `p` occurs anywhere in `t`.
pub fn contains_exec(t: &Vec<char>, p: &Vec<char>) -> (r: bool)
    ensures
        r == contains(t@, p@),
{
    if p.len() > t.len() {
        assert forall|i: int| !occurs_at(t@, p@, i) by {}
        return false;
    }
    let last = t.len() - p.len();
    let mut i: usize = 0;
    while i < last
        invariant
            last == t.len() - p.len(),
            i <= last,
            forall|k: int| 0 <= k < i ==> !occurs_at(t@, p@, k),
        decreases last - i,
    {
        if occurs_at_exec(t, p, i) {
            return true;
        }
        i += 1;
    }
    if occurs_at_exec(t, p, last) {
        return true;
    }
    assert forall|k: int| !occurs_at(t@, p@, k) by {
        if 0 <= k && k < last {
        }
    }
    false
}

/// A text in which the pattern does not occur is left as it is.
pub proof fn lemma_replaced_no_match(t: Seq<char>, p: Seq<char>, to: Seq<char>)
    requires
        !contains(t, p),
    ensures
        replaced(t, p, to) == t,
    decreases t.len(),
{
    if p.len() == 0 {
        assert(occurs_at(t, p, 0)) by {
            assert(t.subrange(0, 0) =~= p);
        }
    } else if t.len() >= p.len() {
        assert(!occurs_at(t, p, 0));
        assert forall|i: int| !occurs_at(t.drop_first(), p, i) by {
            if occurs_at(t.drop_first(), p, i) {
                assert(t.drop_first().subrange(i, i + p.len()) =~= t.subrange(i + 1, i + 1 + p.len()));
                assert(occurs_at(t, p, i + 1));
            }
        }
        lemma_replaced_no_match(t.drop_first(), p, to);
        assert(t =~= seq![t[0]] + t.drop_first());
    }
}

proof fn lemma_replaced_step_match(t: Seq<char>, p: Seq<char>, to: Seq<char>, i: int)
    requires
        p.len() > 0,
        occurs_at(t, p, i),
    ensures
        replaced(t.subrange(i, t.len() as int), p, to) == to + replaced(
            t.subrange(i + p.len(), t.len() as int),
            p,
            to,
        ),
{
    let s = t.subrange(i, t.len() as int);
    assert(s.subrange(0, p.len() as int) =~= t.subrange(i, i + p.len()));
    assert(s.subrange(p.len() as int, s.len() as int) =~= t.subrange(i + p.len(), t.len() as int));
}

proof fn lemma_replaced_step_skip(t: Seq<char>, p: Seq<char>, to: Seq<char>, i: int)
    requires
        p.len() > 0,
        0 <= i,
        i + p.len() <= t.len(),
        !occurs_at(t, p, i),
    ensures
        replaced(t.subrange(i, t.len() as int), p, to) == seq![t[i]] + replaced(
            t.subrange(i + 1, t.len() as int),
            p,
            to,
        ),
{
    let s = t.subrange(i, t.len() as int);
    assert(s.subrange(0, p.len() as int) =~= t.subrange(i, i + p.len()));
    assert(s.drop_first() =~= t.subrange(i + 1, t.len() as int));
}

proof fn lemma_replaced_empty_step(t: Seq<char>, p: Seq<char>, to: Seq<char>, i: int)
    requires
        p.len() == 0,
        0 <= i < t.len(),
    ensures
        replaced(t.subrange(i, t.len() as int), p, to) == to + seq![t[i]] + replaced(
            t.subrange(i + 1, t.len() as int),
            p,
            to,
        ),
{
    let s = t.subrange(i, t.len() as int);
    assert(s.drop_first() =~= t.subrange(i + 1, t.len() as int));
}

fn append_all(out: &mut Vec<char>, s: &Vec<char>)
    ensures
        final(out)@ == old(out)@ + s@,
{
    let mut k: usize = 0;
    while k < s.len()
        invariant
            k <= s.len(),
            out@ == old(out)@ + s@.subrange(0, k as int),
        decreases s.len() - k,
    {
        out.push(s[k]);
        k += 1;
        assert(s@.subrange(0, k as int) =~= s@.subrange(0, k - 1) + seq![s@[k - 1]]);
    }
    assert(s@.subrange(0, k as int) =~= s@);
}

/// `t` with every non-overlapping occurrence of `p` replaced by `to`.
pub fn replace_exec(t: &Vec<char>, p: &Vec<char>, to: &Vec<char>) -> (r: Vec<char>)
    ensures
        r@ == replaced(t@, p@, to@),
{
    let mut out: Vec<char> = Vec::new();
    let mut i: usize = 0;
    assert(t@.subrange(0, t@.len() as int) =~= t@);
    if p.len() == 0 {
        while i < t.len()
            invariant
                p@.len() == 0,
                i <= t.len(),
                out@ + replaced(t@.subrange(i as int, t@.len() as int), p@, to@) == replaced(
                    t@,
                    p@,
                    to@,
                ),
            decreases t.len() - i,
        {
            proof {
                lemma_replaced_empty_step(t@, p@, to@, i as int);
            }
            let ghost before = out@;
            append_all(&mut out, to);
            out.push(t[i]);
            assert(out@ == before + (to@ + seq![t@[i as int]]));
            i += 1;
        }
        assert(t@.subrange(i as int, t@.len() as int).len() == 0);
        append_all(&mut out, to);
        return out;
    }
    while i < t.len()
        invariant
            p@.len() > 0,
            i <= t.len(),
            out@ + replaced(t@.subrange(i as int, t@.len() as int), p@, to@) == replaced(
                t@,
                p@,
                to@,
            ),
        decreases t.len() - i,
    {
        if p.len() > t.len() - i {
            let ghost rest = t@.subrange(i as int, t@.len() as int);
            assert(replaced(rest, p@, to@) == rest);
            let ghost before = out@;
            while i < t.len()
                invariant
                    i <= t.len(),
                    before + rest == out@ + t@.subrange(i as int, t@.len() as int),
                decreases t.len() - i,
            {
                assert(t@.subrange(i as int, t@.len() as int) =~= seq![t@[i as int]]
                    + t@.subrange(i + 1, t@.len() as int));
                out.push(t[i]);
                i += 1;
            }
            assert(t@.subrange(i as int, t@.len() as int) =~= Seq::<char>::empty());
            assert(out@ =~= replaced(t@, p@, to@));
            return out;
        }
        if occurs_at_exec(t, p, i) {
            proof {
                lemma_replaced_step_match(t@, p@, to@, i as int);
            }
            append_all(&mut out, to);
            i += p.len();
        } else {
            proof {
                lemma_replaced_step_skip(t@, p@, to@, i as int);
            }
            let ghost before = out@;
            out.push(t[i]);
            assert(out@ == before + seq![t@[i as int]]);
            i += 1;
        }
    }
    assert(t@.subrange(i as int, t@.len() as int).len() == 0);
    assert(out@ =~= replaced(t@, p@, to@));
    out
}

/// ASCII lower-casing of one character.
pub fn lower_char_exec(c: char) -> (r: char)
    ensures
        r == lower_char(c),
{
    if 'A' <= c && c <= 'Z' {
        ((c as u32) + 32) as u8 as char
    } else {
        c
    }
}

/// Lower-cases the ASCII letters of `v` in place.
pub fn make_ascii_lower(v: &mut Vec<char>)
    ensures
        final(v)@ == ascii_lower(old(v)@),
{
    let mut i: usize = 0;
    while i < v.len()
        invariant
            i <= v.len(),
            v@.len() == old(v)@.len(),
            forall|k: int| 0 <= k < i ==> v@[k] == lower_char(old(v)@[k]),
            forall|k: int| i <= k < v@.len() ==> v@[k] == old(v)@[k],
        decreases v.len() - i,
    {
        let c = lower_char_exec(v[i]);
        v.set(i, c);
        i += 1;
    }
    assert(v@ =~= ascii_lower(old(v)@));
}

/// Appends the decimal rendering of `n` to `out`.
pub fn push_dec(out: &mut Vec<char>, n: usize)
    ensures
        final(out)@ == old(out)@ + dec(n as nat),
    decreases n,
{
    if n >= 10 {
        push_dec(out, n / 10);
    }
    let d = (48 + n % 10) as u8 as char;
    out.push(d);
    assert(out@ =~= old(out)@ + dec(n as nat));
}

} // verus!
