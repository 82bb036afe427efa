//! Collecting the reported lines: printed as they come, or sorted at the end.
use vstd::prelude::*;
use crate::text::{from_chars, to_chars};

verus! {

/// The characters of each string.
pub open spec fn texts(v: Seq<String>) -> Seq<Seq<char>> {
    v.map_values(|s: String| s@)
}

/// Lexicographic order on texts by code point, which is the byte order of
/// their UTF-8 encodings.
pub open spec fn lex_le(a: Seq<char>, b: Seq<char>) -> bool
    decreases a.len(),
{
    if a.len() == 0 {
        true
    } else if b.len() == 0 {
        false
    } else if a[0] != b[0] {
        a[0] < b[0]
    } else {
        lex_le(a.drop_first(), b.drop_first())
    }
}

/// Every text is at most every later one.
pub open spec fn sorted(s: Seq<Seq<char>>) -> bool {
    forall|i: int, j: int| 0 <= i < j < s.len() ==> lex_le(s[i], s[j])
}

/// A reported line as printed: without a leading `./`.
pub open spec fn shown(found: Seq<char>) -> Seq<char> {
    if found.len() >= 2 && found[0] == '.' && found[1] == '/' {
        found.subrange(2, found.len() as int)
    } else {
        found
    }
}

/// Any two texts are ordered one way or the other.
pub proof fn lemma_lex_total(a: Seq<char>, b: Seq<char>)
    ensures
        lex_le(a, b) || lex_le(b, a),
    decreases a.len(),
{
    if a.len() > 0 && b.len() > 0 && a[0] == b[0] {
        lemma_lex_total(a.drop_first(), b.drop_first());
    }
}

/// The order is transitive.
pub proof fn lemma_lex_trans(a: Seq<char>, b: Seq<char>, c: Seq<char>)
    requires
        lex_le(a, b),
        lex_le(b, c),
    ensures
        lex_le(a, c),
    decreases a.len(),
{
    if a.len() > 0 && b.len() > 0 && c.len() > 0 && a[0] == b[0] && b[0] == c[0] {
        lemma_lex_trans(a.drop_first(), b.drop_first(), c.drop_first());
    }
}

/// Texts ordered both ways are equal.
pub proof fn lemma_lex_antisym(a: Seq<char>, b: Seq<char>)
    requires
        lex_le(a, b),
        lex_le(b, a),
    ensures
        a == b,
    decreases a.len(),
{
    if a.len() > 0 && b.len() > 0 {
        lemma_lex_antisym(a.drop_first(), b.drop_first());
        assert(a =~= seq![a[0]] + a.drop_first());
        assert(b =~= seq![b[0]] + b.drop_first());
    } else {
        assert(a =~= b);
    }
}

/// Sorting settles the order completely: two sorted sequences holding the same
/// lines, each as often, are identical. So sorted output depends only on which
/// lines were reported, never on the order the workers reported them in.
pub proof fn lemma_sorted_unique(a: Seq<Seq<char>>, b: Seq<Seq<char>>)
    requires
        sorted(a),
        sorted(b),
        a.to_multiset() == b.to_multiset(),
    ensures
        a == b,
    decreases a.len(),
{
    broadcast use vstd::seq_lib::group_to_multiset_ensures;

    assert(a.len() == a.to_multiset().len());
    assert(b.len() == b.to_multiset().len());
    if a.len() == 0 {
        assert(a =~= b);
        return;
    }
    assert(a.contains(a[0]));
    assert(b.to_multiset().count(a[0]) > 0);
    assert(b.contains(a[0]));
    let j = choose|j: int| 0 <= j < b.len() && b[j] == a[0];
    assert(b.contains(b[0]));
    assert(a.to_multiset().count(b[0]) > 0);
    assert(a.contains(b[0]));
    let i = choose|i: int| 0 <= i < a.len() && a[i] == b[0];
    if a[0] != b[0] {
        assert(lex_le(a[0], a[i]));
        assert(lex_le(b[0], b[j]));
        lemma_lex_antisym(a[0], b[0]);
    }
    assert(a.remove(0) =~= a.drop_first());
    assert(b.remove(0) =~= b.drop_first());
    assert(a.drop_first().to_multiset() =~= a.to_multiset().remove(a[0]));
    assert(b.drop_first().to_multiset() =~= b.to_multiset().remove(b[0]));
    assert(sorted(a.drop_first())) by {
        assert forall|x: int, y: int| 0 <= x < y < a.drop_first().len() implies lex_le(
            a.drop_first()[x],
            a.drop_first()[y],
        ) by {
            assert(lex_le(a[x + 1], a[y + 1]));
        }
    }
    assert(sorted(b.drop_first())) by {
        assert forall|x: int, y: int| 0 <= x < y < b.drop_first().len() implies lex_le(
            b.drop_first()[x],
            b.drop_first()[y],
        ) by {
            assert(lex_le(b[x + 1], b[y + 1]));
        }
    }
    lemma_sorted_unique(a.drop_first(), b.drop_first());
    assert(a =~= seq![a[0]] + a.drop_first());
    assert(b =~= seq![b[0]] + b.drop_first());
}

/// Two sorted runs that collected the same lines, each as often, print the
/// same lines in the same order, whatever order the lines arrived in.
pub proof fn lemma_sorted_runs_agree(
    seen1: Seq<Seq<char>>,
    out1: Seq<Seq<char>>,
    seen2: Seq<Seq<char>>,
    out2: Seq<Seq<char>>,
)
    requires
        sorted(out1),
        out1.to_multiset() == seen1.to_multiset(),
        sorted(out2),
        out2.to_multiset() == seen2.to_multiset(),
        seen1.to_multiset() == seen2.to_multiset(),
    ensures
        out1 == out2,
{
    lemma_sorted_unique(out1, out2);
}

/// Whether `a` comes no later than `b` in sorted output.
pub fn text_le(a: &str, b: &str) -> (r: bool)
    ensures
        r == lex_le(a@, b@),
{
    let x = to_chars(a);
    let y = to_chars(b);
    let mut i: usize = 0;
    assert(x@.subrange(0, x@.len() as int) =~= x@);
    assert(y@.subrange(0, y@.len() as int) =~= y@);
    while i < x.len() && i < y.len() && x[i] == y[i]
        invariant
            i <= x.len(),
            i <= y.len(),
            lex_le(x@, y@) == lex_le(x@.subrange(i as int, x@.len() as int), y@.subrange(i as int, y@.len() as int)),
        decreases x.len() - i,
    {
        let ghost xs = x@.subrange(i as int, x@.len() as int);
        let ghost ys = y@.subrange(i as int, y@.len() as int);
        assert(xs.drop_first() =~= x@.subrange(i + 1, x@.len() as int));
        assert(ys.drop_first() =~= y@.subrange(i + 1, y@.len() as int));
        i += 1;
    }
    let ghost xs = x@.subrange(i as int, x@.len() as int);
    let ghost ys = y@.subrange(i as int, y@.len() as int);
    if i == x.len() {
        assert(xs.len() == 0);
        true
    } else if i == y.len() {
        assert(ys.len() == 0);
        false
    } else {
        assert(xs[0] == x@[i as int]);
        assert(ys[0] == y@[i as int]);
        x[i] < y[i]
    }
}

/// `found` without a leading `./`.
pub fn strip_dot_slash(found: &str) -> (r: String)
    ensures
        r@ == shown(found@),
{
    let v = to_chars(found);
    if v.len() >= 2 && v[0] == '.' && v[1] == '/' {
        let mut out: Vec<char> = Vec::new();
        let mut k: usize = 2;
        while k < v.len()
            invariant
                2 <= k <= v.len(),
                out@ == v@.subrange(2, k as int),
            decreases v.len() - k,
        {
            out.push(v[k]);
            k += 1;
            assert(out@ =~= v@.subrange(2, k as int));
        }
        from_chars(&out)
    } else {
        from_chars(&v)
    }
}

/// The lines of `v` in sorted order.
pub fn sort_lines(v: &Vec<String>) -> (r: Vec<String>)
    ensures
        sorted(texts(r@)),
        texts(r@).to_multiset() == texts(v@).to_multiset(),
{
    broadcast use vstd::seq_lib::group_to_multiset_ensures;

    let mut out: Vec<String> = Vec::new();
    let mut i: usize = 0;
    assert(texts(v@).subrange(0, 0) =~= Seq::<Seq<char>>::empty());
    assert(texts(out@) =~= Seq::<Seq<char>>::empty());
    while i < v.len()
        invariant
            i <= v.len(),
            sorted(texts(out@)),
            texts(out@).to_multiset() == texts(v@).subrange(0, i as int).to_multiset(),
        decreases v.len() - i,
    {
        let x = v[i].clone();
        let mut p: usize = 0;
        while p < out.len() && text_le(out[p].as_str(), x.as_str())
            invariant
                p <= out.len(),
                x@ == v@[i as int]@,
                forall|k: int| 0 <= k < p ==> lex_le(#[trigger] out@[k]@, x@),
            decreases out.len() - p,
        {
            p += 1;
        }
        let ghost before = texts(out@);
        proof {
            if p < out.len() {
                lemma_lex_total(out@[p as int]@, x@);
            }
        }
        out.insert(p, x);
        assert(texts(out@) =~= before.insert(p as int, x@));
        assert(sorted(texts(out@))) by {
            assert forall|a: int, b: int| 0 <= a < b < texts(out@).len() implies lex_le(
                texts(out@)[a],
                texts(out@)[b],
            ) by {
                if a < p && b == p {
                } else if a == p && b > p {
                    if b > p + 1 {
                        lemma_lex_trans(x@, before[p as int], before[b - 1]);
                    }
                } else if a < p && b > p {
                    assert(lex_le(before[a], before[b - 1]));
                } else if a > p {
                    assert(lex_le(before[a - 1], before[b - 1]));
                } else {
                    assert(lex_le(before[a], before[b]));
                }
            }
        }
        assert(texts(v@).subrange(0, i + 1) =~= texts(v@).subrange(0, i as int).push(x@));
        proof {
            vstd::seq_lib::to_multiset_insert(before, p as int, x@);
            vstd::seq_lib::to_multiset_build(texts(v@).subrange(0, i as int), x@);
        }
        i += 1;
    }
    assert(texts(v@).subrange(0, i as int) =~= texts(v@));
    out
}

/// Collects the reported lines: in unsorted mode each is handed back to be
/// printed at once; in sorted mode they are kept until the end.
pub struct Collector {
    sort: bool,
    kept: Vec<String>,
    seen: Ghost<Seq<Seq<char>>>,
}

impl Collector {
    /// The lines accepted so far, as printed.
    pub closed spec fn seen(&self) -> Seq<Seq<char>> {
        self.seen@
    }

    /// Whether the lines are sorted before they are printed.
    pub closed spec fn sorts(&self) -> bool {
        self.sort
    }

    pub closed spec fn wf(&self) -> bool {
        self.sort ==> texts(self.kept@) == self.seen@
    }

    /// An empty collector.
    pub fn new(sort: bool) -> (r: Collector)
        ensures
            r.wf(),
            r.sorts() == sort,
            r.seen() == Seq::<Seq<char>>::empty(),
    {
        let r = Collector { sort, kept: Vec::new(), seen: Ghost(Seq::empty()) };
        assert(texts(r.kept@) =~= Seq::<Seq<char>>::empty());
        r
    }

    /// Accepts one reported line; gives it back, without a leading `./`, when
    /// it is to be printed now.
    pub fn accept(&mut self, found: &str) -> (r: Option<String>)
        requires
            old(self).wf(),
        ensures
            final(self).wf(),
            final(self).sorts() == old(self).sorts(),
            final(self).seen() == old(self).seen().push(shown(found@)),
            r is Some <==> !old(self).sorts(),
            r matches Some(o) ==> o@ == shown(found@),
    {
        let line = strip_dot_slash(found);
        self.seen = Ghost(self.seen@.push(line@));
        if self.sort {
            let ghost before = self.kept@;
            self.kept.push(line);
            assert(texts(self.kept@) =~= texts(before).push(shown(found@)));
            None
        } else {
            Some(line)
        }
    }

    /// The lines still to print once every line has come: in sorted mode all
    /// of them, sorted; otherwise none.
    pub fn finish(&self) -> (r: Vec<String>)
        requires
            self.wf(),
        ensures
            self.sorts() ==> sorted(texts(r@)) && texts(r@).to_multiset() == self.seen().to_multiset(),
            !self.sorts() ==> r@.len() == 0,
    {
        if self.sort {
            sort_lines(&self.kept)
        } else {
            Vec::new()
        }
    }
}

} // verus!
