//! The order of texts that `str`'s `Ord` uses (character by character, by
//! code point), and sorting by it.
use crate::text::{chars_of, views};
use vstd::prelude::*;

verus! {

/// `a` comes before `b`.
pub open spec fn text_lt(a: Seq<char>, b: Seq<char>) -> bool
    decreases a.len(),
{
    if a.len() == 0 {
        b.len() > 0
    } else if b.len() == 0 {
        false
    } else if a[0] < b[0] {
        true
    } else if a[0] > b[0] {
        false
    } else {
        text_lt(a.drop_first(), b.drop_first())
    }
}

/// Each text comes before the next, so none occurs twice.
pub open spec fn strictly_sorted(s: Seq<Seq<char>>) -> bool {
    forall|i: int, j: int| 0 <= i < j < s.len() ==> text_lt(#[trigger] s[i], #[trigger] s[j])
}

/// Of two different texts, one comes before the other.
pub proof fn lemma_lt_total(a: Seq<char>, b: Seq<char>)
    ensures
        text_lt(a, b) || text_lt(b, a) || a == b,
    decreases a.len(),
{
    if a.len() > 0 && b.len() > 0 && a[0] == b[0] {
        lemma_lt_total(a.drop_first(), b.drop_first());
        if a.drop_first() == b.drop_first() {
            assert(a =~= seq![a[0]] + a.drop_first());
            assert(b =~= seq![b[0]] + b.drop_first());
        }
    } else if a.len() == 0 && b.len() == 0 {
        assert(a =~= b);
    }
}

/// The order of texts is transitive.
pub proof fn lemma_lt_transitive(a: Seq<char>, b: Seq<char>, c: Seq<char>)
    requires
        text_lt(a, b),
        text_lt(b, c),
    ensures
        text_lt(a, c),
    decreases a.len(),
{
    if a.len() > 0 && b.len() > 0 && c.len() > 0 && a[0] == b[0] && b[0] == c[0] {
        lemma_lt_transitive(a.drop_first(), b.drop_first(), c.drop_first());
    }
}

/// Whether `a` comes before `b`.
pub fn str_lt(a: &str, b: &str) -> (r: bool)
    ensures
        r == text_lt(a@, b@),
{
    let x = chars_of(a);
    let y = chars_of(b);
    let mut i: usize = 0;
    assert(a@.skip(0) =~= a@);
    assert(b@.skip(0) =~= b@);
    while i < x.len() && i < y.len()
        invariant
            x@ == a@,
            y@ == b@,
            i <= x.len(),
            i <= y.len(),
            text_lt(a@, b@) == text_lt(a@.skip(i as int), b@.skip(i as int)),
        decreases x.len() - i,
    {
        let ghost sa = a@.skip(i as int);
        let ghost sb = b@.skip(i as int);
        assert(sa[0] == x@[i as int]);
        assert(sb[0] == y@[i as int]);
        if x[i] < y[i] {
            return true;
        }
        if x[i] > y[i] {
            return false;
        }
        assert(sa.drop_first() =~= a@.skip(i + 1));
        assert(sb.drop_first() =~= b@.skip(i + 1));
        i += 1;
    }
    assert(a@.skip(i as int).len() == x.len() - i);
    assert(b@.skip(i as int).len() == y.len() - i);
    i == x.len() && i < y.len()
}

/// The texts of `v` in order, each once.
pub fn sort_unique(v: &Vec<String>) -> (r: Vec<String>)
    ensures
        strictly_sorted(views(r@)),
        views(r@).to_set() == views(v@).to_set(),
{
    let mut r: Vec<String> = Vec::new();
    let mut i: usize = 0;
    while i < v.len()
        invariant
            i <= v.len(),
            strictly_sorted(views(r@)),
            views(r@).to_set() == views(v@).take(i as int).to_set(),
        decreases v.len() - i,
    {
        let x = &v[i];
        let ghost before = views(r@);
        // the first place whose text does not come before `x`
        let mut p: usize = 0;
        while p < r.len() && str_lt(r[p].as_str(), x.as_str())
            invariant
                p <= r.len(),
                views(r@) == before,
                forall|k: int| 0 <= k < p ==> text_lt(#[trigger] before[k], x@),
            decreases r.len() - p,
        {
            p += 1;
        }
        let dup = p < r.len() && crate::text::str_eq(r[p].as_str(), x.as_str());
        if !dup {
            proof {
                if p < r.len() {
                    lemma_lt_total(before[p as int], x@);
                }
            }
            r.insert(p, x.clone());
            proof {
                let after = views(r@);
                assert(after =~= before.insert(p as int, x@));
                assert forall|a: int, b: int| 0 <= a < b < after.len() implies text_lt(
                    #[trigger] after[a],
                    #[trigger] after[b],
                ) by {
                    if b == p {
                        assert(after[a] == before[a]);
                    } else if a == p {
                        assert(after[b] == before[b - 1]);
                        if b - 1 > p {
                            lemma_lt_transitive(x@, before[p as int], before[b - 1]);
                        }
                    } else {
                        let a0 = if a < p { a } else { a - 1 };
                        let b0 = if b < p { b } else { b - 1 };
                        assert(after[a] == before[a0]);
                        assert(after[b] == before[b0]);
                    }
                }
                crate::lemmas::lemma_insert_to_set(before, p as int, x@);
            }
        }
        proof {
            let t = views(v@).take(i + 1);
            assert(t =~= views(v@).take(i as int).push(x@));
            crate::lemmas::lemma_push_to_set(views(v@).take(i as int), x@);
            if dup {
                assert(before.to_set().contains(x@)) by {
                    assert(before[p as int] == x@);
                }
                assert(before.to_set().insert(x@) =~= before.to_set());
            }
        }
        i += 1;
    }
    assert(views(v@).take(i as int) =~= views(v@));
    r
}

} // verus!
