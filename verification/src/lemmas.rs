//! Facts about sequences and the sets of their elements.
use vstd::prelude::*;

verus! {

/// The elements of `s` with `x` added are those of `s` and `x`.
pub proof fn lemma_push_to_set<A>(s: Seq<A>, x: A)
    ensures
        s.push(x).to_set() == s.to_set().insert(x),
{
    assert forall|a: A| s.push(x).to_set().contains(a) <==> s.to_set().insert(x).contains(a) by {
        if s.contains(a) {
            let i = choose|i: int| 0 <= i < s.len() && s[i] == a;
            assert(s.push(x)[i] == a);
        }
        if s.push(x).contains(a) && a != x {
            let i = choose|i: int| 0 <= i < s.push(x).len() && s.push(x)[i] == a;
            assert(i < s.len());
            assert(s[i] == a);
        }
        if a == x {
            assert(s.push(x)[s.len() as int] == x);
        }
    }
    assert(s.push(x).to_set() =~= s.to_set().insert(x));
}

/// Removing the element at `i` from a sequence without repetitions removes it
/// from its set, and leaves no repetitions.
pub proof fn lemma_remove_to_set<A>(s: Seq<A>, i: int)
    requires
        s.no_duplicates(),
        0 <= i < s.len(),
    ensures
        s.remove(i).to_set() == s.to_set().remove(s[i]),
        s.remove(i).no_duplicates(),
{
    let t = s.remove(i);
    assert forall|a: A| t.to_set().contains(a) <==> s.to_set().remove(s[i]).contains(a) by {
        if t.contains(a) {
            let k = choose|k: int| 0 <= k < t.len() && t[k] == a;
            let ks = if k < i { k } else { k + 1 };
            assert(s[ks] == a);
            assert(ks != i);
        }
        if s.contains(a) && a != s[i] {
            let k = choose|k: int| 0 <= k < s.len() && s[k] == a;
            assert(k != i);
            let kt = if k < i { k } else { k - 1 };
            assert(t[kt] == a);
        }
    }
    assert(t.to_set() =~= s.to_set().remove(s[i]));
    assert forall|a: int, b: int| 0 <= a < t.len() && 0 <= b < t.len() && a != b implies t[a]
        != t[b] by {
        let sa = if a < i { a } else { a + 1 };
        let sb = if b < i { b } else { b + 1 };
        assert(t[a] == s[sa]);
        assert(t[b] == s[sb]);
    }
}

/// Adding a new element to a sequence without repetitions leaves none.
pub proof fn lemma_push_no_duplicates<A>(s: Seq<A>, x: A)
    requires
        s.no_duplicates(),
        !s.contains(x),
    ensures
        s.push(x).no_duplicates(),
{
    assert forall|a: int, b: int| 0 <= a < s.push(x).len() && 0 <= b < s.push(x).len() && a != b
        implies s.push(x)[a] != s.push(x)[b] by {
        if a == s.len() {
            assert(s[b] == s.push(x)[b]);
        } else if b == s.len() {
            assert(s[a] == s.push(x)[a]);
        }
    }
}

} // verus!

verus! {

/// Inserting an element into a sequence adds it to its set.
pub proof fn lemma_insert_to_set<A>(s: Seq<A>, i: int, x: A)
    requires
        0 <= i <= s.len(),
    ensures
        s.insert(i, x).to_set() == s.to_set().insert(x),
{
    let t = s.insert(i, x);
    assert forall|a: A| t.to_set().contains(a) <==> s.to_set().insert(x).contains(a) by {
        if t.contains(a) {
            let k = choose|k: int| 0 <= k < t.len() && t[k] == a;
            if k < i {
                assert(s[k] == a);
            } else if k > i {
                assert(s[k - 1] == a);
            }
        }
        if s.contains(a) {
            let k = choose|k: int| 0 <= k < s.len() && s[k] == a;
            if k < i {
                assert(t[k] == a);
            } else {
                assert(t[k + 1] == a);
            }
        }
        if a == x {
            assert(t[i] == x);
        }
    }
    assert(t.to_set() =~= s.to_set().insert(x));
}

} // verus!
