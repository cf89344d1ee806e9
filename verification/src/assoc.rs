//! Tables keyed by text: a vector of (key, value) pairs in which no key occurs
//! twice, seen as a map from the key's characters to the value's view.
use vstd::prelude::*;

verus! {

/// The keys of a table, as text.
pub open spec fn key_views<V>(s: Seq<(String, V)>) -> Seq<Seq<char>> {
    s.map_values(|e: (String, V)| e.0@)
}

/// No key occurs twice.
pub open spec fn unique_keys<V>(s: Seq<(String, V)>) -> bool {
    key_views(s).no_duplicates()
}

/// The table as a map.
pub open spec fn table_view<V: View>(s: Seq<(String, V)>) -> Map<Seq<char>, V::V> {
    Map::new(
        |k: Seq<char>| key_views(s).contains(k),
        |k: Seq<char>| s[key_views(s).index_of(k)].1@,
    )
}

/// Where a key occurs, `index_of` finds it.
pub proof fn lemma_index_of(ks: Seq<Seq<char>>, a: Seq<char>)
    requires
        ks.contains(a),
    ensures
        0 <= ks.index_of(a) < ks.len(),
        ks[ks.index_of(a)] == a,
{
}

/// The entry at `i` is what the map holds for its key.
pub proof fn lemma_table_at<V: View>(s: Seq<(String, V)>, i: int)
    requires
        unique_keys(s),
        0 <= i < s.len(),
    ensures
        table_view(s).contains_key(s[i].0@),
        table_view(s)[s[i].0@] == s[i].1@,
{
    let ks = key_views(s);
    assert(ks[i] == s[i].0@);
    assert(ks.contains(s[i].0@));
    let j = ks.index_of(s[i].0@);
    assert(ks[j] == s[i].0@);
}

/// Adding an entry whose key is new adds that key to the map.
pub proof fn lemma_table_push<V: View>(s: Seq<(String, V)>, k: String, v: V)
    requires
        unique_keys(s),
        !key_views(s).contains(k@),
    ensures
        unique_keys(s.push((k, v))),
        table_view(s.push((k, v))) == table_view(s).insert(k@, v@),
{
    let t = s.push((k, v));
    let m = table_view(s).insert(k@, v@);
    assert(key_views(t) =~= key_views(s).push(k@));
    assert forall|a: Seq<char>| table_view(t).contains_key(a) <==> m.contains_key(a) by {
        if key_views(t).contains(a) {
            let j = key_views(t).index_of(a);
            lemma_index_of(key_views(t), a);
            if j < s.len() {
                assert(key_views(s)[j] == a);
            }
        }
        if key_views(s).contains(a) {
            let j = key_views(s).index_of(a);
            lemma_index_of(key_views(s), a);
            assert(key_views(t)[j] == a);
        }
        if a == k@ {
            assert(key_views(t)[s.len() as int] == a);
        }
    }
    assert forall|a: Seq<char>| #[trigger] table_view(t).contains_key(a) implies table_view(t)[a]
        == m[a] by {
        if a == k@ {
            lemma_table_at(t, s.len() as int);
        } else {
            let j = key_views(t).index_of(a);
            lemma_index_of(key_views(t), a);
            assert(j < s.len());
            assert(key_views(s)[j] == a);
            lemma_table_at(s, j);
            lemma_table_at(t, j);
        }
    }
    assert(table_view(t) =~= m);
}

/// Replacing the value of an entry replaces it in the map.
pub proof fn lemma_table_update<V: View>(s: Seq<(String, V)>, i: int, v: V)
    requires
        unique_keys(s),
        0 <= i < s.len(),
    ensures
        unique_keys(s.update(i, (s[i].0, v))),
        table_view(s.update(i, (s[i].0, v))) == table_view(s).insert(s[i].0@, v@),
{
    let t = s.update(i, (s[i].0, v));
    let m = table_view(s).insert(s[i].0@, v@);
    assert(key_views(t) =~= key_views(s));
    lemma_table_at(s, i);
    assert forall|a: Seq<char>| table_view(t).contains_key(a) <==> m.contains_key(a) by {}
    assert forall|a: Seq<char>| #[trigger] table_view(t).contains_key(a) implies table_view(t)[a]
        == m[a] by {
        let j = key_views(t).index_of(a);
        lemma_index_of(key_views(t), a);
        lemma_table_at(t, j);
        if j != i {
            assert(key_views(s)[j] != key_views(s)[i]);
            lemma_table_at(s, j);
        }
    }
    assert(table_view(t) =~= m);
}

/// Removing an entry removes its key from the map.
pub proof fn lemma_table_remove<V: View>(s: Seq<(String, V)>, i: int)
    requires
        unique_keys(s),
        0 <= i < s.len(),
    ensures
        unique_keys(s.remove(i)),
        table_view(s.remove(i)) == table_view(s).remove(s[i].0@),
{
    let t = s.remove(i);
    assert(key_views(t) =~= key_views(s).remove(i));
    let k = s[i].0@;
    let m = table_view(s).remove(k);
    assert(key_views(s)[i] == k);
    assert forall|a: Seq<char>| table_view(t).contains_key(a) <==> m.contains_key(a) by {
        if key_views(t).contains(a) {
            let j = key_views(t).index_of(a);
            lemma_index_of(key_views(t), a);
            let js = if j < i { j } else { j + 1 };
            assert(key_views(s)[js] == a);
            assert(js != i);
        }
        if key_views(s).contains(a) && a != k {
            let j = key_views(s).index_of(a);
            lemma_index_of(key_views(s), a);
            assert(j != i);
            let jt = if j < i { j } else { j - 1 };
            assert(key_views(t)[jt] == a);
        }
    }
    assert forall|a: Seq<char>| #[trigger] table_view(t).contains_key(a) implies table_view(t)[a]
        == m[a] by {
        let j = key_views(t).index_of(a);
        lemma_index_of(key_views(t), a);
        lemma_table_at(t, j);
        let js = if j < i { j } else { j + 1 };
        assert(s[js] == t[j]);
        lemma_table_at(s, js);
    }
    assert(table_view(t) =~= m);
}

/// The place of the entry with key `key`, if there is one.
pub fn find_key<V>(s: &Vec<(String, V)>, key: &str) -> (r: Option<usize>)
    ensures
        match r {
            Some(i) => i < s.len() && s@[i as int].0@ == key@,
            None => !key_views(s@).contains(key@),
        },
{
    let mut i: usize = 0;
    while i < s.len()
        invariant
            i <= s.len(),
            forall|j: int| 0 <= j < i ==> s@[j].0@ != key@,
        decreases s.len() - i,
    {
        if crate::text::str_eq(s[i].0.as_str(), key) {
            return Some(i);
        }
        i += 1;
    }
    assert forall|j: int| 0 <= j < s@.len() implies key_views(s@)[j] != key@ by {}
    None
}

} // verus!
