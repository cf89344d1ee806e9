//! The table behind the file list: a vector of (path, data) entries in which
//! no two paths have the same components, seen as two maps keyed by the
//! components of a path: one to the data, one to the text the path was first
//! known by.
use crate::data::files::{FileData, FileDataView};
use crate::path::{path_components, paths_equal};
use vstd::prelude::*;

verus! {

/// The components of each entry's path.
pub open spec fn entry_keys(s: Seq<(String, FileData)>) -> Seq<Seq<Seq<char>>> {
    s.map_values(|e: (String, FileData)| path_components(e.0@))
}

/// No two entries name the same path.
pub open spec fn distinct_paths(s: Seq<(String, FileData)>) -> bool {
    entry_keys(s).no_duplicates()
}

/// The data of each path, by its components.
pub open spec fn table_data(s: Seq<(String, FileData)>) -> Map<Seq<Seq<char>>, FileDataView> {
    Map::new(
        |k: Seq<Seq<char>>| entry_keys(s).contains(k),
        |k: Seq<Seq<char>>| s[entry_keys(s).index_of(k)].1@,
    )
}

/// The text each path is known by, by its components.
pub open spec fn table_names(s: Seq<(String, FileData)>) -> Map<Seq<Seq<char>>, Seq<char>> {
    Map::new(
        |k: Seq<Seq<char>>| entry_keys(s).contains(k),
        |k: Seq<Seq<char>>| s[entry_keys(s).index_of(k)].0@,
    )
}

/// Where a key occurs, `index_of` finds it.
pub proof fn lemma_key_index(ks: Seq<Seq<Seq<char>>>, a: Seq<Seq<char>>)
    requires
        ks.contains(a),
    ensures
        0 <= ks.index_of(a) < ks.len(),
        ks[ks.index_of(a)] == a,
{
}

/// The entry at `i` is what the maps hold for its path.
pub proof fn lemma_entry_at(s: Seq<(String, FileData)>, i: int)
    requires
        distinct_paths(s),
        0 <= i < s.len(),
    ensures
        table_data(s).contains_key(path_components(s[i].0@)),
        table_data(s)[path_components(s[i].0@)] == s[i].1@,
        table_names(s)[path_components(s[i].0@)] == s[i].0@,
{
    let ks = entry_keys(s);
    let k = path_components(s[i].0@);
    assert(ks[i] == k);
    assert(ks.contains(k));
    let j = ks.index_of(k);
    assert(ks[j] == k);
}

/// The two maps have the same keys.
pub proof fn lemma_same_keys(s: Seq<(String, FileData)>)
    ensures
        table_data(s).dom() == table_names(s).dom(),
{
    assert(table_data(s).dom() =~= table_names(s).dom());
}

/// Adding an entry for a new path adds that path to both maps.
pub proof fn lemma_entry_push(s: Seq<(String, FileData)>, k: String, v: FileData)
    requires
        distinct_paths(s),
        !entry_keys(s).contains(path_components(k@)),
    ensures
        distinct_paths(s.push((k, v))),
        table_data(s.push((k, v))) == table_data(s).insert(path_components(k@), v@),
        table_names(s.push((k, v))) == table_names(s).insert(path_components(k@), k@),
{
    let t = s.push((k, v));
    let pk = path_components(k@);
    let m = table_data(s).insert(pk, v@);
    let n = table_names(s).insert(pk, k@);
    assert(entry_keys(t) =~= entry_keys(s).push(pk));
    assert forall|a: Seq<Seq<char>>| table_data(t).contains_key(a) <==> m.contains_key(a) by {
        if entry_keys(t).contains(a) {
            let j = entry_keys(t).index_of(a);
            lemma_key_index(entry_keys(t), a);
            if j < s.len() {
                assert(entry_keys(s)[j] == a);
            }
        }
        if entry_keys(s).contains(a) {
            let j = entry_keys(s).index_of(a);
            lemma_key_index(entry_keys(s), a);
            assert(entry_keys(t)[j] == a);
        }
        if a == pk {
            assert(entry_keys(t)[s.len() as int] == a);
        }
    }
    assert forall|a: Seq<Seq<char>>| #[trigger] table_data(t).contains_key(a) implies table_data(t)[a]
        == m[a] && table_names(t)[a] == n[a] by {
        if a == pk {
            lemma_entry_at(t, s.len() as int);
        } else {
            let j = entry_keys(t).index_of(a);
            lemma_key_index(entry_keys(t), a);
            assert(j < s.len());
            assert(entry_keys(s)[j] == a);
            lemma_entry_at(s, j);
            lemma_entry_at(t, j);
        }
    }
    assert(table_data(t) =~= m);
    assert(table_names(t) =~= n);
}

/// Replacing the data of an entry replaces it in the data map; the names stay.
pub proof fn lemma_entry_update(s: Seq<(String, FileData)>, i: int, v: FileData)
    requires
        distinct_paths(s),
        0 <= i < s.len(),
    ensures
        distinct_paths(s.update(i, (s[i].0, v))),
        table_data(s.update(i, (s[i].0, v))) == table_data(s).insert(path_components(s[i].0@), v@),
        table_names(s.update(i, (s[i].0, v))) == table_names(s),
{
    let t = s.update(i, (s[i].0, v));
    let pk = path_components(s[i].0@);
    let m = table_data(s).insert(pk, v@);
    assert(entry_keys(t) =~= entry_keys(s));
    lemma_entry_at(s, i);
    assert forall|a: Seq<Seq<char>>| table_data(t).contains_key(a) <==> m.contains_key(a) by {}
    assert forall|a: Seq<Seq<char>>| #[trigger] table_data(t).contains_key(a) implies table_data(t)[a]
        == m[a] && table_names(t)[a] == table_names(s)[a] by {
        let j = entry_keys(t).index_of(a);
        lemma_key_index(entry_keys(t), a);
        lemma_entry_at(t, j);
        if j != i {
            assert(entry_keys(s)[j] != entry_keys(s)[i]);
        }
        lemma_entry_at(s, j);
    }
    assert(table_data(t) =~= m);
    assert(table_names(t) =~= table_names(s));
}

/// Removing an entry removes its path from both maps.
pub proof fn lemma_entry_remove(s: Seq<(String, FileData)>, i: int)
    requires
        distinct_paths(s),
        0 <= i < s.len(),
    ensures
        distinct_paths(s.remove(i)),
        table_data(s.remove(i)) == table_data(s).remove(path_components(s[i].0@)),
        table_names(s.remove(i)) == table_names(s).remove(path_components(s[i].0@)),
{
    let t = s.remove(i);
    assert(entry_keys(t) =~= entry_keys(s).remove(i));
    let k = path_components(s[i].0@);
    let m = table_data(s).remove(k);
    let n = table_names(s).remove(k);
    assert(entry_keys(s)[i] == k);
    assert forall|a: Seq<Seq<char>>| table_data(t).contains_key(a) <==> m.contains_key(a) by {
        if entry_keys(t).contains(a) {
            let j = entry_keys(t).index_of(a);
            lemma_key_index(entry_keys(t), a);
            let js = if j < i { j } else { j + 1 };
            assert(entry_keys(s)[js] == a);
            assert(js != i);
        }
        if entry_keys(s).contains(a) && a != k {
            let j = entry_keys(s).index_of(a);
            lemma_key_index(entry_keys(s), a);
            assert(j != i);
            let jt = if j < i { j } else { j - 1 };
            assert(entry_keys(t)[jt] == a);
        }
    }
    assert forall|a: Seq<Seq<char>>| #[trigger] table_data(t).contains_key(a) implies table_data(t)[a]
        == m[a] && table_names(t)[a] == n[a] by {
        let j = entry_keys(t).index_of(a);
        lemma_key_index(entry_keys(t), a);
        lemma_entry_at(t, j);
        let js = if j < i { j } else { j + 1 };
        assert(s[js] == t[j]);
        lemma_entry_at(s, js);
    }
    assert(table_data(t) =~= m);
    assert(table_names(t) =~= n);
}

/// The place of the entry whose path is the same path as `key`, if there is one.
pub fn find_entry(s: &Vec<(String, FileData)>, key: &str) -> (r: Option<usize>)
    ensures
        match r {
            Some(i) => i < s.len() && path_components(s@[i as int].0@) == path_components(key@),
            None => !entry_keys(s@).contains(path_components(key@)),
        },
{
    let mut i: usize = 0;
    while i < s.len()
        invariant
            i <= s.len(),
            forall|j: int| 0 <= j < i ==> path_components(s@[j].0@) != path_components(key@),
        decreases s.len() - i,
    {
        if paths_equal(s[i].0.as_str(), key) {
            return Some(i);
        }
        i += 1;
    }
    assert forall|j: int| 0 <= j < s@.len() implies entry_keys(s@)[j] != path_components(key@) by {}
    None
}

} // verus!
