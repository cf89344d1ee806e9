//! The file list: every known music file, by its path relative to the music
//! folder, with the tags and the cached length of each.
use crate::data::file_table::{
    distinct_paths, entry_keys, find_entry, lemma_entry_at, lemma_entry_push, lemma_entry_remove,
    lemma_entry_update, lemma_key_index, lemma_same_keys, table_data, table_names,
};
use crate::path::{
    join_path, joined_path, path_components, paths_equal, same_path, strip_path_prefix, stripped_path,
};
use crate::span::Span;
use crate::lemmas::{lemma_push_no_duplicates, lemma_push_to_set, lemma_remove_to_set};
use crate::text::{copy_str, ends_with, ends_with_str, str_eq, views};
use vstd::prelude::*;

verus! {

/// What the player keeps about one file.
#[derive(Debug)]
pub struct FileData {
    /// the tags of the file; none occurs twice
    pub tags: Vec<String>,
    /// a cache of how long the song is, updated when a song finishes playing
    pub duration: Option<Span>,
}

pub struct FileDataView {
    pub tags: Set<Seq<char>>,
    pub duration: Option<int>,
}

pub open spec fn span_view(d: Option<Span>) -> Option<int> {
    match d {
        Some(s) => Some(s.total()),
        None => None,
    }
}

impl View for FileData {
    type V = FileDataView;

    open spec fn view(&self) -> FileDataView {
        FileDataView { tags: views(self.tags@).to_set(), duration: span_view(self.duration) }
    }
}

/// The data of a file nothing is known of yet.
pub open spec fn default_file_data() -> FileDataView {
    FileDataView { tags: Set::empty(), duration: None }
}

impl FileData {
    pub open spec fn wf(&self) -> bool {
        &&& views(self.tags@).no_duplicates()
        &&& (self.duration matches Some(d) ==> d.wf())
    }

    /// No tags and no cached length.
    pub fn new() -> (r: FileData)
        ensures
            r.wf(),
            r@ == default_file_data(),
    {
        let r = FileData { tags: Vec::new(), duration: None };
        assert(views(r.tags@).to_set() =~= Set::empty());
        r
    }

    /// Whether the file has `tag`.
    pub fn has_tag(&self, tag: &str) -> (r: bool)
        ensures
            r == self@.tags.contains(tag@),
    {
        let mut i: usize = 0;
        while i < self.tags.len()
            invariant
                i <= self.tags.len(),
                forall|j: int| 0 <= j < i ==> self.tags@[j]@ != tag@,
            decreases self.tags.len() - i,
        {
            if str_eq(self.tags[i].as_str(), tag) {
                assert(views(self.tags@)[i as int] == tag@);
                return true;
            }
            i += 1;
        }
        assert(!views(self.tags@).contains(tag@)) by {
            assert forall|j: int| 0 <= j < views(self.tags@).len() implies views(self.tags@)[j]
                != tag@ by {}
        }
        false
    }

    /// Adds `tag` where the file does not have it yet.
    pub fn add_tag(&mut self, tag: &str)
        requires
            old(self).wf(),
        ensures
            final(self).wf(),
            final(self)@.tags == old(self)@.tags.insert(tag@),
            final(self).duration == old(self).duration,
    {
        if !self.has_tag(tag) {
            let ghost before = views(self.tags@);
            self.tags.push(copy_str(tag));
            assert(views(self.tags@) =~= before.push(tag@));
            proof {
                lemma_push_to_set(before, tag@);
                lemma_push_no_duplicates(before, tag@);
            }
        } else {
            assert(old(self)@.tags.insert(tag@) =~= old(self)@.tags);
        }
    }

    /// Removes `tag`; whether the file had it.
    pub fn remove_tag(&mut self, tag: &str) -> (had: bool)
        requires
            old(self).wf(),
        ensures
            final(self).wf(),
            had == old(self)@.tags.contains(tag@),
            final(self)@.tags == old(self)@.tags.remove(tag@),
            final(self).duration == old(self).duration,
    {
        let mut i: usize = 0;
        while i < self.tags.len()
            invariant
                old(self).wf(),
                self.tags@ == old(self).tags@,
                self.duration == old(self).duration,
                i <= self.tags.len(),
                forall|j: int| 0 <= j < i ==> self.tags@[j]@ != tag@,
            decreases self.tags.len() - i,
        {
            if str_eq(self.tags[i].as_str(), tag) {
                let ghost before = views(self.tags@);
                assert(before[i as int] == tag@);
                self.tags.remove(i);
                assert(views(self.tags@) =~= before.remove(i as int));
                proof {
                    lemma_remove_to_set(before, i as int);
                }
                return true;
            }
            i += 1;
        }
        assert(!views(self.tags@).contains(tag@)) by {
            assert forall|j: int| 0 <= j < views(self.tags@).len() implies views(self.tags@)[j]
                != tag@ by {}
        }
        assert(old(self)@.tags.remove(tag@) =~= old(self)@.tags);
        false
    }

    /// A copy of the data.
    pub fn copy(&self) -> (r: FileData)
        requires
            self.wf(),
        ensures
            r.wf(),
            r@ == self@,
            r.tags@ == self.tags@,
    {
        let mut tags: Vec<String> = Vec::new();
        let mut i: usize = 0;
        while i < self.tags.len()
            invariant
                i <= self.tags.len(),
                tags@ == self.tags@.take(i as int),
            decreases self.tags.len() - i,
        {
            tags.push(self.tags[i].clone());
            i += 1;
        }
        assert(tags@ =~= self.tags@);
        FileData { tags, duration: self.duration }
    }
}

impl Default for FileData {
    fn default() -> (r: FileData)
        ensures
            r.wf(),
            r@ == default_file_data(),
    {
        FileData::new()
    }
}

/// Every known music file.
#[derive(Debug)]
pub struct Files {
    /// the folder that all the files are in
    pub root: String,
    /// all music files; the paths are relative to `root` and no two of them
    /// are the same path
    pub mappings: Vec<(String, FileData)>,
}

/// The known files, by the components of their paths: what is kept of each,
/// and the text by which each became known.
pub struct FilesView {
    pub root: Seq<char>,
    pub map: Map<Seq<Seq<char>>, FileDataView>,
    pub names: Map<Seq<Seq<char>>, Seq<char>>,
}

impl View for Files {
    type V = FilesView;

    open spec fn view(&self) -> FilesView {
        FilesView { root: self.root@, map: table_data(self.mappings@), names: table_names(self.mappings@) }
    }
}

/// Is `name` the name of a file that the player can play?
pub open spec fn is_music_name(name: Seq<char>) -> bool {
    ends_with(name, ".mp3"@) || ends_with(name, ".wav"@) || ends_with(name, ".ogg"@) || ends_with(
        name,
        ".mp4"@,
    )
}

/// Whether a file name ends in one of the music endings `.mp3`, `.wav`, `.ogg`, `.mp4`.
pub fn is_music_file(file_name: &str) -> (r: bool)
    ensures
        r == is_music_name(file_name@),
{
    ends_with_str(file_name, ".mp3") || ends_with_str(file_name, ".wav") || ends_with_str(
        file_name,
        ".ogg",
    ) || ends_with_str(file_name, ".mp4")
}

/// Whether a file name ends in `.mp4`.
pub fn is_mp4_file(file_name: &str) -> (r: bool)
    ensures
        r == ends_with(file_name@, ".mp4"@),
{
    ends_with_str(file_name, ".mp4")
}

/// Whether the file `k` of the music folder `root` is among the files
/// `found` on disk, as paths compare.
pub open spec fn on_disk(found: Seq<Seq<char>>, root: Seq<char>, k: Seq<char>) -> bool {
    exists|j: int| 0 <= j < found.len() && same_path(found[j], joined_path(root, k))
}

/// The path of each found file relative to the music folder `root`.
pub open spec fn relative_paths(found: Seq<Seq<char>>, root: Seq<char>) -> Seq<Seq<char>> {
    found.map_values(|f: Seq<char>| stripped_path(f, root)->Some_0)
}

/// The data and names of the known files once the paths `rels` are made
/// known, one after another: a path that is not known yet comes in with empty
/// data, under the text it has in `rels`.
pub open spec fn made_known(
    m: Map<Seq<Seq<char>>, FileDataView>,
    n: Map<Seq<Seq<char>>, Seq<char>>,
    rels: Seq<Seq<char>>,
) -> (Map<Seq<Seq<char>>, FileDataView>, Map<Seq<Seq<char>>, Seq<char>>)
    decreases rels.len(),
{
    if rels.len() == 0 {
        (m, n)
    } else {
        let (m1, n1) = made_known(m, n, rels.drop_last());
        let k = path_components(rels.last());
        if m1.contains_key(k) {
            (m1, n1)
        } else {
            (m1.insert(k, default_file_data()), n1.insert(k, rels.last()))
        }
    }
}

/// The known files after `Files::reload_files` with the files `found` on disk:
/// the files found that were not known come in with empty data, and the known
/// files that are no longer on disk leave.
pub open spec fn reloaded(v: FilesView, found: Seq<Seq<char>>) -> FilesView {
    let (m1, n1) = made_known(v.map, v.names, relative_paths(found, v.root));
    FilesView {
        root: v.root,
        map: Map::new(
            |k: Seq<Seq<char>>| m1.contains_key(k) && on_disk(found, v.root, n1[k]),
            |k: Seq<Seq<char>>| m1[k],
        ),
        names: Map::new(
            |k: Seq<Seq<char>>| m1.contains_key(k) && on_disk(found, v.root, n1[k]),
            |k: Seq<Seq<char>>| n1[k],
        ),
    }
}

/// The data and names of the known files agree: the same paths, each known
/// by a text that has its components.
pub open spec fn names_agree(m: Map<Seq<Seq<char>>, FileDataView>, n: Map<Seq<Seq<char>>, Seq<char>>) -> bool {
    &&& m.dom() == n.dom()
    &&& forall|k: Seq<Seq<char>>| #[trigger] n.contains_key(k) ==> path_components(n[k]) == k
}

impl FilesView {
    /// The data and names of the known files agree.
    pub open spec fn wf(self) -> bool {
        names_agree(self.map, self.names)
    }
}

impl Files {
    pub open spec fn wf(&self) -> bool {
        &&& distinct_paths(self.mappings@)
        &&& forall|i: int| 0 <= i < self.mappings@.len() ==> (#[trigger] self.mappings@[i]).1.wf()
    }

    /// What the view of a well-formed file list always meets.
    pub proof fn lemma_view_wf(&self)
        requires
            self.wf(),
        ensures
            self@.wf(),
    {
        lemma_same_keys(self.mappings@);
        assert forall|k: Seq<Seq<char>>| #[trigger] self@.names.contains_key(k) implies path_components(
            self@.names[k],
        ) == k by {
            let j = entry_keys(self.mappings@).index_of(k);
            lemma_key_index(entry_keys(self.mappings@), k);
            lemma_entry_at(self.mappings@, j);
        }
    }

    /// No files yet, in the music folder `root`.
    pub fn empty_with_root(root: String) -> (r: Files)
        ensures
            r.wf(),
            r@.root == root@,
            r@.map == Map::<Seq<Seq<char>>, FileDataView>::empty(),
            r@.names == Map::<Seq<Seq<char>>, Seq<char>>::empty(),
    {
        let r = Files { root, mappings: Vec::new() };
        assert(table_data(r.mappings@) =~= Map::<Seq<Seq<char>>, FileDataView>::empty());
        assert(table_names(r.mappings@) =~= Map::<Seq<Seq<char>>, Seq<char>>::empty());
        r
    }

    /// Where the entry of the same path as `path` stands, if the file is known.
    pub fn index_of(&self, path: &str) -> (r: Option<usize>)
        requires
            self.wf(),
        ensures
            match r {
                Some(i) => i < self.mappings.len() && path_components(self.mappings@[i as int].0@)
                    == path_components(path@) && self@.map.contains_key(path_components(path@)),
                None => !self@.map.contains_key(path_components(path@)),
            },
    {
        let r = find_entry(&self.mappings, path);
        proof {
            if let Some(i) = r {
                lemma_entry_at(self.mappings@, i as int);
            }
        }
        r
    }

    /// Whether the file is known.
    pub fn contains(&self, path: &str) -> (r: bool)
        requires
            self.wf(),
        ensures
            r == self@.map.contains_key(path_components(path@)),
    {
        self.index_of(path).is_some()
    }

    /// Adds a file, or replaces what is known of it; a file already known
    /// keeps the text it became known by.
    pub fn insert(&mut self, path: String, data: FileData)
        requires
            old(self).wf(),
            data.wf(),
        ensures
            final(self).wf(),
            final(self)@.root == old(self)@.root,
            final(self)@.map == old(self)@.map.insert(path_components(path@), data@),
            final(self)@.names == if old(self)@.map.contains_key(path_components(path@)) {
                old(self)@.names
            } else {
                old(self)@.names.insert(path_components(path@), path@)
            },
    {
        proof {
            lemma_same_keys(self.mappings@);
        }
        match self.index_of(path.as_str()) {
            Some(i) => {
                proof {
                    lemma_entry_update(self.mappings@, i as int, data);
                }
                let key = self.mappings[i].0.clone();
                self.mappings.set(i, (key, data));
            },
            None => {
                proof {
                    lemma_entry_push(self.mappings@, path, data);
                }
                self.mappings.push((path, data));
            },
        }
    }

    /// Forgets a file; what was known of it.
    pub fn remove(&mut self, path: &str) -> (r: Option<FileData>)
        requires
            old(self).wf(),
        ensures
            final(self).wf(),
            final(self)@.root == old(self)@.root,
            final(self)@.map == old(self)@.map.remove(path_components(path@)),
            final(self)@.names == old(self)@.names.remove(path_components(path@)),
            match r {
                Some(d) => old(self)@.map.contains_key(path_components(path@)) && d@ == old(
                    self,
                )@.map[path_components(path@)] && d.wf(),
                None => !old(self)@.map.contains_key(path_components(path@)),
            },
    {
        proof {
            lemma_same_keys(self.mappings@);
        }
        match self.index_of(path) {
            Some(i) => {
                proof {
                    lemma_entry_remove(self.mappings@, i as int);
                    lemma_entry_at(self.mappings@, i as int);
                }
                let ghost before = self.mappings@;
                let (_, d) = self.mappings.remove(i);
                proof {
                    assert forall|j: int| 0 <= j < self.mappings@.len() implies (
                    #[trigger] self.mappings@[j]).1.wf() by {
                        if j < i {
                            assert(self.mappings@[j] == before[j]);
                        } else {
                            assert(self.mappings@[j] == before[j + 1]);
                        }
                    }
                }
                Some(d)
            },
            None => {
                assert(old(self)@.map.remove(path_components(path@)) =~= old(self)@.map);
                assert(old(self)@.names.remove(path_components(path@)) =~= old(self)@.names);
                None
            },
        }
    }

    /// The texts by which the known files became known, each once.
    pub fn keys(&self) -> (r: Vec<String>)
        requires
            self.wf(),
        ensures
            views(r@).no_duplicates(),
            views(r@).to_set() == self@.names.values(),
    {
        let ghost names = entry_names(self.mappings@);
        let mut r: Vec<String> = Vec::new();
        let mut i: usize = 0;
        while i < self.mappings.len()
            invariant
                self.wf(),
                names == entry_names(self.mappings@),
                i <= self.mappings.len(),
                views(r@) == names.take(i as int),
            decreases self.mappings.len() - i,
        {
            let ghost before = views(r@);
            r.push(self.mappings[i].0.clone());
            assert(views(r@) =~= before.push(self.mappings@[i as int].0@));
            assert(names.take(i + 1) =~= names.take(i as int).push(self.mappings@[i as int].0@));
            i += 1;
        }
        assert(names.take(i as int) =~= names);
        proof {
            let s = self.mappings@;
            assert forall|a: int, b: int| 0 <= a < b < names.len() implies names[a] != names[b] by {
                assert(entry_keys(s)[a] != entry_keys(s)[b]);
            }
            assert forall|t: Seq<char>| views(r@).to_set().contains(t) <==> self@.names.values().contains(
                t,
            ) by {
                if views(r@).to_set().contains(t) {
                    let j = names.index_of(t);
                    assert(names[j] == t);
                    lemma_entry_at(s, j);
                    assert(self@.names.contains_key(path_components(t)));
                }
                if self@.names.values().contains(t) {
                    let k = choose|k: Seq<Seq<char>>| #[trigger] self@.names.contains_key(k)
                        && self@.names[k] == t;
                    let j = entry_keys(s).index_of(k);
                    lemma_key_index(entry_keys(s), k);
                    lemma_entry_at(s, j);
                    assert(names[j] == t);
                }
            }
            assert(views(r@).to_set() =~= self@.names.values());
        }
        r
    }

    /// Makes the file known, with empty data where it was not; where its entry stands.
    pub fn entry_or_default(&mut self, path: &str) -> (i: usize)
        requires
            old(self).wf(),
        ensures
            final(self).wf(),
            final(self)@.root == old(self)@.root,
            final(self)@.map == if old(self)@.map.contains_key(path_components(path@)) {
                old(self)@.map
            } else {
                old(self)@.map.insert(path_components(path@), default_file_data())
            },
            final(self)@.names == if old(self)@.map.contains_key(path_components(path@)) {
                old(self)@.names
            } else {
                old(self)@.names.insert(path_components(path@), path@)
            },
            i < final(self).mappings.len(),
            path_components(final(self).mappings@[i as int].0@) == path_components(path@),
    {
        match self.index_of(path) {
            Some(i) => i,
            None => {
                self.insert(copy_str(path), FileData::new());
                let j = self.index_of(path);
                match j {
                    Some(j) => j,
                    None => {
                        assert(false);
                        0
                    },
                }
            },
        }
    }

    /// The data of the file at `i`.
    pub fn data_at(&self, i: usize) -> (r: &FileData)
        requires
            self.wf(),
            i < self.mappings.len(),
        ensures
            r.wf(),
            self@.map.contains_key(path_components(self.mappings@[i as int].0@)),
            r@ == self@.map[path_components(self.mappings@[i as int].0@)],
    {
        proof {
            lemma_entry_at(self.mappings@, i as int);
        }
        &self.mappings[i].1
    }

    /// Gives `tag` to the known file `path`.
    pub fn add_tag(&mut self, path: &str, tag: &str)
        requires
            old(self).wf(),
            old(self)@.map.contains_key(path_components(path@)),
        ensures
            final(self).wf(),
            final(self)@.root == old(self)@.root,
            final(self)@.names == old(self)@.names,
            final(self)@.map == old(self)@.map.insert(
                path_components(path@),
                FileDataView {
                    tags: old(self)@.map[path_components(path@)].tags.insert(tag@),
                    duration: old(self)@.map[path_components(path@)].duration,
                },
            ),
    {
        let i = self.entry_or_default(path);
        let mut d = self.data_at(i).copy();
        d.add_tag(tag);
        self.insert(copy_str(path), d);
    }

    /// Takes `tag` from the known file `path`; whether it had it.
    pub fn remove_tag(&mut self, path: &str, tag: &str) -> (had: bool)
        requires
            old(self).wf(),
            old(self)@.map.contains_key(path_components(path@)),
        ensures
            final(self).wf(),
            final(self)@.root == old(self)@.root,
            final(self)@.names == old(self)@.names,
            had == old(self)@.map[path_components(path@)].tags.contains(tag@),
            final(self)@.map == old(self)@.map.insert(
                path_components(path@),
                FileDataView {
                    tags: old(self)@.map[path_components(path@)].tags.remove(tag@),
                    duration: old(self)@.map[path_components(path@)].duration,
                },
            ),
    {
        let i = self.entry_or_default(path);
        let mut d = self.data_at(i).copy();
        let had = d.remove_tag(tag);
        self.insert(copy_str(path), d);
        had
    }

    /// Sets the cached length of the known file `path`.
    pub fn set_duration(&mut self, path: &str, duration: Span)
        requires
            old(self).wf(),
            duration.wf(),
        ensures
            final(self).wf(),
            final(self)@.root == old(self)@.root,
            final(self)@.names == old(self)@.names,
            final(self)@.map == if old(self)@.map.contains_key(path_components(path@)) {
                old(self)@.map.insert(
                    path_components(path@),
                    FileDataView {
                        tags: old(self)@.map[path_components(path@)].tags,
                        duration: Some(duration.total()),
                    },
                )
            } else {
                old(self)@.map
            },
    {
        if let Some(i) = self.index_of(path) {
            let mut d = self.data_at(i).copy();
            d.duration = Some(duration);
            self.insert(copy_str(path), d);
        }
    }

    /// Adds the music files `found` on disk (full paths under the music folder)
    /// that are not known yet, and forgets the known files that are not among
    /// them: every file found that was not known is known afterwards.
    pub fn reload_files(&mut self, found: &Vec<String>)
        requires
            old(self).wf(),
            forall|i: int|
                0 <= i < found@.len() ==> stripped_path(#[trigger] found@[i]@, old(self)@.root) is Some,
        ensures
            final(self).wf(),
            final(self)@ == reloaded(old(self)@, views(found@)),
            forall|i: int|
                0 <= i < found@.len() ==> {
                    let rel = stripped_path(#[trigger] found@[i]@, old(self)@.root)->Some_0;
                    !old(self)@.map.contains_key(path_components(rel)) || old(self)@.names[path_components(rel)] == rel
                        ==> final(self)@.map.contains_key(path_components(rel))
                },
    {
        let ghost m0 = self@.map;
        let ghost n0 = self@.names;
        let ghost root = self@.root;
        let ghost fv = views(found@);
        let ghost rv = relative_paths(fv, root);
        proof {
            self.lemma_view_wf();
        }
        let mut i: usize = 0;
        while i < found.len()
            invariant
                self.wf(),
                self@.root == root,
                root == old(self)@.root,
                m0 == old(self)@.map,
                n0 == old(self)@.names,
                names_agree(m0, n0),
                fv == views(found@),
                rv == relative_paths(fv, root),
                i <= found.len(),
                forall|j: int| 0 <= j < found@.len() ==> stripped_path(#[trigger] found@[j]@, root) is Some,
                forall|j: int| 0 <= j < i ==> same_path(#[trigger] fv[j], joined_path(root, rv[j])),
                (self@.map, self@.names) == made_known(m0, n0, rv.take(i as int)),
                forall|k: Seq<Seq<char>>| #[trigger]
                    self@.names.contains_key(k) && !m0.contains_key(k) ==> exists|j: int|
                        0 <= j < i && self@.names[k] == rv[j],
            decreases found.len() - i,
        {
            let rel = strip_path_prefix(found[i].as_str(), self.root.as_str());
            match rel {
                Some(rel) => {
                    assert(fv[i as int] == found@[i as int]@);
                    assert(rel@ == rv[i as int]);
                    let ghost before = self@;
                    proof {
                        self.lemma_view_wf();
                    }
                    self.entry_or_default(rel.as_str());
                    let ghost t = rv.take(i + 1);
                    assert(t.drop_last() =~= rv.take(i as int));
                    assert(t.last() == rv[i as int]);
                    assert forall|k: Seq<Seq<char>>| #[trigger]
                        self@.names.contains_key(k) && !m0.contains_key(k) implies exists|j: int|
                            0 <= j < i + 1 && self@.names[k] == rv[j] by {
                        if before.names.contains_key(k) {
                            assert(before.map.contains_key(k));
                            let j = choose|j: int| 0 <= j < i && before.names[k] == rv[j];
                            assert(self@.names[k] == rv[j]);
                        } else {
                            assert(self@.names[k] == rv[i as int]);
                        }
                    }
                },
                None => {
                    assert(false);
                },
            }
            i += 1;
        }
        assert(rv.take(i as int) =~= rv);
        let ghost m1 = self@.map;
        let ghost n1 = self@.names;
        proof {
            self.lemma_view_wf();
        }
        let ghost old_entries = self.mappings@;
        // keep what is still on disk
        let mut kept: Vec<(String, FileData)> = Vec::new();
        let mut entries: Vec<(String, FileData)> = Vec::new();
        std::mem::swap(&mut entries, &mut self.mappings);
        assert(entries@ == old_entries);
        let mut x: usize = 0;
        while x < entries.len()
            invariant
                entries@ == old_entries,
                distinct_paths(old_entries),
                forall|y: int| 0 <= y < old_entries.len() ==> (#[trigger] old_entries[y]).1.wf(),
                table_data(old_entries) == m1,
                table_names(old_entries) == n1,
                fv == views(found@),
                self.root@ == root,
                x <= entries.len(),
                distinct_paths(kept@),
                forall|y: int| 0 <= y < kept@.len() ==> (#[trigger] kept@[y]).1.wf(),
                forall|k: Seq<Seq<char>>| #[trigger]
                    table_data(kept@).contains_key(k) <==> (exists|y: int|
                        0 <= y < x && entry_keys(old_entries)[y] == k) && on_disk(fv, root, n1[k]),
                forall|k: Seq<Seq<char>>| #[trigger]
                    table_data(kept@).contains_key(k) ==> m1.contains_key(k) && table_data(kept@)[k]
                        == m1[k] && table_names(kept@)[k] == n1[k],
            decreases entries.len() - x,
        {
            let full = join_path(self.root.as_str(), entries[x].0.as_str());
            let mut present = false;
            let mut f: usize = 0;
            while f < found.len()
                invariant
                    f <= found.len(),
                    present == exists|y: int| 0 <= y < f && same_path(found@[y]@, full@),
                decreases found.len() - f,
            {
                if paths_equal(found[f].as_str(), full.as_str()) {
                    present = true;
                }
                f += 1;
            }
            let ghost key = entry_keys(old_entries)[x as int];
            proof {
                lemma_entry_at(old_entries, x as int);
                assert(n1[key] == old_entries[x as int].0@);
                if present {
                    let y = choose|y: int| 0 <= y < f && same_path(found@[y]@, full@);
                    assert(fv[y] == found@[y]@);
                    assert(on_disk(fv, root, n1[key]));
                } else {
                    assert forall|y: int| 0 <= y < fv.len() implies !same_path(fv[y], full@) by {
                        assert(fv[y] == found@[y]@);
                    }
                }
                assert(!table_data(kept@).contains_key(key)) by {
                    if table_data(kept@).contains_key(key) {
                        let y = choose|y: int| 0 <= y < x && entry_keys(old_entries)[y] == key;
                        assert(entry_keys(old_entries)[y] == entry_keys(old_entries)[x as int]);
                    }
                }
                assert(!entry_keys(kept@).contains(key));
            }
            if present {
                let k = entries[x].0.clone();
                let d = entries[x].1.copy();
                proof {
                    lemma_entry_push(kept@, k, d);
                }
                kept.push((k, d));
            }
            proof {
                assert forall|k: Seq<Seq<char>>| #[trigger]
                    table_data(kept@).contains_key(k) <==> (exists|y: int|
                        0 <= y < x + 1 && entry_keys(old_entries)[y] == k) && on_disk(fv, root, n1[k]) by {
                    if k == key {
                        assert(entry_keys(old_entries)[x as int] == k);
                    } else {
                        if exists|y: int| 0 <= y < x + 1 && entry_keys(old_entries)[y] == k {
                            let y = choose|y: int| 0 <= y < x + 1 && entry_keys(old_entries)[y] == k;
                            assert(y != x);
                        }
                    }
                }
            }
            x += 1;
        }
        self.mappings = kept;
        proof {
            let r = reloaded(old(self)@, fv);
            assert forall|k: Seq<Seq<char>>| #[trigger] m1.contains_key(k) <==> exists|y: int|
                0 <= y < old_entries.len() && entry_keys(old_entries)[y] == k by {
                if m1.contains_key(k) {
                    lemma_key_index(entry_keys(old_entries), k);
                }
            }
            assert forall|k: Seq<Seq<char>>| #[trigger] self@.map.contains_key(k) <==> r.map.contains_key(k) by {
                assert(fv.len() == found@.len());
            }
            assert(self@.map =~= r.map);
            assert(self@.names =~= r.names);
            assert forall|i: int| 0 <= i < found@.len() implies {
                let rel = stripped_path(#[trigger] found@[i]@, old(self)@.root)->Some_0;
                !old(self)@.map.contains_key(path_components(rel)) || old(self)@.names[path_components(rel)] == rel
                    ==> self@.map.contains_key(path_components(rel))
            } by {
                assert(fv[i] == found@[i]@);
                let rel = rv[i];
                let k = path_components(rel);
                assert(same_path(fv[i], joined_path(root, rel)));
                assert(m1.contains_key(k)) by {
                    lemma_made_known_has(m0, n0, rv, i);
                }
                if !m0.contains_key(k) {
                    let j = choose|j: int| 0 <= j < rv.len() && n1[k] == rv[j];
                    assert(same_path(fv[j], joined_path(root, rv[j])));
                    assert(on_disk(fv, root, n1[k]));
                } else if n0[k] == rel {
                    lemma_made_known_keeps(m0, n0, rv, k);
                    assert(on_disk(fv, root, n1[k]));
                }
            }
        }
    }
}

/// Making paths known keeps what was known, and every path made known is known.
pub proof fn lemma_made_known_has(
    m: Map<Seq<Seq<char>>, FileDataView>,
    n: Map<Seq<Seq<char>>, Seq<char>>,
    rels: Seq<Seq<char>>,
    i: int,
)
    requires
        0 <= i < rels.len(),
    ensures
        made_known(m, n, rels).0.contains_key(path_components(rels[i])),
    decreases rels.len(),
{
    if i < rels.len() - 1 {
        lemma_made_known_has(m, n, rels.drop_last(), i);
    }
}

/// Making paths known leaves the data and name of a path known before as they were.
pub proof fn lemma_made_known_keeps(
    m: Map<Seq<Seq<char>>, FileDataView>,
    n: Map<Seq<Seq<char>>, Seq<char>>,
    rels: Seq<Seq<char>>,
    k: Seq<Seq<char>>,
)
    requires
        m.contains_key(k),
    ensures
        made_known(m, n, rels).0.contains_key(k),
        made_known(m, n, rels).0[k] == m[k],
        made_known(m, n, rels).1[k] == n[k],
    decreases rels.len(),
{
    if rels.len() > 0 {
        lemma_made_known_keeps(m, n, rels.drop_last(), k);
    }
}

/// The text of each entry's path.
pub open spec fn entry_names(s: Seq<(String, FileData)>) -> Seq<Seq<char>> {
    s.map_values(|e: (String, FileData)| e.0@)
}

} // verus!
