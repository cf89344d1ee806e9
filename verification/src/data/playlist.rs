//! A playlist: the songs still to play, in order, and the songs played before.
use crate::span::Span;
use crate::text::{copy_str, ends_with, ends_with_str, string_from, chars_of, views};
use vstd::prelude::*;

verus! {

#[derive(Debug)]
pub struct Playlist {
    /// how far into the current song playing has come
    pub progress: Span,
    /// the songs still to play, in order; the first is the current song
    pub remaining: Vec<String>,
    /// the songs played before, the most recent last
    pub previous: Vec<String>,
}

pub struct PlaylistView {
    pub progress: int,
    pub remaining: Seq<Seq<char>>,
    pub previous: Seq<Seq<char>>,
}

impl View for Playlist {
    type V = PlaylistView;

    open spec fn view(&self) -> PlaylistView {
        PlaylistView {
            progress: self.progress.total(),
            remaining: views(self.remaining@),
            previous: views(self.previous@),
        }
    }
}

/// A copy of a list of strings.
pub fn copy_strings(v: &Vec<String>) -> (r: Vec<String>)
    ensures
        r@ == v@,
{
    let mut r: Vec<String> = Vec::new();
    let mut i: usize = 0;
    while i < v.len()
        invariant
            i <= v.len(),
            r@ == v@.take(i as int),
        decreases v.len() - i,
    {
        r.push(v[i].clone());
        i += 1;
    }
    assert(r@ =~= v@);
    r
}

impl Playlist {
    pub open spec fn wf(&self) -> bool {
        self.progress.wf()
    }

    /// An empty playlist at the start.
    pub fn new() -> (r: Playlist)
        ensures
            r.wf(),
            r@.progress == 0,
            r@.remaining == Seq::<Seq<char>>::empty(),
            r@.previous == Seq::<Seq<char>>::empty(),
    {
        let r = Playlist { progress: Span::zero(), remaining: Vec::new(), previous: Vec::new() };
        assert(views(r.remaining@) =~= Seq::<Seq<char>>::empty());
        assert(views(r.previous@) =~= Seq::<Seq<char>>::empty());
        r
    }

    /// A copy of the playlist.
    pub fn copy(&self) -> (r: Playlist)
        ensures
            r.progress == self.progress,
            r.remaining@ == self.remaining@,
            r.previous@ == self.previous@,
    {
        Playlist {
            progress: self.progress,
            remaining: copy_strings(&self.remaining),
            previous: copy_strings(&self.previous),
        }
    }

    /// Moves the current song to the songs played before.
    pub fn next_song(&mut self)
        requires
            old(self).remaining.len() > 0,
        ensures
            final(self).progress == old(self).progress,
            final(self).remaining@ == old(self).remaining@.drop_first(),
            final(self).previous@ == old(self).previous@.push(old(self).remaining@[0]),
    {
        let removed = self.remaining.remove(0);
        self.previous.push(removed);
        assert(self.remaining@ =~= old(self).remaining@.drop_first());
    }

    /// Moves the song played last back to the front of the songs to play.
    pub fn previous_song(&mut self)
        requires
            old(self).previous.len() > 0,
        ensures
            final(self).progress == old(self).progress,
            final(self).remaining@ == seq![old(self).previous@.last()] + old(self).remaining@,
            final(self).previous@ == old(self).previous@.drop_last(),
    {
        let removed = self.previous.pop().unwrap();
        self.remaining.insert(0, removed);
        assert(self.remaining@ =~= seq![old(self).previous@.last()] + old(self).remaining@);
    }
}

impl Default for Playlist {
    fn default() -> (r: Playlist)
        ensures
            r.wf(),
            r@.progress == 0,
            r@.remaining == Seq::<Seq<char>>::empty(),
            r@.previous == Seq::<Seq<char>>::empty(),
    {
        Playlist::new()
    }
}

/// The name of a playlist that is saved in the file named `file_name`: the
/// file name without a trailing `.ron`.
pub open spec fn list_name_spec(file_name: Seq<char>) -> Seq<char> {
    if ends_with(file_name, ".ron"@) {
        file_name.subrange(0, file_name.len() - 4)
    } else {
        file_name
    }
}

/// The playlist name that a file of the playlist folder stands for.
pub fn list_name_of_file(file_name: &str) -> (r: String)
    ensures
        r@ == list_name_spec(file_name@),
{
    proof {
        reveal_strlit(".ron");
    }
    if ends_with_str(file_name, ".ron") {
        let cs = chars_of(file_name);
        string_from(&cs, 0, cs.len() - 4)
    } else {
        copy_str(file_name)
    }
}

impl Playlist {
    /// The playlist names for the files of the playlist folder, in their order.
    pub fn get_all_names(file_names: &Vec<String>) -> (r: Vec<String>)
        ensures
            views(r@) == views(file_names@).map_values(|n: Seq<char>| list_name_spec(n)),
    {
        let mut r: Vec<String> = Vec::new();
        let mut i: usize = 0;
        while i < file_names.len()
            invariant
                i <= file_names.len(),
                views(r@) == views(file_names@).take(i as int).map_values(|n: Seq<char>| list_name_spec(n)),
            decreases file_names.len() - i,
        {
            let ghost before = views(r@);
            r.push(list_name_of_file(file_names[i].as_str()));
            assert(views(r@) =~= before.push(list_name_spec(file_names@[i as int]@)));
            assert(views(file_names@).take(i + 1).map_values(|n: Seq<char>| list_name_spec(n))
                =~= views(file_names@).take(i as int).map_values(|n: Seq<char>| list_name_spec(n)).push(list_name_spec(file_names@[i as int]@)));
            i += 1;
        }
        assert(views(file_names@).take(i as int) =~= views(file_names@));
        r
    }
}

} // verus!
