//! The text that the screen shows: the heading of the playlist, its lines,
//! and the tags of the current song. The terminal library draws it.
use crate::command::macros::{decimal, decimal_text};
use crate::data::context::{Context, ContextView, ProgramMode};
use crate::data::files::FileData;
use crate::order::{sort_unique, strictly_sorted};
use crate::path::{file_name_of, path_components, path_file_name};
use crate::text::{copy_str, join_strs, join_text, push_str, views};
use vstd::prelude::*;

verus! {

/// The heading of the playlist window.
pub open spec fn header_spec(mode: ProgramMode, list: Seq<char>, remaining: nat) -> Seq<char> {
    " "@ + (if mode == ProgramMode::Temp {
        "TEMPORARY MODE      "@
    } else {
        ""@
    }) + "list: "@ + list + "      remaining: "@ + decimal(remaining)
}

/// The heading of the playlist window: the mode where it is temporary, the
/// name of the playlist and how many songs remain.
pub fn header_line(ctx: &Context) -> (r: String)
    ensures
        r@ == header_spec(ctx@.mode, ctx@.state.current_playlist, ctx@.playlist.remaining.len()),
{
    let mut r = copy_str(" ");
    match ctx.program_mode {
        ProgramMode::Temp => push_str(&mut r, "TEMPORARY MODE      "),
        ProgramMode::Main => {
            proof {
                reveal_strlit("");
            }
            assert(r@ =~= " "@ + ""@);
        },
    }
    push_str(&mut r, "list: ");
    push_str(&mut r, ctx.state.current_playlist.as_str());
    push_str(&mut r, "      remaining: ");
    let n = decimal_text(ctx.playlist.remaining.len());
    push_str(&mut r, n.as_str());
    assert(views(ctx.playlist.remaining@).len() == ctx.playlist.remaining@.len());
    r
}

/// The number `i` right-aligned in two places.
pub open spec fn padded(i: nat) -> Seq<char> {
    if i < 10 {
        " "@ + decimal(i)
    } else {
        decimal(i)
    }
}

/// The line of the song `song` at place `i` of a window `height` lines high:
/// the last line that fits says that more follow.
pub open spec fn song_line_spec(i: nat, song: Seq<char>, height: nat) -> Seq<char> {
    if i + 1 == height {
        "   ..."@
    } else {
        padded(i) + " "@ + file_name_of(song).unwrap()
    }
}

/// The lines of the playlist window `height` lines high: one per remaining
/// song, as many as fit.
pub open spec fn playlist_lines_spec(songs: Seq<Seq<char>>, height: nat) -> Seq<Seq<char>> {
    let n = if songs.len() < height {
        songs.len()
    } else {
        height
    };
    Seq::new(n, |i: int| song_line_spec(i as nat, songs[i], height))
}

/// Every song that the window shows by name has a file name.
pub open spec fn shown_named(songs: Seq<Seq<char>>, height: nat) -> bool {
    forall|i: int| 0 <= i < songs.len() && i + 1 < height ==> #[trigger] file_name_of(songs[i]) is Some
}

/// The lines of the playlist window.
pub fn playlist_lines(songs: &Vec<String>, height: usize) -> (r: Vec<String>)
    requires
        shown_named(views(songs@), height as nat),
    ensures
        views(r@) == playlist_lines_spec(views(songs@), height as nat),
{
    let n = if songs.len() < height {
        songs.len()
    } else {
        height
    };
    let ghost sv = views(songs@);
    let mut r: Vec<String> = Vec::new();
    let mut i: usize = 0;
    while i < n
        invariant
            i <= n,
            n <= songs.len(),
            n <= height,
            sv == views(songs@),
            shown_named(sv, height as nat),
            views(r@) == Seq::new(i as nat, |j: int| song_line_spec(j as nat, sv[j], height as nat)),
        decreases n - i,
    {
        let line = if i + 1 == height {
            copy_str("   ...")
        } else {
            let mut l = if i < 10 {
                copy_str(" ")
            } else {
                String::new()
            };
            let d = decimal_text(i);
            push_str(&mut l, d.as_str());
            push_str(&mut l, " ");
            assert(sv[i as int] == songs@[i as int]@);
            assert(file_name_of(sv[i as int]) is Some);
            match path_file_name(songs[i].as_str()) {
                Some(name) => push_str(&mut l, name.as_str()),
                None => {},
            }
            proof {
                reveal_strlit(" ");
            }
            assert(l@ =~= song_line_spec(i as nat, sv[i as int], height as nat));
            l
        };
        assert(line@ == song_line_spec(i as nat, sv[i as int], height as nat));
        let ghost before = views(r@);
        let ghost lv = line@;
        r.push(line);
        assert(views(r@) =~= before.push(lv));
        assert(views(r@) =~= Seq::new((i + 1) as nat, |j: int| song_line_spec(j as nat, sv[j], height as nat)));
        i += 1;
    }
    r
}

/// The lines of the playlist window, where every song shown by name has a
/// file name; `None` otherwise.
pub fn checked_playlist_lines(songs: &Vec<String>, height: usize) -> (r: Option<Vec<String>>)
    ensures
        match r {
            Some(lines) => shown_named(views(songs@), height as nat) && views(lines@)
                == playlist_lines_spec(views(songs@), height as nat),
            None => !shown_named(views(songs@), height as nat),
        },
{
    let mut i: usize = 0;
    while i < songs.len()
        invariant
            i <= songs.len(),
            forall|j: int| 0 <= j < i && j + 1 < height ==> #[trigger] file_name_of(views(songs@)[j]) is Some,
        decreases songs.len() - i,
    {
        assert(views(songs@)[i as int] == songs@[i as int]@);
        if i + 1 < height && path_file_name(songs[i].as_str()).is_none() {
            return None;
        }
        i += 1;
    }
    Some(playlist_lines(songs, height))
}

/// The tags of the current song in order, joined by commas; nothing where
/// there is no current song or it is not known.
pub open spec fn current_tags_text_post(c: ContextView, text: Seq<char>) -> bool {
    if c.playlist.remaining.len() > 0 && c.files.map.contains_key(path_components(c.playlist.remaining[0])) {
        exists|order: Seq<Seq<char>>|
            strictly_sorted(order) && order.to_set() == c.files.map[path_components(
                c.playlist.remaining[0],
            )].tags && text
                == join_text(order, ", "@)
    } else {
        text == Seq::<char>::empty()
    }
}

/// The tags of the current song, as the bottom of the screen shows them.
pub fn current_tags_text(ctx: &Context) -> (r: String)
    requires
        ctx.wf(),
    ensures
        current_tags_text_post(ctx@, r@),
{
    if ctx.playlist.remaining.len() == 0 {
        return String::new();
    }
    match ctx.files.index_of(ctx.playlist.remaining[0].as_str()) {
        Some(i) => {
            let d: &FileData = ctx.files.data_at(i);
            let sorted = sort_unique(&d.tags);
            let r = join_strs(&sorted, ", ");
            assert(views(sorted@).to_set() == ctx@.files.map[path_components(ctx@.playlist.remaining[0])].tags);
            r
        },
        None => String::new(),
    }
}

} // verus!
