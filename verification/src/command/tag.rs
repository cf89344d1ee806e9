//! Commands that show and change the tags of files.
use crate::command::error::{CommandError, CommandErrorView};
use crate::data::context::{Context, ContextView};
use crate::data::files::{FileDataView, FilesView};
use crate::order::{sort_unique, strictly_sorted};
use crate::path::path_components;
use crate::text::{join_strs, join_text, push_str, views};
use vstd::prelude::*;

verus! {

/// The context with another file map.
pub open spec fn with_map(c: ContextView, m: Map<Seq<Seq<char>>, FileDataView>) -> ContextView {
    ContextView { files: FilesView { map: m, ..c.files }, ..c }
}

/// The context with other known files.
pub open spec fn with_files(c: ContextView, f: FilesView) -> ContextView {
    ContextView { files: f, ..c }
}

/// The context with more output.
pub open spec fn with_output(c: ContextView, more: Seq<char>) -> ContextView {
    ContextView { cmd_out: c.cmd_out + more, ..c }
}

/// The current song and its data, or the error of `tlc`, `tac` and `trc` where
/// there is none or it is not known.
pub open spec fn current_known(c: ContextView) -> Result<Seq<char>, CommandErrorView> {
    if c.playlist.remaining.len() == 0 {
        Err(CommandErrorView::NoFilePlaying)
    } else if !c.files.map.contains_key(path_components(c.playlist.remaining[0])) {
        Err(CommandErrorView::NotInFiles(c.playlist.remaining[0]))
    } else {
        Ok(c.playlist.remaining[0])
    }
}

/// The line of `tlc` for the tags listed in `order`.
pub open spec fn current_tags_line(order: Seq<Seq<char>>) -> Seq<char> {
    "current tags: "@ + join_text(order, ", "@) + "\n"@
}

/// `tlc`: the tags of the current song, in some order, each once.
pub open spec fn show_current_tags_post(
    c: ContextView,
    new: ContextView,
    r: Result<(), CommandErrorView>,
) -> bool {
    match current_known(c) {
        Err(e) => new == c && r == Err::<(), CommandErrorView>(e),
        Ok(f) => r is Ok && exists|order: Seq<Seq<char>>|
            order.no_duplicates() && order.to_set() == c.files.map[path_components(f)].tags && new == with_output(
                c,
                current_tags_line(order),
            ),
    }
}

fn current_index(ctx: &Context) -> (r: Result<usize, CommandError>)
    requires
        ctx.wf(),
    ensures
        match (r, current_known(ctx@)) {
            (Ok(i), Ok(f)) => i < ctx.files.mappings.len() && path_components(ctx.files.mappings@[i as int].0@)
                == path_components(f),
            (Err(a), Err(b)) => a@ == b,
            _ => false,
        },
{
    if ctx.playlist.remaining.len() == 0 {
        return Err(CommandError::NoFilePlaying);
    }
    match ctx.files.index_of(ctx.playlist.remaining[0].as_str()) {
        Some(i) => Ok(i),
        None => Err(CommandError::NotInFiles(ctx.playlist.remaining[0].clone())),
    }
}

/// Shows the tags of the current song.
pub fn show_current_tags(ctx: &mut Context) -> (r: Result<(), CommandError>)
    requires
        old(ctx).wf(),
    ensures
        final(ctx).wf(),
        show_current_tags_post(
            old(ctx)@,
            final(ctx)@,
            match r {
                Ok(_) => Ok(()),
                Err(e) => Err(e@),
            },
        ),
{
    let i = match current_index(ctx) {
        Ok(i) => i,
        Err(e) => return Err(e),
    };
    let data = ctx.files.data_at(i);
    let tags = join_strs(&data.tags, ", ");
    let ghost order = views(data.tags@);
    push_str(&mut ctx.cmd_out, "current tags: ");
    push_str(&mut ctx.cmd_out, tags.as_str());
    push_str(&mut ctx.cmd_out, "\n");
    assert(ctx.cmd_out@ =~= old(ctx).cmd_out@ + current_tags_line(order));
    assert(ctx@ == with_output(old(ctx)@, current_tags_line(order)));
    Ok(())
}

/// Every tag that some file has.
pub open spec fn all_tags(m: Map<Seq<Seq<char>>, FileDataView>) -> Set<Seq<char>> {
    Set::new(|t: Seq<char>| exists|k: Seq<Seq<char>>| m.contains_key(k) && #[trigger] m[k].tags.contains(t))
}

/// `tla`: every tag of every file, in order, each once.
pub open spec fn show_all_tags_post(c: ContextView, new: ContextView) -> bool {
    exists|order: Seq<Seq<char>>|
        strictly_sorted(order) && order.to_set() == all_tags(c.files.map) && new == with_output(
            c,
            "all tags: "@ + join_text(order, ", "@) + "\n"@,
        )
}

/// Shows every tag of every file.
pub fn show_all_tags(ctx: &mut Context)
    requires
        old(ctx).wf(),
    ensures
        final(ctx).wf(),
        show_all_tags_post(old(ctx)@, final(ctx)@),
{
    let mut every: Vec<String> = Vec::new();
    let mut i: usize = 0;
    while i < ctx.files.mappings.len()
        invariant
            ctx.files.wf(),
            i <= ctx.files.mappings.len(),
            forall|t: Seq<char>| #[trigger] views(every@).to_set().contains(t) <==> exists|k: int|
                0 <= k < i && (#[trigger] ctx.files.mappings@[k]).1@.tags.contains(t),
        decreases ctx.files.mappings.len() - i,
    {
        let mut j: usize = 0;
        let ghost before = views(every@);
        let ghost tg0 = views(ctx.files.mappings@[i as int].1.tags@);
        while j < ctx.files.mappings[i].1.tags.len()
            invariant
                i < ctx.files.mappings.len(),
                tg0 == views(ctx.files.mappings@[i as int].1.tags@),
                j <= ctx.files.mappings@[i as int].1.tags.len(),
                views(every@) == before + tg0.take(j as int),
            decreases ctx.files.mappings@[i as int].1.tags.len() - j,
        {
            let ghost prev = views(every@);
            every.push(ctx.files.mappings[i].1.tags[j].clone());
            assert(views(every@) =~= prev.push(tg0[j as int]));
            assert(tg0.take(j + 1) =~= tg0.take(j as int).push(tg0[j as int]));
            j += 1;
        }
        proof {
            let tg = views(ctx.files.mappings@[i as int].1.tags@);
            assert(tg.take(j as int) =~= tg);
            assert forall|t: Seq<char>| #[trigger] views(every@).to_set().contains(t) <==> exists|k: int|
                0 <= k < i + 1 && (#[trigger] ctx.files.mappings@[k]).1@.tags.contains(t) by {
                if views(every@).contains(t) {
                    let y = choose|y: int| 0 <= y < views(every@).len() && views(every@)[y] == t;
                    if y < before.len() {
                        assert(before[y] == t);
                        assert(before.to_set().contains(t));
                    } else {
                        assert(tg[y - before.len()] == t);
                        assert(ctx.files.mappings@[i as int].1@.tags.contains(t));
                    }
                }
                if exists|k: int| 0 <= k < i + 1 && (#[trigger] ctx.files.mappings@[k]).1@.tags.contains(t) {
                    let k = choose|k: int| 0 <= k < i + 1 && (#[trigger] ctx.files.mappings@[k]).1@.tags.contains(t);
                    if k < i {
                        assert(before.to_set().contains(t));
                        let y = choose|y: int| 0 <= y < before.len() && before[y] == t;
                        assert(views(every@)[y] == t);
                    } else {
                        let y = choose|y: int| 0 <= y < tg.len() && tg[y] == t;
                        assert(views(every@)[before.len() + y] == t);
                    }
                }
            }
        }
        i += 1;
    }
    let sorted = sort_unique(&every);
    let joined = join_strs(&sorted, ", ");
    push_str(&mut ctx.cmd_out, "all tags: ");
    push_str(&mut ctx.cmd_out, joined.as_str());
    push_str(&mut ctx.cmd_out, "\n");
    proof {
        let m = old(ctx)@.files.map;
        assert(views(sorted@).to_set() =~= all_tags(m)) by {
            assert forall|t: Seq<char>| views(sorted@).to_set().contains(t) <==> all_tags(m).contains(t) by {
                if views(every@).to_set().contains(t) {
                    let k = choose|k: int|
                        0 <= k < ctx.files.mappings@.len() && (#[trigger] ctx.files.mappings@[k]).1@.tags.contains(t);
                    crate::data::file_table::lemma_entry_at(ctx.files.mappings@, k);
                    assert(m.contains_key(path_components(ctx.files.mappings@[k].0@)));
                }
                if all_tags(m).contains(t) {
                    let key = choose|key: Seq<Seq<char>>| m.contains_key(key) && #[trigger] m[key].tags.contains(t);
                    let k = crate::data::file_table::entry_keys(ctx.files.mappings@).index_of(key);
                    crate::data::file_table::lemma_key_index(
                        crate::data::file_table::entry_keys(ctx.files.mappings@),
                        key,
                    );
                    crate::data::file_table::lemma_entry_at(ctx.files.mappings@, k);
                    assert(ctx.files.mappings@[k].1@.tags.contains(t));
                }
            }
        }
        assert(ctx.cmd_out@ =~= old(ctx).cmd_out@ + ("all tags: "@ + join_text(views(sorted@), ", "@) + "\n"@));
        assert(ctx@ == with_output(old(ctx)@, "all tags: "@ + join_text(views(sorted@), ", "@) + "\n"@));
    }
}

/// The file map with the tags of the file `f` set to `tags`.
pub open spec fn retagged(
    m: Map<Seq<Seq<char>>, FileDataView>,
    f: Seq<char>,
    tags: Set<Seq<char>>,
) -> Map<Seq<Seq<char>>, FileDataView> {
    m.insert(path_components(f), FileDataView { tags, duration: m[path_components(f)].duration })
}

/// `tac TAG`: the current song gets the tag.
pub open spec fn add_tag_current_spec(c: ContextView, tag: Seq<char>) -> (ContextView, Result<(), CommandErrorView>) {
    match current_known(c) {
        Err(e) => (c, Err(e)),
        Ok(f) => (
            with_map(c, retagged(c.files.map, f, c.files.map[path_components(f)].tags.insert(tag))),
            Ok(()),
        ),
    }
}

/// Adds a tag to the current song.
pub fn add_tag_current(ctx: &mut Context, tag: &str) -> (r: Result<(), CommandError>)
    requires
        old(ctx).wf(),
    ensures
        final(ctx).wf(),
        final(ctx)@ == add_tag_current_spec(old(ctx)@, tag@).0,
        match (r, add_tag_current_spec(old(ctx)@, tag@).1) {
            (Ok(_), Ok(_)) => true,
            (Err(a), Err(b)) => a@ == b,
            _ => false,
        },
{
    match current_index(ctx) {
        Ok(_) => {
            let path = ctx.playlist.remaining[0].clone();
            ctx.files.add_tag(path.as_str(), tag);
            Ok(())
        },
        Err(e) => Err(e),
    }
}

/// `trc TAG`: the current song loses the tag; where it did not have it, a line says so.
pub open spec fn remove_tag_current_spec(c: ContextView, tag: Seq<char>) -> (
    ContextView,
    Result<(), CommandErrorView>,
) {
    match current_known(c) {
        Err(e) => (c, Err(e)),
        Ok(f) => {
            let c2 = with_map(c, retagged(c.files.map, f, c.files.map[path_components(f)].tags.remove(tag)));
            if c.files.map[path_components(f)].tags.contains(tag) {
                (c2, Ok(()))
            } else {
                (with_output(c2, "The current File does not have that tag\n"@), Ok(()))
            }
        },
    }
}

/// Removes a tag from the current song.
pub fn remove_tag_current(ctx: &mut Context, tag: &str) -> (r: Result<(), CommandError>)
    requires
        old(ctx).wf(),
    ensures
        final(ctx).wf(),
        final(ctx)@ == remove_tag_current_spec(old(ctx)@, tag@).0,
        match (r, remove_tag_current_spec(old(ctx)@, tag@).1) {
            (Ok(_), Ok(_)) => true,
            (Err(a), Err(b)) => a@ == b,
            _ => false,
        },
{
    match current_index(ctx) {
        Ok(_) => {
            let path = ctx.playlist.remaining[0].clone();
            let had = ctx.files.remove_tag(path.as_str(), tag);
            if !had {
                push_str(&mut ctx.cmd_out, "The current File does not have that tag\n");
            }
            Ok(())
        },
        Err(e) => Err(e),
    }
}

/// The place of the first song of `songs[i..]` that is not a known file.
pub open spec fn first_unknown(m: Map<Seq<Seq<char>>, FileDataView>, songs: Seq<Seq<char>>, i: int) -> Option<int>
    decreases songs.len() - i,
{
    if i < 0 || i >= songs.len() {
        None
    } else if !m.contains_key(path_components(songs[i])) {
        Some(i)
    } else {
        first_unknown(m, songs, i + 1)
    }
}

/// The components of the path of each song.
pub open spec fn song_keys(songs: Seq<Seq<char>>) -> Seq<Seq<Seq<char>>> {
    songs.map_values(|s: Seq<char>| path_components(s))
}

/// The file map with the tags of the songs `songs` changed: each gets `tag`
/// where `add`, and loses it otherwise.
pub open spec fn retag_all(
    m: Map<Seq<Seq<char>>, FileDataView>,
    songs: Seq<Seq<char>>,
    tag: Seq<char>,
    add: bool,
) -> Map<Seq<Seq<char>>, FileDataView> {
    Map::new(
        |k: Seq<Seq<char>>| m.contains_key(k),
        |k: Seq<Seq<char>>|
            if song_keys(songs).contains(k) {
                FileDataView {
                    tags: if add {
                        m[k].tags.insert(tag)
                    } else {
                        m[k].tags.remove(tag)
                    },
                    duration: m[k].duration,
                }
            } else {
                m[k]
            },
    )
}

/// `taa TAG` (`add`) and `tra TAG`: every remaining song, in order, gets or loses
/// the tag; the first song that is not a known file stops it with an error, the
/// songs before it keeping the change.
pub open spec fn tag_remaining_spec(c: ContextView, tag: Seq<char>, add: bool) -> (
    ContextView,
    Result<(), CommandErrorView>,
) {
    let songs = c.playlist.remaining;
    match first_unknown(c.files.map, songs, 0) {
        Some(k) => (
            with_map(c, retag_all(c.files.map, songs.take(k), tag, add)),
            Err(CommandErrorView::NotInFiles(songs[k])),
        ),
        None => (with_map(c, retag_all(c.files.map, songs, tag, add)), Ok(())),
    }
}

fn tag_remaining(ctx: &mut Context, tag: &str, add: bool) -> (r: Result<(), CommandError>)
    requires
        old(ctx).wf(),
    ensures
        final(ctx).wf(),
        final(ctx)@ == tag_remaining_spec(old(ctx)@, tag@, add).0,
        match (r, tag_remaining_spec(old(ctx)@, tag@, add).1) {
            (Ok(_), Ok(_)) => true,
            (Err(a), Err(b)) => a@ == b,
            _ => false,
        },
{
    let ghost c0 = ctx@;
    let ghost songs = c0.playlist.remaining;
    let mut i: usize = 0;
    assert(retag_all(c0.files.map, songs.take(0), tag@, add) =~= c0.files.map);
    while i < ctx.playlist.remaining.len()
        invariant
            ctx.wf(),
            c0 == old(ctx)@,
            songs == c0.playlist.remaining,
            ctx.playlist.remaining@ == old(ctx).playlist.remaining@,
            i <= ctx.playlist.remaining.len(),
            first_unknown(c0.files.map, songs, 0) == first_unknown(c0.files.map, songs, i as int),
            ctx@ == with_map(c0, retag_all(c0.files.map, songs.take(i as int), tag@, add)),
        decreases ctx.playlist.remaining.len() - i,
    {
        let path = ctx.playlist.remaining[i].clone();
        assert(songs[i as int] == path@);
        if !ctx.files.contains(path.as_str()) {
            proof {
                assert(!c0.files.map.contains_key(path_components(songs[i as int]))) by {
                    if c0.files.map.contains_key(path_components(songs[i as int])) {
                        assert(ctx@.files.map.contains_key(path_components(songs[i as int])));
                    }
                }
            }
            return Err(CommandError::NotInFiles(path));
        }
        assert(c0.files.map.contains_key(path_components(songs[i as int])));
        if add {
            ctx.files.add_tag(path.as_str(), tag);
        } else {
            ctx.files.remove_tag(path.as_str(), tag);
        }
        proof {
            let next = songs.take(i + 1);
            let pk = path_components(path@);
            assert(song_keys(next) =~= song_keys(songs.take(i as int)).push(pk));
            assert(ctx@.files.map =~= retag_all(c0.files.map, next, tag@, add)) by {
                let prev = song_keys(songs.take(i as int));
                let nk = song_keys(next);
                let m0 = c0.files.map;
                assert forall|k: Seq<Seq<char>>| #[trigger] nk.contains(k) <==> (prev.contains(k) || k == pk) by {
                    if nk.contains(k) {
                        let y = choose|y: int| 0 <= y < nk.len() && nk[y] == k;
                        if y < i {
                            assert(prev[y] == k);
                        }
                    }
                    if prev.contains(k) {
                        let y = choose|y: int| 0 <= y < prev.len() && prev[y] == k;
                        assert(nk[y] == k);
                    }
                    if k == pk {
                        assert(nk[i as int] == k);
                    }
                }
                assert forall|k: Seq<Seq<char>>| #[trigger] ctx@.files.map.contains_key(k) implies ctx@.files.map[k]
                    == retag_all(m0, next, tag@, add)[k] by {
                    if k == pk {
                        let t0 = m0[k].tags;
                        if add {
                            assert(t0.insert(tag@).insert(tag@) =~= t0.insert(tag@));
                        } else {
                            assert(t0.remove(tag@).remove(tag@) =~= t0.remove(tag@));
                        }
                    }
                }
            }
        }
        i += 1;
    }
    assert(songs.take(i as int) =~= songs);
    Ok(())
}

/// Adds a tag to every remaining song.
pub fn add_tag_remaining(ctx: &mut Context, tag: &str) -> (r: Result<(), CommandError>)
    requires
        old(ctx).wf(),
    ensures
        final(ctx).wf(),
        final(ctx)@ == tag_remaining_spec(old(ctx)@, tag@, true).0,
        match (r, tag_remaining_spec(old(ctx)@, tag@, true).1) {
            (Ok(_), Ok(_)) => true,
            (Err(a), Err(b)) => a@ == b,
            _ => false,
        },
{
    tag_remaining(ctx, tag, true)
}

/// Removes a tag from every remaining song.
pub fn remove_tag_remaining(ctx: &mut Context, tag: &str) -> (r: Result<(), CommandError>)
    requires
        old(ctx).wf(),
    ensures
        final(ctx).wf(),
        final(ctx)@ == tag_remaining_spec(old(ctx)@, tag@, false).0,
        match (r, tag_remaining_spec(old(ctx)@, tag@, false).1) {
            (Ok(_), Ok(_)) => true,
            (Err(a), Err(b)) => a@ == b,
            _ => false,
        },
{
    tag_remaining(ctx, tag, false)
}

} // verus!
