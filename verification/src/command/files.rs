//! Commands on the music files themselves: finding them, deleting, moving and
//! showing where they are.
use crate::command::error::{CommandError, CommandErrorView};
use crate::command::play::{next_song, next_song_spec};
use crate::command::tag::{with_files, with_output};
use crate::command::{
    CommandReturn, Effect, EffectView, Outcome, OutcomeView, Pending, PendingView, request, res_view,
};
use crate::data::context::{Context, ContextView};
use crate::data::files::{FilesView, reloaded};
use crate::data::playlist::PlaylistView;
use crate::path::{
    file_name_of, is_absolute_path, join_path, joined_path, path_components, path_file_name,
    path_is_absolute, strip_path_prefix, stripped_path,
};
use crate::text::{copy_str, join_strs, join_text, push_char, push_str, views};
use vstd::prelude::*;

verus! {

/// `dr`: the music files under the music folder are asked for.
pub open spec fn reload_files_spec(c: ContextView) -> OutcomeView {
    OutcomeView::Request(EffectView::ReloadFiles { root: c.files.root }, PendingView::Reload)
}

/// Asks for the music files on disk, to bring the known files up to date.
pub fn reload_files(ctx: &Context) -> (r: Outcome)
    ensures
        r@ == reload_files_spec(ctx@),
{
    Outcome::Request(Effect::ReloadFiles { root: ctx.files.root.clone() }, Pending::Reload)
}

/// The first of `found` that does not lie under `root`, if there is one.
pub open spec fn first_outside(found: Seq<Seq<char>>, root: Seq<char>, i: int) -> Option<Seq<char>>
    decreases found.len() - i,
{
    if i < 0 || i >= found.len() {
        None
    } else if stripped_path(found[i], root) is None {
        Some(found[i])
    } else {
        first_outside(found, root, i + 1)
    }
}

/// The error for a found file that does not lie under the music folder.
pub open spec fn outside_error(path: Seq<char>) -> CommandErrorView {
    CommandErrorView::Io("file is not in the music folder: "@ + path)
}

/// The context once the music files `found` are known: new ones come in with
/// empty data, the others that are known leave. A found file outside the
/// music folder is an error, and nothing changes.
pub open spec fn found_files_spec(c: ContextView, found: Seq<Seq<char>>) -> (ContextView, Result<(), CommandErrorView>) {
    match first_outside(found, c.files.root, 0) {
        Some(p) => (c, Err(outside_error(p))),
        None => (with_files(c, reloaded(c.files, found)), Ok(())),
    }
}

/// Brings the known files up to date with the music files `found` on disk.
pub fn found_files(ctx: &mut Context, found: &Vec<String>) -> (r: Result<(), CommandError>)
    requires
        old(ctx).wf(),
    ensures
        final(ctx).wf(),
        final(ctx)@ == found_files_spec(old(ctx)@, views(found@)).0,
        match (r, found_files_spec(old(ctx)@, views(found@)).1) {
            (Ok(_), Ok(_)) => true,
            (Err(a), Err(b)) => a@ == b,
            _ => false,
        },
        r is Ok ==> forall|i: int|
            0 <= i < found@.len() ==> {
                let rel = stripped_path(#[trigger] found@[i]@, old(ctx)@.files.root)->Some_0;
                !old(ctx)@.files.map.contains_key(path_components(rel))
                    || old(ctx)@.files.names[path_components(rel)] == rel
                    ==> final(ctx)@.files.map.contains_key(path_components(rel))
            },
{
    let ghost fv = views(found@);
    let mut i: usize = 0;
    while i < found.len()
        invariant
            i <= found.len(),
            ctx.wf(),
            ctx@ == old(ctx)@,
            fv == views(found@),
            first_outside(fv, ctx@.files.root, 0) == first_outside(fv, ctx@.files.root, i as int),
            forall|j: int| 0 <= j < i ==> stripped_path(#[trigger] found@[j]@, ctx@.files.root) is Some,
        decreases found.len() - i,
    {
        assert(fv[i as int] == found@[i as int]@);
        if strip_path_prefix(found[i].as_str(), ctx.files.root.as_str()).is_none() {
            let mut msg = copy_str("file is not in the music folder: ");
            push_str(&mut msg, found[i].as_str());
            proof {
                reveal_strlit("file is not in the music folder: ");
            }
            return Err(CommandError::Io(msg));
        }
        i += 1;
    }
    ctx.files.reload_files(found);
    Ok(())
}

/// `dp`: the full path of the current song.
pub open spec fn full_path_spec(c: ContextView) -> (ContextView, Result<(), CommandErrorView>) {
    if c.playlist.remaining.len() == 0 {
        (c, Err(CommandErrorView::NoFilePlaying))
    } else {
        let cur = c.playlist.remaining[0];
        let full = if is_absolute_path(cur) {
            cur
        } else {
            joined_path(c.files.root, cur)
        };
        (with_output(c, full + "\n"@), Ok(()))
    }
}

/// Shows the full path of the current song.
pub fn show_full_path(ctx: &mut Context) -> (r: Result<(), CommandError>)
    requires
        old(ctx).wf(),
    ensures
        final(ctx).wf(),
        final(ctx)@ == full_path_spec(old(ctx)@).0,
        match (r, full_path_spec(old(ctx)@).1) {
            (Ok(_), Ok(_)) => true,
            (Err(a), Err(b)) => a@ == b,
            _ => false,
        },
{
    if ctx.playlist.remaining.len() == 0 {
        return Err(CommandError::NoFilePlaying);
    }
    assert(views(ctx.playlist.remaining@)[0] == ctx.playlist.remaining@[0]@);
    let full = if path_is_absolute(ctx.playlist.remaining[0].as_str()) {
        ctx.playlist.remaining[0].clone()
    } else {
        join_path(ctx.files.root.as_str(), ctx.playlist.remaining[0].as_str())
    };
    push_str(&mut ctx.cmd_out, full.as_str());
    push_char(&mut ctx.cmd_out, '\n');
    proof {
        reveal_strlit("\n");
    }
    assert(ctx.cmd_out@ =~= old(ctx).cmd_out@ + (full@ + "\n"@));
    Ok(())
}

/// `del`: the current song leaves the known files, and deleting its file is asked for.
pub open spec fn delete_spec(c: ContextView) -> (ContextView, Result<OutcomeView, CommandErrorView>) {
    if c.playlist.remaining.len() == 0 {
        (c, Err(CommandErrorView::NoFilePlaying))
    } else {
        let cur = c.playlist.remaining[0];
        (
            with_files(
                c,
                FilesView {
                    map: c.files.map.remove(path_components(cur)),
                    names: c.files.names.remove(path_components(cur)),
                    ..c.files
                },
            ),
            request(EffectView::DeleteFile { path: joined_path(c.files.root, cur) }, PendingView::Delete),
        )
    }
}

/// Deletes the file of the current song.
pub fn delete_current(ctx: &mut Context) -> (r: Result<Outcome, CommandError>)
    requires
        old(ctx).wf(),
    ensures
        final(ctx).wf(),
        (final(ctx)@, res_view(r)) == delete_spec(old(ctx)@),
{
    if ctx.playlist.remaining.len() == 0 {
        return Err(CommandError::NoFilePlaying);
    }
    let cur = ctx.playlist.remaining[0].clone();
    let _ = ctx.files.remove(cur.as_str());
    let path = join_path(ctx.files.root.as_str(), cur.as_str());
    Ok(Outcome::Request(Effect::DeleteFile { path }, Pending::Delete))
}

/// The context once the file is deleted: a line says so, and the next song comes.
pub open spec fn deleted_spec(c: ContextView) -> (ContextView, CommandReturn) {
    next_song_spec(with_output(c, "File deleted successfully.\n"@))
}

/// Goes on once the file of the current song is deleted.
pub fn deleted(ctx: &mut Context) -> (r: CommandReturn)
    requires
        old(ctx).wf(),
    ensures
        final(ctx).wf(),
        (final(ctx)@, r) == deleted_spec(old(ctx)@),
{
    push_str(&mut ctx.cmd_out, "File deleted successfully.\n");
    next_song(ctx)
}

/// `dm FOLDER`: moving the current song into the folder (the words joined by
/// spaces, under the music folder) is asked for.
pub open spec fn move_spec(c: ContextView, words: Seq<Seq<char>>) -> Result<OutcomeView, CommandErrorView> {
    let input = join_text(words, " "@);
    if c.playlist.remaining.len() == 0 {
        Err(CommandErrorView::NoFilePlaying)
    } else {
        let cur = c.playlist.remaining[0];
        match file_name_of(cur) {
            None => Err(CommandErrorView::InvalidFileName(cur)),
            Some(name) => {
                let full = joined_path(joined_path(c.files.root, input), name);
                request(
                    EffectView::MoveFile { from: joined_path(c.files.root, cur), to: full },
                    PendingView::Move { relative: joined_path(input, name), full },
                )
            },
        }
    }
}

/// Moves the file of the current song to another folder.
pub fn move_file(ctx: &Context, words: &Vec<String>) -> (r: Result<Outcome, CommandError>)
    requires
        ctx.wf(),
    ensures
        res_view(r) == move_spec(ctx@, views(words@)),
{
    let input = join_strs(words, " ");
    if ctx.playlist.remaining.len() == 0 {
        return Err(CommandError::NoFilePlaying);
    }
    let cur = ctx.playlist.remaining[0].as_str();
    let name = match path_file_name(cur) {
        Some(n) => n,
        None => return Err(CommandError::InvalidFileName(copy_str(cur))),
    };
    let folder = join_path(ctx.files.root.as_str(), input.as_str());
    let full = join_path(folder.as_str(), name.as_str());
    let from = join_path(ctx.files.root.as_str(), cur);
    let relative = join_path(input.as_str(), name.as_str());
    Ok(Outcome::Request(Effect::MoveFile { from, to: full.clone() }, Pending::Move { relative, full }))
}

/// The context once the file is moved to `full`, where it is known as
/// `relative`, and `existed` tells whether something was already there before.
/// The current song becomes `relative`. The data of the known files is what
/// it was: the entry looked up is the one under the new path `relative`,
/// which is taken out and put back (where there is one, it is known by the
/// text `relative` from then on), so the data of the moved file stays under
/// its old path. The line says "Succesfully moved File" where
/// nothing was at `full` before, and names `full` as a new folder where
/// something was: the two lines read as swapped, and are kept as they are.
pub open spec fn moved_spec(c: ContextView, relative: Seq<char>, full: Seq<char>, existed: bool) -> ContextView {
    let text = if !existed {
        "Succesfully moved File\n"@
    } else {
        "Created new Folder to move file to "@ + full + "\n"@
    };
    let c1 = if c.playlist.remaining.len() > 0 {
        ContextView {
            playlist: PlaylistView {
                remaining: c.playlist.remaining.update(0, relative),
                ..c.playlist
            },
            ..c
        }
    } else {
        c
    };
    let k = path_components(relative);
    let c2 = if c.files.map.contains_key(k) {
        with_files(c1, FilesView { names: c.files.names.insert(k, relative), ..c.files })
    } else {
        c1
    };
    with_output(c2, text)
}

/// Goes on once the file of the current song is moved.
pub fn moved(ctx: &mut Context, relative: &str, full: &str, existed: bool)
    requires
        old(ctx).wf(),
    ensures
        final(ctx).wf(),
        final(ctx)@ == moved_spec(old(ctx)@, relative@, full@, existed),
{
    if ctx.playlist.remaining.len() > 0 {
        ctx.playlist.remaining.set(0, copy_str(relative));
        assert(views(ctx.playlist.remaining@) =~= views(old(ctx).playlist.remaining@).update(0, relative@));
    }
    let ghost before = ctx.files@;
    match ctx.files.remove(relative) {
        Some(d) => {
            ctx.files.insert(copy_str(relative), d);
            assert(ctx.files@.map =~= before.map);
            assert(ctx.files@.names =~= before.names.insert(path_components(relative@), relative@));
        },
        None => {
            assert(ctx.files@.map =~= before.map);
            assert(ctx.files@.names =~= before.names);
        },
    }
    if !existed {
        push_str(&mut ctx.cmd_out, "Succesfully moved File\n");
    } else {
        push_str(&mut ctx.cmd_out, "Created new Folder to move file to ");
        push_str(&mut ctx.cmd_out, full);
        push_str(&mut ctx.cmd_out, "\n");
        assert(ctx.cmd_out@ =~= old(ctx).cmd_out@ + ("Created new Folder to move file to "@ + full@ + "\n"@));
    }
}

/// `ds`: the name of the music folder, where it has one, as a line; then the
/// tree of folders under it is asked for.
pub open spec fn directories_spec(c: ContextView) -> (ContextView, OutcomeView) {
    let c1 = match file_name_of(c.files.root) {
        Some(n) => with_output(c, n + "\n"@),
        None => c,
    };
    (c1, OutcomeView::Request(EffectView::ShowDirectories { root: c.files.root }, PendingView::Directories))
}

/// Shows the folders under the music folder.
pub fn show_directories(ctx: &mut Context) -> (r: Outcome)
    requires
        old(ctx).wf(),
    ensures
        final(ctx).wf(),
        (final(ctx)@, r@) == directories_spec(old(ctx)@),
{
    match path_file_name(ctx.files.root.as_str()) {
        Some(n) => {
            push_str(&mut ctx.cmd_out, n.as_str());
            push_char(&mut ctx.cmd_out, '\n');
            proof {
                reveal_strlit("\n");
            }
            assert(ctx.cmd_out@ =~= old(ctx).cmd_out@ + (n@ + "\n"@));
        },
        None => {},
    }
    Outcome::Request(Effect::ShowDirectories { root: ctx.files.root.clone() }, Pending::Directories)
}

/// The line of a folder in the tree: the marks of the levels above, then a
/// branch that ends where the folder is the last of its level.
pub open spec fn folder_line_spec(layers: Seq<char>, is_last: bool, name: Seq<char>) -> Seq<char> {
    layers + (if is_last {
        "└── "@
    } else {
        "├── "@
    }) + name + "\n"@
}

/// The line of a folder in the tree.
pub fn folder_line(layers: &str, is_last: bool, name: &str) -> (r: String)
    ensures
        r@ == folder_line_spec(layers@, is_last, name@),
{
    let mut line = copy_str(layers);
    if is_last {
        push_str(&mut line, "└── ");
    } else {
        push_str(&mut line, "├── ");
    }
    push_str(&mut line, name);
    push_str(&mut line, "\n");
    line
}

/// The marks of the levels above, for the folders inside a folder; `ending`
/// tells whether a folder on the way down was the last of its level.
pub open spec fn child_layers_spec(layers: Seq<char>, ending: bool) -> Seq<char> {
    layers + if ending {
        "    "@
    } else {
        "│   "@
    }
}

/// The marks of the levels above for the folders inside a folder.
pub fn child_layers(layers: &str, ending: bool) -> (r: String)
    ensures
        r@ == child_layers_spec(layers@, ending),
{
    let mut l = copy_str(layers);
    if ending {
        push_str(&mut l, "    ");
    } else {
        push_str(&mut l, "│   ");
    }
    l
}

} // verus!
