//! Commands that work between playlists: making, copying, switching and
//! removing them, but not playing songs.
use crate::command::error::{CommandError, CommandErrorView};
use crate::command::play::with_songs;
use crate::command::tag::with_output;
use crate::command::{
    CommandReturn, Effect, EffectView, Outcome, OutcomeView, Pending, PendingView, done, request,
    res_view,
};
use crate::data::context::{Context, ContextView};
use crate::data::playlist::{Playlist, PlaylistView, copy_strings};
use crate::data::state::StateView;
use crate::text::{chars_of, lowercase, push_char, push_str, str_eq, to_lowercase, views};
use vstd::prelude::*;

verus! {

/// A character that a playlist name may not hold.
pub open spec fn is_bad_name_char(c: char) -> bool {
    c == '<' || c == '>' || c == ':' || c == '"' || c == '/' || c == '\\' || c == '|' || c == '?'
        || c == '*'
}

/// The first character of `s[i..]` that a playlist name may not hold.
pub open spec fn first_bad_char(s: Seq<char>, i: int) -> Option<char>
    decreases s.len() - i,
{
    if i < 0 || i >= s.len() {
        None
    } else if is_bad_name_char(s[i]) {
        Some(s[i])
    } else {
        first_bad_char(s, i + 1)
    }
}

/// A playlist name in its proper form: not empty, without the characters that
/// file names may not hold, in lower case.
pub open spec fn list_name_spec(name: Seq<char>) -> Result<Seq<char>, CommandErrorView> {
    if name.len() == 0 {
        Err(CommandErrorView::ListNameEmpty)
    } else {
        match first_bad_char(name, 0) {
            Some(c) => Err(CommandErrorView::ListNameBadChar(c)),
            None => Ok(lowercase(name)),
        }
    }
}

/// Puts a playlist name in its proper form: simple faults such as upper case
/// are corrected, the others are errors.
pub fn force_str_format(name: &str) -> (r: Result<String, CommandError>)
    ensures
        match (r, list_name_spec(name@)) {
            (Ok(a), Ok(b)) => a@ == b,
            (Err(a), Err(b)) => a@ == b,
            _ => false,
        },
{
    let cs = chars_of(name);
    if cs.len() == 0 {
        return Err(CommandError::ListNameEmpty);
    }
    let mut i: usize = 0;
    while i < cs.len()
        invariant
            cs@ == name@,
            i <= cs.len(),
            first_bad_char(name@, 0) == first_bad_char(name@, i as int),
        decreases cs.len() - i,
    {
        let c = cs[i];
        if c == '<' || c == '>' || c == ':' || c == '"' || c == '/' || c == '\\' || c == '|' || c
            == '?' || c == '*' {
            return Err(CommandError::ListNameBadChar(c));
        }
        i += 1;
    }
    Ok(to_lowercase(name))
}

/// `lg`: the heading now, the names when they are read.
pub open spec fn get_list_names_spec(c: ContextView) -> (ContextView, Result<OutcomeView, CommandErrorView>) {
    (with_output(c, "All Playlist Names:\n"@), request(EffectView::ListNames, PendingView::Names))
}

/// Shows the names of all playlists.
pub fn get_list_names(ctx: &mut Context) -> (r: Outcome)
    requires
        old(ctx).wf(),
    ensures
        final(ctx).wf(),
        (final(ctx)@, Ok::<OutcomeView, CommandErrorView>(r@)) == get_list_names_spec(old(ctx)@),
{
    push_str(&mut ctx.cmd_out, "All Playlist Names:\n");
    Outcome::Request(Effect::ListNames, Pending::Names)
}

/// The lines that list the playlist names `names`, the current one `current`
/// marked with `>`.
pub open spec fn names_listing(names: Seq<Seq<char>>, current: Seq<char>) -> Seq<char>
    decreases names.len(),
{
    if names.len() == 0 {
        Seq::empty()
    } else {
        names_listing(names.drop_last(), current) + seq![
            if names.last() == current {
                '>'
            } else {
                '-'
            },
        ] + " "@ + names.last() + "\n"@
    }
}

/// Lists the playlist names `names`.
pub fn show_list_names(ctx: &mut Context, names: &Vec<String>)
    requires
        old(ctx).wf(),
    ensures
        final(ctx).wf(),
        final(ctx)@ == with_output(old(ctx)@, names_listing(views(names@), old(ctx)@.state.current_playlist)),
{
    let mut i: usize = 0;
    while i < names.len()
        invariant
            ctx.wf(),
            i <= names.len(),
            ctx@ == with_output(old(ctx)@, names_listing(views(names@).take(i as int), old(ctx)@.state.current_playlist)),
        decreases names.len() - i,
    {
        let ghost before = ctx.cmd_out@;
        let first_char = if str_eq(names[i].as_str(), ctx.state.current_playlist.as_str()) {
            '>'
        } else {
            '-'
        };
        push_char(&mut ctx.cmd_out, first_char);
        push_str(&mut ctx.cmd_out, " ");
        push_str(&mut ctx.cmd_out, names[i].as_str());
        push_str(&mut ctx.cmd_out, "\n");
        proof {
            let t = views(names@).take(i + 1);
            assert(t.drop_last() =~= views(names@).take(i as int));
            assert(t.last() == names@[i as int]@);
            assert(ctx.cmd_out@ =~= old(ctx).cmd_out@ + names_listing(t, old(ctx)@.state.current_playlist));
        }
        i += 1;
    }
    assert(views(names@).take(i as int) =~= views(names@));
}

/// `ln NAME` (`empty`) and `ld NAME`: a playlist saved under a new name, empty
/// or a copy of the current one; the current playlist's own name is refused.
pub open spec fn save_list_spec(c: ContextView, name: Seq<char>, empty: bool) -> (
    ContextView,
    Result<OutcomeView, CommandErrorView>,
) {
    match list_name_spec(name) {
        Err(e) => (c, Err(e)),
        Ok(n) => if n == c.state.current_playlist {
            (c, Err(CommandErrorView::SaveOverCurrentPlaylist))
        } else {
            (
                c,
                request(
                    EffectView::WritePlaylist {
                        name: n,
                        list: if empty {
                            PlaylistView { progress: 0, remaining: Seq::empty(), previous: Seq::empty() }
                        } else {
                            c.playlist
                        },
                    },
                    PendingView::Finish,
                ),
            )
        },
    }
}

fn save_list(ctx: &Context, name: &str, empty: bool) -> (r: Result<Outcome, CommandError>)
    requires
        ctx.wf(),
    ensures
        res_view(r) == save_list_spec(ctx@, name@, empty).1,
{
    let name = match force_str_format(name) {
        Ok(n) => n,
        Err(e) => return Err(e),
    };
    if str_eq(name.as_str(), ctx.state.current_playlist.as_str()) {
        return Err(CommandError::SaveOverCurrentPlaylist);
    }
    let list = if empty {
        Playlist::new()
    } else {
        ctx.playlist.copy()
    };
    Ok(Outcome::Request(Effect::WritePlaylist { name, list }, Pending::Finish))
}

/// Saves a new empty playlist.
pub fn new_empty(ctx: &Context, name: &str) -> (r: Result<Outcome, CommandError>)
    requires
        ctx.wf(),
    ensures
        res_view(r) == save_list_spec(ctx@, name@, true).1,
{
    save_list(ctx, name, true)
}

/// Saves a copy of the current playlist under another name.
pub fn duplicate_to(ctx: &Context, name: &str) -> (r: Result<Outcome, CommandError>)
    requires
        ctx.wf(),
    ensures
        res_view(r) == save_list_spec(ctx@, name@, false).1,
{
    save_list(ctx, name, false)
}

/// `la NAME`: the songs of another playlist join the remaining songs; the
/// current playlist is taken as it is now, another one is read. Where there
/// were no remaining songs, the first one is loaded.
pub open spec fn append_from_spec(c: ContextView, name: Seq<char>) -> (
    ContextView,
    Result<OutcomeView, CommandErrorView>,
) {
    match list_name_spec(name) {
        Err(e) => (c, Err(e)),
        Ok(n) => if n == c.state.current_playlist {
            (
                with_songs(c, c.playlist.remaining + c.playlist.remaining, c.playlist.previous),
                done(appended_return(c)),
            )
        } else {
            (c, request(EffectView::LoadPlaylist { name: n }, PendingView::LoadAppend))
        },
    }
}

/// What appending songs returns: the first song is loaded where there was none.
pub open spec fn appended_return(c: ContextView) -> CommandReturn {
    if c.playlist.remaining.len() == 0 {
        CommandReturn::ReloadFirstSong
    } else {
        CommandReturn::Nothing
    }
}

/// Appends the songs of another playlist.
pub fn append_from(ctx: &mut Context, name: &str) -> (r: Result<Outcome, CommandError>)
    requires
        old(ctx).wf(),
    ensures
        final(ctx).wf(),
        (final(ctx)@, res_view(r)) == append_from_spec(old(ctx)@, name@),
{
    let name = match force_str_format(name) {
        Ok(n) => n,
        Err(e) => return Err(e),
    };
    if str_eq(name.as_str(), ctx.state.current_playlist.as_str()) {
        let r = append_songs(ctx, &copy_strings(&ctx.playlist.remaining));
        return Ok(Outcome::Return(r));
    }
    Ok(Outcome::Request(Effect::LoadPlaylist { name }, Pending::LoadAppend))
}

/// Appends `songs` to the remaining songs.
pub fn append_songs(ctx: &mut Context, songs: &Vec<String>) -> (r: CommandReturn)
    requires
        old(ctx).wf(),
    ensures
        final(ctx).wf(),
        final(ctx)@ == with_songs(old(ctx)@, old(ctx)@.playlist.remaining + views(songs@), old(ctx)@.playlist.previous),
        r == appended_return(old(ctx)@),
{
    let was_empty = ctx.playlist.remaining.len() == 0;
    let mut more = copy_strings(songs);
    ctx.playlist.remaining.append(&mut more);
    assert(views(ctx.playlist.remaining@) =~= views(old(ctx).playlist.remaining@) + views(songs@));
    if was_empty {
        CommandReturn::ReloadFirstSong
    } else {
        CommandReturn::Nothing
    }
}

/// `lc NAME`: the songs of another playlist replace the current ones; naming
/// the current playlist does nothing.
pub open spec fn copy_from_spec(c: ContextView, name: Seq<char>) -> (
    ContextView,
    Result<OutcomeView, CommandErrorView>,
) {
    match list_name_spec(name) {
        Err(e) => (c, Err(e)),
        Ok(n) => if n == c.state.current_playlist {
            (c, done(CommandReturn::Nothing))
        } else {
            (c, request(EffectView::LoadPlaylist { name: n }, PendingView::LoadReplace))
        },
    }
}

/// Replaces the current songs with those of another playlist.
pub fn copy_from(ctx: &Context, name: &str) -> (r: Result<Outcome, CommandError>)
    requires
        ctx.wf(),
    ensures
        res_view(r) == copy_from_spec(ctx@, name@).1,
{
    let name = match force_str_format(name) {
        Ok(n) => n,
        Err(e) => return Err(e),
    };
    if str_eq(name.as_str(), ctx.state.current_playlist.as_str()) {
        return Ok(Outcome::Return(CommandReturn::Nothing));
    }
    Ok(Outcome::Request(Effect::LoadPlaylist { name }, Pending::LoadReplace))
}

/// `lr NAME`: another playlist is deleted; the current one is refused.
pub open spec fn remove_spec(c: ContextView, name: Seq<char>) -> Result<OutcomeView, CommandErrorView> {
    match list_name_spec(name) {
        Err(e) => Err(e),
        Ok(n) => if n == c.state.current_playlist {
            Err(CommandErrorView::DeleteCurrentPlaylist)
        } else {
            request(EffectView::RemovePlaylist { name: n }, PendingView::Finish)
        },
    }
}

/// Deletes a playlist.
pub fn remove(ctx: &Context, name: &str) -> (r: Result<Outcome, CommandError>)
    requires
        ctx.wf(),
    ensures
        res_view(r) == remove_spec(ctx@, name@),
{
    let name = match force_str_format(name) {
        Ok(n) => n,
        Err(e) => return Err(e),
    };
    if str_eq(name.as_str(), ctx.state.current_playlist.as_str()) {
        return Err(CommandError::DeleteCurrentPlaylist);
    }
    Ok(Outcome::Request(Effect::RemovePlaylist { name }, Pending::Finish))
}

/// `ls NAME`: the current playlist is saved where the mode allows it, then
/// the other one is read and becomes the current playlist.
pub open spec fn switch_to_spec(c: ContextView, name: Seq<char>) -> Result<OutcomeView, CommandErrorView> {
    match list_name_spec(name) {
        Err(e) => Err(e),
        Ok(n) => request(
            EffectView::SwitchPlaylist {
                save: if c.mode.can_save_spec() {
                    Some((c.state.current_playlist, c.playlist))
                } else {
                    None
                },
                load: n,
            },
            PendingView::Switch(n),
        ),
    }
}

/// Switches to another playlist.
pub fn switch_to(ctx: &Context, name: &str) -> (r: Result<Outcome, CommandError>)
    requires
        ctx.wf(),
    ensures
        res_view(r) == switch_to_spec(ctx@, name@),
{
    let name = match force_str_format(name) {
        Ok(n) => n,
        Err(e) => return Err(e),
    };
    let save = if ctx.program_mode.can_save() {
        Some((ctx.state.current_playlist.clone(), ctx.playlist.copy()))
    } else {
        None
    };
    Ok(Outcome::Request(Effect::SwitchPlaylist { save, load: name.clone() }, Pending::Switch(name)))
}

/// The context once the playlist `list` is read and becomes the current one
/// under the name `name`.
pub open spec fn switched(c: ContextView, list: PlaylistView, name: Seq<char>) -> ContextView {
    ContextView {
        playlist: list,
        state: StateView { current_playlist: name, ..c.state },
        ..c
    }
}

} // verus!
