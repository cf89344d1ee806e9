//! Commands that act on the songs being played.
use crate::command::error::{CommandError, CommandErrorView};
use crate::command::{CommandReturn, Effect, EffectView, PlayerAction, player_effect};
use crate::data::context::{Context, ContextView};
use crate::data::playlist::{Playlist, PlaylistView};
use crate::span::Span;
use crate::text::{copy_str, parse_usize, parse_usize_spec, views};
use crate::path::same_path;
use vstd::prelude::*;

verus! {

/// The context with the progress in the current song set back to the start.
pub open spec fn rewound(c: ContextView) -> ContextView {
    ContextView { playlist: PlaylistView { progress: 0, ..c.playlist }, ..c }
}

/// The context with other remaining and previous songs.
pub open spec fn with_songs(c: ContextView, remaining: Seq<Seq<char>>, previous: Seq<Seq<char>>) -> ContextView {
    ContextView { playlist: PlaylistView { remaining, previous, ..c.playlist }, ..c }
}

/// Loads the song at the front of the remaining songs as if it were new:
/// its progress goes back to the start.
pub fn load_in_first_song(ctx: &mut Context) -> (r: CommandReturn)
    requires
        old(ctx).wf(),
    ensures
        final(ctx).wf(),
        final(ctx)@ == rewound(old(ctx)@),
        r == CommandReturn::ReloadFirstSong,
{
    ctx.playlist.progress = Span::zero();
    CommandReturn::ReloadFirstSong
}

/// A random order of the songs (`rand`'s `SliceRandom::shuffle` with the
/// thread's generator). The contract states only that the same songs come out,
/// each as often as it went in; the order is chance.
#[verifier::external_body]
fn shuffle_songs(v: &mut Vec<String>)
    ensures
        views(final(v)@).to_multiset() == views(old(v)@).to_multiset(),
{
    rand::seq::SliceRandom::shuffle(v.as_mut_slice(), &mut rand::rng());
}

/// What `[PathBuf]::sort` makes of a list of paths.
pub uninterp spec fn path_sorted(s: Seq<Seq<char>>) -> Seq<Seq<char>>;

/// What `<=` on `Path` gives for `a` and `b` (`Path`'s order, component by
/// component).
pub uninterp spec fn path_le(a: Seq<char>, b: Seq<char>) -> bool;

/// Each path comes no later than the ones after it, in `Path`'s order.
pub open spec fn paths_in_order(s: Seq<Seq<char>>) -> bool {
    forall|i: int, j: int| 0 <= i < j < s.len() ==> path_le(#[trigger] s[i], #[trigger] s[j])
}

/// The songs in the order of their paths (`[PathBuf]::sort`, a stable sort by
/// `Path`'s order, component by component). The contract names the result and
/// states what the documentation of `sort` promises: the same songs come out,
/// each as often as it went in, in ascending order.
#[verifier::external_body]
fn sort_songs(v: &mut Vec<String>)
    ensures
        views(final(v)@) == path_sorted(views(old(v)@)),
        views(final(v)@).to_multiset() == views(old(v)@).to_multiset(),
        forall|i: int, j: int|
            0 <= i < j < final(v)@.len() ==> path_le(#[trigger] final(v)@[i]@, #[trigger] final(v)@[j]@),
{
    let mut paths: Vec<std::path::PathBuf> = v.iter().map(std::path::PathBuf::from).collect();
    paths.sort();
    *v = paths.into_iter().map(|p| p.to_string_lossy().into_owned()).collect();
}

/// Shuffles the remaining songs and loads the new first song from its start.
pub fn randomize(ctx: &mut Context) -> (r: CommandReturn)
    requires
        old(ctx).wf(),
    ensures
        final(ctx).wf(),
        final(ctx)@.playlist.remaining.to_multiset() == old(ctx)@.playlist.remaining.to_multiset(),
        final(ctx)@.playlist.remaining.len() == old(ctx)@.playlist.remaining.len(),
        rewound(with_songs(old(ctx)@, final(ctx)@.playlist.remaining, old(ctx)@.playlist.previous))
            == final(ctx)@,
        r == CommandReturn::ReloadFirstSong,
{
    shuffle_songs(&mut ctx.playlist.remaining);
    proof {
        views(old(ctx).playlist.remaining@).to_multiset_ensures();
        views(ctx.playlist.remaining@).to_multiset_ensures();
    }
    load_in_first_song(ctx)
}

/// The playlist after `pn`: the current song joins the songs played before, and
/// the next one is loaded from its start.
pub open spec fn next_song_spec(c: ContextView) -> (ContextView, CommandReturn) {
    if c.playlist.remaining.len() > 0 {
        (
            rewound(
                with_songs(
                    c,
                    c.playlist.remaining.drop_first(),
                    c.playlist.previous.push(c.playlist.remaining[0]),
                ),
            ),
            CommandReturn::ReloadFirstSong,
        )
    } else {
        (c, CommandReturn::Nothing)
    }
}

/// Goes to the next song, where there is a current one.
pub fn next_song(ctx: &mut Context) -> (r: CommandReturn)
    requires
        old(ctx).wf(),
    ensures
        final(ctx).wf(),
        (final(ctx)@, r) == next_song_spec(old(ctx)@),
{
    if ctx.playlist.remaining.len() > 0 {
        ctx.playlist.next_song();
        assert(views(ctx.playlist.remaining@) =~= views(old(ctx).playlist.remaining@).drop_first());
        assert(views(ctx.playlist.previous@) =~= views(old(ctx).playlist.previous@).push(
            views(old(ctx).playlist.remaining@)[0],
        ));
        load_in_first_song(ctx)
    } else {
        CommandReturn::Nothing
    }
}

/// The playlist after `pn N`: the first `N` songs (all of them where there are
/// fewer) join the songs played before, in order.
pub open spec fn skip_songs_spec(c: ContextView, count: Seq<char>) -> (
    ContextView,
    Result<CommandReturn, CommandErrorView>,
) {
    match parse_usize_spec(count) {
        Err(k) => (c, Err(CommandErrorView::ParseInt(k))),
        Ok(n) => {
            let len = c.playlist.remaining.len();
            let k = if n < len { n as int } else { len as int };
            if k == 0 {
                (c, Ok(CommandReturn::Nothing))
            } else {
                (
                    rewound(
                        with_songs(
                            c,
                            c.playlist.remaining.skip(k),
                            c.playlist.previous + c.playlist.remaining.take(k),
                        ),
                    ),
                    Ok(CommandReturn::ReloadFirstSong),
                )
            }
        },
    }
}

/// Skips a number of songs.
pub fn skip_songs(ctx: &mut Context, count: &str) -> (r: Result<CommandReturn, CommandError>)
    requires
        old(ctx).wf(),
    ensures
        final(ctx).wf(),
        final(ctx)@ == skip_songs_spec(old(ctx)@, count@).0,
        match (r, skip_songs_spec(old(ctx)@, count@).1) {
            (Ok(a), Ok(b)) => a == b,
            (Err(a), Err(b)) => a@ == b,
            _ => false,
        },
{
    let n = match parse_usize(count) {
        Ok(n) => n,
        Err(k) => return Err(CommandError::ParseInt(k)),
    };
    let len = ctx.playlist.remaining.len();
    let k = if n < len { n } else { len };
    if k == 0 {
        return Ok(CommandReturn::Nothing);
    }
    let mut taken = ctx.playlist.remaining.split_off(k);
    std::mem::swap(&mut ctx.playlist.remaining, &mut taken);
    ctx.playlist.previous.append(&mut taken);
    assert(views(ctx.playlist.remaining@) =~= views(old(ctx).playlist.remaining@).skip(k as int));
    assert(views(ctx.playlist.previous@) =~= views(old(ctx).playlist.previous@) + views(
        old(ctx).playlist.remaining@,
    ).take(k as int));
    Ok(load_in_first_song(ctx))
}

/// The playlist after going back one song.
pub open spec fn previous_song_spec(c: ContextView) -> (ContextView, CommandReturn) {
    if c.playlist.previous.len() > 0 {
        (
            rewound(
                with_songs(
                    c,
                    seq![c.playlist.previous.last()] + c.playlist.remaining,
                    c.playlist.previous.drop_last(),
                ),
            ),
            CommandReturn::ReloadFirstSong,
        )
    } else {
        (c, CommandReturn::Nothing)
    }
}

/// Goes back to the song played last, where there is one.
pub fn previous_song(ctx: &mut Context) -> (r: CommandReturn)
    requires
        old(ctx).wf(),
    ensures
        final(ctx).wf(),
        (final(ctx)@, r) == previous_song_spec(old(ctx)@),
{
    if ctx.playlist.previous.len() > 0 {
        ctx.playlist.previous_song();
        assert(views(ctx.playlist.remaining@) =~= seq![views(old(ctx).playlist.previous@).last()]
            + views(old(ctx).playlist.remaining@));
        assert(views(ctx.playlist.previous@) =~= views(old(ctx).playlist.previous@).drop_last());
        load_in_first_song(ctx)
    } else {
        CommandReturn::Nothing
    }
}

/// The playlist after going back `N` songs (all songs played before, where
/// there are fewer): they return to the front in the order they were played.
pub open spec fn go_back_songs_spec(c: ContextView, count: Seq<char>) -> (
    ContextView,
    Result<CommandReturn, CommandErrorView>,
) {
    match parse_usize_spec(count) {
        Err(k) => (c, Err(CommandErrorView::ParseInt(k))),
        Ok(n) => {
            let len = c.playlist.previous.len();
            let k = if n < len { n as int } else { len as int };
            if k == 0 {
                (c, Ok(CommandReturn::Nothing))
            } else {
                (
                    rewound(
                        with_songs(
                            c,
                            c.playlist.previous.skip(len - k) + c.playlist.remaining,
                            c.playlist.previous.take(len - k),
                        ),
                    ),
                    Ok(CommandReturn::ReloadFirstSong),
                )
            }
        },
    }
}

/// Goes back a number of songs.
pub fn go_back_songs(ctx: &mut Context, count: &str) -> (r: Result<CommandReturn, CommandError>)
    requires
        old(ctx).wf(),
    ensures
        final(ctx).wf(),
        final(ctx)@ == go_back_songs_spec(old(ctx)@, count@).0,
        match (r, go_back_songs_spec(old(ctx)@, count@).1) {
            (Ok(a), Ok(b)) => a == b,
            (Err(a), Err(b)) => a@ == b,
            _ => false,
        },
{
    let n = match parse_usize(count) {
        Ok(n) => n,
        Err(k) => return Err(CommandError::ParseInt(k)),
    };
    let len = ctx.playlist.previous.len();
    let k = if n < len { n } else { len };
    if k == 0 {
        return Ok(CommandReturn::Nothing);
    }
    let mut back = ctx.playlist.previous.split_off(len - k);
    let mut rest: Vec<String> = Vec::new();
    std::mem::swap(&mut ctx.playlist.remaining, &mut rest);
    back.append(&mut rest);
    ctx.playlist.remaining = back;
    assert(views(ctx.playlist.remaining@) =~= views(old(ctx).playlist.previous@).skip(
        (len - k) as int,
    ) + views(old(ctx).playlist.remaining@));
    assert(views(ctx.playlist.previous@) =~= views(old(ctx).playlist.previous@).take(
        (len - k) as int,
    ));
    Ok(load_in_first_song(ctx))
}

/// Forgets the songs played before.
pub fn clear_previous(ctx: &mut Context)
    requires
        old(ctx).wf(),
    ensures
        final(ctx).wf(),
        final(ctx)@ == with_songs(old(ctx)@, old(ctx)@.playlist.remaining, Seq::empty()),
{
    ctx.playlist.previous.clear();
    assert(views(ctx.playlist.previous@) =~= Seq::<Seq<char>>::empty());
}

/// Takes the current song out of the remaining songs.
pub fn remove_current(ctx: &mut Context)
    requires
        old(ctx).wf(),
    ensures
        final(ctx).wf(),
        final(ctx)@ == with_songs(
            old(ctx)@,
            if old(ctx)@.playlist.remaining.len() > 0 {
                old(ctx)@.playlist.remaining.drop_first()
            } else {
                old(ctx)@.playlist.remaining
            },
            old(ctx)@.playlist.previous,
        ),
{
    if ctx.playlist.remaining.len() > 0 {
        ctx.playlist.remaining.remove(0);
        assert(views(ctx.playlist.remaining@) =~= views(old(ctx).playlist.remaining@).drop_first());
    }
}

/// The playlist after `pm N`: at most the first `N` remaining songs stay.
pub open spec fn enforce_max_spec(p: PlaylistView, max: Seq<char>) -> (PlaylistView, Result<(), CommandErrorView>) {
    match parse_usize_spec(max) {
        Err(k) => (p, Err(CommandErrorView::ParseInt(k))),
        Ok(n) => (
            PlaylistView {
                remaining: if n < p.remaining.len() {
                    p.remaining.take(n as int)
                } else {
                    p.remaining
                },
                ..p
            },
            Ok(()),
        ),
    }
}

/// Keeps at most a number of remaining songs.
pub fn enforce_max(list: &mut Playlist, max: &str) -> (r: Result<(), CommandError>)
    requires
        old(list).wf(),
    ensures
        final(list).wf(),
        final(list)@ == enforce_max_spec(old(list)@, max@).0,
        match (r, enforce_max_spec(old(list)@, max@).1) {
            (Ok(_), Ok(_)) => true,
            (Err(a), Err(b)) => a@ == b,
            _ => false,
        },
{
    let n = match parse_usize(max) {
        Ok(n) => n,
        Err(k) => return Err(CommandError::ParseInt(k)),
    };
    list.remaining.truncate(n);
    assert(views(list.remaining@) =~= if n < views(old(list).remaining@).len() {
        views(old(list).remaining@).take(n as int)
    } else {
        views(old(list).remaining@)
    });
    Ok(())
}

/// The playlist after `po`, given the sorted order `sorted` of the remaining
/// songs: where the current song changed (the first song is no longer the same
/// path), the new one is loaded from its start.
pub open spec fn sort_spec(c: ContextView, sorted: Seq<Seq<char>>) -> (ContextView, CommandReturn) {
    if c.playlist.remaining.len() == 0 {
        (c, CommandReturn::Nothing)
    } else {
        let c2 = with_songs(c, sorted, c.playlist.previous);
        if sorted.len() == 0 || !same_path(sorted[0], c.playlist.remaining[0]) {
            (rewound(c2), CommandReturn::ReloadFirstSong)
        } else {
            (c2, CommandReturn::Nothing)
        }
    }
}

/// Orders the remaining songs by their paths.
pub fn sort(ctx: &mut Context) -> (r: CommandReturn)
    requires
        old(ctx).wf(),
    ensures
        final(ctx).wf(),
        (final(ctx)@, r) == sort_spec(old(ctx)@, path_sorted(old(ctx)@.playlist.remaining)),
        final(ctx)@.playlist.remaining.to_multiset() == old(ctx)@.playlist.remaining.to_multiset(),
        paths_in_order(final(ctx)@.playlist.remaining),
{
    if ctx.playlist.remaining.len() == 0 {
        return CommandReturn::Nothing;
    }
    let prev_current = ctx.playlist.remaining[0].clone();
    sort_songs(&mut ctx.playlist.remaining);
    assert(paths_in_order(views(ctx.playlist.remaining@))) by {
        assert forall|i: int, j: int| 0 <= i < j < views(ctx.playlist.remaining@).len() implies path_le(
            #[trigger] views(ctx.playlist.remaining@)[i],
            #[trigger] views(ctx.playlist.remaining@)[j],
        ) by {
            assert(path_le(ctx.playlist.remaining@[i]@, ctx.playlist.remaining@[j]@));
        }
    }
    if ctx.playlist.remaining.len() == 0 || !crate::path::paths_equal(
        ctx.playlist.remaining[0].as_str(),
        prev_current.as_str(),
    ) {
        load_in_first_song(ctx)
    } else {
        CommandReturn::Nothing
    }
}

/// Toggles between playing and pausing; the state remembers the change.
pub fn toggle_playing(ctx: &mut Context) -> (r: Effect)
    requires
        old(ctx).wf(),
    ensures
        final(ctx).wf(),
        final(ctx)@ == (ContextView {
            state: crate::data::state::StateView {
                is_playing: !old(ctx)@.state.is_playing,
                ..old(ctx)@.state
            },
            ..old(ctx)@
        }),
        r@ == player_effect(PlayerAction::Toggle, old(ctx)@),
{
    ctx.state.is_playing = !ctx.state.is_playing;
    Effect::Player {
        action: PlayerAction::Toggle,
        progress: ctx.playlist.progress,
        stopped: ctx.playlist.remaining.len() == 0,
    }
}

/// Starts playing; the state remembers it.
pub fn start_playing(ctx: &mut Context) -> (r: Effect)
    requires
        old(ctx).wf(),
    ensures
        final(ctx).wf(),
        final(ctx)@ == (ContextView {
            state: crate::data::state::StateView { is_playing: true, ..old(ctx)@.state },
            ..old(ctx)@
        }),
        r@ == player_effect(PlayerAction::Play, old(ctx)@),
{
    ctx.state.is_playing = true;
    Effect::Player {
        action: PlayerAction::Play,
        progress: ctx.playlist.progress,
        stopped: ctx.playlist.remaining.len() == 0,
    }
}

/// Pauses; the state remembers it.
pub fn pause_playing(ctx: &mut Context) -> (r: Effect)
    requires
        old(ctx).wf(),
    ensures
        final(ctx).wf(),
        final(ctx)@ == (ContextView {
            state: crate::data::state::StateView { is_playing: false, ..old(ctx)@.state },
            ..old(ctx)@
        }),
        r@ == player_effect(PlayerAction::Pause, old(ctx)@),
{
    ctx.state.is_playing = false;
    Effect::Player {
        action: PlayerAction::Pause,
        progress: ctx.playlist.progress,
        stopped: ctx.playlist.remaining.len() == 0,
    }
}

/// Asks for the playback speed `speed` (a fraction, read outside the library).
pub fn set_speed(speed: &str) -> (r: Effect)
    ensures
        r@ == EffectView::SetSpeed(speed@),
{
    Effect::SetSpeed(copy_str(speed))
}

/// Asks for the volume `volume` percent (a fraction, read outside the library).
pub fn set_volume(volume: &str) -> (r: Effect)
    ensures
        r@ == EffectView::SetVolume(volume@),
{
    Effect::SetVolume(copy_str(volume))
}

} // verus!
