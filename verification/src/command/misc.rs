//! Commands that fit nowhere else: resetting the playlist, echoing text,
//! repeating the current song and saving.
use crate::command::error::{CommandError, CommandErrorView};
use crate::command::play::{start_playing, with_songs};

use crate::command::{
    CommandReturn, Effect, EffectView, Outcome, OutcomeView, PendingView, Pending, PlayerAction,
    done, player_effect, request, res_view,
};
use crate::data::context::{Context, ContextView, should_play};
use crate::data::playlist::{Playlist, PlaylistView};
use crate::data::state::StateView;
use crate::text::{join_strs, join_text, parse_usize, parse_usize_spec, push_char, push_str, views};
use vstd::prelude::*;

verus! {

/// The context after `r` put the songs `songs` in the playlist: the songs
/// played before are forgotten.
pub open spec fn reset_songs(c: ContextView, songs: Seq<Seq<char>>) -> ContextView {
    with_songs(c, songs, Seq::empty())
}

/// `r`: whether `songs` may be the new remaining songs: every known file once,
/// by the text it is known by, in some order.
pub open spec fn is_reset_order(c: ContextView, songs: Seq<Seq<char>>) -> bool {
    songs.no_duplicates() && songs.to_set() == c.files.names.values()
}

/// `r` with the new remaining songs `songs`: where the player should play by
/// itself, it is told to play and the state remembers it; the first song is
/// then loaded from its start (at once, or once the player is told).
pub open spec fn reset_spec(c: ContextView, songs: Seq<Seq<char>>) -> (ContextView, Result<OutcomeView, CommandErrorView>) {
    let c1 = reset_songs(c, songs);
    if should_play(c.config.start_play_state, c.state.is_playing) {
        (
            ContextView { state: StateView { is_playing: true, ..c1.state }, ..c1 },
            request(player_effect(PlayerAction::Play, c1), PendingView::Reset),
        )
    } else {
        (crate::command::play::rewound(c1), done(CommandReturn::ReloadFirstSong))
    }
}

/// Puts every known file in the remaining songs and starts from the first.
pub fn reset_remaining(ctx: &mut Context) -> (r: Outcome)
    requires
        old(ctx).wf(),
    ensures
        final(ctx).wf(),
        is_reset_order(old(ctx)@, final(ctx)@.playlist.remaining),
        (final(ctx)@, Ok::<OutcomeView, CommandErrorView>(r@)) == reset_spec(
            old(ctx)@,
            final(ctx)@.playlist.remaining,
        ),
{
    ctx.playlist.previous.clear();
    ctx.playlist.remaining = ctx.files.keys();
    assert(views(ctx.playlist.previous@) =~= Seq::<Seq<char>>::empty());
    if ctx.should_be_playing() {
        let e = start_playing(ctx);
        Outcome::Request(e, Pending::Reset)
    } else {
        Outcome::Return(crate::command::play::load_in_first_song(ctx))
    }
}

/// `echo TEXT`: the words of the text, joined by spaces, as a line of output.
pub fn echo(text: &Vec<String>, cmd_out: &mut String)
    ensures
        final(cmd_out)@ == old(cmd_out)@ + join_text(views(text@), " "@) + "\n"@,
{
    let joined = join_strs(text, " ");
    push_str(cmd_out, joined.as_str());
    push_char(cmd_out, '\n');
    proof {
        reveal_strlit("\n");
    }
    assert(cmd_out@ =~= old(cmd_out)@ + join_text(views(text@), " "@) + "\n"@);
}

/// `n` copies of the song `s`.
pub open spec fn copies(s: Seq<char>, n: nat) -> Seq<Seq<char>> {
    Seq::new(n, |i: int| s)
}

/// The playlist after `pd N`: the current song comes `N` more times before the
/// songs that follow it.
pub open spec fn repeat_song_spec(p: PlaylistView, amount: Seq<char>) -> (PlaylistView, Result<(), CommandErrorView>) {
    match parse_usize_spec(amount) {
        Err(k) => (p, Err(CommandErrorView::ParseInt(k))),
        Ok(n) => if p.remaining.len() == 0 {
            (p, Err(CommandErrorView::NoFilePlaying))
        } else {
            (PlaylistView { remaining: copies(p.remaining[0], n as nat) + p.remaining, ..p }, Ok(()))
        },
    }
}

/// Repeats the current song a number of times.
pub fn repeat_song(list: &mut Playlist, amount: &str) -> (r: Result<(), CommandError>)
    requires
        old(list).wf(),
    ensures
        final(list).wf(),
        final(list)@ == repeat_song_spec(old(list)@, amount@).0,
        match (r, repeat_song_spec(old(list)@, amount@).1) {
            (Ok(_), Ok(_)) => true,
            (Err(a), Err(b)) => a@ == b,
            _ => false,
        },
{
    let n = match parse_usize(amount) {
        Ok(n) => n,
        Err(k) => return Err(CommandError::ParseInt(k)),
    };
    if list.remaining.len() == 0 {
        return Err(CommandError::NoFilePlaying);
    }
    let current = list.remaining[0].clone();
    let mut songs: Vec<String> = Vec::new();
    let mut i: usize = 0;
    while i < n
        invariant
            i <= n,
            views(songs@) == copies(current@, i as nat),
        decreases n - i,
    {
        let ghost before = views(songs@);
        let c = current.clone();
        songs.push(c);
        assert(views(songs@) =~= before.push(c@));
        assert(views(songs@) =~= copies(current@, (i + 1) as nat));
        i += 1;
    }
    let ghost rest = views(list.remaining@);
    songs.append(&mut list.remaining);
    list.remaining = songs;
    assert(views(list.remaining@) =~= copies(current@, n as nat) + rest);
    Ok(())
}

/// `s`: saving is asked for where the mode allows it.
pub open spec fn save_spec(c: ContextView) -> Result<OutcomeView, CommandErrorView> {
    if c.mode.can_save_spec() {
        request(EffectView::Save, PendingView::Finish)
    } else {
        Err(CommandErrorView::SaveInWrongMode)
    }
}

/// Saves everything, where the mode allows it.
pub fn save(ctx: &Context) -> (r: Result<Outcome, CommandError>)
    ensures
        res_view(r) == save_spec(ctx@),
{
    if ctx.program_mode.can_save() {
        Ok(Outcome::Request(Effect::Save, Pending::Finish))
    } else {
        Err(CommandError::SaveInWrongMode)
    }
}

} // verus!
