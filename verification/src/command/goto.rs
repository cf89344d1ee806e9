//! Commands that move within the current song.
use crate::command::error::{CommandError, CommandErrorView};
use crate::command::tag::with_output;
use crate::command::{CommandReturn, Effect, EffectView, JumpKind, Outcome, OutcomeView, Pending, PendingView};
use crate::data::context::{Context, ContextView, current_duration};

use crate::data::playlist::PlaylistView;
use crate::span::{Span, max_total};
use crate::text::{join_strs, join_text, push_char, push_str, views};
use vstd::prelude::*;

verus! {

/// `g TIME`, `gf TIME`, `gb TIME`: reading the time (the words joined by
/// spaces) is asked for.
pub open spec fn jump_spec(words: Seq<Seq<char>>, kind: JumpKind) -> OutcomeView {
    OutcomeView::Request(EffectView::ParseDuration(join_text(words, " "@)), PendingView::Jump(kind))
}

fn jump(words: &Vec<String>, kind: JumpKind) -> (r: Outcome)
    ensures
        r@ == jump_spec(views(words@), kind),
{
    Outcome::Request(Effect::ParseDuration(join_strs(words, " ")), Pending::Jump(kind))
}

/// Goes to a time in the current song; the time is still to be read.
pub fn jump_to(words: &Vec<String>) -> (r: Outcome)
    ensures
        r@ == jump_spec(views(words@), JumpKind::To),
{
    jump(words, JumpKind::To)
}

/// Moves forward in the current song; the time is still to be read.
pub fn jump_forward(words: &Vec<String>) -> (r: Outcome)
    ensures
        r@ == jump_spec(views(words@), JumpKind::Forward),
{
    jump(words, JumpKind::Forward)
}

/// Moves back in the current song; the time is still to be read.
pub fn jump_backward(words: &Vec<String>) -> (r: Outcome)
    ensures
        r@ == jump_spec(views(words@), JumpKind::Backward),
{
    jump(words, JumpKind::Backward)
}

/// The progress after moving by `d` (in nanoseconds) from `p`: to `d`, forward
/// by `d` (`None` past the longest time there is) or back by `d` (not before
/// the start).
pub open spec fn jumped(p: int, d: int, kind: JumpKind) -> Option<int> {
    match kind {
        JumpKind::To => Some(d),
        JumpKind::Forward => if p + d <= max_total() {
            Some(p + d)
        } else {
            None
        },
        JumpKind::Backward => Some(if p >= d {
            p - d
        } else {
            0
        }),
    }
}

/// The context once the time `d` is read: the progress moves, and the song is
/// loaded again there.
pub open spec fn jumped_spec(c: ContextView, d: int, kind: JumpKind) -> (ContextView, Result<CommandReturn, CommandErrorView>) {
    match jumped(c.playlist.progress, d, kind) {
        None => (c, Err(CommandErrorView::ProgressOverflow)),
        Some(p) => (
            ContextView { playlist: PlaylistView { progress: p, ..c.playlist }, ..c },
            Ok(CommandReturn::ReloadFirstSong),
        ),
    }
}

/// Moves in the current song by the time `d`.
pub fn jump_by(ctx: &mut Context, d: Span, kind: JumpKind) -> (r: Result<CommandReturn, CommandError>)
    requires
        old(ctx).wf(),
        d.wf(),
    ensures
        final(ctx).wf(),
        final(ctx)@ == jumped_spec(old(ctx)@, d.total(), kind).0,
        match (r, jumped_spec(old(ctx)@, d.total(), kind).1) {
            (Ok(a), Ok(b)) => a == b,
            (Err(a), Err(b)) => a@ == b,
            _ => false,
        },
{
    match kind {
        JumpKind::To => {
            ctx.playlist.progress = d;
        },
        JumpKind::Forward => match ctx.playlist.progress.checked_add(d) {
            Some(p) => {
                ctx.playlist.progress = p;
            },
            None => {
                return Err(CommandError::ProgressOverflow);
            },
        },
        JumpKind::Backward => {
            ctx.playlist.progress = ctx.playlist.progress.saturating_sub(d);
        },
    }
    Ok(CommandReturn::ReloadFirstSong)
}

/// `gd`: showing the progress, out of the length of the song where it is
/// known, is asked for.
pub open spec fn progress_spec(c: ContextView) -> OutcomeView {
    OutcomeView::Request(
        EffectView::ShowProgress { progress: c.playlist.progress, out_of: current_duration(c) },
        PendingView::Progress,
    )
}

/// Shows how far the current song has come.
pub fn display_progress(ctx: &Context) -> (r: Outcome)
    requires
        ctx.wf(),
    ensures
        r@ == progress_spec(ctx@),
{
    let out_of = ctx.get_current_duration();
    Outcome::Request(Effect::ShowProgress { progress: ctx.playlist.progress, out_of }, Pending::Progress)
}

/// Prints the progress text `text` as a line.
pub fn progress_shown(ctx: &mut Context, text: &str)
    requires
        old(ctx).wf(),
    ensures
        final(ctx).wf(),
        final(ctx)@ == with_output(old(ctx)@, text@ + "\n"@),
{
    push_str(&mut ctx.cmd_out, text);
    push_char(&mut ctx.cmd_out, '\n');
    proof {
        reveal_strlit("\n");
    }
    assert(ctx.cmd_out@ =~= old(ctx).cmd_out@ + (text@ + "\n"@));
}

} // verus!
