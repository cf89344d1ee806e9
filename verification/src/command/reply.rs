//! What the program around the library answers to an effect, and how a
//! command goes on from there.
use crate::command::error::{CommandError, CommandErrorView};
use crate::command::files::{deleted, deleted_spec, found_files, found_files_spec, moved, moved_spec};
use crate::command::goto::{jump_by, jumped_spec, progress_shown};
use crate::command::list::{append_songs, appended_return, names_listing, show_list_names, switched};
use crate::command::play::{load_in_first_song, rewound, with_songs};
use crate::command::tag::with_output;
use crate::command::{CommandReturn, Outcome, OutcomeView, Pending, PendingView, done, res_view};
use crate::data::context::{Context, ContextView};
use crate::data::playlist::{Playlist, PlaylistView};
use crate::span::Span;
use crate::text::{push_str, views};
use vstd::prelude::*;

verus! {

/// The answer to an effect.
#[derive(Debug)]
pub enum Reply {
    /// the work is done
    Done,
    /// the names of the saved playlists
    Names(Vec<String>),
    /// the playlist that was read
    Loaded(Playlist),
    /// the music files under the music folder
    Found(Vec<String>),
    /// the length of time that was read
    Duration(Span),
    /// the text to show
    Text(String),
    /// the file was moved; `existed` tells whether its new place was taken before
    Moved { existed: bool },
    /// the work failed
    Failed(CommandError),
    /// the work failed after it gave the text `text`
    Broken { text: String, error: CommandError },
}

pub enum ReplyView {
    Done,
    Names(Seq<Seq<char>>),
    Loaded(PlaylistView),
    Found(Seq<Seq<char>>),
    Duration(int),
    Text(Seq<char>),
    Moved { existed: bool },
    Failed(CommandErrorView),
    Broken { text: Seq<char>, error: CommandErrorView },
}

impl View for Reply {
    type V = ReplyView;

    open spec fn view(&self) -> ReplyView {
        match self {
            Reply::Done => ReplyView::Done,
            Reply::Names(v) => ReplyView::Names(views(v@)),
            Reply::Loaded(p) => ReplyView::Loaded(p@),
            Reply::Found(v) => ReplyView::Found(views(v@)),
            Reply::Duration(d) => ReplyView::Duration(d.total()),
            Reply::Text(s) => ReplyView::Text(s@),
            Reply::Moved { existed } => ReplyView::Moved { existed: *existed },
            Reply::Failed(e) => ReplyView::Failed(e@),
            Reply::Broken { text, error } => ReplyView::Broken { text: text@, error: error@ },
        }
    }
}

impl Reply {
    /// A playlist read is well formed, and so is a length of time.
    pub open spec fn wf(&self) -> bool {
        match self {
            Reply::Loaded(p) => p.wf(),
            Reply::Duration(d) => d.wf(),
            _ => true,
        }
    }
}

/// Whether `reply` is an answer to the work that `p` waits for: a failure
/// answers anything.
pub open spec fn answers(p: PendingView, reply: ReplyView) -> bool {
    match (p, reply) {
        (_, ReplyView::Failed(_)) => true,
        (PendingView::Finish, ReplyView::Done) => true,
        (PendingView::Names, ReplyView::Names(_)) => true,
        (PendingView::LoadReplace, ReplyView::Loaded(_)) => true,
        (PendingView::LoadAppend, ReplyView::Loaded(_)) => true,
        (PendingView::Switch(_), ReplyView::Loaded(_)) => true,
        (PendingView::Reload, ReplyView::Found(_)) => true,
        (PendingView::Delete, ReplyView::Done) => true,
        (PendingView::Move { .. }, ReplyView::Moved { .. }) => true,
        (PendingView::Directories, ReplyView::Text(_)) => true,
        (PendingView::Directories, ReplyView::Broken { .. }) => true,
        (PendingView::Reset, ReplyView::Done) => true,
        (PendingView::Jump(_), ReplyView::Duration(_)) => true,
        (PendingView::Progress, ReplyView::Text(_)) => true,
        _ => false,
    }
}

/// A result without a value, as the result of a finished command.
pub open spec fn unit_done(r: Result<(), CommandErrorView>) -> Result<OutcomeView, CommandErrorView> {
    match r {
        Ok(_) => done(CommandReturn::Nothing),
        Err(e) => Err(e),
    }
}

/// A command's return or error, as the result of a finished command.
pub open spec fn ret_done(r: Result<CommandReturn, CommandErrorView>) -> Result<OutcomeView, CommandErrorView> {
    match r {
        Ok(x) => done(x),
        Err(e) => Err(e),
    }
}

/// How the command that waits for `p` goes on with the answer `reply`: a
/// failure is its error and changes nothing; the folders drawn before reading
/// a folder failed are shown, and the failure is the error.
pub open spec fn resume_spec(c: ContextView, p: PendingView, reply: ReplyView) -> (
    ContextView,
    Result<OutcomeView, CommandErrorView>,
) {
    match (p, reply) {
        (_, ReplyView::Failed(e)) => (c, Err(e)),
        (PendingView::Names, ReplyView::Names(v)) => (
            with_output(c, names_listing(v, c.state.current_playlist)),
            done(CommandReturn::Nothing),
        ),
        (PendingView::LoadReplace, ReplyView::Loaded(l)) => (
            ContextView { playlist: l, ..c },
            done(CommandReturn::ReloadFirstSong),
        ),
        (PendingView::LoadAppend, ReplyView::Loaded(l)) => (
            with_songs(c, c.playlist.remaining + l.remaining, c.playlist.previous),
            done(appended_return(c)),
        ),
        (PendingView::Switch(n), ReplyView::Loaded(l)) => (
            switched(c, l, n),
            done(CommandReturn::ReloadFirstSong),
        ),
        (PendingView::Reload, ReplyView::Found(v)) => (
            found_files_spec(c, v).0,
            unit_done(found_files_spec(c, v).1),
        ),
        (PendingView::Delete, ReplyView::Done) => (deleted_spec(c).0, done(deleted_spec(c).1)),
        (PendingView::Move { relative, full }, ReplyView::Moved { existed }) => (
            moved_spec(c, relative, full, existed),
            done(CommandReturn::Nothing),
        ),
        (PendingView::Directories, ReplyView::Text(t)) => (with_output(c, t), done(CommandReturn::Nothing)),
        (PendingView::Directories, ReplyView::Broken { text, error }) => (with_output(c, text), Err(error)),
        (PendingView::Reset, ReplyView::Done) => (rewound(c), done(CommandReturn::ReloadFirstSong)),
        (PendingView::Jump(k), ReplyView::Duration(d)) => (
            jumped_spec(c, d, k).0,
            ret_done(jumped_spec(c, d, k).1),
        ),
        (PendingView::Progress, ReplyView::Text(t)) => (
            with_output(c, t + "\n"@),
            done(CommandReturn::Nothing),
        ),
        _ => (c, done(CommandReturn::Nothing)),
    }
}

/// Goes on with the command that waits for `pending`, given the answer `reply`.
pub fn resume(ctx: &mut Context, pending: Pending, reply: Reply) -> (r: Result<Outcome, CommandError>)
    requires
        old(ctx).wf(),
        reply.wf(),
        answers(pending@, reply@),
    ensures
        final(ctx).wf(),
        (final(ctx)@, res_view(r)) == resume_spec(old(ctx)@, pending@, reply@),
{
    match reply {
        Reply::Failed(e) => Err(e),
        Reply::Done => match pending {
            Pending::Delete => Ok(Outcome::Return(deleted(ctx))),
            Pending::Reset => Ok(Outcome::Return(load_in_first_song(ctx))),
            _ => Ok(Outcome::Return(CommandReturn::Nothing)),
        },
        Reply::Names(v) => {
            show_list_names(ctx, &v);
            Ok(Outcome::Return(CommandReturn::Nothing))
        },
        Reply::Loaded(l) => match pending {
            Pending::LoadAppend => {
                let r = append_songs(ctx, &l.remaining);
                Ok(Outcome::Return(r))
            },
            Pending::Switch(n) => {
                ctx.playlist = l;
                ctx.state.current_playlist = n;
                Ok(Outcome::Return(CommandReturn::ReloadFirstSong))
            },
            _ => {
                ctx.playlist = l;
                Ok(Outcome::Return(CommandReturn::ReloadFirstSong))
            },
        },
        Reply::Found(v) => match found_files(ctx, &v) {
            Ok(_) => Ok(Outcome::Return(CommandReturn::Nothing)),
            Err(e) => Err(e),
        },
        Reply::Duration(d) => match pending {
            Pending::Jump(k) => match jump_by(ctx, d, k) {
                Ok(x) => Ok(Outcome::Return(x)),
                Err(e) => Err(e),
            },
            _ => Ok(Outcome::Return(CommandReturn::Nothing)),
        },
        Reply::Text(t) => match pending {
            Pending::Progress => {
                progress_shown(ctx, t.as_str());
                Ok(Outcome::Return(CommandReturn::Nothing))
            },
            _ => {
                push_str(&mut ctx.cmd_out, t.as_str());
                Ok(Outcome::Return(CommandReturn::Nothing))
            },
        },
        Reply::Broken { text, error } => match pending {
            Pending::Directories => {
                push_str(&mut ctx.cmd_out, text.as_str());
                Err(error)
            },
            _ => Ok(Outcome::Return(CommandReturn::Nothing)),
        },
        Reply::Moved { existed } => match pending {
            Pending::Move { relative, full } => {
                moved(ctx, relative.as_str(), full.as_str(), existed);
                Ok(Outcome::Return(CommandReturn::Nothing))
            },
            _ => Ok(Outcome::Return(CommandReturn::Nothing)),
        },
    }
}

} // verus!
