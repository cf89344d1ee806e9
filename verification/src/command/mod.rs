//! The command language of the player: what a command returns, and the work
//! that a command asks of the program around the library.
pub mod dispatch;
pub mod error;
pub mod help;
pub mod files;
pub mod filter;
pub mod goto;
pub mod list;
pub mod macros;
pub mod misc;
pub mod parse;
pub mod play;
pub mod reply;
pub mod runner;
pub mod tag;
pub mod tree;

use crate::command::error::{CommandError, CommandErrorView};
use crate::data::context::ContextView;
use crate::text::views;
use crate::data::playlist::{Playlist, PlaylistView};
use crate::span::Span;
use vstd::prelude::*;

verus! {

/// What a command tells the event loop.
#[derive(Clone, Copy, Debug, PartialEq, Eq, Structural)]
pub enum CommandReturn {
    Nothing,
    Quit,
    QuitNoSave,
    /// Load the song at the front of the remaining songs again, at the current progress.
    ReloadFirstSong,
}

impl Default for CommandReturn {
    fn default() -> (r: CommandReturn)
        ensures
            r == CommandReturn::Nothing,
    {
        CommandReturn::Nothing
    }
}

/// What the player should do.
#[derive(Clone, Copy, Debug, PartialEq, Eq, Structural)]
pub enum PlayerAction {
    /// play where it is paused, pause where it plays
    Toggle,
    Play,
    Pause,
}

/// The three ways to move in the current song.
#[derive(Clone, Copy, Debug, PartialEq, Eq, Structural)]
pub enum JumpKind {
    To,
    Forward,
    Backward,
}

/// Work that a command needs from outside the library: files, the audio
/// player, the media controls, the terminal, or reading fractions.
#[derive(Debug)]
pub enum Effect {
    /// save the configuration, the file list and the current playlist
    Save,
    /// read the names of all saved playlists
    ListNames,
    /// save `list` as the playlist `name`
    WritePlaylist { name: String, list: Playlist },
    /// read the saved playlist `name`
    LoadPlaylist { name: String },
    /// delete the saved playlist `name`
    RemovePlaylist { name: String },
    /// save the current playlist where `save` says so, then read the playlist `load`
    SwitchPlaylist { save: Option<(String, Playlist)>, load: String },
    /// find the music files under the folder `root`
    ReloadFiles { root: String },
    /// delete the file at `path`
    DeleteFile { path: String },
    /// move the file at `from` to `to`
    MoveFile { from: String, to: String },
    /// draw the tree of folders under `root`
    ShowDirectories { root: String },
    /// act on the player, then tell the media controls how far playing has come
    Player { action: PlayerAction, progress: Span, stopped: bool },
    /// read a playback speed and set it
    SetSpeed(String),
    /// read a volume in percent and set it
    SetVolume(String),
    /// read a length of time
    ParseDuration(String),
    /// show how far the current song has come, out of its length where it is known
    ShowProgress { progress: Span, out_of: Option<Span> },
    /// print a text on the standard output
    Print(String),
}

pub enum EffectView {
    Save,
    ListNames,
    WritePlaylist { name: Seq<char>, list: PlaylistView },
    LoadPlaylist { name: Seq<char> },
    RemovePlaylist { name: Seq<char> },
    SwitchPlaylist { save: Option<(Seq<char>, PlaylistView)>, load: Seq<char> },
    ReloadFiles { root: Seq<char> },
    DeleteFile { path: Seq<char> },
    MoveFile { from: Seq<char>, to: Seq<char> },
    ShowDirectories { root: Seq<char> },
    Player { action: PlayerAction, progress: int, stopped: bool },
    SetSpeed(Seq<char>),
    SetVolume(Seq<char>),
    ParseDuration(Seq<char>),
    ShowProgress { progress: int, out_of: Option<int> },
    Print(Seq<char>),
}

impl View for Effect {
    type V = EffectView;

    open spec fn view(&self) -> EffectView {
        match self {
            Effect::Save => EffectView::Save,
            Effect::ListNames => EffectView::ListNames,
            Effect::WritePlaylist { name, list } => EffectView::WritePlaylist {
                name: name@,
                list: list@,
            },
            Effect::LoadPlaylist { name } => EffectView::LoadPlaylist { name: name@ },
            Effect::RemovePlaylist { name } => EffectView::RemovePlaylist { name: name@ },
            Effect::SwitchPlaylist { save, load } => EffectView::SwitchPlaylist {
                save: match save {
                    Some((n, p)) => Some((n@, p@)),
                    None => None,
                },
                load: load@,
            },
            Effect::ReloadFiles { root } => EffectView::ReloadFiles { root: root@ },
            Effect::DeleteFile { path } => EffectView::DeleteFile { path: path@ },
            Effect::MoveFile { from, to } => EffectView::MoveFile { from: from@, to: to@ },
            Effect::ShowDirectories { root } => EffectView::ShowDirectories { root: root@ },
            Effect::Player { action, progress, stopped } => EffectView::Player {
                action: *action,
                progress: progress.total(),
                stopped: *stopped,
            },
            Effect::SetSpeed(s) => EffectView::SetSpeed(s@),
            Effect::SetVolume(s) => EffectView::SetVolume(s@),
            Effect::ParseDuration(s) => EffectView::ParseDuration(s@),
            Effect::ShowProgress { progress, out_of } => EffectView::ShowProgress {
                progress: progress.total(),
                out_of: crate::data::files::span_view(*out_of),
            },
            Effect::Print(s) => EffectView::Print(s@),
        }
    }
}

/// The effect that tells the player what to do, and the media controls how far
/// playing has come in the context `c`.
pub open spec fn player_effect(action: PlayerAction, c: ContextView) -> EffectView {
    EffectView::Player {
        action,
        progress: c.playlist.progress,
        stopped: c.playlist.remaining.len() == 0,
    }
}

/// What is to be done with the reply to an effect.
#[derive(Debug)]
pub enum Pending {
    /// nothing more: the command is done
    Finish,
    /// list the playlist names of the reply
    Names,
    /// the playlist of the reply becomes the current playlist
    LoadReplace,
    /// the songs of the playlist of the reply join the remaining songs
    LoadAppend,
    /// the playlist of the reply becomes the current playlist, named so
    Switch(String),
    /// the files of the reply are the music files on disk
    Reload,
    /// the current file was deleted; go to the next song
    Delete,
    /// the current file was moved to `full`; it is now at `relative`
    Move { relative: String, full: String },
    /// show the folder tree of the reply
    Directories,
    /// load the first song from its start
    Reset,
    /// move in the current song by the time of the reply
    Jump(JumpKind),
    /// show the progress text of the reply
    Progress,
}

pub enum PendingView {
    Finish,
    Names,
    LoadReplace,
    LoadAppend,
    Switch(Seq<char>),
    Reload,
    Delete,
    Move { relative: Seq<char>, full: Seq<char> },
    Directories,
    Reset,
    Jump(JumpKind),
    Progress,
}

impl View for Pending {
    type V = PendingView;

    open spec fn view(&self) -> PendingView {
        match self {
            Pending::Finish => PendingView::Finish,
            Pending::Names => PendingView::Names,
            Pending::LoadReplace => PendingView::LoadReplace,
            Pending::LoadAppend => PendingView::LoadAppend,
            Pending::Switch(s) => PendingView::Switch(s@),
            Pending::Reload => PendingView::Reload,
            Pending::Delete => PendingView::Delete,
            Pending::Move { relative, full } => PendingView::Move {
                relative: relative@,
                full: full@,
            },
            Pending::Directories => PendingView::Directories,
            Pending::Reset => PendingView::Reset,
            Pending::Jump(k) => PendingView::Jump(*k),
            Pending::Progress => PendingView::Progress,
        }
    }
}

/// What a single command comes to.
#[derive(Debug)]
pub enum Outcome {
    /// the command is done
    Return(CommandReturn),
    /// the command is a macro: these commands run in its place
    Expand(Vec<String>),
    /// the command needs work from outside; what follows depends on the reply
    Request(Effect, Pending),
}

pub enum OutcomeView {
    Return(CommandReturn),
    Expand(Seq<Seq<char>>),
    Request(EffectView, PendingView),
}

impl View for Outcome {
    type V = OutcomeView;

    open spec fn view(&self) -> OutcomeView {
        match self {
            Outcome::Return(r) => OutcomeView::Return(*r),
            Outcome::Expand(v) => OutcomeView::Expand(views(v@)),
            Outcome::Request(e, p) => OutcomeView::Request(e@, p@),
        }
    }
}

/// The view of the result of a command.
pub open spec fn res_view(r: Result<Outcome, CommandError>) -> Result<OutcomeView, CommandErrorView> {
    match r {
        Ok(o) => Ok(o@),
        Err(e) => Err(e@),
    }
}

/// A finished command.
pub open spec fn done(r: CommandReturn) -> Result<OutcomeView, CommandErrorView> {
    Ok(OutcomeView::Return(r))
}

/// A command that needs work from outside.
pub open spec fn request(e: EffectView, p: PendingView) -> Result<OutcomeView, CommandErrorView> {
    Ok(OutcomeView::Request(e, p))
}

} // verus!
