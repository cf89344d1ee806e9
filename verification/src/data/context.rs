//! Everything that the commands read and change.
use crate::data::config::{Config, ConfigView, StartPlayState};
use crate::data::files::{Files, FilesView, made_known};
use crate::path::path_components;
use crate::data::playlist::{Playlist, PlaylistView, copy_strings};
use crate::data::state::{State, StateView};
use crate::span::Span;
use crate::text::{copy_str, views};
use vstd::prelude::*;

verus! {

#[derive(Clone, Copy, Debug, PartialEq, Eq, Structural)]
pub enum ProgramMode {
    /// The mode of a normal run of the program.
    Main,
    /// The mode of a run that opens single music files; nothing is saved on a normal quit.
    Temp,
}

impl ProgramMode {
    pub open spec fn can_save_spec(self) -> bool {
        self == ProgramMode::Main
    }

    /// Whether the data may be saved in this mode.
    pub fn can_save(&self) -> (r: bool)
        ensures
            r == self.can_save_spec(),
    {
        match self {
            ProgramMode::Main => true,
            ProgramMode::Temp => false,
        }
    }
}

#[derive(Debug)]
pub struct Context {
    pub program_mode: ProgramMode,
    /// what the commands print
    pub cmd_out: String,
    pub config: Config,
    pub state: State,
    pub files: Files,
    pub playlist: Playlist,
}

pub struct ContextView {
    pub mode: ProgramMode,
    pub cmd_out: Seq<char>,
    pub config: ConfigView,
    pub state: StateView,
    pub files: FilesView,
    pub playlist: PlaylistView,
}

impl View for Context {
    type V = ContextView;

    open spec fn view(&self) -> ContextView {
        ContextView {
            mode: self.program_mode,
            cmd_out: self.cmd_out@,
            config: self.config@,
            state: self.state@,
            files: self.files@,
            playlist: self.playlist@,
        }
    }
}

/// Whether the player plays by itself under this configuration and state.
pub open spec fn should_play(start: StartPlayState, is_playing: bool) -> bool {
    match start {
        StartPlayState::Always => true,
        StartPlayState::Never => false,
        StartPlayState::Remember => is_playing,
    }
}

/// The cached length of the current song, where it has one.
pub open spec fn current_duration(c: ContextView) -> Option<int> {
    if c.playlist.remaining.len() > 0 && c.files.map.contains_key(path_components(c.playlist.remaining[0])) {
        c.files.map[path_components(c.playlist.remaining[0])].duration
    } else {
        None
    }
}

impl Context {
    pub open spec fn wf(&self) -> bool {
        &&& self.config.wf()
        &&& self.files.wf()
        &&& self.playlist.wf()
    }

    /// The context of a normal run, from the saved data.
    pub fn new_main(config: Config, state: State, files: Files, playlist: Playlist) -> (r: Context)
        ensures
            r.program_mode == ProgramMode::Main,
            r.cmd_out@ == Seq::<char>::empty(),
            r.config == config,
            r.state == state,
            r.files == files,
            r.playlist == playlist,
    {
        Context { program_mode: ProgramMode::Main, cmd_out: String::new(), config, state, files, playlist }
    }

    /// The context of a run that plays the files `file_paths`: they form the
    /// playlist "temp" and the file list, and playing starts by itself.
    pub fn new_temp(config: Config, state: State, files: Files, file_paths: &Vec<String>) -> (r: Context)
        requires
            config.wf(),
            files.wf(),
        ensures
            r.wf(),
            r.program_mode == ProgramMode::Temp,
            r@.cmd_out == Seq::<char>::empty(),
            r@.config.start_play_state == StartPlayState::Always,
            r@.config.autosave == config@.autosave,
            r@.config.keybinds == config@.keybinds,
            r@.config.macros == config@.macros,
            r@.state.current_playlist == "temp"@,
            r@.state.is_playing == state.is_playing,
            r@.state.dont_redraw_screen == state.dont_redraw_screen,
            r@.files.root == files@.root,
            (r@.files.map, r@.files.names) == made_known(
                Map::empty(),
                Map::empty(),
                views(file_paths@),
            ),
            r@.playlist.remaining == views(file_paths@),
            r@.playlist.previous == Seq::<Seq<char>>::empty(),
            r@.playlist.progress == 0,
    {
        let mut config = config;
        config.start_play_state = StartPlayState::Always;
        let mut state = state;
        state.current_playlist = copy_str("temp");
        let mut mapped = Files::empty_with_root(files.root);
        let mut i: usize = 0;
        while i < file_paths.len()
            invariant
                mapped.wf(),
                mapped@.root == files@.root,
                i <= file_paths.len(),
                (mapped@.map, mapped@.names) == made_known(
                    Map::empty(),
                    Map::empty(),
                    views(file_paths@).take(i as int),
                ),
            decreases file_paths.len() - i,
        {
            mapped.entry_or_default(file_paths[i].as_str());
            proof {
                let t = views(file_paths@).take(i + 1);
                assert(t.drop_last() =~= views(file_paths@).take(i as int));
                assert(t.last() == file_paths@[i as int]@);
            }
            i += 1;
        }
        assert(views(file_paths@).take(i as int) =~= views(file_paths@));
        let mut playlist = Playlist::new();
        playlist.remaining = copy_strings(file_paths);
        Context { program_mode: ProgramMode::Temp, cmd_out: String::new(), config, state, files: mapped, playlist }
    }

    /// Whether the player should play by itself.
    pub fn should_be_playing(&self) -> (r: bool)
        ensures
            r == should_play(self.config.start_play_state, self.state.is_playing),
    {
        match self.config.start_play_state {
            StartPlayState::Always => true,
            StartPlayState::Never => false,
            StartPlayState::Remember => self.state.is_playing,
        }
    }

    /// Whether the player starts out playing (as opposed to paused): when it
    /// should be playing and there is a song to play.
    pub fn starts_playing(&self) -> (r: bool)
        ensures
            r == (should_play(self.config.start_play_state, self.state.is_playing)
                && self.playlist.remaining.len() > 0),
    {
        self.should_be_playing() && self.playlist.remaining.len() > 0
    }

    /// The cached length of the current song.
    pub fn get_current_duration(&self) -> (r: Option<Span>)
        requires
            self.wf(),
        ensures
            match r {
                Some(d) => d.wf() && current_duration(self@) == Some(d.total()),
                None => current_duration(self@) is None,
            },
    {
        if self.playlist.remaining.len() == 0 {
            return None;
        }
        match self.files.index_of(self.playlist.remaining[0].as_str()) {
            Some(i) => {
                let d = self.files.data_at(i);
                d.duration
            },
            None => None,
        }
    }
}

} // verus!
