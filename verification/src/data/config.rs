//! The configuration: when to play and save, the keys of normal mode, and the macros.
use crate::assoc::{
    find_key, lemma_table_at, lemma_table_push, lemma_table_remove, lemma_table_update,
    table_view, unique_keys,
};
use crate::message::{KeyCode, Message, MessageView};
use crate::text::copy_str;
use vstd::prelude::*;

verus! {

/// What should happen when songs can be played again, for example when the
/// program opens or the playlist is filled after being empty.
#[derive(Clone, Copy, Debug, PartialEq, Eq, Structural)]
pub enum StartPlayState {
    /// always start playing
    Always,
    /// never start playing; playing is started by hand
    Never,
    /// play if the song was playing when the program closed
    Remember,
}

/// When to save by itself.
#[derive(Clone, Copy, Debug, PartialEq, Eq, Structural)]
pub enum AutosavePreference {
    /// never
    Never,
    /// every `N` seconds
    AfterSeconds(u32),
    /// whenever a song finishes
    AfterSongFinished,
}

#[derive(Debug)]
pub struct Config {
    pub start_play_state: StartPlayState,
    pub autosave: AutosavePreference,
    /// the keys of normal mode and what each does
    pub keybinds: Vec<(KeyCode, Message)>,
    /// macro name to the commands it runs; no name occurs twice
    pub macros: Vec<(String, String)>,
}

pub struct ConfigView {
    pub start_play_state: StartPlayState,
    pub autosave: AutosavePreference,
    pub keybinds: Seq<(KeyCode, MessageView)>,
    pub macros: Map<Seq<char>, Seq<char>>,
}

pub open spec fn keybinds_view(k: Seq<(KeyCode, Message)>) -> Seq<(KeyCode, MessageView)> {
    k.map_values(|e: (KeyCode, Message)| (e.0, e.1@))
}

impl View for Config {
    type V = ConfigView;

    open spec fn view(&self) -> ConfigView {
        ConfigView {
            start_play_state: self.start_play_state,
            autosave: self.autosave,
            keybinds: keybinds_view(self.keybinds@),
            macros: table_view(self.macros@),
        }
    }
}

pub open spec fn run(s: Seq<char>) -> MessageView {
    MessageView::RunCommand(s)
}

pub open spec fn start(s: Seq<char>) -> MessageView {
    MessageView::StartCommand(s)
}

/// The keys of normal mode in a new configuration.
pub open spec fn default_keybinds() -> Seq<(KeyCode, MessageView)> {
    seq![
        (KeyCode::Char(':'), MessageView::GotoCommandMode),
        (KeyCode::Char(';'), MessageView::GotoCommandMode),
        (KeyCode::Char('c'), MessageView::GotoCommandMode),
        (KeyCode::Char('?'), run("help first"@)),
        (KeyCode::Char('q'), MessageView::Quit { save: true, abort_on_error: true }),
        (KeyCode::Char('S'), run("s"@)),
        (KeyCode::Char(' '), run("p"@)),
        (KeyCode::Char('p'), run("p-"@)),
        (KeyCode::Char('P'), run("p+"@)),
        (KeyCode::Right, run("gf 5s"@)),
        (KeyCode::Left, run("gb 5s"@)),
        (KeyCode::Up, run("pv+ 5"@)),
        (KeyCode::Down, run("pv- 5"@)),
        (KeyCode::Char('0'), run("g"@)),
        (KeyCode::Char('r'), run("r"@)),
        (KeyCode::Char('j'), run("pn"@)),
        (KeyCode::Char('k'), run("pp"@)),
        (KeyCode::Char('f'), start("fte "@)),
        (KeyCode::Char('F'), start("fta "@)),
        (KeyCode::Char('s'), start("fs "@)),
        (KeyCode::Char('t'), start("tac "@)),
        (KeyCode::Char('T'), start("trc "@)),
        (KeyCode::Char('l'), start("ls "@)),
        (KeyCode::Char('L'), run("lg"@)),
        (KeyCode::Char('m'), start("m"@)),
        (KeyCode::Char('M'), run("ml"@)),
    ]
}

/// The macros of a new configuration: the four event macros, each running nothing.
pub open spec fn default_macros() -> Map<Seq<char>, Seq<char>> {
    map![
        "@cmd_empty"@ => ""@,
        "@list_end"@ => ""@,
        "@song_end"@ => ""@,
        "@song_start"@ => ""@,
    ]
}

fn push_bind(v: &mut Vec<(KeyCode, Message)>, k: KeyCode, m: Message)
    ensures
        keybinds_view(final(v)@) == keybinds_view(old(v)@).push((k, m@)),
{
    let ghost before = keybinds_view(v@);
    v.push((k, m));
    assert(keybinds_view(v@) =~= before.push((k, m@)));
}

fn run_msg(s: &str) -> (m: Message)
    ensures
        m@ == run(s@),
{
    Message::RunCommand(copy_str(s))
}

fn start_msg(s: &str) -> (m: Message)
    ensures
        m@ == start(s@),
{
    Message::StartCommand(copy_str(s))
}

impl Config {
    pub open spec fn wf(&self) -> bool {
        unique_keys(self.macros@)
    }

    /// The commands of the macro `name`, if there is one.
    pub fn get_macro(&self, name: &str) -> (r: Option<&String>)
        requires
            self.wf(),
        ensures
            match r {
                Some(c) => self@.macros.contains_key(name@) && c@ == self@.macros[name@],
                None => !self@.macros.contains_key(name@),
            },
    {
        match find_key(&self.macros, name) {
            Some(i) => {
                proof {
                    lemma_table_at(self.macros@, i as int);
                }
                Some(&self.macros[i].1)
            },
            None => None,
        }
    }

    /// Whether there is a macro `name`.
    pub fn has_macro(&self, name: &str) -> (r: bool)
        requires
            self.wf(),
        ensures
            r == self@.macros.contains_key(name@),
    {
        self.get_macro(name).is_some()
    }

    /// Sets the commands of the macro `name`, adding it where there is none.
    pub fn set_macro(&mut self, name: &str, commands: String)
        requires
            old(self).wf(),
        ensures
            final(self).wf(),
            final(self)@.macros == old(self)@.macros.insert(name@, commands@),
            final(self).start_play_state == old(self).start_play_state,
            final(self).autosave == old(self).autosave,
            final(self).keybinds == old(self).keybinds,
    {
        match find_key(&self.macros, name) {
            Some(i) => {
                proof {
                    lemma_table_update(self.macros@, i as int, commands);
                }
                let key = self.macros[i].0.clone();
                self.macros.set(i, (key, commands));
            },
            None => {
                let key = copy_str(name);
                proof {
                    lemma_table_push(self.macros@, key, commands);
                }
                self.macros.push((key, commands));
            },
        }
    }

    /// Removes the macro `name`; whether there was one.
    pub fn remove_macro(&mut self, name: &str) -> (r: bool)
        requires
            old(self).wf(),
        ensures
            final(self).wf(),
            r == old(self)@.macros.contains_key(name@),
            final(self)@.macros == old(self)@.macros.remove(name@),
            final(self).start_play_state == old(self).start_play_state,
            final(self).autosave == old(self).autosave,
            final(self).keybinds == old(self).keybinds,
    {
        match find_key(&self.macros, name) {
            Some(i) => {
                proof {
                    lemma_table_remove(self.macros@, i as int);
                    lemma_table_at(self.macros@, i as int);
                }
                self.macros.remove(i);
                true
            },
            None => {
                assert(old(self)@.macros.remove(name@) =~= old(self)@.macros);
                false
            },
        }
    }
}

impl Default for Config {
    fn default() -> (r: Config)
        ensures
            r.wf(),
            r@.start_play_state == StartPlayState::Never,
            r@.autosave == AutosavePreference::AfterSeconds(180),
            r@.keybinds == default_keybinds(),
            r@.macros == default_macros(),
    {
        let mut c = Config {
            start_play_state: StartPlayState::Never,
            autosave: AutosavePreference::AfterSeconds(3 * 60),
            keybinds: Vec::new(),
            macros: Vec::new(),
        };
        assert(table_view(c.macros@) =~= Map::<Seq<char>, Seq<char>>::empty());
        c.set_macro("@cmd_empty", copy_str(""));
        c.set_macro("@list_end", copy_str(""));
        c.set_macro("@song_end", copy_str(""));
        c.set_macro("@song_start", copy_str(""));
        assert(c@.macros =~= default_macros());
        let mut k: Vec<(KeyCode, Message)> = Vec::new();
        // general
        push_bind(&mut k, KeyCode::Char(':'), Message::GotoCommandMode);
        push_bind(&mut k, KeyCode::Char(';'), Message::GotoCommandMode);
        push_bind(&mut k, KeyCode::Char('c'), Message::GotoCommandMode);
        push_bind(&mut k, KeyCode::Char('?'), run_msg("help first"));
        push_bind(&mut k, KeyCode::Char('q'), Message::Quit { save: true, abort_on_error: true });
        push_bind(&mut k, KeyCode::Char('S'), run_msg("s"));
        // managing this song
        push_bind(&mut k, KeyCode::Char(' '), run_msg("p"));
        push_bind(&mut k, KeyCode::Char('p'), run_msg("p-"));
        push_bind(&mut k, KeyCode::Char('P'), run_msg("p+"));
        push_bind(&mut k, KeyCode::Right, run_msg("gf 5s"));
        push_bind(&mut k, KeyCode::Left, run_msg("gb 5s"));
        push_bind(&mut k, KeyCode::Up, run_msg("pv+ 5"));
        push_bind(&mut k, KeyCode::Down, run_msg("pv- 5"));
        push_bind(&mut k, KeyCode::Char('0'), run_msg("g"));
        // managing this list
        push_bind(&mut k, KeyCode::Char('r'), run_msg("r"));
        push_bind(&mut k, KeyCode::Char('j'), run_msg("pn"));
        push_bind(&mut k, KeyCode::Char('k'), run_msg("pp"));
        // filters and tags
        push_bind(&mut k, KeyCode::Char('f'), start_msg("fte "));
        push_bind(&mut k, KeyCode::Char('F'), start_msg("fta "));
        push_bind(&mut k, KeyCode::Char('s'), start_msg("fs "));
        push_bind(&mut k, KeyCode::Char('t'), start_msg("tac "));
        push_bind(&mut k, KeyCode::Char('T'), start_msg("trc "));
        // lists
        push_bind(&mut k, KeyCode::Char('l'), start_msg("ls "));
        push_bind(&mut k, KeyCode::Char('L'), run_msg("lg"));
        // macros
        push_bind(&mut k, KeyCode::Char('m'), start_msg("m"));
        push_bind(&mut k, KeyCode::Char('M'), run_msg("ml"));
        c.keybinds = k;
        assert(c@.keybinds =~= default_keybinds());
        c
    }
}

} // verus!
