//! The decisions of the event loop: what a message does, what the results of
//! commands lead to, and what happens when a song ends or files arrive from
//! another player.
use crate::command::CommandReturn;
use crate::command::error::{CommandError, CommandErrorView, error_text};
use crate::command::macros::{expand_spec, macro_or, run_macro_or};
use crate::command::play::{rewound, with_songs};
use crate::command::runner::{Runner, RunnerView};
use crate::command::tag::{with_files, with_map, with_output};
use crate::data::config::AutosavePreference;
use crate::data::context::{Context, ContextView, ProgramMode};
use crate::data::files::{FileData, FileDataView, FilesView, default_file_data};
use crate::data::playlist::PlaylistView;
use crate::data::state::StateView;
use crate::message::{Message, MessageView};
use crate::path::{
    file_name_of, is_absolute_path, join_path, joined_path, path_components, path_file_name,
    path_is_absolute,
};
use crate::span::{Span, max_total};
use crate::text::{chars_of, copy_str, push_char, push_str, string_from, views};
use vstd::prelude::*;

verus! {

/// What the results of commands asked of the event loop.
#[derive(Clone, Copy, Debug, PartialEq, Eq, Structural)]
pub struct UpdateFlags {
    pub quit: bool,
    pub quit_no_save: bool,
    pub reload_first_song: bool,
}

impl UpdateFlags {
    /// Nothing asked for yet.
    pub fn new() -> (r: UpdateFlags)
        ensures
            !r.quit && !r.quit_no_save && !r.reload_first_song,
    {
        UpdateFlags { quit: false, quit_no_save: false, reload_first_song: false }
    }
}

/// The flags and output after the result `r` of a command: an error is told
/// in the output, a return sets its flag.
pub open spec fn returned_spec(
    r: Result<CommandReturn, CommandErrorView>,
    out: Seq<char>,
    f: UpdateFlags,
) -> (Seq<char>, UpdateFlags) {
    match r {
        Ok(CommandReturn::Nothing) => (out, f),
        Ok(CommandReturn::Quit) => (out, UpdateFlags { quit: true, ..f }),
        Ok(CommandReturn::QuitNoSave) => (out, UpdateFlags { quit_no_save: true, ..f }),
        Ok(CommandReturn::ReloadFirstSong) => (out, UpdateFlags { reload_first_song: true, ..f }),
        Err(e) => (out + error_text(e), f),
    }
}

/// Takes note of the result of a command.
pub fn handle_command_return(r: Result<CommandReturn, CommandError>, cmd_out: &mut String, flags: &mut UpdateFlags)
    ensures
        (final(cmd_out)@, *final(flags)) == returned_spec(
            match r {
                Ok(x) => Ok(x),
                Err(e) => Err(e@),
            },
            old(cmd_out)@,
            *old(flags),
        ),
{
    match r {
        Ok(CommandReturn::Nothing) => {},
        Ok(CommandReturn::Quit) => {
            flags.quit = true;
        },
        Ok(CommandReturn::QuitNoSave) => {
            flags.quit_no_save = true;
        },
        Ok(CommandReturn::ReloadFirstSong) => {
            flags.reload_first_song = true;
        },
        Err(e) => {
            let text = e.message();
            push_str(cmd_out, text.as_str());
        },
    }
}

/// What the event loop does once the commands of an update have run.
#[derive(Debug)]
pub enum FollowUp {
    Nothing,
    /// handle this message next
    Send(Message),
    /// load the first song again, then update once more
    ReloadFirstSong,
}

pub enum FollowUpView {
    Nothing,
    Send(MessageView),
    ReloadFirstSong,
}

impl View for FollowUp {
    type V = FollowUpView;

    open spec fn view(&self) -> FollowUpView {
        match self {
            FollowUp::Nothing => FollowUpView::Nothing,
            FollowUp::Send(m) => FollowUpView::Send(m@),
            FollowUp::ReloadFirstSong => FollowUpView::ReloadFirstSong,
        }
    }
}

/// The follow-up of the flags: a quit first (saving, and giving up the quit
/// where saving fails), then a quit without saving, then loading the song again.
pub open spec fn follow_up_spec(f: UpdateFlags) -> FollowUpView {
    if f.quit {
        FollowUpView::Send(MessageView::Quit { save: true, abort_on_error: true })
    } else if f.quit_no_save {
        FollowUpView::Send(MessageView::Quit { save: false, abort_on_error: false })
    } else if f.reload_first_song {
        FollowUpView::ReloadFirstSong
    } else {
        FollowUpView::Nothing
    }
}

/// What the flags lead to.
pub fn handle_update_temp(flags: &UpdateFlags) -> (r: FollowUp)
    ensures
        r@ == follow_up_spec(*flags),
{
    if flags.quit {
        FollowUp::Send(Message::Quit { save: true, abort_on_error: true })
    } else if flags.quit_no_save {
        FollowUp::Send(Message::Quit { save: false, abort_on_error: false })
    } else if flags.reload_first_song {
        FollowUp::ReloadFirstSong
    } else {
        FollowUp::Nothing
    }
}

/// The command line being typed, if any.
pub open spec fn line_view(l: Option<String>) -> Option<Seq<char>> {
    match l {
        Some(s) => Some(s@),
        None => None,
    }
}

/// What a message does to the command line being typed `line` and to the
/// context `c`, and the command line it runs, if any.
pub open spec fn message_spec(line: Option<Seq<char>>, c: ContextView, m: MessageView) -> (
    Option<Seq<char>>,
    ContextView,
    Option<Seq<char>>,
) {
    match m {
        MessageView::GotoNormalMode => (None, ContextView { cmd_out: Seq::empty(), ..c }, None),
        MessageView::GotoCommandMode => (
            Some(
                match line {
                    Some(l) => l,
                    None => Seq::empty(),
                },
            ),
            c,
            None,
        ),
        MessageView::ToggleScreenRedraws => (
            line,
            ContextView {
                state: StateView { dont_redraw_screen: !c.state.dont_redraw_screen, ..c.state },
                ..c
            },
            None,
        ),
        MessageView::RunCommand(cmd) => (line, c, Some(cmd)),
        MessageView::StartCommand(cmd) => (Some(cmd), c, None),
        MessageView::TypedChar(ch) => (
            Some(
                match line {
                    Some(l) => l.push(ch),
                    None => seq![ch],
                },
            ),
            c,
            None,
        ),
        MessageView::Backspace => (
            match line {
                Some(l) => Some(
                    if l.len() > 0 {
                        l.drop_last()
                    } else {
                        l
                    },
                ),
                None => None,
            },
            c,
            None,
        ),
        MessageView::Enter => match line {
            Some(l) => (None, c, Some(l)),
            None => (None, c, None),
        },
        _ => (line, c, None),
    }
}

/// Handles a message: the line being typed changes, and the command line to
/// run, if any, is returned. A quit is handled by the loop itself.
pub fn handle_message(line: &mut Option<String>, ctx: &mut Context, message: Message) -> (r: Option<String>)
    requires
        old(ctx).wf(),
    ensures
        final(ctx).wf(),
        (line_view(*final(line)), final(ctx)@, line_view(r)) == message_spec(
            line_view(*old(line)),
            old(ctx)@,
            message@,
        ),
{
    match message {
        Message::GotoNormalMode => {
            ctx.cmd_out = String::new();
            *line = None;
            None
        },
        Message::GotoCommandMode => {
            if line.is_none() {
                *line = Some(String::new());
            }
            None
        },
        Message::ToggleScreenRedraws => {
            ctx.state.dont_redraw_screen = !ctx.state.dont_redraw_screen;
            None
        },
        Message::RunCommand(cmd) => Some(cmd),
        Message::StartCommand(cmd) => {
            *line = Some(cmd);
            None
        },
        Message::TypedChar(c) => {
            match line {
                Some(l) => push_char(l, c),
                None => {
                    let mut l = String::new();
                    push_char(&mut l, c);
                    assert(l@ =~= seq![c]);
                    *line = Some(l);
                },
            }
            None
        },
        Message::Backspace => {
            match line {
                Some(l) => {
                    let cs = chars_of(l.as_str());
                    if cs.len() > 0 {
                        let shorter = string_from(&cs, 0, cs.len() - 1);
                        assert(shorter@ =~= cs@.drop_last());
                        *l = shorter;
                    }
                },
                None => {},
            }
            None
        },
        Message::Enter => {
            let taken = line.take();
            taken
        },
        _ => None,
    }
}

/// Starts running a command line typed by the user: the output so far is
/// cleared. Whether songs remained before is returned.
pub fn begin_command(ctx: &mut Context) -> (was_not_empty: bool)
    requires
        old(ctx).wf(),
    ensures
        final(ctx).wf(),
        final(ctx)@ == (ContextView { cmd_out: Seq::empty(), ..old(ctx)@ }),
        was_not_empty == (old(ctx)@.playlist.remaining.len() > 0),
{
    ctx.cmd_out = String::new();
    ctx.playlist.remaining.len() > 0
}

/// The progress once the songs have all been played: back to the start.
pub fn remaining_songs_ended(ctx: &mut Context)
    requires
        old(ctx).wf(),
    ensures
        final(ctx).wf(),
        final(ctx)@ == rewound(old(ctx)@),
{
    ctx.playlist.progress = Span::zero();
}

/// What the event loop does once a command line has run.
#[derive(Debug)]
pub struct CommandEnd {
    /// pause the player: no songs remain
    pub pause: bool,
    /// the commands of the macro `@list_end`, to run next, where the command
    /// took the last remaining songs away
    pub list_end: Option<Runner>,
}

/// Ends a command line: where it took the last songs away, the progress goes
/// back to the start and the macro `@list_end` comes next.
pub fn end_command(ctx: &mut Context, was_not_empty: bool) -> (r: CommandEnd)
    requires
        old(ctx).wf(),
    ensures
        final(ctx).wf(),
        r.pause == (old(ctx)@.playlist.remaining.len() == 0),
        was_not_empty && old(ctx)@.playlist.remaining.len() == 0 ==> (final(ctx)@ == rewound(old(ctx)@)
            && (r.list_end matches Some(l) && l@ == event_runner(old(ctx)@, "@list_end"@))),
        !(was_not_empty && old(ctx)@.playlist.remaining.len() == 0) ==> final(ctx)@ == old(ctx)@
            && r.list_end is None,
{
    let pause = ctx.playlist.remaining.len() == 0;
    if was_not_empty && pause {
        remaining_songs_ended(ctx);
        let none: Vec<String> = Vec::new();
        assert(views(none@) =~= Seq::<Seq<char>>::empty());
        let cmds = run_macro_or(ctx, "@list_end", &none, "");
        CommandEnd { pause, list_end: Some(Runner::with_commands(cmds)) }
    } else {
        CommandEnd { pause, list_end: None }
    }
}

/// The runner of the event macro `name`, without arguments.
pub open spec fn event_runner(c: ContextView, name: Seq<char>) -> RunnerView {
    RunnerView {
        queue: expand_spec(macro_or(c.config.macros, name, ""@), Seq::empty()),
        reload: false,
        waiting: None,
    }
}

fn event(ctx: &Context, name: &str) -> (r: Runner)
    requires
        ctx.wf(),
    ensures
        r@ == event_runner(ctx@, name@),
{
    let none: Vec<String> = Vec::new();
    assert(views(none@) =~= Seq::<Seq<char>>::empty());
    Runner::with_commands(run_macro_or(ctx, name, &none, ""))
}

/// The context once the current song has played to its end: its length is
/// known to be the progress, and it joins the songs played before.
pub open spec fn finish_song_spec(c: ContextView) -> ContextView {
    let first = c.playlist.remaining[0];
    let k = path_components(first);
    let c1 = if c.files.map.contains_key(k) {
        with_map(c, c.files.map.insert(k, FileDataView { duration: Some(c.playlist.progress), ..c.files.map[k] }))
    } else {
        c
    };
    with_songs(c1, c1.playlist.remaining.drop_first(), c1.playlist.previous.push(first))
}

/// The current song has played to its end; the macro `@song_end` comes next,
/// then the steps of the change of song from `SongStage::ListEnd`.
pub fn finish_song(ctx: &mut Context) -> (r: Runner)
    requires
        old(ctx).wf(),
        old(ctx)@.playlist.remaining.len() > 0,
    ensures
        final(ctx).wf(),
        final(ctx)@ == finish_song_spec(old(ctx)@),
        r@ == event_runner(final(ctx)@, "@song_end"@),
{
    let first = ctx.playlist.remaining[0].clone();
    assert(first@ == old(ctx)@.playlist.remaining[0]);
    let ghost before = ctx.files@;
    let progress = ctx.playlist.progress;
    ctx.files.set_duration(first.as_str(), progress);
    assert(ctx.files@.map =~= finish_song_spec(old(ctx)@).files.map);
    ctx.playlist.next_song();
    assert(views(ctx.playlist.remaining@) =~= views(old(ctx).playlist.remaining@).drop_first());
    assert(views(ctx.playlist.previous@) =~= views(old(ctx).playlist.previous@).push(first@));
    event(ctx, "@song_end")
}

/// Where a change of song stands once the macro `@song_end` has run: the end
/// of the list comes next, then saving, then the start of the next song.
#[derive(Clone, Copy, Debug, PartialEq, Eq, Structural)]
pub enum SongStage {
    ListEnd,
    Save,
    Start,
    Done,
}

/// What the event loop does next in a change of song.
#[derive(Debug)]
pub enum SongAction {
    /// nothing here; take the next step
    Continue,
    /// pause the player and run these commands of the macro `@list_end`, then
    /// take the next step
    PauseAndRun(Runner),
    /// save, then take the next step
    Save,
    /// load the first song and run these commands of the macro `@song_start`;
    /// the change is over
    LoadAndRun(Runner),
    /// the change is over
    Done,
}

pub enum SongActionView {
    Continue,
    PauseAndRun(RunnerView),
    Save,
    LoadAndRun(RunnerView),
    Done,
}

impl View for SongAction {
    type V = SongActionView;

    open spec fn view(&self) -> SongActionView {
        match self {
            SongAction::Continue => SongActionView::Continue,
            SongAction::PauseAndRun(r) => SongActionView::PauseAndRun(r@),
            SongAction::Save => SongActionView::Save,
            SongAction::LoadAndRun(r) => SongActionView::LoadAndRun(r@),
            SongAction::Done => SongActionView::Done,
        }
    }
}

/// A step of a change of song from the stage `stage` in the context `c`: the
/// next stage, the context and what to do. The progress goes back to the
/// start; where no songs remain, `@list_end` runs; where the configuration
/// asks, the data is saved; where songs remain, the first is loaded and
/// `@song_start` runs.
pub open spec fn song_step(stage: SongStage, c: ContextView) -> (SongStage, ContextView, SongActionView) {
    match stage {
        SongStage::ListEnd => {
            let c1 = rewound(c);
            (
                SongStage::Save,
                c1,
                if c.playlist.remaining.len() == 0 {
                    SongActionView::PauseAndRun(event_runner(c1, "@list_end"@))
                } else {
                    SongActionView::Continue
                },
            )
        },
        SongStage::Save => (
            SongStage::Start,
            c,
            if c.config.autosave == AutosavePreference::AfterSongFinished {
                SongActionView::Save
            } else {
                SongActionView::Continue
            },
        ),
        SongStage::Start => (
            SongStage::Done,
            c,
            if c.playlist.remaining.len() > 0 {
                SongActionView::LoadAndRun(event_runner(c, "@song_start"@))
            } else {
                SongActionView::Done
            },
        ),
        SongStage::Done => (SongStage::Done, c, SongActionView::Done),
    }
}

/// Takes the next step of a change of song.
pub fn song_change_step(stage: &mut SongStage, ctx: &mut Context) -> (a: SongAction)
    requires
        old(ctx).wf(),
    ensures
        final(ctx).wf(),
        (*final(stage), final(ctx)@, a@) == song_step(*old(stage), old(ctx)@),
{
    match *stage {
        SongStage::ListEnd => {
            *stage = SongStage::Save;
            let was_empty = ctx.playlist.remaining.len() == 0;
            ctx.playlist.progress = Span::zero();
            if was_empty {
                SongAction::PauseAndRun(event(ctx, "@list_end"))
            } else {
                SongAction::Continue
            }
        },
        SongStage::Save => {
            *stage = SongStage::Start;
            match ctx.config.autosave {
                AutosavePreference::AfterSongFinished => SongAction::Save,
                _ => SongAction::Continue,
            }
        },
        SongStage::Start => {
            *stage = SongStage::Done;
            if ctx.playlist.remaining.len() > 0 {
                SongAction::LoadAndRun(event(ctx, "@song_start"))
            } else {
                SongAction::Done
            }
        },
        SongStage::Done => SongAction::Done,
    }
}

/// Where the file of the song `first` is: the path itself where it is absolute
/// or the mode is temporary (its files may be relative to where the program
/// started), else under the music folder.
pub open spec fn song_path_spec(c: ContextView, first: Seq<char>) -> Seq<char> {
    if is_absolute_path(first) || c.mode == ProgramMode::Temp {
        first
    } else {
        joined_path(c.files.root, first)
    }
}

/// Where the file of the current song is, if there is a current song.
pub fn song_path(ctx: &Context) -> (r: Option<String>)
    ensures
        match r {
            Some(p) => ctx@.playlist.remaining.len() > 0 && p@ == song_path_spec(
                ctx@,
                ctx@.playlist.remaining[0],
            ),
            None => ctx@.playlist.remaining.len() == 0,
        },
{
    if ctx.playlist.remaining.len() == 0 {
        return None;
    }
    let first = ctx.playlist.remaining[0].as_str();
    assert(first@ == ctx@.playlist.remaining[0]);
    let is_temp = match ctx.program_mode {
        ProgramMode::Temp => true,
        ProgramMode::Main => false,
    };
    if path_is_absolute(first) || is_temp {
        Some(copy_str(first))
    } else {
        Some(join_path(ctx.files.root.as_str(), first))
    }
}

/// The line that tells that the current song `first` could not be loaded,
/// because it could not be converted (`converting`) or read.
pub open spec fn failed_line(first: Seq<char>, converting: bool) -> Seq<char> {
    (if converting {
        "Failed to convert song to mp3: "@
    } else {
        "Failed to load song: "@
    }) + first + "\n"@
}

/// The current song could not be loaded: a line tells so, and the next song
/// is tried.
pub fn song_failed(ctx: &mut Context, converting: bool)
    requires
        old(ctx).wf(),
        old(ctx)@.playlist.remaining.len() > 0,
    ensures
        final(ctx).wf(),
        final(ctx)@ == ({
            let c = with_output(old(ctx)@, failed_line(old(ctx)@.playlist.remaining[0], converting));
            with_songs(c, c.playlist.remaining.drop_first(), c.playlist.previous.push(c.playlist.remaining[0]))
        }),
{
    let first = ctx.playlist.remaining[0].clone();
    assert(first@ == old(ctx)@.playlist.remaining[0]);
    if converting {
        push_str(&mut ctx.cmd_out, "Failed to convert song to mp3: ");
    } else {
        push_str(&mut ctx.cmd_out, "Failed to load song: ");
    }
    push_str(&mut ctx.cmd_out, first.as_str());
    push_str(&mut ctx.cmd_out, "\n");
    assert(ctx.cmd_out@ =~= old(ctx).cmd_out@ + failed_line(first@, converting));
    ctx.playlist.next_song();
    assert(views(ctx.playlist.remaining@) =~= views(old(ctx).playlist.remaining@).drop_first());
    assert(views(ctx.playlist.previous@) =~= views(old(ctx).playlist.previous@).push(first@));
}

/// The current song is loaded, and its length is `total` where the decoder
/// knows it: a known file then remembers that length.
pub fn song_loaded(ctx: &mut Context, total: Option<Span>)
    requires
        old(ctx).wf(),
        total matches Some(t) ==> t.wf(),
    ensures
        final(ctx).wf(),
        final(ctx)@ == match total {
            Some(t) => if old(ctx)@.playlist.remaining.len() > 0 && old(ctx)@.files.map.contains_key(
                path_components(old(ctx)@.playlist.remaining[0]),
            ) {
                let k = path_components(old(ctx)@.playlist.remaining[0]);
                with_map(
                    old(ctx)@,
                    old(ctx)@.files.map.insert(
                        k,
                        FileDataView { duration: Some(t.total()), ..old(ctx)@.files.map[k] },
                    ),
                )
            } else {
                old(ctx)@
            },
            None => old(ctx)@,
        },
{
    if let Some(t) = total {
        if ctx.playlist.remaining.len() > 0 {
            let first = ctx.playlist.remaining[0].clone();
            assert(first@ == old(ctx)@.playlist.remaining[0]);
            let ghost before = ctx.files@;
            ctx.files.set_duration(first.as_str(), t);
            let ghost k = path_components(first@);
            assert(ctx.files@.map =~= (if before.map.contains_key(k) {
                before.map.insert(k, FileDataView { duration: Some(t.total()), ..before.map[k] })
            } else {
                before.map
            }));
        }
    }
}

/// The progress after `elapsed` more time of playing: a gap of more than five
/// seconds since the last update means the computer slept, and does not count.
pub open spec fn advanced_progress(p: int, elapsed: int) -> int {
    if elapsed <= 5_000_000_000 {
        p + elapsed
    } else {
        p
    }
}

/// Counts the time that the song has played since the last update.
pub fn advance_progress(ctx: &mut Context, elapsed: Span)
    requires
        old(ctx).wf(),
        elapsed.wf(),
        elapsed.total() <= 5_000_000_000 ==> old(ctx)@.playlist.progress + elapsed.total() <= max_total(),
    ensures
        final(ctx).wf(),
        final(ctx)@ == (ContextView {
            playlist: PlaylistView {
                progress: advanced_progress(old(ctx)@.playlist.progress, elapsed.total()),
                ..old(ctx)@.playlist
            },
            ..old(ctx)@
        }),
{
    if elapsed.secs < 5 || (elapsed.secs == 5 && elapsed.nanos == 0) {
        match ctx.playlist.progress.checked_add(elapsed) {
            Some(p) => {
                ctx.playlist.progress = p;
            },
            None => {},
        }
    }
}

/// Whether saving by itself is due, `elapsed_secs` whole seconds after it last happened.
pub fn autosave_due(autosave: AutosavePreference, elapsed_secs: u64) -> (r: bool)
    ensures
        r == (autosave matches AutosavePreference::AfterSeconds(s) && elapsed_secs > s),
{
    match autosave {
        AutosavePreference::AfterSeconds(s) => elapsed_secs > s as u64,
        _ => false,
    }
}

/// Whether every path sent by another player has a file name.
pub open spec fn all_named(paths: Seq<Seq<char>>) -> bool {
    forall|i: int| 0 <= i < paths.len() ==> #[trigger] file_name_of(paths[i]) is Some
}

/// The lines that tell of the songs `paths` received, one after another.
pub open spec fn added_text(paths: Seq<Seq<char>>) -> Seq<char>
    decreases paths.len(),
{
    if paths.len() == 0 {
        Seq::empty()
    } else {
        added_text(paths.drop_last()) + "Added Song: "@ + file_name_of(paths.last()).unwrap()
    }
}

/// The data and names of the known files after the songs `paths` were
/// given empty data, one after another; a song that was not known becomes
/// known under the text it has in `paths`.
pub open spec fn added_files(
    m: Map<Seq<Seq<char>>, FileDataView>,
    n: Map<Seq<Seq<char>>, Seq<char>>,
    paths: Seq<Seq<char>>,
) -> (Map<Seq<Seq<char>>, FileDataView>, Map<Seq<Seq<char>>, Seq<char>>)
    decreases paths.len(),
{
    if paths.len() == 0 {
        (m, n)
    } else {
        let (m1, n1) = added_files(m, n, paths.drop_last());
        let k = path_components(paths.last());
        (
            m1.insert(k, default_file_data()),
            if m1.contains_key(k) {
                n1
            } else {
                n1.insert(k, paths.last())
            },
        )
    }
}

/// The context once the files `paths` sent by another player are received:
/// each is told of, goes to the front of the remaining songs (the last one
/// received first), and is known with empty data; the progress goes back to the start.
pub open spec fn received_spec(c: ContextView, paths: Seq<Seq<char>>) -> ContextView {
    let c1 = with_output(c, "\n"@ + added_text(paths));
    let added = added_files(c.files.map, c.files.names, paths);
    let c2 = with_files(c1, FilesView { map: added.0, names: added.1, ..c.files });
    rewound(with_songs(c2, paths.reverse() + c.playlist.remaining, c.playlist.previous))
}

/// Receives the files `paths` sent by another player, each with a file name.
/// The program then loads the first song and plays.
pub fn add_received_songs(ctx: &mut Context, paths: &Vec<String>)
    requires
        old(ctx).wf(),
        all_named(views(paths@)),
    ensures
        final(ctx).wf(),
        final(ctx)@ == received_spec(old(ctx)@, views(paths@)),
{
    let ghost pv = views(paths@);
    push_char(&mut ctx.cmd_out, '\n');
    proof {
        reveal_strlit("\n");
    }
    assert(ctx.cmd_out@ =~= old(ctx).cmd_out@ + "\n"@);
    let mut front: Vec<String> = Vec::new();
    let mut i: usize = 0;
    while i < paths.len()
        invariant
            ctx.wf(),
            pv == views(paths@),
            all_named(pv),
            i <= paths.len(),
            ctx@.cmd_out == old(ctx)@.cmd_out + "\n"@ + added_text(pv.take(i as int)),
            (ctx@.files.map, ctx@.files.names) == added_files(
                old(ctx)@.files.map,
                old(ctx)@.files.names,
                pv.take(i as int),
            ),
            ctx@.files.root == old(ctx)@.files.root,
            views(front@) == pv.take(i as int).reverse(),
            ctx@.playlist == old(ctx)@.playlist,
            ctx@.config == old(ctx)@.config,
            ctx@.state == old(ctx)@.state,
            ctx@.mode == old(ctx)@.mode,
        decreases paths.len() - i,
    {
        assert(pv[i as int] == paths@[i as int]@);
        assert(file_name_of(pv[i as int]) is Some);
        let name = path_file_name(paths[i].as_str());
        let ghost t = pv.take(i + 1);
        assert(t.drop_last() =~= pv.take(i as int));
        assert(t.last() == pv[i as int]);
        match name {
            Some(n) => {
                push_str(&mut ctx.cmd_out, "Added Song: ");
                push_str(&mut ctx.cmd_out, n.as_str());
                assert(ctx.cmd_out@ =~= old(ctx)@.cmd_out + "\n"@ + added_text(t));
            },
            None => {},
        }
        ctx.files.insert(paths[i].clone(), FileData::new());
        let ghost fb = views(front@);
        let p = paths[i].clone();
        front.insert(0, p);
        assert(views(front@) =~= seq![pv[i as int]] + fb);
        assert(t.reverse() =~= seq![pv[i as int]] + pv.take(i as int).reverse());
        i += 1;
    }
    assert(pv.take(i as int) =~= pv);
    let ghost rest = views(ctx.playlist.remaining@);
    front.append(&mut ctx.playlist.remaining);
    ctx.playlist.remaining = front;
    assert(views(ctx.playlist.remaining@) =~= pv.reverse() + rest);
    ctx.playlist.progress = Span::zero();
    assert(ctx@.cmd_out =~= received_spec(old(ctx)@, pv).cmd_out);
}

/// Receives the files `paths` sent by another player, where each has a file
/// name; otherwise nothing changes and `false` is returned.
pub fn receive_songs(ctx: &mut Context, paths: &Vec<String>) -> (r: bool)
    requires
        old(ctx).wf(),
    ensures
        final(ctx).wf(),
        r == all_named(views(paths@)),
        r ==> final(ctx)@ == received_spec(old(ctx)@, views(paths@)),
        !r ==> final(ctx)@ == old(ctx)@,
{
    let mut i: usize = 0;
    while i < paths.len()
        invariant
            i <= paths.len(),
            ctx.wf(),
            ctx@ == old(ctx)@,
            forall|j: int| 0 <= j < i ==> #[trigger] file_name_of(views(paths@)[j]) is Some,
        decreases paths.len() - i,
    {
        assert(views(paths@)[i as int] == paths@[i as int]@);
        if path_file_name(paths[i].as_str()).is_none() {
            return false;
        }
        i += 1;
    }
    add_received_songs(ctx, paths);
    true
}

/// Whether quitting saves: where the quit asks for it and the mode allows it.
pub open spec fn saves_on_quit_spec(mode: ProgramMode, save: bool) -> bool {
    save && mode == ProgramMode::Main
}

/// Whether quitting saves first.
pub fn saves_on_quit(mode: ProgramMode, save: bool) -> (r: bool)
    ensures
        r == saves_on_quit_spec(mode, save),
{
    save && mode.can_save()
}

/// Saving failed while quitting with the error text `error`: where the quit
/// gives up on such an error, the error is told and the program stays (`true`),
/// giving another chance at saving; otherwise it quits all the same.
pub fn quit_save_failed(ctx: &mut Context, abort_on_error: bool, error: &str) -> (stay: bool)
    requires
        old(ctx).wf(),
    ensures
        final(ctx).wf(),
        stay == abort_on_error,
        final(ctx)@ == if abort_on_error {
            with_output(old(ctx)@, "error while saving on quit:\n"@ + error@)
        } else {
            old(ctx)@
        },
{
    if abort_on_error {
        push_str(&mut ctx.cmd_out, "error while saving on quit:\n");
        push_str(&mut ctx.cmd_out, error);
        assert(ctx.cmd_out@ =~= old(ctx).cmd_out@ + ("error while saving on quit:\n"@ + error@));
    }
    abort_on_error
}

/// Whether saving by itself happens in this mode.
pub fn autosaves(mode: ProgramMode) -> (r: bool)
    ensures
        r == (mode == ProgramMode::Main),
{
    mode.can_save()
}

} // verus!
