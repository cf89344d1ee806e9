use ttmp::cli::{CliAction, CliError, ipc_enabled, parse_command_line_args};
use ttmp::command::files::{child_layers, folder_line};
use ttmp::command::error::CommandError;
use ttmp::command::CommandReturn;
use ttmp::data::config::{AutosavePreference, Config};
use ttmp::data::context::{Context, ProgramMode};
use ttmp::data::files::{FileData, Files};
use ttmp::data::playlist::Playlist;
use ttmp::data::state::State;
use ttmp::duration::{DurationPart, Unit, parse_duration};
use ttmp::event::{KeyEvent, handle_event};
use ttmp::message::{KeyCode, MediaEvent, Message, media_command};
use ttmp::span::Span;
use ttmp::update::{
    FollowUp, SongAction, SongStage, UpdateFlags, add_received_songs, advance_progress, autosave_due,
    begin_command, end_command, finish_song, handle_command_return, handle_message,
    handle_update_temp, receive_songs, song_change_step, song_failed, song_loaded, song_path,
};

fn args(a: &[&str]) -> Vec<String> {
    a.iter().map(|s| s.to_string()).collect()
}

fn ctx_with(songs: &[&str]) -> Context {
    let mut files = Files::empty_with_root("/music".to_string());
    for s in songs {
        files.insert(s.to_string(), FileData::new());
    }
    let mut playlist = Playlist::new();
    playlist.remaining = songs.iter().map(|s| s.to_string()).collect();
    Context::new_main(Config::default(), State::default(), files, playlist)
}

#[test]
fn cli_files_mean_temp_mode() {
    match parse_command_line_args(&args(&["a.mp3", "b.mp3"])) {
        Ok(CliAction::Run(p)) => {
            assert_eq!(p.program_mode, ProgramMode::Temp);
            assert_eq!(p.files, args(&["a.mp3", "b.mp3"]));
            assert!(!p.disable_ipc);
            assert!(p.savedata_path.is_none());
        },
        other => panic!("{:?}", other),
    }
    match parse_command_line_args(&args(&[])) {
        Ok(CliAction::Run(p)) => assert_eq!(p.program_mode, ProgramMode::Main),
        other => panic!("{:?}", other),
    }
}

#[test]
fn cli_options() {
    match parse_command_line_args(&args(&["--no-ipc", "-m", "main", "-p", "/data", "x.mp3"])) {
        Ok(CliAction::Run(p)) => {
            assert_eq!(p.program_mode, ProgramMode::Main);
            assert!(p.disable_ipc);
            assert_eq!(p.savedata_path, Some("/data".to_string()));
            assert_eq!(p.files, args(&["x.mp3"]));
        },
        other => panic!("{:?}", other),
    }
    match parse_command_line_args(&args(&["--", "-odd.mp3", "--help"])) {
        Ok(CliAction::Run(p)) => assert_eq!(p.files, args(&["-odd.mp3", "--help"])),
        other => panic!("{:?}", other),
    }
    assert!(matches!(parse_command_line_args(&args(&["x", "--help", "--bad"])), Ok(CliAction::Help)));
    assert!(matches!(parse_command_line_args(&args(&["-v"])), Ok(CliAction::Version)));
}

#[test]
fn cli_errors() {
    match parse_command_line_args(&args(&["--bad"])) {
        Err(CliError::UnknownArg(a)) => assert_eq!(a, "--bad"),
        other => panic!("{:?}", other),
    }
    match parse_command_line_args(&args(&["--mode", "other"])) {
        Err(CliError::UnkownMode(a)) => assert_eq!(a, "other"),
        other => panic!("{:?}", other),
    }
    assert!(matches!(parse_command_line_args(&args(&["--mode"])), Err(CliError::NoModeSpecifier)));
    assert!(matches!(parse_command_line_args(&args(&["-p"])), Err(CliError::NoSavedataPathSpecifier)));
}

#[test]
fn ipc_decision() {
    assert!(ipc_enabled(&args(&["/abs/a.mp3"]), None));
    assert!(!ipc_enabled(&args(&["rel/a.mp3"]), None));
    assert!(!ipc_enabled(&args(&[]), None));
    assert!(ipc_enabled(&args(&[]), Some(true)));
    assert!(!ipc_enabled(&args(&["/abs/a.mp3"]), Some(false)));
}

#[test]
fn duration_parts() {
    let parts = parse_duration("1m 30 2.5s 1h 3x");
    assert_eq!(parts.len(), 5);
    assert!(matches!(&parts[0], DurationPart::Number { text, unit: Unit::Minutes } if text == "1"));
    assert!(matches!(&parts[1], DurationPart::Number { text, unit: Unit::Seconds } if text == "30"));
    assert!(matches!(&parts[2], DurationPart::Number { text, unit: Unit::Seconds } if text == "2.5"));
    assert!(matches!(&parts[3], DurationPart::Number { text, unit: Unit::Hours } if text == "1"));
    assert!(matches!(&parts[4], DurationPart::Number { text, unit: Unit::Unknown('x') } if text == "3"));
    let parts = parse_duration("");
    assert_eq!(parts.len(), 1);
    assert!(matches!(parts[0], DurationPart::Empty));
    let parts = parse_duration("5x 5é");
    assert!(matches!(&parts[0], DurationPart::Number { text, unit: Unit::Unknown('x') } if text == "5"));
    assert!(matches!(&parts[1], DurationPart::Number { text, unit: Unit::Unknown('é') } if text == "5"));
}

#[test]
fn command_return_flags() {
    let mut out = String::new();
    let mut flags = UpdateFlags::new();
    handle_command_return(Ok(CommandReturn::ReloadFirstSong), &mut out, &mut flags);
    assert!(flags.reload_first_song);
    assert!(matches!(handle_update_temp(&flags), FollowUp::ReloadFirstSong));
    handle_command_return(Ok(CommandReturn::QuitNoSave), &mut out, &mut flags);
    assert!(matches!(handle_update_temp(&flags), FollowUp::Send(Message::Quit { save: false, abort_on_error: false })));
    handle_command_return(Ok(CommandReturn::Quit), &mut out, &mut flags);
    assert!(matches!(handle_update_temp(&flags), FollowUp::Send(Message::Quit { save: true, abort_on_error: true })));
    handle_command_return(Err(CommandError::NoFilePlaying), &mut out, &mut flags);
    assert_eq!(out, "No File currently playing");
    assert!(matches!(handle_update_temp(&UpdateFlags::new()), FollowUp::Nothing));
}

#[test]
fn messages_edit_the_line() {
    let mut ctx = ctx_with(&[]);
    let mut line: Option<String> = None;
    assert!(handle_message(&mut line, &mut ctx, Message::TypedChar('p')).is_none());
    assert!(handle_message(&mut line, &mut ctx, Message::TypedChar('n')).is_none());
    assert!(handle_message(&mut line, &mut ctx, Message::TypedChar('x')).is_none());
    assert!(handle_message(&mut line, &mut ctx, Message::Backspace).is_none());
    assert_eq!(line.as_deref(), Some("pn"));
    assert_eq!(handle_message(&mut line, &mut ctx, Message::Enter), Some("pn".to_string()));
    assert!(line.is_none());
    assert!(handle_message(&mut line, &mut ctx, Message::GotoCommandMode).is_none());
    assert_eq!(line.as_deref(), Some(""));
    ctx.cmd_out.push_str("old");
    assert!(handle_message(&mut line, &mut ctx, Message::GotoNormalMode).is_none());
    assert!(line.is_none());
    assert_eq!(ctx.cmd_out, "");
    assert!(handle_message(&mut line, &mut ctx, Message::ToggleScreenRedraws).is_none());
    assert!(ctx.state.dont_redraw_screen);
    assert_eq!(handle_message(&mut line, &mut ctx, Message::RunCommand("q".to_string())), Some("q".to_string()));
}

#[test]
fn keys_in_both_modes() {
    let config = Config::default();
    let key = |c: KeyCode, control: bool| KeyEvent { code: c, control, release: false };
    assert!(matches!(handle_event(&config, false, key(KeyCode::Char('q'), false)), Some(Message::Quit { save: true, abort_on_error: true })));
    assert!(matches!(handle_event(&config, false, key(KeyCode::Char(' '), false)), Some(Message::RunCommand(c)) if c == "p"));
    assert!(matches!(handle_event(&config, false, key(KeyCode::Char('z'), false)), None));
    assert!(matches!(handle_event(&config, false, key(KeyCode::Char('q'), true)), None));
    assert!(matches!(handle_event(&config, true, key(KeyCode::Char('q'), false)), Some(Message::TypedChar('q'))));
    assert!(matches!(handle_event(&config, true, key(KeyCode::Enter, false)), Some(Message::Enter)));
    assert!(matches!(handle_event(&config, true, key(KeyCode::Char('c'), true)), Some(Message::GotoNormalMode)));
    assert!(matches!(handle_event(&config, false, key(KeyCode::Esc, false)), Some(Message::GotoNormalMode)));
    assert!(matches!(handle_event(&config, false, key(KeyCode::Char('r'), true)), Some(Message::ToggleScreenRedraws)));
    let released = KeyEvent { code: KeyCode::Char('q'), control: false, release: true };
    assert!(handle_event(&config, false, released).is_none());
}

#[test]
fn command_end_runs_list_end() {
    let mut ctx = ctx_with(&["a.mp3"]);
    ctx.cmd_out.push_str("old");
    let was = begin_command(&mut ctx);
    assert!(was);
    assert_eq!(ctx.cmd_out, "");
    ctx.playlist.remaining.clear();
    ctx.playlist.progress = Span { secs: 4, nanos: 0 };
    let end = end_command(&mut ctx, was);
    assert!(end.pause);
    assert!(end.list_end.is_some());
    assert_eq!(ctx.playlist.progress, Span { secs: 0, nanos: 0 });
    let end = end_command(&mut ctx, false);
    assert!(end.pause);
    assert!(end.list_end.is_none());
}

#[test]
fn song_end_records_duration() {
    let mut ctx = ctx_with(&["a.mp3", "b.mp3"]);
    ctx.playlist.progress = Span { secs: 200, nanos: 5 };
    let r = finish_song(&mut ctx);
    assert!(r.queue.is_empty());
    assert_eq!(ctx.files.data_at(ctx.files.index_of("a.mp3").unwrap()).duration, Some(Span { secs: 200, nanos: 5 }));
    assert_eq!(ctx.playlist.previous, vec!["a.mp3".to_string()]);
    ctx.config.autosave = AutosavePreference::AfterSongFinished;
    let mut stage = SongStage::ListEnd;
    assert!(matches!(song_change_step(&mut stage, &mut ctx), SongAction::Continue));
    assert_eq!(ctx.playlist.progress, Span { secs: 0, nanos: 0 });
    assert!(matches!(song_change_step(&mut stage, &mut ctx), SongAction::Save));
    assert!(matches!(song_change_step(&mut stage, &mut ctx), SongAction::LoadAndRun(_)));
    assert!(matches!(song_change_step(&mut stage, &mut ctx), SongAction::Done));
    assert_eq!(stage, SongStage::Done);
}

#[test]
fn last_song_ends_list() {
    let mut ctx = ctx_with(&["a.mp3"]);
    let r = finish_song(&mut ctx);
    assert!(r.queue.is_empty());
    let mut stage = SongStage::ListEnd;
    assert!(matches!(song_change_step(&mut stage, &mut ctx), SongAction::PauseAndRun(_)));
    assert!(matches!(song_change_step(&mut stage, &mut ctx), SongAction::Continue));
    assert!(matches!(song_change_step(&mut stage, &mut ctx), SongAction::Done));
}

#[test]
fn loading_songs() {
    let mut ctx = ctx_with(&["a.mp3", "b.mp3"]);
    assert_eq!(song_path(&ctx), Some("/music/a.mp3".to_string()));
    song_failed(&mut ctx, false);
    assert_eq!(ctx.cmd_out, "Failed to load song: a.mp3\n");
    song_failed(&mut ctx, true);
    assert_eq!(ctx.cmd_out, "Failed to load song: a.mp3\nFailed to convert song to mp3: b.mp3\n");
    assert_eq!(song_path(&ctx), None);
    let mut ctx = ctx_with(&["a.mp3"]);
    song_loaded(&mut ctx, Some(Span { secs: 90, nanos: 0 }));
    assert_eq!(ctx.get_current_duration(), Some(Span { secs: 90, nanos: 0 }));
}

#[test]
fn progress_counts_only_short_gaps() {
    let mut ctx = ctx_with(&["a.mp3"]);
    advance_progress(&mut ctx, Span { secs: 1, nanos: 500 });
    assert_eq!(ctx.playlist.progress, Span { secs: 1, nanos: 500 });
    advance_progress(&mut ctx, Span { secs: 6, nanos: 0 });
    assert_eq!(ctx.playlist.progress, Span { secs: 1, nanos: 500 });
    assert!(autosave_due(AutosavePreference::AfterSeconds(180), 181));
    assert!(!autosave_due(AutosavePreference::AfterSeconds(180), 180));
    assert!(!autosave_due(AutosavePreference::Never, 1000));
}

#[test]
fn received_songs_go_first() {
    let mut ctx = ctx_with(&["a.mp3"]);
    add_received_songs(&mut ctx, &args(&["/x/one.mp3", "/y/two.mp3"]));
    assert_eq!(ctx.cmd_out, "\nAdded Song: one.mp3Added Song: two.mp3");
    assert_eq!(ctx.playlist.remaining, args(&["/y/two.mp3", "/x/one.mp3", "a.mp3"]));
    assert!(ctx.files.contains("/x/one.mp3"));
    let mut ctx = ctx_with(&["a.mp3"]);
    assert!(!receive_songs(&mut ctx, &args(&["/"])));
    assert_eq!(ctx.playlist.remaining, args(&["a.mp3"]));
}

#[test]
fn span_arithmetic() {
    let a = Span { secs: 1, nanos: 600_000_000 };
    let b = Span { secs: 2, nanos: 500_000_000 };
    assert_eq!(a.checked_add(b), Some(Span { secs: 4, nanos: 100_000_000 }));
    assert_eq!(a.saturating_sub(b), Span { secs: 0, nanos: 0 });
    assert_eq!(b.saturating_sub(a), Span { secs: 0, nanos: 900_000_000 });
    assert_eq!(Span { secs: u64::MAX, nanos: 0 }.checked_add(Span { secs: 1, nanos: 0 }), None);
}

#[test]
fn quitting_saves_only_in_main_mode() {
    assert!(ttmp::update::saves_on_quit(ProgramMode::Main, true));
    assert!(!ttmp::update::saves_on_quit(ProgramMode::Main, false));
    assert!(!ttmp::update::saves_on_quit(ProgramMode::Temp, true));
    assert!(ttmp::update::autosaves(ProgramMode::Main));
    assert!(!ttmp::update::autosaves(ProgramMode::Temp));
    let mut ctx = ctx_with(&[]);
    assert!(ttmp::update::quit_save_failed(&mut ctx, true, "disk full"));
    assert_eq!(ctx.cmd_out, "error while saving on quit:\ndisk full");
    let mut ctx = ctx_with(&[]);
    assert!(!ttmp::update::quit_save_failed(&mut ctx, false, "disk full"));
    assert_eq!(ctx.cmd_out, "");
}

#[test]
fn screen_text() {
    let mut ctx = ctx_with(&["rock/a.mp3", "b.mp3", "c.mp3"]);
    assert_eq!(ttmp::screen::header_line(&ctx), " list: main      remaining: 3");
    let lines = ttmp::screen::playlist_lines(&ctx.playlist.remaining, 3);
    assert_eq!(lines, args(&[" 0 a.mp3", " 1 b.mp3", "   ..."]));
    let lines = ttmp::screen::playlist_lines(&ctx.playlist.remaining, 10);
    assert_eq!(lines, args(&[" 0 a.mp3", " 1 b.mp3", " 2 c.mp3"]));
    assert!(ttmp::screen::checked_playlist_lines(&args(&["/", "a.mp3"]), 3).is_none());
    assert_eq!(ttmp::screen::checked_playlist_lines(&args(&["a.mp3", "/"]), 2), Some(args(&[" 0 a.mp3", "   ..."])));
    assert_eq!(ttmp::screen::current_tags_text(&ctx), "");
    ctx.files.add_tag("rock/a.mp3", "z");
    ctx.files.add_tag("rock/a.mp3", "b");
    assert_eq!(ttmp::screen::current_tags_text(&ctx), "b, z");
    let files = Files::empty_with_root("/music".to_string());
    let ctx = Context::new_temp(Config::default(), State::default(), files, &args(&["x.mp3"]));
    assert_eq!(ttmp::screen::header_line(&ctx), " TEMPORARY MODE      list: temp      remaining: 1");
}

#[test]
fn line_endings_are_taken_off() {
    assert_eq!(ttmp::text::strip_line_end("music\r\n"), "music");
    assert_eq!(ttmp::text::strip_line_end("music\n"), "music");
    assert_eq!(ttmp::text::strip_line_end("music"), "music");
    assert_eq!(ttmp::text::strip_line_end("\n\n"), "\n");
}

#[test]
fn folder_tree_lines() {
    assert_eq!(folder_line("", false, "a"), "├── a\n");
    assert_eq!(folder_line("│   ", true, "b"), "│   └── b\n");
    assert_eq!(child_layers("", false), "│   ");
    assert_eq!(child_layers("│   ", true), "│       ");
}

#[test]
fn playlist_names_from_files() {
    assert_eq!(Playlist::get_all_names(&args(&["main.ron", "party.ron", "notes"])), args(&["main", "party", "notes"]));
    assert_eq!(ttmp::data::playlist::list_name_of_file("x.ron.ron"), "x.ron");
}

#[test]
fn macro_commands_become_a_runner() {
    let r = ttmp::command::runner::run_commands("echo $1 $0; pn $a", &args(&["a", "b"]));
    assert_eq!(r.queue, args(&["echo b a", "pn a b"]));
    let r = ttmp::command::runner::run_commands("", &args(&["a"]));
    assert!(r.queue.is_empty());
}

#[test]
fn jump_commands_ask_for_time() {
    use_jump(ttmp::command::goto::jump_to(&args(&["1m"])), ttmp::command::JumpKind::To);
    use_jump(ttmp::command::goto::jump_forward(&args(&["2"])), ttmp::command::JumpKind::Forward);
    use_jump(ttmp::command::goto::jump_backward(&args(&["3h"])), ttmp::command::JumpKind::Backward);
}

fn use_jump(o: ttmp::command::Outcome, kind: ttmp::command::JumpKind) {
    match o {
        ttmp::command::Outcome::Request(ttmp::command::Effect::ParseDuration(_), ttmp::command::Pending::Jump(k)) => {
            assert_eq!(k, kind)
        },
        other => panic!("{:?}", other),
    }
}

#[test]
fn savedata_folder_choice() {
    use_folder(ttmp::cli::savedata_folder(&Some("/given".to_string()), &Some("/data".to_string())), Some("/given"));
    use_folder(ttmp::cli::savedata_folder(&None, &Some("/data".to_string())), Some("/data/musicplayer"));
    use_folder(ttmp::cli::savedata_folder(&None, &None), None);
}

fn use_folder(r: Result<String, CliError>, expected: Option<&str>) {
    match (r, expected) {
        (Ok(p), Some(e)) => assert_eq!(p, e),
        (Err(CliError::CantFindSavedataPath), None) => {},
        (other, _) => panic!("{:?}", other),
    }
}

#[test]
fn media_events_to_commands() {
    assert_eq!(media_command(MediaEvent::Toggle), Some("p".to_string()));
    assert_eq!(media_command(MediaEvent::Stop), Some("p-".to_string()));
    assert_eq!(media_command(MediaEvent::SeekBackward), Some("gb 5s".to_string()));
    assert_eq!(media_command(MediaEvent::Quit), Some("q".to_string()));
    assert_eq!(media_command(MediaEvent::Raise), None);
    assert_eq!(media_command(MediaEvent::OpenUri), None);
}
