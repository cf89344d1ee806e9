use ttmp::command::error::CommandError;
use ttmp::command::reply::Reply;
use ttmp::command::runner::{Runner, Step};
use ttmp::command::{CommandReturn, Effect};
use ttmp::data::config::Config;
use ttmp::data::context::Context;
use ttmp::data::files::{FileData, Files};
use ttmp::data::playlist::Playlist;
use ttmp::data::state::State;
use ttmp::span::Span;

fn ctx_with(songs: &[&str]) -> Context {
    let mut files = Files::empty_with_root("/music".to_string());
    for s in songs {
        files.insert(s.to_string(), FileData::new());
    }
    let mut playlist = Playlist::new();
    playlist.remaining = songs.iter().map(|s| s.to_string()).collect();
    Context::new_main(Config::default(), State::default(), files, playlist)
}

/// Runs a line, answering every effect with `answer`.
fn run(ctx: &mut Context, line: &str, answer: &dyn Fn(&Effect) -> Reply) -> Result<CommandReturn, CommandError> {
    let mut runner = Runner::new(line.to_string());
    let mut step = runner.step(ctx);
    loop {
        match step {
            Step::Continue => step = runner.step(ctx),
            Step::Perform(e) => {
                let reply = answer(&e);
                step = runner.answer(ctx, reply);
            },
            Step::Finished(r) => return r,
        }
    }
}

fn no_effects(e: &Effect) -> Reply {
    panic!("unexpected effect {:?}", e)
}

#[test]
fn macro_commands_run_in_order() {
    let mut ctx = ctx_with(&["a.mp3", "b.mp3", "c.mp3"]);
    let mut runner = Runner::new("ma two pn; pn".to_string());
    assert!(matches!(runner.step(&mut ctx), Step::Continue));
    assert!(matches!(runner.step(&mut ctx), Step::Finished(Ok(CommandReturn::Nothing))));
    assert_eq!(run(&mut ctx, "two", &no_effects).unwrap(), CommandReturn::ReloadFirstSong);
    assert_eq!(ctx.playlist.remaining, vec!["c.mp3".to_string()]);
}

#[test]
fn quit_inside_macro_stops_the_rest() {
    let mut ctx = ctx_with(&["a.mp3", "b.mp3"]);
    assert!(run(&mut ctx, "ma stop q; pn", &no_effects).is_ok());
    assert_eq!(run(&mut ctx, "stop", &no_effects).unwrap(), CommandReturn::Quit);
    assert_eq!(ctx.playlist.remaining.len(), 2);
}

#[test]
fn error_inside_macro_stops_the_rest() {
    let mut ctx = ctx_with(&["a.mp3", "b.mp3"]);
    assert!(run(&mut ctx, "ma bad pm x; pn", &no_effects).is_ok());
    assert!(matches!(run(&mut ctx, "bad", &no_effects), Err(CommandError::ParseInt(_))));
    assert_eq!(ctx.playlist.remaining.len(), 2);
}

#[test]
fn jump_forward_and_back() {
    let mut ctx = ctx_with(&["a.mp3"]);
    let ten = |e: &Effect| match e {
        Effect::ParseDuration(_) => Reply::Duration(Span { secs: 10, nanos: 0 }),
        _ => panic!(),
    };
    assert_eq!(run(&mut ctx, "gf 10", &ten).unwrap(), CommandReturn::ReloadFirstSong);
    assert_eq!(ctx.playlist.progress, Span { secs: 10, nanos: 0 });
    assert_eq!(run(&mut ctx, "gb 10", &ten).unwrap(), CommandReturn::ReloadFirstSong);
    assert_eq!(ctx.playlist.progress, Span { secs: 0, nanos: 0 });
    assert_eq!(run(&mut ctx, "gb 10", &ten).unwrap(), CommandReturn::ReloadFirstSong);
    assert_eq!(ctx.playlist.progress, Span { secs: 0, nanos: 0 });
    assert_eq!(run(&mut ctx, "g 10", &ten).unwrap(), CommandReturn::ReloadFirstSong);
    assert_eq!(ctx.playlist.progress, Span { secs: 10, nanos: 0 });
}

#[test]
fn jump_past_longest_time_is_error() {
    let mut ctx = ctx_with(&["a.mp3"]);
    let huge = |_: &Effect| Reply::Duration(Span { secs: u64::MAX, nanos: 999_999_999 });
    assert_eq!(run(&mut ctx, "g x", &huge).unwrap(), CommandReturn::ReloadFirstSong);
    assert!(matches!(run(&mut ctx, "gf 1", &huge), Err(CommandError::ProgressOverflow)));
}

#[test]
fn failed_effect_is_the_error() {
    let mut ctx = ctx_with(&["a.mp3"]);
    let fail = |_: &Effect| Reply::Failed(CommandError::DurationParse("empty duration part".to_string()));
    match run(&mut ctx, "gf", &fail) {
        Err(e) => assert_eq!(e.message(), "Failed while parsing Duration: empty duration part"),
        other => panic!("{:?}", other),
    }
}

#[test]
fn progress_text_is_a_line() {
    let mut ctx = ctx_with(&["a.mp3"]);
    let text = |_: &Effect| Reply::Text("00:00:01.00".to_string());
    assert_eq!(run(&mut ctx, "gd", &text).unwrap(), CommandReturn::Nothing);
    assert_eq!(ctx.cmd_out, "00:00:01.00\n");
}

#[test]
fn list_names_marked() {
    let mut ctx = ctx_with(&[]);
    let names = |_: &Effect| Reply::Names(vec!["main".to_string(), "party".to_string()]);
    assert_eq!(run(&mut ctx, "lg", &names).unwrap(), CommandReturn::Nothing);
    assert_eq!(ctx.cmd_out, "All Playlist Names:\n> main\n- party\n");
}

#[test]
fn switch_loads_other_list() {
    let mut ctx = ctx_with(&["a.mp3"]);
    let load = |_: &Effect| {
        let mut p = Playlist::new();
        p.remaining = vec!["z.mp3".to_string()];
        Reply::Loaded(p)
    };
    assert_eq!(run(&mut ctx, "ls party", &load).unwrap(), CommandReturn::ReloadFirstSong);
    assert_eq!(ctx.state.current_playlist, "party");
    assert_eq!(ctx.playlist.remaining, vec!["z.mp3".to_string()]);
}

#[test]
fn copy_and_append_from_other_list() {
    let mut ctx = ctx_with(&["a.mp3"]);
    let load = |_: &Effect| {
        let mut p = Playlist::new();
        p.remaining = vec!["z.mp3".to_string()];
        Reply::Loaded(p)
    };
    assert_eq!(run(&mut ctx, "la party", &load).unwrap(), CommandReturn::Nothing);
    assert_eq!(ctx.playlist.remaining, vec!["a.mp3".to_string(), "z.mp3".to_string()]);
    assert_eq!(run(&mut ctx, "lc party", &load).unwrap(), CommandReturn::ReloadFirstSong);
    assert_eq!(ctx.playlist.remaining, vec!["z.mp3".to_string()]);
}

#[test]
fn reload_keeps_only_files_on_disk() {
    let mut ctx = ctx_with(&["old.mp3", "kept.mp3"]);
    let found = |_: &Effect| Reply::Found(vec!["/music/kept.mp3".to_string(), "/music/new/n.mp3".to_string()]);
    assert_eq!(run(&mut ctx, "dr", &found).unwrap(), CommandReturn::Nothing);
    assert!(!ctx.files.contains("old.mp3"));
    assert!(ctx.files.contains("kept.mp3"));
    assert!(ctx.files.contains("new/n.mp3"));
}

#[test]
fn reload_with_file_outside_folder_is_error() {
    let mut ctx = ctx_with(&["a.mp3"]);
    let found = |_: &Effect| Reply::Found(vec!["/elsewhere/x.mp3".to_string()]);
    match run(&mut ctx, "dr", &found) {
        Err(CommandError::Io(m)) => assert_eq!(m, "file is not in the music folder: /elsewhere/x.mp3"),
        other => panic!("{:?}", other),
    }
    assert!(ctx.files.contains("a.mp3"));
}

#[test]
fn delete_goes_to_next_song() {
    let mut ctx = ctx_with(&["a.mp3", "b.mp3"]);
    let done = |_: &Effect| Reply::Done;
    assert_eq!(run(&mut ctx, "del", &done).unwrap(), CommandReturn::ReloadFirstSong);
    assert_eq!(ctx.cmd_out, "File deleted successfully.\n");
    assert_eq!(ctx.playlist.remaining, vec!["b.mp3".to_string()]);
}

#[test]
fn move_changes_current_song() {
    let mut ctx = ctx_with(&["a.mp3"]);
    let moved = |_: &Effect| Reply::Moved { existed: false };
    assert_eq!(run(&mut ctx, "dm sub", &moved).unwrap(), CommandReturn::Nothing);
    assert_eq!(ctx.playlist.remaining, vec!["sub/a.mp3".to_string()]);
    assert_eq!(ctx.cmd_out, "Succesfully moved File\n");
    let mut ctx = ctx_with(&["a.mp3"]);
    let moved = |_: &Effect| Reply::Moved { existed: true };
    assert_eq!(run(&mut ctx, "dm sub", &moved).unwrap(), CommandReturn::Nothing);
    assert_eq!(ctx.cmd_out, "Created new Folder to move file to /music/sub/a.mp3\n");
}

#[test]
fn reset_with_autoplay_tells_player() {
    let mut ctx = ctx_with(&["a.mp3"]);
    ctx.config.start_play_state = ttmp::data::config::StartPlayState::Always;
    ctx.playlist.progress = Span { secs: 3, nanos: 0 };
    let done = |e: &Effect| match e {
        Effect::Player { .. } => Reply::Done,
        _ => panic!(),
    };
    assert_eq!(run(&mut ctx, "r", &done).unwrap(), CommandReturn::ReloadFirstSong);
    assert!(ctx.state.is_playing);
    assert_eq!(ctx.playlist.progress, Span { secs: 0, nanos: 0 });
}

#[test]
fn print_effect_for_macro_list() {
    let mut ctx = ctx_with(&[]);
    let printed = |e: &Effect| match e {
        Effect::Print(t) => {
            assert!(t.starts_with("@cmd_empty = "));
            Reply::Done
        },
        _ => panic!(),
    };
    assert_eq!(run(&mut ctx, "ml", &printed).unwrap(), CommandReturn::Nothing);
}

#[test]
fn runner_with_no_commands_finishes() {
    let mut ctx = ctx_with(&[]);
    let mut runner = Runner::with_commands(Vec::new());
    assert!(matches!(runner.step(&mut ctx), Step::Finished(Ok(CommandReturn::Nothing))));
}

#[test]
fn reload_compares_paths_by_components() {
    let mut ctx = ctx_with(&["./a.mp3", "b//c.mp3"]);
    let found = |_: &Effect| Reply::Found(vec!["/music/a.mp3".to_string(), "/music/b/c.mp3".to_string()]);
    assert_eq!(run(&mut ctx, "dr", &found).unwrap(), CommandReturn::Nothing);
    assert!(ctx.files.contains("./a.mp3"));
    assert!(ctx.files.contains("b//c.mp3"));
    assert!(ctx.files.contains("a.mp3"));
    assert!(ctx.files.contains("b/c.mp3"));
}

#[test]
fn directories_keep_what_was_drawn_before_a_failure() {
    let mut ctx = ctx_with(&[]);
    let broken = |_: &Effect| Reply::Broken {
        text: "├── a\n".to_string(),
        error: CommandError::Io("denied".to_string()),
    };
    match run(&mut ctx, "ds", &broken) {
        Err(CommandError::Io(t)) => assert_eq!(t, "denied"),
        other => panic!("{:?}", other),
    }
    assert!(ctx.cmd_out.starts_with("music\n├── a\n"));
}
