use ttmp::command::dispatch::match_input;
use ttmp::command::error::CommandError;
use ttmp::command::{CommandReturn, Effect, JumpKind, Outcome, Pending, PlayerAction};
use ttmp::data::config::Config;
use ttmp::data::context::Context;
use ttmp::data::files::{FileData, Files};
use ttmp::data::playlist::Playlist;
use ttmp::data::state::State;
use ttmp::command::tree::{Folder, TreeWalk, WalkAction};
use ttmp::text::IntErrorKind;

fn ctx_with(songs: &[&str]) -> Context {
    let mut files = Files::empty_with_root("/music".to_string());
    for s in songs {
        files.insert(s.to_string(), FileData::new());
    }
    let mut playlist = Playlist::new();
    playlist.remaining = songs.iter().map(|s| s.to_string()).collect();
    Context::new_main(Config::default(), State::default(), files, playlist)
}

fn remaining(ctx: &Context) -> Vec<&str> {
    ctx.playlist.remaining.iter().map(|s| s.as_str()).collect()
}

fn previous(ctx: &Context) -> Vec<&str> {
    ctx.playlist.previous.iter().map(|s| s.as_str()).collect()
}

fn ret(r: Result<Outcome, CommandError>) -> CommandReturn {
    match r {
        Ok(Outcome::Return(x)) => x,
        other => panic!("expected a return, got {:?}", other),
    }
}

#[test]
fn quit_commands() {
    let mut ctx = ctx_with(&["a.mp3"]);
    assert_eq!(ret(match_input("q", &mut ctx)), CommandReturn::Quit);
    assert_eq!(ret(match_input("q!", &mut ctx)), CommandReturn::QuitNoSave);
}

#[test]
fn unknown_command_is_an_error() {
    let mut ctx = ctx_with(&["a.mp3"]);
    match match_input("nonsense here", &mut ctx) {
        Err(CommandError::UknownOrInvalidCommand(t)) => assert_eq!(t, "nonsense here"),
        other => panic!("{:?}", other),
    }
}

#[test]
fn next_song_moves_current_to_previous() {
    let mut ctx = ctx_with(&["a.mp3", "b.mp3", "c.mp3"]);
    assert_eq!(ret(match_input("pn", &mut ctx)), CommandReturn::ReloadFirstSong);
    assert_eq!(remaining(&ctx), vec!["b.mp3", "c.mp3"]);
    assert_eq!(previous(&ctx), vec!["a.mp3"]);
}

#[test]
fn next_song_on_empty_list_does_nothing() {
    let mut ctx = ctx_with(&[]);
    assert_eq!(ret(match_input("pn", &mut ctx)), CommandReturn::Nothing);
}

#[test]
fn skip_more_than_remain_skips_all() {
    let mut ctx = ctx_with(&["a.mp3", "b.mp3"]);
    assert_eq!(ret(match_input("pn 5", &mut ctx)), CommandReturn::ReloadFirstSong);
    assert!(remaining(&ctx).is_empty());
    assert_eq!(previous(&ctx), vec!["a.mp3", "b.mp3"]);
}

#[test]
fn skip_with_bad_number_is_parse_error() {
    let mut ctx = ctx_with(&["a.mp3"]);
    match match_input("pn x", &mut ctx) {
        Err(CommandError::ParseInt(k)) => assert_eq!(k, IntErrorKind::InvalidDigit),
        other => panic!("{:?}", other),
    }
}

#[test]
fn max_truncates_remaining() {
    let mut ctx = ctx_with(&["a.mp3", "b.mp3", "c.mp3"]);
    assert_eq!(ret(match_input("pm 2", &mut ctx)), CommandReturn::Nothing);
    assert_eq!(remaining(&ctx), vec!["a.mp3", "b.mp3"]);
}

#[test]
fn repeat_puts_copies_in_front() {
    let mut ctx = ctx_with(&["a.mp3", "b.mp3"]);
    assert_eq!(ret(match_input("pd 2", &mut ctx)), CommandReturn::Nothing);
    assert_eq!(remaining(&ctx), vec!["a.mp3", "a.mp3", "a.mp3", "b.mp3"]);
}

#[test]
fn repeat_without_song_is_error() {
    let mut ctx = ctx_with(&[]);
    assert!(matches!(match_input("pd 2", &mut ctx), Err(CommandError::NoFilePlaying)));
}

#[test]
fn echo_joins_words() {
    let mut ctx = ctx_with(&[]);
    assert_eq!(ret(match_input("echo hello  world", &mut ctx)), CommandReturn::Nothing);
    assert_eq!(ctx.cmd_out, "hello  world\n");
}

#[test]
fn save_in_main_mode_asks_to_save() {
    let mut ctx = ctx_with(&[]);
    assert!(matches!(match_input("s", &mut ctx), Ok(Outcome::Request(Effect::Save, Pending::Finish))));
}

#[test]
fn save_in_temp_mode_is_refused() {
    let files = Files::empty_with_root("/music".to_string());
    let mut ctx = Context::new_temp(Config::default(), State::default(), files, &vec!["x.mp3".to_string()]);
    assert!(matches!(match_input("s", &mut ctx), Err(CommandError::SaveInWrongMode)));
}

#[test]
fn toggle_flips_remembered_state() {
    let mut ctx = ctx_with(&["a.mp3"]);
    assert!(!ctx.state.is_playing);
    match match_input("p", &mut ctx) {
        Ok(Outcome::Request(Effect::Player { action, stopped, .. }, Pending::Finish)) => {
            assert_eq!(action, PlayerAction::Toggle);
            assert!(!stopped);
        },
        other => panic!("{:?}", other),
    }
    assert!(ctx.state.is_playing);
}

#[test]
fn pause_and_play() {
    let mut ctx = ctx_with(&[]);
    assert!(match_input("p+", &mut ctx).is_ok());
    assert!(ctx.state.is_playing);
    match match_input("p-", &mut ctx) {
        Ok(Outcome::Request(Effect::Player { action, stopped, .. }, _)) => {
            assert_eq!(action, PlayerAction::Pause);
            assert!(stopped);
        },
        other => panic!("{:?}", other),
    }
    assert!(!ctx.state.is_playing);
}

#[test]
fn volume_alone_means_full_volume() {
    let mut ctx = ctx_with(&[]);
    match match_input("pv", &mut ctx) {
        Ok(Outcome::Request(Effect::SetVolume(v), Pending::Finish)) => assert_eq!(v, "100"),
        other => panic!("{:?}", other),
    }
    match match_input("ps 1.5", &mut ctx) {
        Ok(Outcome::Request(Effect::SetSpeed(v), Pending::Finish)) => assert_eq!(v, "1.5"),
        other => panic!("{:?}", other),
    }
}

#[test]
fn goto_alone_goes_to_start() {
    let mut ctx = ctx_with(&["a.mp3"]);
    match match_input("g", &mut ctx) {
        Ok(Outcome::Request(Effect::ParseDuration(t), Pending::Jump(JumpKind::To))) => assert_eq!(t, "0"),
        other => panic!("{:?}", other),
    }
    match match_input("gf 1m 5s", &mut ctx) {
        Ok(Outcome::Request(Effect::ParseDuration(t), Pending::Jump(JumpKind::Forward))) => {
            assert_eq!(t, "1m 5s")
        },
        other => panic!("{:?}", other),
    }
}

#[test]
fn help_pages() {
    let mut ctx = ctx_with(&[]);
    assert_eq!(ret(match_input("help play", &mut ctx)), CommandReturn::Nothing);
    assert!(ctx.cmd_out.starts_with("p         - toggle between play and pause"));
    ctx.cmd_out.clear();
    match match_input("? nothing", &mut ctx) {
        Err(CommandError::NoHelpAvailable(t)) => assert_eq!(t, "nothing"),
        other => panic!("{:?}", other),
    }
    assert_eq!(ret(match_input("h", &mut ctx)), CommandReturn::Nothing);
    assert!(ctx.cmd_out.contains("Categories of Subcommands:"));
}

#[test]
fn tags_add_show_and_remove() {
    let mut ctx = ctx_with(&["a.mp3", "b.mp3"]);
    assert!(match_input("tac rock", &mut ctx).is_ok());
    assert!(match_input("tac rock", &mut ctx).is_ok());
    assert!(match_input("tlc", &mut ctx).is_ok());
    assert_eq!(ctx.cmd_out, "current tags: rock\n");
    ctx.cmd_out.clear();
    assert!(match_input("trc jazz", &mut ctx).is_ok());
    assert_eq!(ctx.cmd_out, "The current File does not have that tag\n");
    ctx.cmd_out.clear();
    assert!(match_input("trc rock", &mut ctx).is_ok());
    assert!(match_input("tlc", &mut ctx).is_ok());
    assert_eq!(ctx.cmd_out, "current tags: \n");
}

#[test]
fn tag_unknown_song_is_error() {
    let files = Files::empty_with_root("/music".to_string());
    let mut playlist = Playlist::new();
    playlist.remaining = vec!["a.mp3".to_string()];
    let mut ctx = Context::new_main(Config::default(), State::default(), files, playlist);
    match match_input("tac rock", &mut ctx) {
        Err(CommandError::NotInFiles(p)) => assert_eq!(p, "a.mp3"),
        other => panic!("{:?}", other),
    }
    assert!(matches!(match_input("taa rock", &mut ctx), Err(CommandError::NotInFiles(_))));
}

#[test]
fn show_all_tags_sorted() {
    let mut ctx = ctx_with(&["a.mp3", "b.mp3"]);
    assert!(match_input("taa pop", &mut ctx).is_ok());
    assert!(match_input("tac jazz", &mut ctx).is_ok());
    assert!(match_input("tla", &mut ctx).is_ok());
    assert_eq!(ctx.cmd_out, "all tags: jazz, pop\n");
}

#[test]
fn filters_combine_as_readme_says() {
    let mut ctx = ctx_with(&["a.mp3", "b.mp3", "c.mp3", "d.mp3"]);
    // a: a; b: b c; c: c; d: none
    ctx.files.add_tag("a.mp3", "a");
    ctx.files.add_tag("b.mp3", "b");
    ctx.files.add_tag("b.mp3", "c");
    ctx.files.add_tag("c.mp3", "c");
    assert_eq!(ret(match_input("fte a b", &mut ctx)), CommandReturn::Nothing);
    assert_eq!(remaining(&ctx), vec!["a.mp3", "b.mp3"]);
    assert_eq!(ret(match_input("fta !c", &mut ctx)), CommandReturn::Nothing);
    assert_eq!(remaining(&ctx), vec!["a.mp3"]);
}

#[test]
fn filter_without_tags_and_reload() {
    let mut ctx = ctx_with(&["a.mp3", "b.mp3"]);
    ctx.files.add_tag("a.mp3", "x");
    assert_eq!(ret(match_input("ftn", &mut ctx)), CommandReturn::ReloadFirstSong);
    assert_eq!(remaining(&ctx), vec!["b.mp3"]);
}

#[test]
fn search_filters() {
    let mut ctx = ctx_with(&["Rock/Song One.mp3", "pop/two.mp3", "rock/three.mp3"]);
    assert_eq!(ret(match_input("fss ROCK", &mut ctx)), CommandReturn::Nothing);
    assert_eq!(remaining(&ctx), vec!["Rock/Song One.mp3", "rock/three.mp3"]);
    assert_eq!(ret(match_input("fs song one", &mut ctx)), CommandReturn::Nothing);
    assert_eq!(remaining(&ctx), vec!["Rock/Song One.mp3"]);
    assert_eq!(ret(match_input("fsf zzz", &mut ctx)), CommandReturn::ReloadFirstSong);
    assert!(remaining(&ctx).is_empty());
}

#[test]
fn search_name_of_nameless_path_is_error() {
    let mut ctx = ctx_with(&["a.mp3", "/"]);
    assert!(matches!(match_input("fs a", &mut ctx), Err(CommandError::InvalidFileName(_))));
}

#[test]
fn macros_add_run_change_remove() {
    let mut ctx = ctx_with(&["a.mp3"]);
    assert!(match_input("ma hi echo $0 and $a", &mut ctx).is_ok());
    match match_input("ma hi x", &mut ctx) {
        Err(CommandError::MacroAlreadyExists(n)) => assert_eq!(n, "hi"),
        other => panic!("{:?}", other),
    }
    match match_input("m hi one two", &mut ctx) {
        Ok(Outcome::Expand(cmds)) => assert_eq!(cmds, vec!["echo one and one two".to_string()]),
        other => panic!("{:?}", other),
    }
    match match_input("hi x", &mut ctx) {
        Ok(Outcome::Expand(cmds)) => assert_eq!(cmds, vec!["echo x and x".to_string()]),
        other => panic!("{:?}", other),
    }
    assert!(match_input("mc hi q; pn", &mut ctx).is_ok());
    match match_input("m hi", &mut ctx) {
        Ok(Outcome::Expand(cmds)) => assert_eq!(cmds, vec!["q".to_string(), "pn".to_string()]),
        other => panic!("{:?}", other),
    }
    assert!(match_input("mr hi", &mut ctx).is_ok());
    match match_input("mr hi", &mut ctx) {
        Err(CommandError::MacroDoesNotExist(n)) => assert_eq!(n, "hi"),
        other => panic!("{:?}", other),
    }
    assert!(matches!(match_input("mc hi x", &mut ctx), Err(CommandError::MacroDoesNotExist(_))));
    assert!(matches!(match_input("m hi", &mut ctx), Err(CommandError::MacroDoesNotExist(_))));
}

#[test]
fn empty_line_runs_cmd_empty_macro() {
    let mut ctx = ctx_with(&[]);
    match match_input("", &mut ctx) {
        Ok(Outcome::Expand(cmds)) => assert!(cmds.is_empty()),
        other => panic!("{:?}", other),
    }
    assert!(match_input("mc @cmd_empty pn", &mut ctx).is_ok());
    match match_input("", &mut ctx) {
        Ok(Outcome::Expand(cmds)) => assert_eq!(cmds, vec!["pn".to_string()]),
        other => panic!("{:?}", other),
    }
}

#[test]
fn macro_list_is_sorted() {
    let mut ctx = ctx_with(&[]);
    assert!(match_input("ma zz pn", &mut ctx).is_ok());
    match match_input("ml", &mut ctx) {
        Ok(Outcome::Request(Effect::Print(t), Pending::Finish)) => assert_eq!(
            t,
            "@cmd_empty = \n@list_end = \n@song_end = \n@song_start = \nzz = pn\n"
        ),
        other => panic!("{:?}", other),
    }
}

#[test]
fn list_names_are_checked() {
    let mut ctx = ctx_with(&[]);
    assert!(matches!(match_input("ln a/b", &mut ctx), Err(CommandError::ListNameBadChar('/'))));
    assert!(matches!(match_input("ld MAIN", &mut ctx), Err(CommandError::SaveOverCurrentPlaylist)));
    assert!(matches!(match_input("lr main", &mut ctx), Err(CommandError::DeleteCurrentPlaylist)));
    match match_input("ln Party", &mut ctx) {
        Ok(Outcome::Request(Effect::WritePlaylist { name, list }, Pending::Finish)) => {
            assert_eq!(name, "party");
            assert!(list.remaining.is_empty());
        },
        other => panic!("{:?}", other),
    }
    assert_eq!(ret(match_input("lc main", &mut ctx)), CommandReturn::Nothing);
    match match_input("ls Other", &mut ctx) {
        Ok(Outcome::Request(Effect::SwitchPlaylist { save, load }, Pending::Switch(n))) => {
            assert_eq!(load, "other");
            assert_eq!(n, "other");
            assert_eq!(save.map(|(n, _)| n), Some("main".to_string()));
        },
        other => panic!("{:?}", other),
    }
}

#[test]
fn list_name_empty_is_error() {
    assert!(matches!(ttmp::command::list::force_str_format(""), Err(CommandError::ListNameEmpty)));
    assert_eq!(ttmp::command::list::force_str_format("MiXeD").unwrap(), "mixed");
}

#[test]
fn append_current_list_doubles_it() {
    let mut ctx = ctx_with(&["a.mp3", "b.mp3"]);
    assert_eq!(ret(match_input("la main", &mut ctx)), CommandReturn::Nothing);
    assert_eq!(remaining(&ctx), vec!["a.mp3", "b.mp3", "a.mp3", "b.mp3"]);
}

#[test]
fn full_path_of_current_song() {
    let mut ctx = ctx_with(&["rock/a.mp3"]);
    assert!(match_input("dp", &mut ctx).is_ok());
    assert_eq!(ctx.cmd_out, "/music/rock/a.mp3\n");
    let mut ctx = ctx_with(&["/elsewhere/b.mp3"]);
    assert!(match_input("dp", &mut ctx).is_ok());
    assert_eq!(ctx.cmd_out, "/elsewhere/b.mp3\n");
    let mut ctx = ctx_with(&[]);
    assert!(matches!(match_input("dp", &mut ctx), Err(CommandError::NoFilePlaying)));
}

#[test]
fn delete_forgets_file_and_asks_to_delete() {
    let mut ctx = ctx_with(&["a.mp3", "b.mp3"]);
    match match_input("del", &mut ctx) {
        Ok(Outcome::Request(Effect::DeleteFile { path }, Pending::Delete)) => assert_eq!(path, "/music/a.mp3"),
        other => panic!("{:?}", other),
    }
    assert!(!ctx.files.contains("a.mp3"));
}

#[test]
fn move_asks_for_paths() {
    let mut ctx = ctx_with(&["old/a.mp3"]);
    match match_input("dm new stuff", &mut ctx) {
        Ok(Outcome::Request(Effect::MoveFile { from, to }, Pending::Move { relative, full })) => {
            assert_eq!(from, "/music/old/a.mp3");
            assert_eq!(to, "/music/new stuff/a.mp3");
            assert_eq!(relative, "new stuff/a.mp3");
            assert_eq!(full, "/music/new stuff/a.mp3");
        },
        other => panic!("{:?}", other),
    }
}

#[test]
fn directories_show_root_name() {
    let mut ctx = ctx_with(&[]);
    match match_input("ds", &mut ctx) {
        Ok(Outcome::Request(Effect::ShowDirectories { root }, Pending::Directories)) => assert_eq!(root, "/music"),
        other => panic!("{:?}", other),
    }
    assert_eq!(ctx.cmd_out, "music\n");
}

#[test]
fn reset_puts_all_files_back() {
    let mut ctx = ctx_with(&["a.mp3", "b.mp3", "c.mp3"]);
    assert!(match_input("pn", &mut ctx).is_ok());
    assert!(match_input("pm 0", &mut ctx).is_ok());
    assert_eq!(ret(match_input("r", &mut ctx)), CommandReturn::ReloadFirstSong);
    let mut r = remaining(&ctx);
    r.sort();
    assert_eq!(r, vec!["a.mp3", "b.mp3", "c.mp3"]);
    assert!(previous(&ctx).is_empty());
}

#[test]
fn shuffle_keeps_songs() {
    let mut ctx = ctx_with(&["a.mp3", "b.mp3", "c.mp3", "d.mp3"]);
    assert_eq!(ret(match_input("pr", &mut ctx)), CommandReturn::ReloadFirstSong);
    let mut r = remaining(&ctx);
    r.sort();
    assert_eq!(r, vec!["a.mp3", "b.mp3", "c.mp3", "d.mp3"]);
}

#[test]
fn sort_orders_paths() {
    let mut ctx = ctx_with(&["b/x.mp3", "a.mp3", "b.mp3"]);
    assert_eq!(ret(match_input("po", &mut ctx)), CommandReturn::ReloadFirstSong);
    assert_eq!(remaining(&ctx), vec!["a.mp3", "b/x.mp3", "b.mp3"]);
    assert_eq!(ret(match_input("po", &mut ctx)), CommandReturn::Nothing);
}

#[test]
fn progress_request_knows_duration() {
    let mut ctx = ctx_with(&["a.mp3"]);
    match match_input("gd", &mut ctx) {
        Ok(Outcome::Request(Effect::ShowProgress { out_of, .. }, Pending::Progress)) => assert!(out_of.is_none()),
        other => panic!("{:?}", other),
    }
}

#[test]
fn reload_asks_for_files() {
    let mut ctx = ctx_with(&[]);
    match match_input("dr", &mut ctx) {
        Ok(Outcome::Request(Effect::ReloadFiles { root }, Pending::Reload)) => assert_eq!(root, "/music"),
        other => panic!("{:?}", other),
    }
}

#[test]
fn list_names_request() {
    let mut ctx = ctx_with(&[]);
    assert!(matches!(match_input("lg", &mut ctx), Ok(Outcome::Request(Effect::ListNames, Pending::Names))));
    assert_eq!(ctx.cmd_out, "All Playlist Names:\n");
}

#[test]
fn first_song_compared_as_path() {
    let mut ctx = ctx_with(&["d/x.mp3", "d//x.mp3"]);
    ctx.playlist.progress = ttmp::span::Span { secs: 3, nanos: 0 };
    assert_eq!(ret(match_input("fsf //", &mut ctx)), CommandReturn::Nothing);
    assert_eq!(remaining(&ctx), vec!["d//x.mp3"]);
    assert_eq!(ctx.playlist.progress, ttmp::span::Span { secs: 3, nanos: 0 });
}

#[test]
fn file_list_knows_a_path_by_its_components() {
    let mut files = Files::empty_with_root("/music".to_string());
    files.insert("a//x.mp3".to_string(), FileData::new());
    assert!(files.contains("a/x.mp3"));
    assert!(files.contains("a/./x.mp3/"));
    assert!(!files.contains("./a/x.mp3"));
    let mut d = FileData::new();
    d.add_tag("t");
    files.insert("a/x.mp3".to_string(), d);
    assert_eq!(files.mappings.len(), 1);
    assert_eq!(files.keys(), vec!["a//x.mp3".to_string()]);
    assert!(files.data_at(files.index_of("a/x.mp3").unwrap()).has_tag("t"));
    assert!(files.remove("a/x.mp3/").is_some());
    assert!(!files.contains("a//x.mp3"));
}

#[test]
fn tags_reach_a_song_spelled_otherwise() {
    let mut files = Files::empty_with_root("/music".to_string());
    files.insert("rock//a.mp3".to_string(), FileData::new());
    let mut playlist = Playlist::new();
    playlist.remaining = vec!["rock/a.mp3".to_string()];
    let mut ctx = Context::new_main(Config::default(), State::default(), files, playlist);
    assert_eq!(ret(match_input("tac loud", &mut ctx)), CommandReturn::Nothing);
    assert_eq!(ret(match_input("tlc", &mut ctx)), CommandReturn::Nothing);
    assert_eq!(ctx.cmd_out, "current tags: loud\n");
    assert_eq!(ctx.files.mappings.len(), 1);
}

#[test]
fn sorted_songs_come_in_path_order() {
    let mut ctx = ctx_with(&["b/c.mp3", "a/z.mp3", "a.mp3", "a/b.mp3"]);
    assert_eq!(ret(match_input("po", &mut ctx)), CommandReturn::ReloadFirstSong);
    let r = remaining(&ctx);
    for w in r.windows(2) {
        assert!(std::path::Path::new(w[0]) <= std::path::Path::new(w[1]));
    }
    assert_eq!(r, vec!["a/b.mp3", "a/z.mp3", "a.mp3", "b/c.mp3"]);
}

#[test]
fn every_listed_help_category_has_a_page() {
    for c in [
        "first", "n", "normal", "p", "play", "l", "list", "f", "filter", "t", "tag", "g", "goto", "m",
        "macro", "e", "event", "d", "dir",
    ] {
        let mut ctx = ctx_with(&[]);
        assert!(ttmp::command::help::GENERAL_HELP.contains(c));
        assert_eq!(ret(match_input(&format!("h {c}"), &mut ctx)), CommandReturn::Nothing);
        assert!(!ctx.cmd_out.is_empty());
    }
}

#[test]
fn paths_compare_by_components() {
    assert!(ttmp::path::paths_equal("a//b", "a/b/"));
    assert!(ttmp::path::paths_equal("a/./b", "a/b"));
    assert!(!ttmp::path::paths_equal("./a", "a"));
    assert!(!ttmp::path::paths_equal("a/b", "a/c"));
}

fn folder(path: &str) -> Folder {
    let name = path.rsplit('/').next().map(|n| n.to_string());
    Folder { path: path.to_string(), name }
}

/// Draws a tree whose folders are given by `children`, answering each request.
fn draw(children: &dyn Fn(&str) -> Vec<&'static str>) -> (String, Vec<String>) {
    let (mut walk, mut action) = TreeWalk::start("/m");
    let mut asked = Vec::new();
    loop {
        match action {
            WalkAction::List(p) => {
                asked.push(p.clone());
                action = walk.listed(children(&p).into_iter().map(folder).collect());
            },
            WalkAction::Done => return (walk.out, asked),
        }
    }
}

#[test]
fn folder_tree_is_drawn_depth_first() {
    let (out, asked) = draw(&|p: &str| match p {
        "/m" => vec!["/m/a", "/m/b"],
        "/m/a" => vec!["/m/a/x", "/m/a/y"],
        "/m/a/x" => vec!["/m/a/x/deep"],
        _ => vec![],
    });
    assert_eq!(out, "├── a\n│   ├── x\n│   │   └── deep\n│   └── y\n└── b\n");
    assert_eq!(asked, vec!["/m", "/m/a", "/m/a/x", "/m/a/x/deep", "/m/a/y", "/m/b"]);
}

#[test]
fn folder_tree_marks_below_a_last_folder_are_blank() {
    let (out, _) = draw(&|p: &str| match p {
        "/m" => vec!["/m/only"],
        "/m/only" => vec!["/m/only/one", "/m/only/two"],
        _ => vec![],
    });
    assert_eq!(out, "└── only\n    ├── one\n    └── two\n");
}

#[test]
fn folder_tree_stops_after_the_limit() {
    let names: Vec<&'static str> = (0..30).map(|i| &*Box::leak(format!("/m/f{i:02}").into_boxed_str())).collect();
    let (out, asked) = draw(&|p: &str| if p == "/m" { names.clone() } else { vec![] });
    assert_eq!(out.lines().count(), 21);
    assert!(out.ends_with("├── f20\n"));
    assert_eq!(asked.len(), 22);
}

#[test]
fn reset_gives_each_file_by_the_text_it_is_known_by() {
    let mut files = Files::empty_with_root("/music".to_string());
    files.insert("a//x.mp3".to_string(), FileData::new());
    files.insert("a/x.mp3".to_string(), FileData::new());
    files.insert("b.mp3".to_string(), FileData::new());
    let mut ctx = Context::new_main(Config::default(), State::default(), files, Playlist::new());
    assert_eq!(ret(match_input("r", &mut ctx)), CommandReturn::ReloadFirstSong);
    let mut r = remaining(&ctx);
    r.sort();
    assert_eq!(r, vec!["a//x.mp3", "b.mp3"]);
}

#[test]
fn delete_forgets_a_file_spelled_otherwise() {
    let mut files = Files::empty_with_root("/music".to_string());
    files.insert("a//x.mp3".to_string(), FileData::new());
    let mut playlist = Playlist::new();
    playlist.remaining = vec!["a/x.mp3".to_string()];
    let mut ctx = Context::new_main(Config::default(), State::default(), files, playlist);
    assert!(match_input("del", &mut ctx).is_ok());
    assert!(!ctx.files.contains("a//x.mp3"));
    assert_eq!(ctx.files.mappings.len(), 0);
}
