use ttmp::command::dispatch::match_input;
use ttmp::command::play::{go_back_songs, next_song, previous_song, skip_songs};
use ttmp::command::{CommandReturn, Outcome};
use ttmp::data::config::Config;
use ttmp::data::context::Context;
use ttmp::data::files::{FileData, Files};
use ttmp::data::playlist::Playlist;
use ttmp::data::state::State;
use ttmp::span::Span;

fn ctx_with(songs: &[&str]) -> Context {
    let mut files = Files::empty_with_root("/music".to_string());
    for s in songs {
        files.insert(s.to_string(), FileData::new());
    }
    let mut playlist = Playlist::new();
    playlist.remaining = songs.iter().map(|s| s.to_string()).collect();
    Context::new_main(Config::default(), State::default(), files, playlist)
}

#[test]
fn next_then_previous_restores() {
    let mut ctx = ctx_with(&["a.mp3", "b.mp3"]);
    ctx.playlist.previous = vec!["z.mp3".to_string()];
    ctx.playlist.progress = Span { secs: 7, nanos: 0 };
    assert_eq!(next_song(&mut ctx), CommandReturn::ReloadFirstSong);
    assert_eq!(previous_song(&mut ctx), CommandReturn::ReloadFirstSong);
    assert_eq!(ctx.playlist.remaining, vec!["a.mp3".to_string(), "b.mp3".to_string()]);
    assert_eq!(ctx.playlist.previous, vec!["z.mp3".to_string()]);
    assert_eq!(ctx.playlist.progress, Span { secs: 0, nanos: 0 });
}

#[test]
fn skip_then_go_back_restores() {
    let mut ctx = ctx_with(&["a.mp3", "b.mp3", "c.mp3"]);
    assert_eq!(skip_songs(&mut ctx, "2").unwrap(), CommandReturn::ReloadFirstSong);
    assert_eq!(go_back_songs(&mut ctx, "2").unwrap(), CommandReturn::ReloadFirstSong);
    assert_eq!(ctx.playlist.remaining, vec!["a.mp3".to_string(), "b.mp3".to_string(), "c.mp3".to_string()]);
    assert!(ctx.playlist.previous.is_empty());
}

#[test]
fn repeat_then_skip_restores_remaining() {
    let mut ctx = ctx_with(&["a.mp3", "b.mp3"]);
    assert!(match_input("pd 3", &mut ctx).is_ok());
    assert!(match_input("pn 3", &mut ctx).is_ok());
    assert_eq!(ctx.playlist.remaining, vec!["a.mp3".to_string(), "b.mp3".to_string()]);
}

#[test]
fn tag_then_untag_restores() {
    let mut ctx = ctx_with(&["a.mp3"]);
    assert!(match_input("tac new", &mut ctx).is_ok());
    assert!(match_input("trc new", &mut ctx).is_ok());
    assert!(ctx.cmd_out.is_empty());
    assert!(!ctx.files.data_at(0).has_tag("new"));
}

#[test]
fn macro_add_then_remove_restores() {
    let mut ctx = ctx_with(&[]);
    let before = ctx.config.macros.len();
    assert!(match_input("ma tmp pn", &mut ctx).is_ok());
    assert!(match_input("mr tmp", &mut ctx).is_ok());
    assert_eq!(ctx.config.macros.len(), before);
    assert!(!ctx.config.has_macro("tmp"));
}

#[test]
fn search_twice_changes_nothing_more() {
    let mut ctx = ctx_with(&["x/a.mp3", "y/b.mp3", "x/c.mp3"]);
    assert!(match_input("fsf x/", &mut ctx).is_ok());
    let once = ctx.playlist.remaining.clone();
    match match_input("fsf x/", &mut ctx) {
        Ok(Outcome::Return(r)) => assert_eq!(r, CommandReturn::Nothing),
        other => panic!("{:?}", other),
    }
    assert_eq!(ctx.playlist.remaining, once);
}

#[test]
fn temp_mode_switch_does_not_save() {
    let files = Files::empty_with_root("/music".to_string());
    let mut ctx = Context::new_temp(Config::default(), State::default(), files, &vec!["x.mp3".to_string()]);
    match match_input("ls other", &mut ctx) {
        Ok(Outcome::Request(ttmp::command::Effect::SwitchPlaylist { save, .. }, _)) => assert!(save.is_none()),
        other => panic!("{:?}", other),
    }
}
