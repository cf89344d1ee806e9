//! Running one command line against the context.
use crate::command::error::{CommandError, CommandErrorView};
use crate::command::files::{
    delete_current, delete_spec, directories_spec, full_path_spec, move_file, move_spec,
    reload_files, reload_files_spec, show_directories, show_full_path,
};
use crate::command::filter::{
    filepath_starts_with, filepath_starts_with_spec, no_tags, no_tags_spec, search_file_name,
    search_file_name_spec, search_full, search_full_spec, tag_all, tag_all_spec, tag_exists,
    tag_exists_spec,
};
use crate::command::goto::{display_progress, jump_backward, jump_forward, jump_spec, jump_to, progress_spec};
use crate::command::help::{GENERAL_HELP, general, help_topic, specific};
use crate::command::list::{
    append_from, append_from_spec, copy_from, copy_from_spec, duplicate_to, get_list_names,
    get_list_names_spec, new_empty, remove, remove_spec, save_list_spec, switch_to, switch_to_spec,
};
use crate::command::macros::{
    add_macro, add_macro_spec, change_macro, change_macro_spec, expand_spec, macro_or,
    remove_macro, remove_macro_spec, run_macro, run_macro_or, show_macros, show_macros_post,
};
use crate::command::misc::{echo, is_reset_order, repeat_song, repeat_song_spec, reset_remaining, reset_spec, save, save_spec};
use crate::command::parse::{Command, CommandView, Named, Plain, Rest, Single, parse_command, parse_spec};
use crate::command::play::{
    enforce_max, enforce_max_spec, next_song, next_song_spec, path_sorted, paths_in_order, pause_playing, randomize,
    rewound, set_speed, set_volume, skip_songs, skip_songs_spec, sort, sort_spec, start_playing,
    toggle_playing, with_songs,
};
use crate::command::reply::{ret_done, unit_done};
use crate::command::tag::{
    add_tag_current, add_tag_current_spec, add_tag_remaining, remove_tag_current,
    remove_tag_current_spec, remove_tag_remaining, show_all_tags, show_all_tags_post,
    show_current_tags, show_current_tags_post, tag_remaining_spec, with_output,
};
use crate::command::{
    CommandReturn, Effect, EffectView, JumpKind, Outcome, OutcomeView, Pending, PendingView,
    PlayerAction, done, player_effect, request, res_view,
};
use crate::data::config::ConfigView;
use crate::data::context::{Context, ContextView};
use crate::data::playlist::PlaylistView;
use crate::data::state::StateView;
use crate::text::{join_text, split_str, split_text, views};
use vstd::prelude::*;

verus! {

/// The context with the state remembering whether the player plays.
pub open spec fn with_playing(c: ContextView, playing: bool) -> ContextView {
    ContextView { state: StateView { is_playing: playing, ..c.state }, ..c }
}

/// The context with another playlist.
pub open spec fn with_playlist(c: ContextView, p: PlaylistView) -> ContextView {
    ContextView { playlist: p, ..c }
}

/// The context with another configuration.
pub open spec fn with_config(c: ContextView, k: ConfigView) -> ContextView {
    ContextView { config: k, ..c }
}

/// What a command of one word does to the context `c`, giving `c2` and `r`.
pub open spec fn plain_post(c: ContextView, k: Plain, c2: ContextView, r: Result<OutcomeView, CommandErrorView>) -> bool {
    match k {
        Plain::Help => c2 == with_output(c, GENERAL_HELP@) && r == done(CommandReturn::Nothing),
        Plain::Quit => c2 == c && r == done(CommandReturn::Quit),
        Plain::QuitNoSave => c2 == c && r == done(CommandReturn::QuitNoSave),
        Plain::Save => c2 == c && r == save_spec(c),
        Plain::Reset => is_reset_order(c, c2.playlist.remaining) && (c2, r) == reset_spec(
            c,
            c2.playlist.remaining,
        ),
        Plain::Toggle => c2 == with_playing(c, !c.state.is_playing) && r == request(
            player_effect(PlayerAction::Toggle, c),
            PendingView::Finish,
        ),
        Plain::Play => c2 == with_playing(c, true) && r == request(
            player_effect(PlayerAction::Play, c),
            PendingView::Finish,
        ),
        Plain::Pause => c2 == with_playing(c, false) && r == request(
            player_effect(PlayerAction::Pause, c),
            PendingView::Finish,
        ),
        Plain::Randomize => c2.playlist.remaining.to_multiset() == c.playlist.remaining.to_multiset()
            && c2 == rewound(with_songs(c, c2.playlist.remaining, c.playlist.previous)) && r == done(
            CommandReturn::ReloadFirstSong,
        ),
        Plain::Next => c2 == next_song_spec(c).0 && r == done(next_song_spec(c).1),
        Plain::Sort => c2 == sort_spec(c, path_sorted(c.playlist.remaining)).0 && r == done(
            sort_spec(c, path_sorted(c.playlist.remaining)).1,
        ) && c2.playlist.remaining.to_multiset() == c.playlist.remaining.to_multiset()
            && paths_in_order(c2.playlist.remaining),
        Plain::ListNames => (c2, r) == get_list_names_spec(c),
        Plain::NoTags => c2 == no_tags_spec(c).0 && r == done(no_tags_spec(c).1),
        Plain::TagsCurrent => exists|u: Result<(), CommandErrorView>|
            show_current_tags_post(c, c2, u) && r == unit_done(u),
        Plain::TagsAll => show_all_tags_post(c, c2) && r == done(CommandReturn::Nothing),
        Plain::Progress => c2 == c && r == Ok::<OutcomeView, CommandErrorView>(progress_spec(c)),
        Plain::MacroList => c2 == c && exists|text: Seq<char>|
            show_macros_post(c.config, text) && r == request(EffectView::Print(text), PendingView::Finish),
        Plain::Reload => c2 == c && r == Ok::<OutcomeView, CommandErrorView>(reload_files_spec(c)),
        Plain::Delete => (c2, r) == delete_spec(c),
        Plain::FullPath => c2 == full_path_spec(c).0 && r == unit_done(full_path_spec(c).1),
        Plain::Directories => c2 == directories_spec(c).0 && r == Ok::<OutcomeView, CommandErrorView>(
            directories_spec(c).1,
        ),
    }
}

/// What a command of two words does.
pub open spec fn single_post(
    c: ContextView,
    k: Single,
    a: Seq<char>,
    c2: ContextView,
    r: Result<OutcomeView, CommandErrorView>,
) -> bool {
    match k {
        Single::HelpOn => match help_topic(a) {
            Some(t) => c2 == with_output(c, t) && r == done(CommandReturn::Nothing),
            None => c2 == c && r == Err::<OutcomeView, CommandErrorView>(CommandErrorView::NoHelpAvailable(a)),
        },
        Single::Skip => c2 == skip_songs_spec(c, a).0 && r == ret_done(skip_songs_spec(c, a).1),
        Single::Max => c2 == with_playlist(c, enforce_max_spec(c.playlist, a).0) && r == unit_done(
            enforce_max_spec(c.playlist, a).1,
        ),
        Single::Speed => c2 == c && r == request(EffectView::SetSpeed(a), PendingView::Finish),
        Single::Volume => c2 == c && r == request(EffectView::SetVolume(a), PendingView::Finish),
        Single::Repeat => c2 == with_playlist(c, repeat_song_spec(c.playlist, a).0) && r == unit_done(
            repeat_song_spec(c.playlist, a).1,
        ),
        Single::ListNew => c2 == c && r == save_list_spec(c, a, true).1,
        Single::ListDuplicate => c2 == c && r == save_list_spec(c, a, false).1,
        Single::ListCopy => (c2, r) == copy_from_spec(c, a),
        Single::ListAppend => (c2, r) == append_from_spec(c, a),
        Single::ListRemove => c2 == c && r == remove_spec(c, a),
        Single::ListSwitch => c2 == c && r == switch_to_spec(c, a),
        Single::TagAddCurrent => c2 == add_tag_current_spec(c, a).0 && r == unit_done(
            add_tag_current_spec(c, a).1,
        ),
        Single::TagRemoveCurrent => c2 == remove_tag_current_spec(c, a).0 && r == unit_done(
            remove_tag_current_spec(c, a).1,
        ),
        Single::TagAddRemaining => c2 == tag_remaining_spec(c, a, true).0 && r == unit_done(
            tag_remaining_spec(c, a, true).1,
        ),
        Single::TagRemoveRemaining => c2 == tag_remaining_spec(c, a, false).0 && r == unit_done(
            tag_remaining_spec(c, a, false).1,
        ),
        Single::MacroRemove => c2 == with_config(c, remove_macro_spec(c.config, a).0) && r == unit_done(
            remove_macro_spec(c.config, a).1,
        ),
    }
}

/// What a command that takes all the words after its name does.
pub open spec fn rest_post(
    c: ContextView,
    k: Rest,
    a: Seq<Seq<char>>,
    c2: ContextView,
    r: Result<OutcomeView, CommandErrorView>,
) -> bool {
    match k {
        Rest::Echo => c2 == with_output(c, join_text(a, " "@) + "\n"@) && r == done(CommandReturn::Nothing),
        Rest::TagExists => c2 == tag_exists_spec(c, a).0 && r == done(tag_exists_spec(c, a).1),
        Rest::TagAll => c2 == tag_all_spec(c, a).0 && r == done(tag_all_spec(c, a).1),
        Rest::SearchFull => c2 == search_full_spec(c, a).0 && r == done(search_full_spec(c, a).1),
        Rest::SearchName => c2 == search_file_name_spec(c, a).0 && r == ret_done(
            search_file_name_spec(c, a).1,
        ),
        Rest::SearchStart => c2 == filepath_starts_with_spec(c, a).0 && r == done(
            filepath_starts_with_spec(c, a).1,
        ),
        Rest::JumpTo => c2 == c && r == Ok::<OutcomeView, CommandErrorView>(jump_spec(a, JumpKind::To)),
        Rest::JumpForward => c2 == c && r == Ok::<OutcomeView, CommandErrorView>(
            jump_spec(a, JumpKind::Forward),
        ),
        Rest::JumpBackward => c2 == c && r == Ok::<OutcomeView, CommandErrorView>(
            jump_spec(a, JumpKind::Backward),
        ),
        Rest::Move => c2 == c && r == move_spec(c, a),
    }
}

/// What a command that takes a name and words does.
pub open spec fn named_post(
    c: ContextView,
    k: Named,
    name: Seq<char>,
    a: Seq<Seq<char>>,
    c2: ContextView,
    r: Result<OutcomeView, CommandErrorView>,
) -> bool {
    match k {
        Named::RunMacro => c2 == c && r == if c.config.macros.contains_key(name) {
            Ok(OutcomeView::Expand(expand_spec(c.config.macros[name], a)))
        } else {
            Err(CommandErrorView::MacroDoesNotExist(name))
        },
        Named::MacroAdd => c2 == with_config(c, add_macro_spec(c.config, name, a).0) && r == unit_done(
            add_macro_spec(c.config, name, a).1,
        ),
        Named::MacroChange => c2 == with_config(c, change_macro_spec(c.config, name, a).0) && r
            == unit_done(change_macro_spec(c.config, name, a).1),
    }
}

/// What the command `cmd` does to the context `c`, giving the context `c2`
/// and the result `r`. The empty line runs the macro `@cmd_empty`, where there
/// is one.
pub open spec fn command_post(
    c: ContextView,
    cmd: CommandView,
    c2: ContextView,
    r: Result<OutcomeView, CommandErrorView>,
) -> bool {
    match cmd {
        CommandView::Plain(k) => plain_post(c, k, c2, r),
        CommandView::Single(k, a) => single_post(c, k, a, c2, r),
        CommandView::Rest(k, a) => rest_post(c, k, a, c2, r),
        CommandView::Named(k, n, a) => named_post(c, k, n, a, c2, r),
        CommandView::Empty => c2 == c && r == Ok::<OutcomeView, CommandErrorView>(
            OutcomeView::Expand(expand_spec(macro_or(c.config.macros, "@cmd_empty"@, ""@), Seq::empty())),
        ),
        CommandView::Unknown(t) => c2 == c && r == Err::<OutcomeView, CommandErrorView>(
            CommandErrorView::UknownOrInvalidCommand(t),
        ),
    }
}

/// What the command line `input` does: its words, split at each space, are
/// read as a command.
pub open spec fn input_post(
    c: ContextView,
    input: Seq<char>,
    c2: ContextView,
    r: Result<OutcomeView, CommandErrorView>,
) -> bool {
    command_post(c, parse_spec(split_text(input, " "@), c.config.macros), c2, r)
}

fn done_unit(r: Result<(), CommandError>) -> (o: Result<Outcome, CommandError>)
    ensures
        res_view(o) == unit_done(
            match r {
                Ok(_) => Ok(()),
                Err(e) => Err(e@),
            },
        ),
{
    match r {
        Ok(_) => Ok(Outcome::Return(CommandReturn::Nothing)),
        Err(e) => Err(e),
    }
}

fn done_ret(r: Result<CommandReturn, CommandError>) -> (o: Result<Outcome, CommandError>)
    ensures
        res_view(o) == ret_done(
            match r {
                Ok(x) => Ok(x),
                Err(e) => Err(e@),
            },
        ),
{
    match r {
        Ok(x) => Ok(Outcome::Return(x)),
        Err(e) => Err(e),
    }
}

fn run_plain(ctx: &mut Context, k: Plain) -> (r: Result<Outcome, CommandError>)
    requires
        old(ctx).wf(),
    ensures
        final(ctx).wf(),
        plain_post(old(ctx)@, k, final(ctx)@, res_view(r)),
{
    match k {
        Plain::Help => {
            general(&mut ctx.cmd_out);
            Ok(Outcome::Return(CommandReturn::Nothing))
        },
        Plain::Quit => Ok(Outcome::Return(CommandReturn::Quit)),
        Plain::QuitNoSave => Ok(Outcome::Return(CommandReturn::QuitNoSave)),
        Plain::Save => save(ctx),
        Plain::Reset => Ok(reset_remaining(ctx)),
        Plain::Toggle => Ok(Outcome::Request(toggle_playing(ctx), Pending::Finish)),
        Plain::Play => Ok(Outcome::Request(start_playing(ctx), Pending::Finish)),
        Plain::Pause => Ok(Outcome::Request(pause_playing(ctx), Pending::Finish)),
        Plain::Randomize => Ok(Outcome::Return(randomize(ctx))),
        Plain::Next => Ok(Outcome::Return(next_song(ctx))),
        Plain::Sort => Ok(Outcome::Return(sort(ctx))),
        Plain::ListNames => Ok(get_list_names(ctx)),
        Plain::NoTags => Ok(Outcome::Return(no_tags(ctx))),
        Plain::TagsCurrent => {
            let r = show_current_tags(ctx);
            let ghost u = match &r {
                Ok(_) => Ok::<(), CommandErrorView>(()),
                Err(e) => Err(e@),
            };
            assert(show_current_tags_post(old(ctx)@, ctx@, u));
            done_unit(r)
        },
        Plain::TagsAll => {
            show_all_tags(ctx);
            Ok(Outcome::Return(CommandReturn::Nothing))
        },
        Plain::Progress => Ok(display_progress(ctx)),
        Plain::MacroList => {
            let text = show_macros(&ctx.config);
            Ok(Outcome::Request(Effect::Print(text), Pending::Finish))
        },
        Plain::Reload => Ok(reload_files(ctx)),
        Plain::Delete => delete_current(ctx),
        Plain::FullPath => done_unit(show_full_path(ctx)),
        Plain::Directories => Ok(show_directories(ctx)),
    }
}

fn run_single(ctx: &mut Context, k: Single, a: &str) -> (r: Result<Outcome, CommandError>)
    requires
        old(ctx).wf(),
    ensures
        final(ctx).wf(),
        single_post(old(ctx)@, k, a@, final(ctx)@, res_view(r)),
{
    match k {
        Single::HelpOn => done_unit(specific(a, &mut ctx.cmd_out)),
        Single::Skip => done_ret(skip_songs(ctx, a)),
        Single::Max => done_unit(enforce_max(&mut ctx.playlist, a)),
        Single::Speed => Ok(Outcome::Request(set_speed(a), Pending::Finish)),
        Single::Volume => Ok(Outcome::Request(set_volume(a), Pending::Finish)),
        Single::Repeat => done_unit(repeat_song(&mut ctx.playlist, a)),
        Single::ListNew => new_empty(ctx, a),
        Single::ListDuplicate => duplicate_to(ctx, a),
        Single::ListCopy => copy_from(ctx, a),
        Single::ListAppend => append_from(ctx, a),
        Single::ListRemove => remove(ctx, a),
        Single::ListSwitch => switch_to(ctx, a),
        Single::TagAddCurrent => done_unit(add_tag_current(ctx, a)),
        Single::TagRemoveCurrent => done_unit(remove_tag_current(ctx, a)),
        Single::TagAddRemaining => done_unit(add_tag_remaining(ctx, a)),
        Single::TagRemoveRemaining => done_unit(remove_tag_remaining(ctx, a)),
        Single::MacroRemove => done_unit(remove_macro(&mut ctx.config, a)),
    }
}

fn run_rest(ctx: &mut Context, k: Rest, a: &Vec<String>) -> (r: Result<Outcome, CommandError>)
    requires
        old(ctx).wf(),
    ensures
        final(ctx).wf(),
        rest_post(old(ctx)@, k, views(a@), final(ctx)@, res_view(r)),
{
    match k {
        Rest::Echo => {
            echo(a, &mut ctx.cmd_out);
            assert(ctx.cmd_out@ =~= old(ctx).cmd_out@ + (join_text(views(a@), " "@) + "\n"@));
            Ok(Outcome::Return(CommandReturn::Nothing))
        },
        Rest::TagExists => Ok(Outcome::Return(tag_exists(ctx, a))),
        Rest::TagAll => Ok(Outcome::Return(tag_all(ctx, a))),
        Rest::SearchFull => Ok(Outcome::Return(search_full(ctx, a))),
        Rest::SearchName => done_ret(search_file_name(ctx, a)),
        Rest::SearchStart => Ok(Outcome::Return(filepath_starts_with(ctx, a))),
        Rest::JumpTo => Ok(jump_to(a)),
        Rest::JumpForward => Ok(jump_forward(a)),
        Rest::JumpBackward => Ok(jump_backward(a)),
        Rest::Move => move_file(ctx, a),
    }
}

fn run_named(ctx: &mut Context, k: Named, name: &str, a: &Vec<String>) -> (r: Result<Outcome, CommandError>)
    requires
        old(ctx).wf(),
    ensures
        final(ctx).wf(),
        named_post(old(ctx)@, k, name@, views(a@), final(ctx)@, res_view(r)),
{
    match k {
        Named::RunMacro => match run_macro(ctx, name, a) {
            Ok(cmds) => Ok(Outcome::Expand(cmds)),
            Err(e) => Err(e),
        },
        Named::MacroAdd => done_unit(add_macro(&mut ctx.config, name, a)),
        Named::MacroChange => done_unit(change_macro(&mut ctx.config, name, a)),
    }
}

/// Runs a command that has been read.
pub fn execute(ctx: &mut Context, cmd: Command) -> (r: Result<Outcome, CommandError>)
    requires
        old(ctx).wf(),
    ensures
        final(ctx).wf(),
        command_post(old(ctx)@, cmd@, final(ctx)@, res_view(r)),
{
    match cmd {
        Command::Plain(k) => run_plain(ctx, k),
        Command::Single(k, a) => run_single(ctx, k, a.as_str()),
        Command::Rest(k, a) => run_rest(ctx, k, &a),
        Command::Named(k, n, a) => run_named(ctx, k, n.as_str(), &a),
        Command::Empty => {
            let none: Vec<String> = Vec::new();
            assert(views(none@) =~= Seq::<Seq<char>>::empty());
            Ok(Outcome::Expand(run_macro_or(ctx, "@cmd_empty", &none, "")))
        },
        Command::Unknown(t) => Err(CommandError::UknownOrInvalidCommand(t)),
    }
}

/// Runs the command line `input`: its words, split at each space, name the
/// command and its arguments. A macro's commands come back to be run in turn;
/// work outside the library comes back as an effect to perform.
pub fn match_input(input: &str, ctx: &mut Context) -> (r: Result<Outcome, CommandError>)
    requires
        old(ctx).wf(),
    ensures
        final(ctx).wf(),
        input_post(old(ctx)@, input@, final(ctx)@, res_view(r)),
{
    let words = split_str(input, " ");
    assert(views(words@) == split_text(input@, " "@));
    proof {
        crate::text::lemma_split_nonempty(input@, " "@, 0, 0);
    }
    let is_macro = ctx.config.has_macro(words[0].as_str());
    let cmd = parse_command(&words, is_macro);
    execute(ctx, cmd)
}

} // verus!
