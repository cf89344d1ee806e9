//! What holds of the player across commands: what one command undoes of
//! another, what a command never does, and what the arguments mean.
use crate::cli::{CliActionView, CliState, ParsedView, args_spec, cli_spec};
use crate::command::error::CommandErrorView;
use crate::command::filter::{
    all_tags_pred, any_tag_pred, path_contains_pred, search_full_spec, search_text, tag_all_spec,
    tag_exists_spec, tags_or_empty, with_defaults,
};
use crate::command::dispatch::command_post;
use crate::command::filter::{filepath_starts_with_spec, search_file_name_spec};
use crate::command::goto::{jumped, jumped_spec};
use crate::command::list::{list_name_spec, save_list_spec};
use crate::command::parse::{CommandView, Single, parse_spec, rest_kind, single_kind};
use crate::command::tag::{first_unknown, retag_all, song_keys, tag_remaining_spec};
use crate::command::PendingView;
use crate::data::playlist::PlaylistView;
use crate::path::file_name_of;
use crate::text::{contains_text, join_text, lowercase};
use crate::command::help::help_topic;
use crate::command::tree::{FolderView, LevelView, TreeWalkView, advance_spec, listed_spec};
use crate::command::list::switch_to_spec;
use crate::command::macros::{add_macro_spec, remove_macro_spec};
use crate::command::misc::{repeat_song_spec, save_spec};
use crate::command::play::{
    go_back_songs_spec, next_song_spec, previous_song_spec, rewound, skip_songs_spec,
};
use crate::command::runner::{RunnerView, StepView, advance};
use crate::command::tag::{add_tag_current_spec, current_known, remove_tag_current_spec};
use crate::command::{CommandReturn, EffectView, OutcomeView};
use crate::data::config::ConfigView;
use crate::data::context::{ContextView, ProgramMode};
use crate::data::files::{
    FileDataView, FilesView, lemma_made_known_has, lemma_made_known_keeps, made_known, on_disk,
    relative_paths, reloaded,
};

use crate::message::MessageView;
use crate::path::{path_components, stripped_path};
use crate::span::max_total;
use crate::text::{parse_usize_spec, starts_with};
use crate::update::{
    FollowUpView, SongActionView, SongStage, UpdateFlags, event_runner, follow_up_spec, message_spec,
    returned_spec, saves_on_quit_spec, song_step,
};
use crate::command::JumpKind;
use vstd::prelude::*;

verus! {

/// Filtering twice with one predicate keeps what filtering once keeps.
pub proof fn lemma_filter_twice(s: Seq<Seq<char>>, p: spec_fn(Seq<char>) -> bool)
    ensures
        s.filter(p).filter(p) == s.filter(p),
    decreases s.len(),
{
    reveal(Seq::filter);
    if s.len() > 0 {
        lemma_filter_twice(s.drop_last(), p);
        let t = s.drop_last().filter(p);
        if p(s.last()) {
            assert(t.push(s.last()).drop_last() =~= t);
        }
    }
}

/// Filtering by one predicate and then by another keeps what filtering by
/// both at once keeps.
pub proof fn lemma_filter_then(s: Seq<Seq<char>>, p: spec_fn(Seq<char>) -> bool, q: spec_fn(Seq<char>) -> bool)
    ensures
        s.filter(p).filter(q) == s.filter(|f: Seq<char>| p(f) && q(f)),
    decreases s.len(),
{
    reveal(Seq::filter);
    let both = |f: Seq<char>| p(f) && q(f);
    if s.len() > 0 {
        lemma_filter_then(s.drop_last(), p, q);
        let t = s.drop_last().filter(p);
        if p(s.last()) {
            assert(t.push(s.last()).drop_last() =~= t);
        }
    }
}

/// A song is kept by a filter exactly where it was there and meets the predicate.
pub proof fn lemma_filter_member(s: Seq<Seq<char>>, p: spec_fn(Seq<char>) -> bool, x: Seq<char>)
    ensures
        s.filter(p).contains(x) <==> s.contains(x) && p(x),
    decreases s.len(),
{
    reveal(Seq::filter);
    if s.len() > 0 {
        lemma_filter_member(s.drop_last(), p, x);
        let t = s.drop_last().filter(p);
        assert(s =~= s.drop_last().push(s.last()));
        if s.contains(x) && x != s.last() {
            let i = choose|i: int| 0 <= i < s.len() && s[i] == x;
            assert(s.drop_last()[i] == x);
        }
        if s.drop_last().contains(x) {
            let i = choose|i: int| 0 <= i < s.drop_last().len() && s.drop_last()[i] == x;
            assert(s[i] == x);
        }
        if p(s.last()) {
            assert(t.push(s.last())[t.len() as int] == s.last());
            if t.contains(x) {
                let i = choose|i: int| 0 <= i < t.len() && t[i] == x;
                assert(t.push(s.last())[i] == x);
            }
            if t.push(s.last()).contains(x) && x != s.last() {
                let i = choose|i: int| 0 <= i < t.len() + 1 && t.push(s.last())[i] == x;
                assert(t[i] == x);
            }
        }
    }
}

/// `fte TAGS` keeps exactly the remaining songs that match one of the tags.
pub proof fn law_tag_filter_keeps_matching(c: ContextView, tags: Seq<Seq<char>>, f: Seq<char>)
    requires
        c.playlist.remaining.len() > 0,
    ensures
        tag_exists_spec(c, tags).0.playlist.remaining.contains(f) <==> c.playlist.remaining.contains(f)
            && any_tag_pred(c.files.map, tags)(f),
{
    lemma_filter_member(c.playlist.remaining, any_tag_pred(c.files.map, tags), f);
}

/// After the known files are brought up to date, a file found under the music
/// folder is known where the text its path is known by, joined back onto the
/// folder, is a path found on disk. That premise rests on `Path::strip_prefix`
/// and `Path::join`, which only the calls give: `Files::reload_files` states in
/// its own contract that every file it finds that was not known is known.
pub proof fn law_reload_adds_found(v: FilesView, found: Seq<Seq<char>>, i: int, k: Seq<char>)
    requires
        0 <= i < found.len(),
        stripped_path(found[i], v.root) == Some(k),
        on_disk(found, v.root, made_known(v.map, v.names, relative_paths(found, v.root)).1[path_components(k)]),
    ensures
        reloaded(v, found).map.contains_key(path_components(k)),
{
    let rels = relative_paths(found, v.root);
    assert(rels[i] == k);
    lemma_made_known_has(v.map, v.names, rels, i);
}

/// Making the remaining songs known changes the tags of no song.
proof fn lemma_defaults_keep_tags(m: Map<Seq<Seq<char>>, FileDataView>, songs: Seq<Seq<char>>, f: Seq<char>)
    ensures
        tags_or_empty(with_defaults(m, songs), f) == tags_or_empty(m, f),
{
}

/// Keeping the songs with any of the tags `any` and then those with all of
/// the tags `all` keeps the songs that meet both conditions, in order: so
/// `fte a b` then `fta !c` keeps the songs tagged `a` or `b`, but not `c`.
pub proof fn law_filters_combine(c: ContextView, any: Seq<Seq<char>>, all: Seq<Seq<char>>)
    requires
        c.playlist.remaining.len() > 0,
    ensures
        tag_all_spec(tag_exists_spec(c, any).0, all).0.playlist.remaining == c.playlist.remaining.filter(
            |f: Seq<char>| any_tag_pred(c.files.map, any)(f) && all_tags_pred(c.files.map, all)(f),
        ),
{
    let m0 = c.files.map;
    let p = any_tag_pred(m0, any);
    let q = all_tags_pred(m0, all);
    let c1 = tag_exists_spec(c, any).0;
    let m1 = c1.files.map;
    assert(m1 == with_defaults(m0, c.playlist.remaining));
    assert forall|f: Seq<char>| #[trigger] tags_or_empty(m1, f) == tags_or_empty(m0, f) by {
        lemma_defaults_keep_tags(m0, c.playlist.remaining, f);
    }
    assert(all_tags_pred(m1, all) =~= q);
    lemma_filter_then(c.playlist.remaining, p, q);
    if c1.playlist.remaining.len() == 0 {
        assert(c1.playlist.remaining.filter(q) =~= c1.playlist.remaining) by {
            reveal(Seq::filter);
        }
    }
}

/// Going to the next song and back to the one before gives the playlist
/// back, from the start of the song.
pub proof fn law_next_then_previous(c: ContextView)
    requires
        c.playlist.remaining.len() > 0,
    ensures
        previous_song_spec(next_song_spec(c).0).0 == rewound(c),
        previous_song_spec(next_song_spec(c).0).1 == CommandReturn::ReloadFirstSong,
{
    let c1 = next_song_spec(c).0;
    assert(c1.playlist.previous.drop_last() =~= c.playlist.previous);
    assert(seq![c1.playlist.previous.last()] + c1.playlist.remaining =~= c.playlist.remaining);
}

/// Skipping `N` songs (at least one, and no more than remain) and going back
/// `N` songs gives the playlist back, from the start of the song.
pub proof fn law_skip_then_go_back(c: ContextView, count: Seq<char>)
    requires
        parse_usize_spec(count) matches Ok(n) && 1 <= n <= c.playlist.remaining.len(),
    ensures
        go_back_songs_spec(skip_songs_spec(c, count).0, count).0 == rewound(c),
{
    let n = parse_usize_spec(count).unwrap() as int;
    let c1 = skip_songs_spec(c, count).0;
    let len = c1.playlist.previous.len();
    assert(c1.playlist.previous.skip(len - n) =~= c.playlist.remaining.take(n));
    assert(c1.playlist.previous.take(len - n) =~= c.playlist.previous);
    assert(c.playlist.remaining.take(n) + c.playlist.remaining.skip(n) =~= c.playlist.remaining);
}

/// Repeating the current song `N` times (at least once) and skipping `N`
/// songs leaves the remaining songs as they were.
pub proof fn law_repeat_then_skip(c: ContextView, count: Seq<char>)
    requires
        c.playlist.remaining.len() > 0,
        parse_usize_spec(count) matches Ok(n) && n >= 1,
    ensures
        skip_songs_spec(
            ContextView { playlist: repeat_song_spec(c.playlist, count).0, ..c },
            count,
        ).0.playlist.remaining == c.playlist.remaining,
{
    let n = parse_usize_spec(count).unwrap() as int;
    let p1 = repeat_song_spec(c.playlist, count).0;
    assert(p1.remaining.skip(n) =~= c.playlist.remaining);
}

/// Adding a tag that the current song does not have and removing it again
/// gives the context back.
pub proof fn law_tag_then_untag(c: ContextView, tag: Seq<char>)
    requires
        current_known(c) matches Ok(f) && !c.files.map[path_components(f)].tags.contains(tag),
    ensures
        remove_tag_current_spec(add_tag_current_spec(c, tag).0, tag) == (c, Ok::<(), CommandErrorView>(())),
{
    let f = current_known(c)->Ok_0;
    let k = path_components(f);
    let c1 = add_tag_current_spec(c, tag).0;
    assert(c1.files.map[k].tags.remove(tag) =~= c.files.map[k].tags);
    let m2 = c1.files.map.insert(k, FileDataView { tags: c.files.map[k].tags, duration: c1.files.map[k].duration });
    assert(m2 =~= c.files.map);
}

/// Adding a macro under a new name and removing it gives the configuration back.
pub proof fn law_macro_add_then_remove(k: ConfigView, name: Seq<char>, commands: Seq<Seq<char>>)
    requires
        !k.macros.contains_key(name),
    ensures
        remove_macro_spec(add_macro_spec(k, name, commands).0, name) == (k, Ok::<(), CommandErrorView>(())),
{
    assert(add_macro_spec(k, name, commands).0.macros.remove(name) =~= k.macros);
}

/// A search filter applied a second time keeps every song, leaves the
/// current song loaded and changes nothing.
pub proof fn law_search_twice(c: ContextView, search: Seq<Seq<char>>)
    ensures
        search_full_spec(search_full_spec(c, search).0, search).0.playlist.remaining
            == search_full_spec(c, search).0.playlist.remaining,
        ({
            let c1 = search_full_spec(c, search).0;
            c1.playlist.remaining.len() > 0 ==> search_full_spec(c1, search) == (c1, CommandReturn::Nothing)
        }),
{
    let p = path_contains_pred(search_text(search));
    lemma_filter_twice(c.playlist.remaining, p);
    let c1 = search_full_spec(c, search).0;
    if c.playlist.remaining.len() > 0 {
        assert(c1.playlist.remaining == c.playlist.remaining.filter(p));
        if c1.playlist.remaining.len() > 0 {
            assert(c1.playlist.remaining.filter(p) == c1.playlist.remaining);
        }
    }
}

/// After the known files are brought up to date, every known file is on disk
/// (some found path is the same path as the text it is known by, joined onto
/// the folder), and a file that was known keeps its data and its text.
pub proof fn law_reload_only_found(v: FilesView, found: Seq<Seq<char>>, k: Seq<Seq<char>>)
    requires
        reloaded(v, found).map.contains_key(k),
    ensures
        on_disk(found, v.root, reloaded(v, found).names[k]),
        v.map.contains_key(k) ==> reloaded(v, found).map[k] == v.map[k] && reloaded(v, found).names[k]
            == v.names[k],
{
    if v.map.contains_key(k) {
        lemma_made_known_keeps(v.map, v.names, relative_paths(found, v.root), k);
    }
}

/// Moving forward by a time and back by the same time gives the progress back.
pub proof fn law_forward_then_back(p: int, d: int)
    requires
        0 <= p,
        0 <= d,
        p + d <= max_total(),
    ensures
        jumped(jumped(p, d, JumpKind::Forward).unwrap(), d, JumpKind::Backward) == Some(p),
{
}

/// Moving back never goes before the start of the song.
pub proof fn law_back_not_before_start(p: int, d: int)
    requires
        0 <= p,
        0 <= d,
    ensures
        jumped(p, d, JumpKind::Backward) matches Some(q) && 0 <= q <= p,
{
}

/// Typing a character and deleting it gives the command line back.
pub proof fn law_type_then_backspace(line: Seq<char>, c: ContextView, ch: char)
    ensures
        message_spec(message_spec(Some(line), c, MessageView::TypedChar(ch)).0, c, MessageView::Backspace).0
            == Some(line),
{
    assert(line.push(ch).drop_last() =~= line);
}

/// In the temporary mode nothing is saved: not by `s`, not the current
/// playlist when another one is switched to, and not on quitting.
pub proof fn law_temp_mode_never_saves(c: ContextView, name: Seq<char>)
    requires
        c.mode == ProgramMode::Temp,
    ensures
        save_spec(c) == Err::<OutcomeView, CommandErrorView>(CommandErrorView::SaveInWrongMode),
        switch_to_spec(c, name) matches Ok(OutcomeView::Request(EffectView::SwitchPlaylist { save, .. }, _))
            ==> save is None,
        !saves_on_quit_spec(c.mode, true),
{
}

/// `q` quits after saving, and stays where saving fails; `q!` quits without
/// saving; either wins over loading the song again.
pub proof fn law_quit_commands(out: Seq<char>, f: UpdateFlags)
    requires
        !f.quit,
    ensures
        follow_up_spec(returned_spec(Ok(CommandReturn::Quit), out, f).1) == FollowUpView::Send(
            MessageView::Quit { save: true, abort_on_error: true },
        ),
        follow_up_spec(returned_spec(Ok(CommandReturn::QuitNoSave), out, f).1) == FollowUpView::Send(
            MessageView::Quit { save: false, abort_on_error: false },
        ),
{
}

/// An error ends the command line: no more of its commands run.
pub proof fn law_error_ends_line(v: RunnerView, e: CommandErrorView)
    ensures
        advance(v, Err(e)).0.queue.len() == 0,
        advance(v, Err(e)).1 == StepView::Finished(Err(e)),
{
}

/// The commands of a macro run before the rest of the command line.
pub proof fn law_macro_runs_first(v: RunnerView, cmds: Seq<Seq<char>>)
    ensures
        advance(v, Ok(OutcomeView::Expand(cmds))).0.queue == cmds + v.queue,
{
}

/// How far a change of song has come.
pub open spec fn stage_rank(s: SongStage) -> int {
    match s {
        SongStage::ListEnd => 1,
        SongStage::Save => 2,
        SongStage::Start => 3,
        SongStage::Done => 4,
    }
}

/// The event macros of a change of song run in their order: `@song_end`
/// first (it runs before any step), each step moves the change forward,
/// `@list_end` runs only at the end of the list, after `@song_end`, and
/// `@song_start` only at the start of the next song, after both.
pub proof fn law_song_events_in_order(stage: SongStage, c: ContextView)
    ensures
        stage != SongStage::Done ==> stage_rank(song_step(stage, c).0) == stage_rank(stage) + 1,
        song_step(stage, c).2 matches SongActionView::PauseAndRun(r) ==> stage == SongStage::ListEnd
            && r == event_runner(song_step(stage, c).1, "@list_end"@),
        song_step(stage, c).2 matches SongActionView::LoadAndRun(r) ==> stage == SongStage::Start
            && r == event_runner(c, "@song_start"@),
{
}

/// Arguments without a leading `-`, read from `args[i..]` after `st`, are all files.
proof fn lemma_plain_args(args: Seq<Seq<char>>, i: int, st: CliState)
    requires
        0 <= i <= args.len(),
        forall|j: int| 0 <= j < args.len() ==> !starts_with(#[trigger] args[j], "-"@),
    ensures
        args_spec(args, i, st) == args_spec(
            args,
            args.len() as int,
            CliState { files: st.files + args.skip(i), ..st },
        ),
    decreases args.len() - i,
{
    if i < args.len() {
        assert(!starts_with(args[i], "-"@));
        lemma_plain_args(args, i + 1, CliState { files: st.files.push(args[i]), ..st });
        assert(st.files.push(args[i]) + args.skip(i + 1) =~= st.files + args.skip(i));
    } else {
        assert(st.files + args.skip(i) =~= st.files);
    }
}

/// Arguments that do not start with `-` are files to play: with at least one
/// the player starts in the temporary mode with those songs, without any in
/// the main mode.
pub proof fn law_files_mean_temp(args: Seq<Seq<char>>)
    requires
        forall|j: int| 0 <= j < args.len() ==> !starts_with(#[trigger] args[j], "-"@),
    ensures
        cli_spec(args) == Ok::<CliActionView, crate::cli::CliErrorView>(
            CliActionView::Run(
                ParsedView {
                    program_mode: if args.len() == 0 {
                        ProgramMode::Main
                    } else {
                        ProgramMode::Temp
                    },
                    files: args,
                    disable_ipc: false,
                    savedata_path: None,
                },
            ),
        ),
{
    let st = CliState { mode: None, files: Seq::empty(), disable_ipc: false, savedata: None };
    lemma_plain_args(args, 0, st);
    assert(Seq::<Seq<char>>::empty() + args.skip(0) =~= args);
}

/// The category names that the general help page lists under its
/// categories of subcommands.
pub open spec fn general_help_categories() -> Seq<Seq<char>> {
    seq![
        "first"@, "n"@, "normal"@, "p"@, "play"@, "l"@, "list"@, "f"@, "filter"@, "t"@, "tag"@,
        "g"@, "goto"@, "m"@, "macro"@, "e"@, "event"@, "d"@, "dir"@,
    ]
}

/// Every category that the general help page lists has a page of its own, so
/// `h` followed by any of them shows that page and does not fail.
pub proof fn law_listed_categories_have_help()
    ensures
        forall|i: int|
            0 <= i < general_help_categories().len() ==> (#[trigger] help_topic(
                general_help_categories()[i],
            )) is Some,
{
    assert forall|i: int| 0 <= i < general_help_categories().len() implies (#[trigger] help_topic(
        general_help_categories()[i],
    )) is Some by {
        let c = general_help_categories()[i];
        assert(c == "first"@ || c == "n"@ || c == "normal"@ || c == "p"@ || c == "play"@ || c
            == "l"@ || c == "list"@ || c == "f"@ || c == "filter"@ || c == "t"@ || c == "tag"@ || c
            == "g"@ || c == "goto"@ || c == "m"@ || c == "macro"@ || c == "e"@ || c == "event"@ || c
            == "d"@ || c == "dir"@);
    }
}

/// Drawing the tree of folders goes on one folder at a time: a step keeps what
/// was drawn, and draws anything only by using up one of the folders left, so
/// the tree never shows more folders than it may.
pub proof fn law_tree_draws_within_limit(w: TreeWalkView)
    requires
        w.wf(),
    ensures
        ({
            let w2 = advance_spec(w).0;
            &&& w2.wf()
            &&& w.out.len() <= w2.out.len() && w2.out.subrange(0, w.out.len() as int) == w.out
            &&& w2.left == w.left || w2.left == w.left - 1
            &&& w2.left == w.left ==> w2.out == w.out
        }),
    decreases w.levels.len(),
{
    if w.levels.len() > 0 {
        let top = w.levels.last();
        if top.next >= top.folders.len() {
            let w1 = TreeWalkView { levels: w.levels.drop_last(), ..w };
            law_tree_draws_within_limit(w1);
        } else if w.left > 0 {
            let w2 = advance_spec(w).0;
            assert(w2.out.subrange(0, w.out.len() as int) =~= w.out);
            assert forall|i: int| 0 <= i < w2.levels.len() implies 0 <= #[trigger] w2.levels[i].next
                <= w2.levels[i].folders.len() by {
                if i < w.levels.len() - 1 {
                    assert(w2.levels[i] == w.levels[i]);
                }
            }
        } else {
            assert(w.out.subrange(0, w.out.len() as int) =~= w.out);
        }
    } else {
        assert(w.out.subrange(0, w.out.len() as int) =~= w.out);
    }
}

/// Reading the folders of a folder is a step of the drawing like any other.
pub proof fn law_tree_listing_within_limit(w: TreeWalkView, folders: Seq<FolderView>)
    requires
        w.wf(),
    ensures
        ({
            let w2 = listed_spec(w, folders).0;
            &&& w2.wf()
            &&& w.out.len() <= w2.out.len() && w2.out.subrange(0, w.out.len() as int) == w.out
            &&& w2.left == w.left || w2.left == w.left - 1
            &&& w2.left == w.left ==> w2.out == w.out
        }),
{
    let w1 = TreeWalkView {
        levels: w.levels.push(
            LevelView { folders, next: 0, layers: w.next_layers, ending: w.next_ending },
        ),
        ..w
    };
    assert forall|i: int| 0 <= i < w1.levels.len() implies 0 <= #[trigger] w1.levels[i].next
        <= w1.levels[i].folders.len() by {
        if i < w.levels.len() {
            assert(w1.levels[i] == w.levels[i]);
        }
    }
    law_tree_draws_within_limit(w1);
}

/// Moving back by `d` goes back by `d` where the song has come that far, and
/// to the very start of the song where it has not; nothing else changes, and
/// the song is loaded again there.
pub proof fn law_back_stops_at_start(c: ContextView, d: int)
    requires
        0 <= c.playlist.progress,
        0 <= d,
    ensures
        ({
            let (c2, r) = jumped_spec(c, d, JumpKind::Backward);
            &&& r == Ok::<CommandReturn, CommandErrorView>(CommandReturn::ReloadFirstSong)
            &&& d <= c.playlist.progress ==> c2.playlist.progress + d == c.playlist.progress
            &&& d > c.playlist.progress ==> c2.playlist.progress == 0
            &&& c2 == (ContextView {
                playlist: PlaylistView { progress: c2.playlist.progress, ..c.playlist },
                ..c
            })
        }),
{
}

/// The path search filters ignore letter case: `fsf` keeps exactly the
/// remaining songs whose path, in lower case, contains the search words
/// (joined by spaces) in lower case, and `fss` those whose path, in lower
/// case, starts with them; the order of the songs stays.
pub proof fn law_path_search_by_lower_case(c: ContextView, search: Seq<Seq<char>>, f: Seq<char>)
    requires
        c.playlist.remaining.len() > 0,
    ensures
        search_full_spec(c, search).0.playlist.remaining.contains(f) <==> c.playlist.remaining.contains(f)
            && contains_text(lowercase(f), lowercase(join_text(search, " "@))),
        filepath_starts_with_spec(c, search).0.playlist.remaining.contains(f) <==> c.playlist.remaining.contains(f)
            && starts_with(lowercase(f), lowercase(join_text(search, " "@))),
        search_file_name_spec(c, search).1 is Ok ==> (search_file_name_spec(c, search).0.playlist.remaining.contains(f)
            <==> c.playlist.remaining.contains(f) && contains_text(
            lowercase(file_name_of(f).unwrap()),
            lowercase(join_text(search, " "@)),
        )),
{
    let n = search_text(search);
    lemma_filter_member(c.playlist.remaining, path_contains_pred(n), f);
    lemma_filter_member(c.playlist.remaining, crate::command::filter::path_starts_pred(n), f);
    lemma_filter_member(c.playlist.remaining, crate::command::filter::name_contains_pred(n), f);
}

/// Two remaining songs whose paths differ only in letter case are kept or
/// left together by `fsf`.
pub proof fn law_path_search_same_either_case(
    c: ContextView,
    search: Seq<Seq<char>>,
    f: Seq<char>,
    g: Seq<char>,
)
    requires
        c.playlist.remaining.len() > 0,
        c.playlist.remaining.contains(f),
        c.playlist.remaining.contains(g),
        lowercase(f) == lowercase(g),
    ensures
        search_full_spec(c, search).0.playlist.remaining.contains(f) <==> search_full_spec(
            c,
            search,
        ).0.playlist.remaining.contains(g),
{
    law_path_search_by_lower_case(c, search, f);
    law_path_search_by_lower_case(c, search, g);
}

/// A command word followed by one more word, where the word names such a
/// command and no command that takes all the words after it.
proof fn lemma_two_words(h: Seq<char>, a: Seq<char>, macros: Map<Seq<char>, Seq<char>>)
    requires
        rest_kind(h) is None,
        single_kind(h) is Some,
    ensures
        parse_spec(seq![h, a], macros) == CommandView::Single(single_kind(h).unwrap(), a),
{
    assert(seq![h, a][0] == h);
    assert(seq![h, a][1] == a);
}

/// The words that name commands, as text.
proof fn lemma_command_words()
    ensures
        rest_kind("tra"@) is None,
        rest_kind("ld"@) is None,
        rest_kind("ln"@) is None,
        single_kind("tra"@) == Some(Single::TagRemoveRemaining),
        single_kind("ld"@) == Some(Single::ListDuplicate),
        single_kind("ln"@) == Some(Single::ListNew),
        rest_kind("taa"@) is None,
        rest_kind("tac"@) is None,
        rest_kind("trc"@) is None,
        single_kind("taa"@) == Some(Single::TagAddRemaining),
        single_kind("tac"@) == Some(Single::TagAddCurrent),
        single_kind("trc"@) == Some(Single::TagRemoveCurrent),
{
    reveal_strlit("tra");
    reveal_strlit("ld");
    reveal_strlit("ln");
    reveal_strlit("echo");
    reveal_strlit("fte");
    reveal_strlit("fta");
    reveal_strlit("fsf");
    reveal_strlit("fs");
    reveal_strlit("fss");
    reveal_strlit("g");
    reveal_strlit("gf");
    reveal_strlit("gb");
    reveal_strlit("dm");
    reveal_strlit("h");
    reveal_strlit("?");
    reveal_strlit("help");
    reveal_strlit("pn");
    reveal_strlit("pm");
    reveal_strlit("ps");
    reveal_strlit("pv");
    reveal_strlit("pd");
    reveal_strlit("lc");
    reveal_strlit("la");
    reveal_strlit("lr");
    reveal_strlit("ls");
    reveal_strlit("tac");
    reveal_strlit("trc");
    reveal_strlit("taa");
    assert("tra"@[0] != "fte"@[0]);
    assert("tra"@[0] != "fta"@[0]);
    assert("tra"@[0] != "fsf"@[0]);
    assert("tra"@[0] != "fss"@[0]);
    assert("tra"@[1] != "tac"@[1]);
    assert("tra"@[2] != "trc"@[2]);
    assert("tra"@[1] != "taa"@[1]);
    assert("ld"@[0] != "fs"@[0]);
    assert("ld"@[0] != "gf"@[0]);
    assert("ld"@[0] != "gb"@[0]);
    assert("ld"@[0] != "dm"@[0]);
    assert("ld"@[0] != "pn"@[0]);
    assert("ld"@[0] != "pm"@[0]);
    assert("ld"@[0] != "ps"@[0]);
    assert("ld"@[0] != "pv"@[0]);
    assert("ld"@[0] != "pd"@[0]);
    assert("ld"@[1] != "ln"@[1]);
    assert("ln"@[0] != "fs"@[0]);
    assert("ln"@[0] != "gf"@[0]);
    assert("ln"@[0] != "gb"@[0]);
    assert("ln"@[0] != "dm"@[0]);
    assert("ln"@[0] != "pn"@[0]);
    assert("ln"@[0] != "pm"@[0]);
    assert("ln"@[0] != "ps"@[0]);
    assert("ln"@[0] != "pv"@[0]);
    assert("ln"@[0] != "pd"@[0]);
    assert("taa"@[0] != "fte"@[0]);
    assert("taa"@[0] != "fta"@[0]);
    assert("taa"@[0] != "fsf"@[0]);
    assert("taa"@[0] != "fss"@[0]);
    assert("taa"@[2] != "tac"@[2]);
    assert("taa"@[1] != "trc"@[1]);
    assert("tac"@[0] != "fte"@[0]);
    assert("tac"@[0] != "fta"@[0]);
    assert("tac"@[0] != "fsf"@[0]);
    assert("tac"@[0] != "fss"@[0]);
    assert("trc"@[0] != "fte"@[0]);
    assert("trc"@[0] != "fta"@[0]);
    assert("trc"@[0] != "fsf"@[0]);
    assert("trc"@[0] != "fss"@[0]);
    assert("trc"@[1] != "tac"@[1]);
}

/// Every song of `songs[i..]` is a known file, so none stops the tagging.
proof fn lemma_all_known(m: Map<Seq<Seq<char>>, FileDataView>, songs: Seq<Seq<char>>, i: int)
    requires
        0 <= i,
        forall|j: int| 0 <= j < songs.len() ==> m.contains_key(path_components(#[trigger] songs[j])),
    ensures
        first_unknown(m, songs, i) is None,
    decreases songs.len() - i,
{
    if i < songs.len() {
        lemma_all_known(m, songs, i + 1);
    }
}

/// `tra TAG`, where every remaining song is a known file, takes the tag from
/// every remaining song and from no other file, and keeps their other tags.
pub proof fn law_untag_remaining(
    c: ContextView,
    tag: Seq<char>,
    c2: ContextView,
    r: Result<OutcomeView, CommandErrorView>,
)
    requires
        command_post(c, parse_spec(seq!["tra"@, tag], c.config.macros), c2, r),
        forall|i: int|
            0 <= i < c.playlist.remaining.len() ==> c.files.map.contains_key(
                path_components(#[trigger] c.playlist.remaining[i]),
            ),
    ensures
        r is Ok,
        c2.playlist == c.playlist,
        c2.files.map.dom() == c.files.map.dom(),
        forall|i: int|
            0 <= i < c2.playlist.remaining.len() ==> !c2.files.map[path_components(
                #[trigger] c2.playlist.remaining[i],
            )].tags.contains(tag),
        forall|k: Seq<Seq<char>>, t: Seq<char>|
            c.files.map.contains_key(k) && t != tag ==> (#[trigger] c2.files.map[k].tags.contains(t)
                <==> c.files.map[k].tags.contains(t)),
{
    lemma_command_words();
    lemma_two_words("tra"@, tag, c.config.macros);
    let songs = c.playlist.remaining;
    lemma_all_known(c.files.map, songs, 0);
    assert(c2 == tag_remaining_spec(c, tag, false).0);
    let m2 = retag_all(c.files.map, songs, tag, false);
    assert(c2.files.map == m2);
    assert(m2.dom() =~= c.files.map.dom());
    assert forall|i: int| 0 <= i < c2.playlist.remaining.len() implies !c2.files.map[path_components(
        #[trigger] c2.playlist.remaining[i],
    )].tags.contains(tag) by {
        assert(song_keys(songs)[i] == path_components(songs[i]));
        assert(song_keys(songs).contains(path_components(songs[i])));
    }
}

/// `ld NAME` asks to write the current playlist, its remaining and its
/// previous songs, under the name in its proper form, where that name is
/// valid and not the name of the current playlist; `ln NAME` asks to write an
/// empty playlist there. Neither changes anything before the writing.
pub proof fn law_duplicate_writes_current(
    c: ContextView,
    name: Seq<char>,
    c2: ContextView,
    r: Result<OutcomeView, CommandErrorView>,
    c3: ContextView,
    r3: Result<OutcomeView, CommandErrorView>,
)
    requires
        command_post(c, parse_spec(seq!["ld"@, name], c.config.macros), c2, r),
        command_post(c, parse_spec(seq!["ln"@, name], c.config.macros), c3, r3),
        list_name_spec(name) is Ok,
        lowercase(name) != c.state.current_playlist,
    ensures
        c2 == c,
        c3 == c,
        r matches Ok(OutcomeView::Request(EffectView::WritePlaylist { name: n, list }, PendingView::Finish))
            && n == lowercase(name) && list.remaining == c.playlist.remaining && list.previous
            == c.playlist.previous,
        r3 matches Ok(OutcomeView::Request(EffectView::WritePlaylist { name: n, list }, PendingView::Finish))
            && n == lowercase(name) && list.remaining.len() == 0 && list.previous.len() == 0,
{
    lemma_command_words();
    lemma_two_words("ld"@, name, c.config.macros);
    lemma_two_words("ln"@, name, c.config.macros);
    assert(r == save_list_spec(c, name, false).1);
    assert(r3 == save_list_spec(c, name, true).1);
}

/// An explicit mode, `--mode temp` / `-m t` (or `main` / `m`), decides the
/// mode of the run, whatever files follow: they are the files to play.
pub proof fn law_explicit_mode(opt: Seq<char>, value: Seq<char>, files: Seq<Seq<char>>)
    requires
        opt == "--mode"@ || opt == "-m"@,
        value == "temp"@ || value == "t"@ || value == "main"@ || value == "m"@,
        forall|j: int| 0 <= j < files.len() ==> !starts_with(#[trigger] files[j], "-"@),
    ensures
        cli_spec(seq![opt, value] + files) == Ok::<CliActionView, crate::cli::CliErrorView>(
            CliActionView::Run(
                ParsedView {
                    program_mode: if value == "temp"@ || value == "t"@ {
                        ProgramMode::Temp
                    } else {
                        ProgramMode::Main
                    },
                    files,
                    disable_ipc: false,
                    savedata_path: None,
                },
            ),
        ),
{
    reveal_strlit("--mode");
    reveal_strlit("-m");
    reveal_strlit("-");
    reveal_strlit("--help");
    reveal_strlit("-h");
    reveal_strlit("?");
    reveal_strlit("--version");
    reveal_strlit("-v");
    reveal_strlit("--no-ipc");
    reveal_strlit("temp");
    reveal_strlit("t");
    reveal_strlit("main");
    reveal_strlit("m");
    if opt == "--mode"@ {
        assert("--mode"@[2] != "--help"@[2]);
    } else {
        assert("-m"@[1] != "-h"@[1]);
        assert("-m"@[1] != "-v"@[1]);
    }
    assert("temp"@[0] != "main"@[0]);
    assert("t"@[0] != "m"@[0]);
    let args = seq![opt, value] + files;
    assert(args[0] == opt);
    assert(args[1] == value);
    assert(opt.subrange(0, 1) =~= "-"@);
    let mode = if value == "temp"@ || value == "t"@ {
        ProgramMode::Temp
    } else {
        ProgramMode::Main
    };
    let st = CliState { mode: None, files: Seq::empty(), disable_ipc: false, savedata: None };
    let st2 = CliState { mode: Some(mode), ..st };
    assert(args_spec(args, 0, st) == args_spec(args, 2, st2));
    assert forall|j: int| 2 <= j < args.len() implies !starts_with(#[trigger] args[j], "-"@) by {
        assert(args[j] == files[j - 2]);
    }
    lemma_plain_args_from(args, 2, st2);
    assert(args.skip(2) =~= files);
    assert(Seq::<Seq<char>>::empty() + files =~= files);
}

/// Arguments without a leading `-` from `args[i..]` on, read after `st`, are all files.
proof fn lemma_plain_args_from(args: Seq<Seq<char>>, i: int, st: CliState)
    requires
        0 <= i <= args.len(),
        forall|j: int| i <= j < args.len() ==> !starts_with(#[trigger] args[j], "-"@),
    ensures
        args_spec(args, i, st) == args_spec(
            args,
            args.len() as int,
            CliState { files: st.files + args.skip(i), ..st },
        ),
    decreases args.len() - i,
{
    if i < args.len() {
        assert(!starts_with(args[i], "-"@));
        lemma_plain_args_from(args, i + 1, CliState { files: st.files.push(args[i]), ..st });
        assert(st.files.push(args[i]) + args.skip(i + 1) =~= st.files + args.skip(i));
    } else {
        assert(st.files + args.skip(i) =~= st.files);
    }
}

/// `g`, `gf` and `gb` move within the song: `g` to the time read, `gf`
/// forward by it (an error that changes nothing past the longest time there
/// is), `gb` back by it, never before the start; the song is loaded again.
pub proof fn law_jumps(c: ContextView, d: int)
    requires
        0 <= c.playlist.progress,
        0 <= d,
    ensures
        jumped_spec(c, d, JumpKind::To).0.playlist.progress == d,
        jumped_spec(c, d, JumpKind::To).1 == Ok::<CommandReturn, CommandErrorView>(CommandReturn::ReloadFirstSong),
        c.playlist.progress + d <= max_total() ==> jumped_spec(c, d, JumpKind::Forward).0.playlist.progress
            == c.playlist.progress + d && jumped_spec(c, d, JumpKind::Forward).1 == Ok::<
            CommandReturn,
            CommandErrorView,
        >(CommandReturn::ReloadFirstSong),
        c.playlist.progress + d > max_total() ==> jumped_spec(c, d, JumpKind::Forward) == (
            c,
            Err::<CommandReturn, CommandErrorView>(CommandErrorView::ProgressOverflow),
        ),
        jumped_spec(c, d, JumpKind::Backward).0.playlist.progress <= c.playlist.progress,
        jumped_spec(c, d, JumpKind::Backward).0.playlist.progress == 0 || jumped_spec(
            c,
            d,
            JumpKind::Backward,
        ).0.playlist.progress + d == c.playlist.progress,
{
}

/// `taa TAG`, where every remaining song is a known file, gives the tag to
/// every remaining song and keeps the other tags of every file.
pub proof fn law_tag_remaining(
    c: ContextView,
    tag: Seq<char>,
    c2: ContextView,
    r: Result<OutcomeView, CommandErrorView>,
)
    requires
        command_post(c, parse_spec(seq!["taa"@, tag], c.config.macros), c2, r),
        forall|i: int|
            0 <= i < c.playlist.remaining.len() ==> c.files.map.contains_key(
                path_components(#[trigger] c.playlist.remaining[i]),
            ),
    ensures
        r is Ok,
        c2.playlist == c.playlist,
        c2.files.map.dom() == c.files.map.dom(),
        forall|i: int|
            0 <= i < c2.playlist.remaining.len() ==> c2.files.map[path_components(
                #[trigger] c2.playlist.remaining[i],
            )].tags.contains(tag),
        forall|k: Seq<Seq<char>>, t: Seq<char>|
            c.files.map.contains_key(k) && t != tag ==> (#[trigger] c2.files.map[k].tags.contains(t)
                <==> c.files.map[k].tags.contains(t)),
{
    lemma_command_words();
    lemma_two_words("taa"@, tag, c.config.macros);
    let songs = c.playlist.remaining;
    lemma_all_known(c.files.map, songs, 0);
    assert(c2 == tag_remaining_spec(c, tag, true).0);
    let m2 = retag_all(c.files.map, songs, tag, true);
    assert(c2.files.map == m2);
    assert(m2.dom() =~= c.files.map.dom());
    assert forall|i: int| 0 <= i < c2.playlist.remaining.len() implies c2.files.map[path_components(
        #[trigger] c2.playlist.remaining[i],
    )].tags.contains(tag) by {
        assert(song_keys(songs)[i] == path_components(songs[i]));
        assert(song_keys(songs).contains(path_components(songs[i])));
    }
}

/// `tac TAG` gives the tag to the current song and `trc TAG` takes it away,
/// where the current song is a known file; its other tags stay.
pub proof fn law_tag_current(
    c: ContextView,
    tag: Seq<char>,
    c2: ContextView,
    r: Result<OutcomeView, CommandErrorView>,
    c3: ContextView,
    r3: Result<OutcomeView, CommandErrorView>,
)
    requires
        command_post(c, parse_spec(seq!["tac"@, tag], c.config.macros), c2, r),
        command_post(c, parse_spec(seq!["trc"@, tag], c.config.macros), c3, r3),
        c.playlist.remaining.len() > 0,
        c.files.map.contains_key(path_components(c.playlist.remaining[0])),
    ensures
        r is Ok,
        r3 is Ok,
        c2.playlist == c.playlist,
        c3.playlist == c.playlist,
        c2.files.map[path_components(c.playlist.remaining[0])].tags == c.files.map[path_components(
            c.playlist.remaining[0],
        )].tags.insert(tag),
        c3.files.map[path_components(c.playlist.remaining[0])].tags == c.files.map[path_components(
            c.playlist.remaining[0],
        )].tags.remove(tag),
{
    lemma_command_words();
    lemma_two_words("tac"@, tag, c.config.macros);
    lemma_two_words("trc"@, tag, c.config.macros);
}

/// `--no-ipc` turns off the talk between running players, and `--path DIR`
/// (`-p DIR`) gives the folder of the saved data; the files that follow are
/// the files to play, and with files and no mode the run is temporary.
pub proof fn law_ipc_and_path_options(opt: Seq<char>, dir: Seq<char>, files: Seq<Seq<char>>)
    requires
        opt == "--path"@ || opt == "-p"@,
        forall|j: int| 0 <= j < files.len() ==> !starts_with(#[trigger] files[j], "-"@),
    ensures
        cli_spec(seq!["--no-ipc"@] + files) == Ok::<CliActionView, crate::cli::CliErrorView>(
            CliActionView::Run(
                ParsedView {
                    program_mode: if files.len() == 0 {
                        ProgramMode::Main
                    } else {
                        ProgramMode::Temp
                    },
                    files,
                    disable_ipc: true,
                    savedata_path: None,
                },
            ),
        ),
        cli_spec(seq![opt, dir] + files) == Ok::<CliActionView, crate::cli::CliErrorView>(
            CliActionView::Run(
                ParsedView {
                    program_mode: if files.len() == 0 {
                        ProgramMode::Main
                    } else {
                        ProgramMode::Temp
                    },
                    files,
                    disable_ipc: false,
                    savedata_path: Some(dir),
                },
            ),
        ),
{
    reveal_strlit("--path");
    reveal_strlit("-p");
    reveal_strlit("-");
    reveal_strlit("--help");
    reveal_strlit("-h");
    reveal_strlit("?");
    reveal_strlit("--version");
    reveal_strlit("-v");
    reveal_strlit("--no-ipc");
    reveal_strlit("--mode");
    reveal_strlit("-m");
    assert("--no-ipc"@[2] != "--help"@[2]);
    assert("--path"@[2] != "--help"@[2]);
    assert("--path"@[2] != "--mode"@[2]);
    assert("-p"@[1] != "-h"@[1]);
    assert("-p"@[1] != "-v"@[1]);
    assert("-p"@[1] != "-m"@[1]);
    let st = CliState { mode: None, files: Seq::empty(), disable_ipc: false, savedata: None };
    let a1 = seq!["--no-ipc"@] + files;
    assert(a1[0] == "--no-ipc"@);
    assert("--no-ipc"@.subrange(0, 1) =~= "-"@);
    assert forall|j: int| 1 <= j < a1.len() implies !starts_with(#[trigger] a1[j], "-"@) by {
        assert(a1[j] == files[j - 1]);
    }
    let st1 = CliState { disable_ipc: true, ..st };
    assert(args_spec(a1, 0, st) == args_spec(a1, 1, st1));
    lemma_plain_args_from(a1, 1, st1);
    assert(a1.skip(1) =~= files);
    let a2 = seq![opt, dir] + files;
    assert(a2[0] == opt);
    assert(a2[1] == dir);
    assert(opt.subrange(0, 1) =~= "-"@);
    assert forall|j: int| 2 <= j < a2.len() implies !starts_with(#[trigger] a2[j], "-"@) by {
        assert(a2[j] == files[j - 2]);
    }
    let st2 = CliState { savedata: Some(dir), ..st };
    assert(args_spec(a2, 0, st) == args_spec(a2, 2, st2));
    lemma_plain_args_from(a2, 2, st2);
    assert(a2.skip(2) =~= files);
    assert(Seq::<Seq<char>>::empty() + files =~= files);
}

} // verus!
