//! Commands that keep only the remaining songs that meet a condition on their
//! tags or their paths.
use crate::command::CommandReturn;
use crate::command::error::{CommandError, CommandErrorView};
use crate::command::play::{load_in_first_song, rewound, with_songs};
use crate::data::context::{Context, ContextView};
use crate::command::tag::song_keys;
use crate::data::files::{FileDataView, FilesView, default_file_data, made_known};
use crate::path::{file_name_of, path_components, path_file_name, paths_equal, same_path};
use crate::text::{contains_str, contains_text, join_strs, join_text, lowercase, starts_with, starts_with_str, to_lowercase, views, chars_of, string_from};
use vstd::prelude::*;

verus! {

/// Does a file with the tags `file_tags` match `match_tag`? A tag matches the
/// files that have it; `!tag` matches the files that do not.
pub open spec fn tag_matches_spec(file_tags: Set<Seq<char>>, match_tag: Seq<char>) -> bool {
    if match_tag.len() > 0 && match_tag[0] == '!' {
        !file_tags.contains(match_tag.drop_first())
    } else {
        file_tags.contains(match_tag)
    }
}

/// Whether the tags `file_tags` match `match_tag`.
pub fn tag_matches(file_tags: &crate::data::files::FileData, match_tag: &str) -> (r: bool)
    ensures
        r == tag_matches_spec(file_tags@.tags, match_tag@),
{
    let cs = chars_of(match_tag);
    if cs.len() > 0 && cs[0] == '!' {
        let stripped = string_from(&cs, 1, cs.len());
        assert(stripped@ =~= match_tag@.drop_first());
        !file_tags.has_tag(stripped.as_str())
    } else {
        file_tags.has_tag(match_tag)
    }
}

/// The tags of `f`; none where the file is not known.
pub open spec fn tags_or_empty(m: Map<Seq<Seq<char>>, FileDataView>, f: Seq<char>) -> Set<Seq<char>> {
    if m.contains_key(path_components(f)) {
        m[path_components(f)].tags
    } else {
        Set::empty()
    }
}

/// The file map after every file of `songs` is made known, with empty data
/// where it was not.
pub open spec fn with_defaults(m: Map<Seq<Seq<char>>, FileDataView>, songs: Seq<Seq<char>>) -> Map<
    Seq<Seq<char>>,
    FileDataView,
> {
    Map::new(
        |k: Seq<Seq<char>>| m.contains_key(k) || song_keys(songs).contains(k),
        |k: Seq<Seq<char>>|
            if m.contains_key(k) {
                m[k]
            } else {
                default_file_data()
            },
    )
}

/// The context after a filter kept the songs `kept` of the remaining songs:
/// where the current song left (the first song is no longer the same path),
/// the new first song is loaded from its start.
pub open spec fn filtered(c: ContextView, kept: Seq<Seq<char>>) -> (ContextView, CommandReturn) {
    let c2 = with_songs(c, kept, c.playlist.previous);
    if kept.len() == 0 || !same_path(kept[0], c.playlist.remaining[0]) {
        (rewound(c2), CommandReturn::ReloadFirstSong)
    } else {
        (c2, CommandReturn::Nothing)
    }
}

/// The context with the files of the remaining songs made known.
pub open spec fn known_remaining(c: ContextView) -> ContextView {
    ContextView {
        files: FilesView {
            map: with_defaults(c.files.map, c.playlist.remaining),
            names: made_known(c.files.map, c.files.names, c.playlist.remaining).1,
            ..c.files
        },
        ..c
    }
}

/// The songs that match any of the tags.
pub open spec fn any_tag_pred(m: Map<Seq<Seq<char>>, FileDataView>, tags: Seq<Seq<char>>) -> spec_fn(Seq<char>) -> bool {
    |f: Seq<char>|
        exists|i: int|
            0 <= i < tags.len() && tag_matches_spec(tags_or_empty(m, f), #[trigger] tags[i])
}

/// The songs that match all of the tags.
pub open spec fn all_tags_pred(m: Map<Seq<Seq<char>>, FileDataView>, tags: Seq<Seq<char>>) -> spec_fn(Seq<char>) -> bool {
    |f: Seq<char>|
        forall|i: int|
            0 <= i < tags.len() ==> tag_matches_spec(tags_or_empty(m, f), #[trigger] tags[i])
}

/// The songs without tags.
pub open spec fn untagged_pred(m: Map<Seq<Seq<char>>, FileDataView>) -> spec_fn(Seq<char>) -> bool {
    |f: Seq<char>| tags_or_empty(m, f) == Set::<Seq<char>>::empty()
}

/// The songs whose path, in lower case, contains `needle`.
pub open spec fn path_contains_pred(needle: Seq<char>) -> spec_fn(Seq<char>) -> bool {
    |f: Seq<char>| contains_text(lowercase(f), needle)
}

/// The songs whose path, in lower case, starts with `needle`.
pub open spec fn path_starts_pred(needle: Seq<char>) -> spec_fn(Seq<char>) -> bool {
    |f: Seq<char>| starts_with(lowercase(f), needle)
}

/// The songs whose file name, in lower case, contains `needle`.
pub open spec fn name_contains_pred(needle: Seq<char>) -> spec_fn(Seq<char>) -> bool {
    |f: Seq<char>| contains_text(lowercase(file_name_of(f).unwrap()), needle)
}

/// `fte TAGS`: keeps the songs that match any of the tags.
pub open spec fn tag_exists_spec(c: ContextView, tags: Seq<Seq<char>>) -> (ContextView, CommandReturn) {
    if c.playlist.remaining.len() == 0 {
        (c, CommandReturn::Nothing)
    } else {
        filtered(
            known_remaining(c),
            c.playlist.remaining.filter(any_tag_pred(c.files.map, tags)),
        )
    }
}

/// `fta TAGS`: keeps the songs that match all of the tags.
pub open spec fn tag_all_spec(c: ContextView, tags: Seq<Seq<char>>) -> (ContextView, CommandReturn) {
    if c.playlist.remaining.len() == 0 {
        (c, CommandReturn::Nothing)
    } else {
        filtered(
            known_remaining(c),
            c.playlist.remaining.filter(all_tags_pred(c.files.map, tags)),
        )
    }
}

/// `ftn`: keeps the songs without tags.
pub open spec fn no_tags_spec(c: ContextView) -> (ContextView, CommandReturn) {
    if c.playlist.remaining.len() == 0 {
        (c, CommandReturn::Nothing)
    } else {
        filtered(
            known_remaining(c),
            c.playlist.remaining.filter(untagged_pred(c.files.map)),
        )
    }
}

/// The search text of the search filters: the words joined by spaces, in lower case.
pub open spec fn search_text(search: Seq<Seq<char>>) -> Seq<char> {
    lowercase(join_text(search, " "@))
}

/// `fsf SEARCH`: keeps the songs whose path, in lower case, contains the search text.
pub open spec fn search_full_spec(c: ContextView, search: Seq<Seq<char>>) -> (ContextView, CommandReturn) {
    if c.playlist.remaining.len() == 0 {
        (c, CommandReturn::Nothing)
    } else {
        filtered(
            c,
            c.playlist.remaining.filter(path_contains_pred(search_text(search))),
        )
    }
}

/// `fss SEARCH`: keeps the songs whose path, in lower case, starts with the search text.
pub open spec fn filepath_starts_with_spec(c: ContextView, search: Seq<Seq<char>>) -> (
    ContextView,
    CommandReturn,
) {
    if c.playlist.remaining.len() == 0 {
        (c, CommandReturn::Nothing)
    } else {
        filtered(
            c,
            c.playlist.remaining.filter(path_starts_pred(search_text(search))),
        )
    }
}

/// The first song of `s[i..]` whose path has no file name.
pub open spec fn first_nameless(s: Seq<Seq<char>>, i: int) -> Option<Seq<char>>
    decreases s.len() - i,
{
    if i < 0 || i >= s.len() {
        None
    } else if file_name_of(s[i]) is None {
        Some(s[i])
    } else {
        first_nameless(s, i + 1)
    }
}

/// `fs SEARCH`: keeps the songs whose file name, in lower case, contains the
/// search text; a path without a file name is an error.
pub open spec fn search_file_name_spec(c: ContextView, search: Seq<Seq<char>>) -> (
    ContextView,
    Result<CommandReturn, CommandErrorView>,
) {
    if c.playlist.remaining.len() == 0 {
        (c, Ok(CommandReturn::Nothing))
    } else {
        match first_nameless(c.playlist.remaining, 0) {
            Some(p) => (c, Err(CommandErrorView::InvalidFileName(p))),
            None => {
                let r = filtered(
                    c,
                    c.playlist.remaining.filter(name_contains_pred(search_text(search))),
                );
                (r.0, Ok(r.1))
            },
        }
    }
}

/// The songs of `v` whose flag is set, in order.
fn keep_where(v: &Vec<String>, flags: &Vec<bool>, Ghost(pred): Ghost<spec_fn(Seq<char>) -> bool>) -> (r: Vec<String>)
    requires
        flags.len() == v.len(),
        forall|i: int| 0 <= i < v.len() ==> flags@[i] == pred(#[trigger] v@[i]@),
    ensures
        views(r@) == views(v@).filter(pred),
{
    let mut r: Vec<String> = Vec::new();
    let mut i: usize = 0;
    while i < v.len()
        invariant
            flags.len() == v.len(),
            forall|j: int| 0 <= j < v.len() ==> flags@[j] == pred(#[trigger] v@[j]@),
            i <= v.len(),
            views(r@) == views(v@).take(i as int).filter(pred),
        decreases v.len() - i,
    {
        let ghost before = views(r@);
        proof {
            reveal(Seq::filter);
        }
        assert(views(v@).take(i + 1).drop_last() =~= views(v@).take(i as int));
        assert(views(v@).take(i + 1).last() == v@[i as int]@);
        if flags[i] {
            r.push(v[i].clone());
            assert(views(r@) =~= before.push(v@[i as int]@));
        }
        i += 1;
    }
    assert(views(v@).take(i as int) =~= views(v@));
    r
}

/// Puts the kept songs in place, and loads the new first song where the
/// current song left.
fn finish_filter(ctx: &mut Context, kept: Vec<String>, prev_current: &String) -> (r: CommandReturn)
    requires
        old(ctx).wf(),
        old(ctx)@.playlist.remaining.len() > 0,
        prev_current@ == old(ctx)@.playlist.remaining[0],
    ensures
        final(ctx).wf(),
        (final(ctx)@, r) == filtered(old(ctx)@, views(kept@)),
{
    ctx.playlist.remaining = kept;
    if ctx.playlist.remaining.len() == 0 || !paths_equal(
        ctx.playlist.remaining[0].as_str(),
        prev_current.as_str(),
    ) {
        load_in_first_song(ctx)
    } else {
        CommandReturn::Nothing
    }
}

/// Makes the file of every remaining song known; the tags of each.
fn tags_of_remaining(ctx: &mut Context) -> (r: Vec<crate::data::files::FileData>)
    requires
        old(ctx).wf(),
    ensures
        final(ctx).wf(),
        final(ctx)@ == known_remaining(old(ctx)@),
        final(ctx).playlist.remaining@ == old(ctx).playlist.remaining@,
        r.len() == old(ctx).playlist.remaining.len(),
        forall|i: int|
            0 <= i < r.len() ==> (#[trigger] r@[i])@.tags == tags_or_empty(
                old(ctx)@.files.map,
                old(ctx).playlist.remaining@[i]@,
            ),
{
    let ghost m0 = ctx@.files.map;
    let ghost n0 = ctx@.files.names;
    let mut r: Vec<crate::data::files::FileData> = Vec::new();
    let mut i: usize = 0;
    while i < ctx.playlist.remaining.len()
        invariant
            ctx.wf(),
            ctx.playlist.remaining@ == old(ctx).playlist.remaining@,
            m0 == old(ctx)@.files.map,
            n0 == old(ctx)@.files.names,
            ctx@ == (ContextView {
                files: FilesView { map: ctx@.files.map, names: ctx@.files.names, ..old(ctx)@.files },
                ..old(ctx)@
            }),
            i <= ctx.playlist.remaining.len(),
            r.len() == i,
            ctx@.files.map == with_defaults(m0, views(ctx.playlist.remaining@).take(i as int)),
            ctx@.files.names == made_known(m0, n0, views(ctx.playlist.remaining@).take(i as int)).1,
            forall|j: int|
                0 <= j < i ==> (#[trigger] r@[j])@.tags == tags_or_empty(
                    m0,
                    ctx.playlist.remaining@[j]@,
                ),
        decreases ctx.playlist.remaining.len() - i,
    {
        let path = ctx.playlist.remaining[i].clone();
        proof {
            lemma_made_known_defaults(m0, n0, views(ctx.playlist.remaining@).take(i as int));
        }
        let k = ctx.files.entry_or_default(path.as_str());
        let d = ctx.files.data_at(k).copy();
        proof {
            let t = views(ctx.playlist.remaining@).take(i + 1);
            assert(t =~= views(ctx.playlist.remaining@).take(i as int).push(path@));
            assert(t.drop_last() =~= views(ctx.playlist.remaining@).take(i as int));
            lemma_made_known_defaults(m0, n0, t);
        }
        r.push(d);
        i += 1;
    }
    proof {
        assert(views(ctx.playlist.remaining@).take(i as int) =~= views(ctx.playlist.remaining@));
        assert(ctx@.files.map =~= with_defaults(m0, old(ctx)@.playlist.remaining));
    }
    r
}

/// Making the songs known one after another gives the data that
/// `with_defaults` describes.
pub proof fn lemma_made_known_defaults(
    m: Map<Seq<Seq<char>>, FileDataView>,
    n: Map<Seq<Seq<char>>, Seq<char>>,
    songs: Seq<Seq<char>>,
)
    ensures
        made_known(m, n, songs).0 == with_defaults(m, songs),
    decreases songs.len(),
{
    if songs.len() > 0 {
        let prev = songs.drop_last();
        let pk = path_components(songs.last());
        lemma_made_known_defaults(m, n, prev);
        assert(song_keys(songs) =~= song_keys(prev).push(pk));
        assert forall|k: Seq<Seq<char>>| #[trigger] song_keys(songs).contains(k) <==> (song_keys(
            prev,
        ).contains(k) || k == pk) by {
            let ks = song_keys(songs);
            if ks.contains(k) {
                let y = choose|y: int| 0 <= y < ks.len() && ks[y] == k;
                if y < prev.len() {
                    assert(song_keys(prev)[y] == k);
                }
            }
            if song_keys(prev).contains(k) {
                let y = choose|y: int| 0 <= y < prev.len() && song_keys(prev)[y] == k;
                assert(ks[y] == k);
            }
            if k == pk {
                assert(ks[prev.len() as int] == k);
            }
        }
        assert(made_known(m, n, songs).0 =~= with_defaults(m, songs));
    } else {
        assert(made_known(m, n, songs).0 =~= with_defaults(m, songs));
    }
}

/// `fte TAGS`: keeps the remaining songs that match any of the tags.
pub fn tag_exists(ctx: &mut Context, tags: &Vec<String>) -> (r: CommandReturn)
    requires
        old(ctx).wf(),
    ensures
        final(ctx).wf(),
        (final(ctx)@, r) == tag_exists_spec(old(ctx)@, views(tags@)),
{
    if ctx.playlist.remaining.len() == 0 {
        return CommandReturn::Nothing;
    }
    let prev_current = ctx.playlist.remaining[0].clone();
    let ghost c0 = ctx@;
    let ghost tv = views(tags@);
    let ghost pred = any_tag_pred(c0.files.map, tv);
    let datas = tags_of_remaining(ctx);
    let mut flags: Vec<bool> = Vec::new();
    let mut i: usize = 0;
    while i < datas.len()
        invariant
            pred == any_tag_pred(c0.files.map, tv),
            tv == views(tags@),
            datas.len() == ctx.playlist.remaining.len(),
            ctx.playlist.remaining@ == old(ctx).playlist.remaining@,
            forall|j: int|
                0 <= j < datas.len() ==> (#[trigger] datas@[j])@.tags == tags_or_empty(
                    c0.files.map,
                    ctx.playlist.remaining@[j]@,
                ),
            i <= datas.len(),
            flags.len() == i,
            forall|j: int| 0 <= j < i ==> flags@[j] == pred(#[trigger] ctx.playlist.remaining@[j]@),
        decreases datas.len() - i,
    {
        let mut any = false;
        let mut t: usize = 0;
        while t < tags.len()
            invariant
                pred == any_tag_pred(c0.files.map, tv),
                tv == views(tags@),
                t <= tags.len(),
                i < datas.len(),
                tv == views(tags@),
                any == exists|x: int|
                    0 <= x < t && tag_matches_spec(datas@[i as int]@.tags, #[trigger] tv[x]),
            decreases tags.len() - t,
        {
            if tag_matches(&datas[i], tags[t].as_str()) {
                any = true;
            }
            proof {
                assert(tv[t as int] == tags@[t as int]@);
            }
            t += 1;
        }
        flags.push(any);
        i += 1;
    }
    let kept = keep_where(&ctx.playlist.remaining, &flags, Ghost(pred));
    finish_filter(ctx, kept, &prev_current)
}

/// `fta TAGS`: keeps the remaining songs that match all of the tags.
pub fn tag_all(ctx: &mut Context, tags: &Vec<String>) -> (r: CommandReturn)
    requires
        old(ctx).wf(),
    ensures
        final(ctx).wf(),
        (final(ctx)@, r) == tag_all_spec(old(ctx)@, views(tags@)),
{
    if ctx.playlist.remaining.len() == 0 {
        return CommandReturn::Nothing;
    }
    let prev_current = ctx.playlist.remaining[0].clone();
    let ghost c0 = ctx@;
    let ghost tv = views(tags@);
    let ghost pred = all_tags_pred(c0.files.map, tv);
    let datas = tags_of_remaining(ctx);
    let mut flags: Vec<bool> = Vec::new();
    let mut i: usize = 0;
    while i < datas.len()
        invariant
            pred == all_tags_pred(c0.files.map, tv),
            tv == views(tags@),
            datas.len() == ctx.playlist.remaining.len(),
            ctx.playlist.remaining@ == old(ctx).playlist.remaining@,
            forall|j: int|
                0 <= j < datas.len() ==> (#[trigger] datas@[j])@.tags == tags_or_empty(
                    c0.files.map,
                    ctx.playlist.remaining@[j]@,
                ),
            i <= datas.len(),
            flags.len() == i,
            forall|j: int| 0 <= j < i ==> flags@[j] == pred(#[trigger] ctx.playlist.remaining@[j]@),
        decreases datas.len() - i,
    {
        let mut all = true;
        let mut t: usize = 0;
        while t < tags.len()
            invariant
                pred == all_tags_pred(c0.files.map, tv),
                tv == views(tags@),
                t <= tags.len(),
                i < datas.len(),
                tv == views(tags@),
                all == forall|x: int|
                    0 <= x < t ==> tag_matches_spec(datas@[i as int]@.tags, #[trigger] tv[x]),
            decreases tags.len() - t,
        {
            if !tag_matches(&datas[i], tags[t].as_str()) {
                all = false;
            }
            proof {
                assert(tv[t as int] == tags@[t as int]@);
            }
            t += 1;
        }
        flags.push(all);
        i += 1;
    }
    let kept = keep_where(&ctx.playlist.remaining, &flags, Ghost(pred));
    finish_filter(ctx, kept, &prev_current)
}

/// `ftn`: keeps the remaining songs that have no tags.
pub fn no_tags(ctx: &mut Context) -> (r: CommandReturn)
    requires
        old(ctx).wf(),
    ensures
        final(ctx).wf(),
        (final(ctx)@, r) == no_tags_spec(old(ctx)@),
{
    if ctx.playlist.remaining.len() == 0 {
        return CommandReturn::Nothing;
    }
    let prev_current = ctx.playlist.remaining[0].clone();
    let ghost c0 = ctx@;
    let ghost pred = untagged_pred(c0.files.map);
    let datas = tags_of_remaining(ctx);
    let mut flags: Vec<bool> = Vec::new();
    let mut i: usize = 0;
    while i < datas.len()
        invariant
            pred == untagged_pred(c0.files.map),
            datas.len() == ctx.playlist.remaining.len(),
            ctx.playlist.remaining@ == old(ctx).playlist.remaining@,
            forall|j: int|
                0 <= j < datas.len() ==> (#[trigger] datas@[j])@.tags == tags_or_empty(
                    c0.files.map,
                    ctx.playlist.remaining@[j]@,
                ),
            i <= datas.len(),
            flags.len() == i,
            forall|j: int| 0 <= j < i ==> flags@[j] == pred(#[trigger] ctx.playlist.remaining@[j]@),
        decreases datas.len() - i,
    {
        let empty = datas[i].tags.len() == 0;
        proof {
            let tg = views(datas@[i as int].tags@);
            if empty {
                assert(tg.to_set() =~= Set::<Seq<char>>::empty());
            } else {
                assert(tg.to_set().contains(tg[0]));
            }
        }
        flags.push(empty);
        i += 1;
    }
    let kept = keep_where(&ctx.playlist.remaining, &flags, Ghost(pred));
    finish_filter(ctx, kept, &prev_current)
}

/// `fsf SEARCH`: keeps the remaining songs whose path contains the search text,
/// both in lower case.
pub fn search_full(ctx: &mut Context, search: &Vec<String>) -> (r: CommandReturn)
    requires
        old(ctx).wf(),
    ensures
        final(ctx).wf(),
        (final(ctx)@, r) == search_full_spec(old(ctx)@, views(search@)),
{
    if ctx.playlist.remaining.len() == 0 {
        return CommandReturn::Nothing;
    }
    let prev_current = ctx.playlist.remaining[0].clone();
    let needle = to_lowercase(join_strs(search, " ").as_str());
    let ghost sv = views(search@);
    let ghost pred = path_contains_pred(search_text(sv));
    let mut flags: Vec<bool> = Vec::new();
    let mut i: usize = 0;
    while i < ctx.playlist.remaining.len()
        invariant
            pred == path_contains_pred(search_text(sv)),
            sv == views(search@),
            needle@ == search_text(sv),
            i <= ctx.playlist.remaining.len(),
            flags.len() == i,
            forall|j: int| 0 <= j < i ==> flags@[j] == pred(#[trigger] ctx.playlist.remaining@[j]@),
        decreases ctx.playlist.remaining.len() - i,
    {
        let lower = to_lowercase(ctx.playlist.remaining[i].as_str());
        let found = contains_str(lower.as_str(), needle.as_str());
        assert(found == pred(ctx.playlist.remaining@[i as int]@));
        flags.push(found);
        i += 1;
    }
    let kept = keep_where(&ctx.playlist.remaining, &flags, Ghost(pred));
    finish_filter(ctx, kept, &prev_current)
}

/// `fss SEARCH`: keeps the remaining songs whose path starts with the search
/// text, both in lower case.
pub fn filepath_starts_with(ctx: &mut Context, search: &Vec<String>) -> (r: CommandReturn)
    requires
        old(ctx).wf(),
    ensures
        final(ctx).wf(),
        (final(ctx)@, r) == filepath_starts_with_spec(old(ctx)@, views(search@)),
{
    if ctx.playlist.remaining.len() == 0 {
        return CommandReturn::Nothing;
    }
    let prev_current = ctx.playlist.remaining[0].clone();
    let needle = to_lowercase(join_strs(search, " ").as_str());
    let ghost sv = views(search@);
    let ghost pred = path_starts_pred(search_text(sv));
    let mut flags: Vec<bool> = Vec::new();
    let mut i: usize = 0;
    while i < ctx.playlist.remaining.len()
        invariant
            pred == path_starts_pred(search_text(sv)),
            sv == views(search@),
            needle@ == search_text(sv),
            i <= ctx.playlist.remaining.len(),
            flags.len() == i,
            forall|j: int| 0 <= j < i ==> flags@[j] == pred(#[trigger] ctx.playlist.remaining@[j]@),
        decreases ctx.playlist.remaining.len() - i,
    {
        let lower = to_lowercase(ctx.playlist.remaining[i].as_str());
        flags.push(starts_with_str(lower.as_str(), needle.as_str()));
        i += 1;
    }
    let kept = keep_where(&ctx.playlist.remaining, &flags, Ghost(pred));
    finish_filter(ctx, kept, &prev_current)
}

/// `fs SEARCH`: keeps the remaining songs whose file name contains the search
/// text, both in lower case.
pub fn search_file_name(ctx: &mut Context, search: &Vec<String>) -> (r: Result<CommandReturn, CommandError>)
    requires
        old(ctx).wf(),
    ensures
        final(ctx).wf(),
        final(ctx)@ == search_file_name_spec(old(ctx)@, views(search@)).0,
        match (r, search_file_name_spec(old(ctx)@, views(search@)).1) {
            (Ok(a), Ok(b)) => a == b,
            (Err(a), Err(b)) => a@ == b,
            _ => false,
        },
{
    if ctx.playlist.remaining.len() == 0 {
        return Ok(CommandReturn::Nothing);
    }
    let prev_current = ctx.playlist.remaining[0].clone();
    let needle = to_lowercase(join_strs(search, " ").as_str());
    let ghost sv = views(search@);
    let ghost rem = views(ctx.playlist.remaining@);
    let ghost pred = name_contains_pred(search_text(sv));
    let mut flags: Vec<bool> = Vec::new();
    let mut i: usize = 0;
    while i < ctx.playlist.remaining.len()
        invariant
            pred == name_contains_pred(search_text(sv)),
            sv == views(search@),
            ctx.wf(),
            ctx@ == old(ctx)@,
            ctx.playlist.remaining@ == old(ctx).playlist.remaining@,
            rem == views(ctx.playlist.remaining@),
            needle@ == search_text(sv),
            i <= ctx.playlist.remaining.len(),
            flags.len() == i,
            first_nameless(rem, 0) == first_nameless(rem, i as int),
            forall|j: int| 0 <= j < i ==> flags@[j] == pred(#[trigger] ctx.playlist.remaining@[j]@),
        decreases ctx.playlist.remaining.len() - i,
    {
        match path_file_name(ctx.playlist.remaining[i].as_str()) {
            Some(name) => {
                let lower = to_lowercase(name.as_str());
                flags.push(contains_str(lower.as_str(), needle.as_str()));
                assert(rem[i as int] == ctx.playlist.remaining@[i as int]@);
            },
            None => {
                assert(rem[i as int] == ctx.playlist.remaining@[i as int]@);
                return Err(CommandError::InvalidFileName(ctx.playlist.remaining[i].clone()));
            },
        }
        i += 1;
    }
    assert(first_nameless(rem, i as int) is None);
    let kept = keep_where(&ctx.playlist.remaining, &flags, Ghost(pred));
    let r = finish_filter(ctx, kept, &prev_current);
    Ok(r)
}

} // verus!
