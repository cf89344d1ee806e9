//! How a command line is read: its first word names the command, and the
//! number of words picks among commands of the same name.
use crate::text::{copy_str, join_strs, join_text, str_eq, views};
use vstd::prelude::*;

verus! {

/// The commands of one word.
#[derive(Clone, Copy, Debug, PartialEq, Eq, Structural)]
pub enum Plain {
    Help,
    Quit,
    QuitNoSave,
    Save,
    Reset,
    Toggle,
    Play,
    Pause,
    Randomize,
    Next,
    Sort,
    ListNames,
    NoTags,
    TagsCurrent,
    TagsAll,
    Progress,
    MacroList,
    Reload,
    Delete,
    FullPath,
    Directories,
}

/// The commands of two words: a name and one argument.
#[derive(Clone, Copy, Debug, PartialEq, Eq, Structural)]
pub enum Single {
    HelpOn,
    Skip,
    Max,
    Speed,
    Volume,
    Repeat,
    ListNew,
    ListDuplicate,
    ListCopy,
    ListAppend,
    ListRemove,
    ListSwitch,
    TagAddCurrent,
    TagRemoveCurrent,
    TagAddRemaining,
    TagRemoveRemaining,
    MacroRemove,
}

/// The commands that take all the words after their name.
#[derive(Clone, Copy, Debug, PartialEq, Eq, Structural)]
pub enum Rest {
    Echo,
    TagExists,
    TagAll,
    SearchFull,
    SearchName,
    SearchStart,
    JumpTo,
    JumpForward,
    JumpBackward,
    Move,
}

/// The commands that take a name and the words after it.
#[derive(Clone, Copy, Debug, PartialEq, Eq, Structural)]
pub enum Named {
    RunMacro,
    MacroAdd,
    MacroChange,
}

/// A command line, read.
#[derive(Debug)]
pub enum Command {
    Plain(Plain),
    Single(Single, String),
    Rest(Rest, Vec<String>),
    Named(Named, String, Vec<String>),
    /// the empty command line
    Empty,
    /// a line that names no command; the text is the line
    Unknown(String),
}

pub enum CommandView {
    Plain(Plain),
    Single(Single, Seq<char>),
    Rest(Rest, Seq<Seq<char>>),
    Named(Named, Seq<char>, Seq<Seq<char>>),
    Empty,
    Unknown(Seq<char>),
}

impl View for Command {
    type V = CommandView;

    open spec fn view(&self) -> CommandView {
        match self {
            Command::Plain(k) => CommandView::Plain(*k),
            Command::Single(k, a) => CommandView::Single(*k, a@),
            Command::Rest(k, a) => CommandView::Rest(*k, views(a@)),
            Command::Named(k, n, a) => CommandView::Named(*k, n@, views(a@)),
            Command::Empty => CommandView::Empty,
            Command::Unknown(s) => CommandView::Unknown(s@),
        }
    }
}

/// The command that the word `w` names when it stands alone.
pub open spec fn plain_kind(w: Seq<char>) -> Option<Plain> {
    if w == "h"@ || w == "?"@ || w == "help"@ {
        Some(Plain::Help)
    } else if w == "q"@ {
        Some(Plain::Quit)
    } else if w == "q!"@ {
        Some(Plain::QuitNoSave)
    } else if w == "s"@ {
        Some(Plain::Save)
    } else if w == "r"@ {
        Some(Plain::Reset)
    } else if w == "p"@ {
        Some(Plain::Toggle)
    } else if w == "p+"@ {
        Some(Plain::Play)
    } else if w == "p-"@ {
        Some(Plain::Pause)
    } else if w == "pr"@ {
        Some(Plain::Randomize)
    } else if w == "pn"@ {
        Some(Plain::Next)
    } else if w == "po"@ {
        Some(Plain::Sort)
    } else if w == "lg"@ {
        Some(Plain::ListNames)
    } else if w == "ftn"@ {
        Some(Plain::NoTags)
    } else if w == "tlc"@ {
        Some(Plain::TagsCurrent)
    } else if w == "tla"@ {
        Some(Plain::TagsAll)
    } else if w == "gd"@ {
        Some(Plain::Progress)
    } else if w == "ml"@ {
        Some(Plain::MacroList)
    } else if w == "dr"@ {
        Some(Plain::Reload)
    } else if w == "del"@ {
        Some(Plain::Delete)
    } else if w == "dp"@ {
        Some(Plain::FullPath)
    } else if w == "ds"@ {
        Some(Plain::Directories)
    } else {
        None
    }
}

/// The command that the word `w` names when one word follows it.
pub open spec fn single_kind(w: Seq<char>) -> Option<Single> {
    if w == "h"@ || w == "?"@ || w == "help"@ {
        Some(Single::HelpOn)
    } else if w == "pn"@ {
        Some(Single::Skip)
    } else if w == "pm"@ {
        Some(Single::Max)
    } else if w == "ps"@ {
        Some(Single::Speed)
    } else if w == "pv"@ {
        Some(Single::Volume)
    } else if w == "pd"@ {
        Some(Single::Repeat)
    } else if w == "ln"@ {
        Some(Single::ListNew)
    } else if w == "ld"@ {
        Some(Single::ListDuplicate)
    } else if w == "lc"@ {
        Some(Single::ListCopy)
    } else if w == "la"@ {
        Some(Single::ListAppend)
    } else if w == "lr"@ {
        Some(Single::ListRemove)
    } else if w == "ls"@ {
        Some(Single::ListSwitch)
    } else if w == "tac"@ {
        Some(Single::TagAddCurrent)
    } else if w == "trc"@ {
        Some(Single::TagRemoveCurrent)
    } else if w == "taa"@ {
        Some(Single::TagAddRemaining)
    } else if w == "tra"@ {
        Some(Single::TagRemoveRemaining)
    } else if w == "mr"@ {
        Some(Single::MacroRemove)
    } else {
        None
    }
}

/// The command that the word `w` names, taking all the words after it.
pub open spec fn rest_kind(w: Seq<char>) -> Option<Rest> {
    if w == "echo"@ {
        Some(Rest::Echo)
    } else if w == "fte"@ {
        Some(Rest::TagExists)
    } else if w == "fta"@ {
        Some(Rest::TagAll)
    } else if w == "fsf"@ {
        Some(Rest::SearchFull)
    } else if w == "fs"@ {
        Some(Rest::SearchName)
    } else if w == "fss"@ {
        Some(Rest::SearchStart)
    } else if w == "g"@ {
        Some(Rest::JumpTo)
    } else if w == "gf"@ {
        Some(Rest::JumpForward)
    } else if w == "gb"@ {
        Some(Rest::JumpBackward)
    } else if w == "dm"@ {
        Some(Rest::Move)
    } else {
        None
    }
}

/// The command that the word `w` names, taking a name and the words after it.
pub open spec fn named_kind(w: Seq<char>) -> Option<Named> {
    if w == "m"@ {
        Some(Named::RunMacro)
    } else if w == "ma"@ {
        Some(Named::MacroAdd)
    } else if w == "mc"@ {
        Some(Named::MacroChange)
    } else {
        None
    }
}

/// The command that the words `w` of a line make, given the macros `macros`:
/// `g` alone goes to the start, `pv` alone sets the full volume, and a first
/// word that names no command but a macro runs that macro.
pub open spec fn parse_spec(w: Seq<Seq<char>>, macros: Map<Seq<char>, Seq<char>>) -> CommandView {
    let n = w.len();
    let h = w[0];
    if n == 1 && h == "g"@ {
        CommandView::Rest(Rest::JumpTo, seq!["0"@])
    } else if n == 1 && h == "pv"@ {
        CommandView::Single(Single::Volume, "100"@)
    } else if rest_kind(h) is Some {
        CommandView::Rest(rest_kind(h).unwrap(), w.drop_first())
    } else if n == 1 && plain_kind(h) is Some {
        CommandView::Plain(plain_kind(h).unwrap())
    } else if n == 2 && single_kind(h) is Some {
        CommandView::Single(single_kind(h).unwrap(), w[1])
    } else if n >= 2 && named_kind(h) is Some {
        CommandView::Named(named_kind(h).unwrap(), w[1], w.skip(2))
    } else if n == 1 && h == ""@ {
        CommandView::Empty
    } else if macros.contains_key(h) {
        CommandView::Named(Named::RunMacro, h, w.drop_first())
    } else {
        CommandView::Unknown(join_text(w, " "@))
    }
}

fn plain_of(w: &str) -> (r: Option<Plain>)
    ensures
        r == plain_kind(w@),
{
    if str_eq(w, "h") || str_eq(w, "?") || str_eq(w, "help") {
        Some(Plain::Help)
    } else if str_eq(w, "q") {
        Some(Plain::Quit)
    } else if str_eq(w, "q!") {
        Some(Plain::QuitNoSave)
    } else if str_eq(w, "s") {
        Some(Plain::Save)
    } else if str_eq(w, "r") {
        Some(Plain::Reset)
    } else if str_eq(w, "p") {
        Some(Plain::Toggle)
    } else if str_eq(w, "p+") {
        Some(Plain::Play)
    } else if str_eq(w, "p-") {
        Some(Plain::Pause)
    } else if str_eq(w, "pr") {
        Some(Plain::Randomize)
    } else if str_eq(w, "pn") {
        Some(Plain::Next)
    } else if str_eq(w, "po") {
        Some(Plain::Sort)
    } else if str_eq(w, "lg") {
        Some(Plain::ListNames)
    } else if str_eq(w, "ftn") {
        Some(Plain::NoTags)
    } else if str_eq(w, "tlc") {
        Some(Plain::TagsCurrent)
    } else if str_eq(w, "tla") {
        Some(Plain::TagsAll)
    } else if str_eq(w, "gd") {
        Some(Plain::Progress)
    } else if str_eq(w, "ml") {
        Some(Plain::MacroList)
    } else if str_eq(w, "dr") {
        Some(Plain::Reload)
    } else if str_eq(w, "del") {
        Some(Plain::Delete)
    } else if str_eq(w, "dp") {
        Some(Plain::FullPath)
    } else if str_eq(w, "ds") {
        Some(Plain::Directories)
    } else {
        None
    }
}

fn single_of(w: &str) -> (r: Option<Single>)
    ensures
        r == single_kind(w@),
{
    if str_eq(w, "h") || str_eq(w, "?") || str_eq(w, "help") {
        Some(Single::HelpOn)
    } else if str_eq(w, "pn") {
        Some(Single::Skip)
    } else if str_eq(w, "pm") {
        Some(Single::Max)
    } else if str_eq(w, "ps") {
        Some(Single::Speed)
    } else if str_eq(w, "pv") {
        Some(Single::Volume)
    } else if str_eq(w, "pd") {
        Some(Single::Repeat)
    } else if str_eq(w, "ln") {
        Some(Single::ListNew)
    } else if str_eq(w, "ld") {
        Some(Single::ListDuplicate)
    } else if str_eq(w, "lc") {
        Some(Single::ListCopy)
    } else if str_eq(w, "la") {
        Some(Single::ListAppend)
    } else if str_eq(w, "lr") {
        Some(Single::ListRemove)
    } else if str_eq(w, "ls") {
        Some(Single::ListSwitch)
    } else if str_eq(w, "tac") {
        Some(Single::TagAddCurrent)
    } else if str_eq(w, "trc") {
        Some(Single::TagRemoveCurrent)
    } else if str_eq(w, "taa") {
        Some(Single::TagAddRemaining)
    } else if str_eq(w, "tra") {
        Some(Single::TagRemoveRemaining)
    } else if str_eq(w, "mr") {
        Some(Single::MacroRemove)
    } else {
        None
    }
}

fn rest_of(w: &str) -> (r: Option<Rest>)
    ensures
        r == rest_kind(w@),
{
    if str_eq(w, "echo") {
        Some(Rest::Echo)
    } else if str_eq(w, "fte") {
        Some(Rest::TagExists)
    } else if str_eq(w, "fta") {
        Some(Rest::TagAll)
    } else if str_eq(w, "fsf") {
        Some(Rest::SearchFull)
    } else if str_eq(w, "fs") {
        Some(Rest::SearchName)
    } else if str_eq(w, "fss") {
        Some(Rest::SearchStart)
    } else if str_eq(w, "g") {
        Some(Rest::JumpTo)
    } else if str_eq(w, "gf") {
        Some(Rest::JumpForward)
    } else if str_eq(w, "gb") {
        Some(Rest::JumpBackward)
    } else if str_eq(w, "dm") {
        Some(Rest::Move)
    } else {
        None
    }
}

fn named_of(w: &str) -> (r: Option<Named>)
    ensures
        r == named_kind(w@),
{
    if str_eq(w, "m") {
        Some(Named::RunMacro)
    } else if str_eq(w, "ma") {
        Some(Named::MacroAdd)
    } else if str_eq(w, "mc") {
        Some(Named::MacroChange)
    } else {
        None
    }
}

/// The words of `w` from `from` on.
fn words_from(w: &Vec<String>, from: usize) -> (r: Vec<String>)
    requires
        from <= w.len(),
    ensures
        views(r@) == views(w@).skip(from as int),
{
    let mut r: Vec<String> = Vec::new();
    let mut i: usize = from;
    while i < w.len()
        invariant
            from <= i <= w.len(),
            views(r@) == views(w@).subrange(from as int, i as int),
        decreases w.len() - i,
    {
        let ghost before = views(r@);
        let s = w[i].clone();
        r.push(s);
        assert(views(r@) =~= before.push(s@));
        assert(views(w@).subrange(from as int, i + 1) =~= views(w@).subrange(from as int, i as int).push(
            w@[i as int]@,
        ));
        i += 1;
    }
    assert(views(w@).subrange(from as int, i as int) =~= views(w@).skip(from as int));
    r
}

/// Reads the words of a command line; `is_macro` tells whether the first word
/// names a macro.
pub fn parse_command(w: &Vec<String>, is_macro: bool) -> (r: Command)
    requires
        w.len() >= 1,
    ensures
        forall|macros: Map<Seq<char>, Seq<char>>|
            macros.contains_key(w@[0]@) == is_macro ==> r@ == #[trigger] parse_spec(views(w@), macros),
{
    let n = w.len();
    let h = w[0].as_str();
    assert(views(w@)[0] == w@[0]@);
    if n == 1 && str_eq(h, "g") {
        let mut a: Vec<String> = Vec::new();
        a.push(copy_str("0"));
        assert(views(a@) =~= seq!["0"@]);
        return Command::Rest(Rest::JumpTo, a);
    }
    if n == 1 && str_eq(h, "pv") {
        return Command::Single(Single::Volume, copy_str("100"));
    }
    if let Some(k) = rest_of(h) {
        return Command::Rest(k, words_from(w, 1));
    }
    if n == 1 {
        if let Some(k) = plain_of(h) {
            return Command::Plain(k);
        }
    }
    if n == 2 {
        if let Some(k) = single_of(h) {
            assert(views(w@)[1] == w@[1]@);
            return Command::Single(k, w[1].clone());
        }
    }
    if n >= 2 {
        if let Some(k) = named_of(h) {
            assert(views(w@)[1] == w@[1]@);
            return Command::Named(k, w[1].clone(), words_from(w, 2));
        }
    }
    if n == 1 && str_eq(h, "") {
        return Command::Empty;
    }
    if is_macro {
        return Command::Named(Named::RunMacro, w[0].clone(), words_from(w, 1));
    }
    Command::Unknown(join_strs(w, " "))
}

} // verus!
