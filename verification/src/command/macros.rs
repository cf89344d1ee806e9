//! Macros: named lists of commands, with `$0`, `$1`, ... standing for the
//! arguments and `$a` for all of them.
use crate::command::error::{CommandError, CommandErrorView};
use crate::data::config::{Config, ConfigView};
use crate::data::context::Context;
use crate::order::{sort_unique, strictly_sorted};
use crate::text::{
    copy_str, join_strs, join_text, push_char, push_str, replace_str, replace_text, split_str,
    split_text, views,
};
use vstd::prelude::*;

verus! {

/// The decimal digits of `n`.
pub open spec fn decimal(n: nat) -> Seq<char>
    decreases n,
{
    if n < 10 {
        seq![digit_char(n)]
    } else {
        decimal(n / 10) + seq![digit_char(n % 10)]
    }
}

pub open spec fn digit_char(d: nat) -> char {
    if d == 0 {
        '0'
    } else if d == 1 {
        '1'
    } else if d == 2 {
        '2'
    } else if d == 3 {
        '3'
    } else if d == 4 {
        '4'
    } else if d == 5 {
        '5'
    } else if d == 6 {
        '6'
    } else if d == 7 {
        '7'
    } else if d == 8 {
        '8'
    } else {
        '9'
    }
}

fn digit(d: usize) -> (c: char)
    requires
        d < 10,
    ensures
        c == digit_char(d as nat),
{
    if d == 0 {
        '0'
    } else if d == 1 {
        '1'
    } else if d == 2 {
        '2'
    } else if d == 3 {
        '3'
    } else if d == 4 {
        '4'
    } else if d == 5 {
        '5'
    } else if d == 6 {
        '6'
    } else if d == 7 {
        '7'
    } else if d == 8 {
        '8'
    } else {
        '9'
    }
}

/// `n` written in decimal.
pub fn decimal_text(n: usize) -> (r: String)
    ensures
        r@ == decimal(n as nat),
    decreases n,
{
    if n < 10 {
        let mut r = String::new();
        push_char(&mut r, digit(n));
        r
    } else {
        let mut r = decimal_text(n / 10);
        push_char(&mut r, digit(n % 10));
        r
    }
}

/// The commands `c` with `$i` replaced by `args[i]`, from the last argument
/// down to the first.
pub open spec fn substitute(c: Seq<char>, args: Seq<Seq<char>>, n: int) -> Seq<char>
    decreases n,
{
    if n <= 0 || n > args.len() {
        c
    } else {
        substitute(replace_text(c, "$"@ + decimal((n - 1) as nat), args[n - 1]), args, n - 1)
    }
}

/// The commands that a macro with the commands `c` runs for the arguments
/// `args`: the arguments put in place, then the text split at every `"; "`;
/// no command where the text is empty.
pub open spec fn expand_spec(c: Seq<char>, args: Seq<Seq<char>>) -> Seq<Seq<char>> {
    let s = replace_text(substitute(c, args, args.len() as int), "$a"@, join_text(args, " "@));
    if s.len() == 0 {
        Seq::empty()
    } else {
        split_text(s, "; "@)
    }
}

/// The commands that the macro text `commands` runs for the arguments `args`.
pub fn expand(commands: &str, args: &Vec<String>) -> (r: Vec<String>)
    ensures
        views(r@) == expand_spec(commands@, views(args@)),
{
    let ghost av = views(args@);
    let mut c = copy_str(commands);
    let mut n: usize = args.len();
    while n > 0
        invariant
            n <= args.len(),
            av == views(args@),
            substitute(c@, av, n as int) == substitute(commands@, av, args.len() as int),
        decreases n,
    {
        let mut pat = copy_str("$");
        let num = decimal_text(n - 1);
        push_str(&mut pat, num.as_str());
        proof {
            reveal_strlit("$");
        }
        assert(pat@.len() > 0);
        assert(av[n - 1] == args@[n - 1]@);
        c = replace_str(c.as_str(), pat.as_str(), args[n - 1].as_str());
        n -= 1;
    }
    let all = join_strs(args, " ");
    proof {
        reveal_strlit("$a");
    }
    let s = replace_str(c.as_str(), "$a", all.as_str());
    if s.as_str().is_empty() {
        return Vec::new();
    }
    assert(s@.len() > 0);
    split_str(s.as_str(), "; ")
}

/// `ma NAME DEF`: a new macro.
pub open spec fn add_macro_spec(c: ConfigView, name: Seq<char>, commands: Seq<Seq<char>>) -> (
    ConfigView,
    Result<(), CommandErrorView>,
) {
    if c.macros.contains_key(name) {
        (c, Err(CommandErrorView::MacroAlreadyExists(name)))
    } else {
        (ConfigView { macros: c.macros.insert(name, join_text(commands, " "@)), ..c }, Ok(()))
    }
}

/// Adds a macro that runs the words `commands`, joined by spaces.
pub fn add_macro(config: &mut Config, name: &str, commands: &Vec<String>) -> (r: Result<(), CommandError>)
    requires
        old(config).wf(),
    ensures
        final(config).wf(),
        final(config)@ == add_macro_spec(old(config)@, name@, views(commands@)).0,
        match (r, add_macro_spec(old(config)@, name@, views(commands@)).1) {
            (Ok(_), Ok(_)) => true,
            (Err(a), Err(b)) => a@ == b,
            _ => false,
        },
{
    if config.has_macro(name) {
        return Err(CommandError::MacroAlreadyExists(copy_str(name)));
    }
    let joined = join_strs(commands, " ");
    config.set_macro(name, joined);
    Ok(())
}

/// `mr NAME`: the macro is gone.
pub open spec fn remove_macro_spec(c: ConfigView, name: Seq<char>) -> (ConfigView, Result<(), CommandErrorView>) {
    if !c.macros.contains_key(name) {
        (c, Err(CommandErrorView::MacroDoesNotExist(name)))
    } else {
        (ConfigView { macros: c.macros.remove(name), ..c }, Ok(()))
    }
}

/// Removes a macro.
pub fn remove_macro(config: &mut Config, name: &str) -> (r: Result<(), CommandError>)
    requires
        old(config).wf(),
    ensures
        final(config).wf(),
        final(config)@ == remove_macro_spec(old(config)@, name@).0,
        match (r, remove_macro_spec(old(config)@, name@).1) {
            (Ok(_), Ok(_)) => true,
            (Err(a), Err(b)) => a@ == b,
            _ => false,
        },
{
    if !config.remove_macro(name) {
        assert(old(config)@.macros.remove(name@) =~= old(config)@.macros);
        return Err(CommandError::MacroDoesNotExist(copy_str(name)));
    }
    Ok(())
}

/// `mc NAME DEF`: the macro runs other commands.
pub open spec fn change_macro_spec(c: ConfigView, name: Seq<char>, commands: Seq<Seq<char>>) -> (
    ConfigView,
    Result<(), CommandErrorView>,
) {
    if !c.macros.contains_key(name) {
        (c, Err(CommandErrorView::MacroDoesNotExist(name)))
    } else {
        (ConfigView { macros: c.macros.insert(name, join_text(commands, " "@)), ..c }, Ok(()))
    }
}

/// Changes what a macro runs.
pub fn change_macro(config: &mut Config, name: &str, commands: &Vec<String>) -> (r: Result<(), CommandError>)
    requires
        old(config).wf(),
    ensures
        final(config).wf(),
        final(config)@ == change_macro_spec(old(config)@, name@, views(commands@)).0,
        match (r, change_macro_spec(old(config)@, name@, views(commands@)).1) {
            (Ok(_), Ok(_)) => true,
            (Err(a), Err(b)) => a@ == b,
            _ => false,
        },
{
    if !config.has_macro(name) {
        return Err(CommandError::MacroDoesNotExist(copy_str(name)));
    }
    let joined = join_strs(commands, " ");
    config.set_macro(name, joined);
    Ok(())
}

/// The lines `NAME = DEF` of the macros named in `order`, in that order.
pub open spec fn macro_listing(order: Seq<Seq<char>>, macros: Map<Seq<char>, Seq<char>>) -> Seq<char>
    decreases order.len(),
{
    if order.len() == 0 {
        Seq::empty()
    } else {
        macro_listing(order.drop_last(), macros) + order.last() + " = "@ + macros[order.last()]
            + "\n"@
    }
}

/// `ml`: every macro, by name in order, one per line.
pub open spec fn show_macros_post(c: ConfigView, text: Seq<char>) -> bool {
    exists|order: Seq<Seq<char>>|
        strictly_sorted(order) && order.to_set() == c.macros.dom() && text == macro_listing(
            order,
            c.macros,
        )
}

/// The text that lists every macro, by name in order.
pub fn show_macros(config: &Config) -> (r: String)
    requires
        config.wf(),
    ensures
        show_macros_post(config@, r@),
{
    let mut names: Vec<String> = Vec::new();
    let mut i: usize = 0;
    while i < config.macros.len()
        invariant
            i <= config.macros.len(),
            views(names@) == crate::assoc::key_views(config.macros@).take(i as int),
        decreases config.macros.len() - i,
    {
        let ghost before = views(names@);
        names.push(config.macros[i].0.clone());
        assert(views(names@) =~= before.push(config.macros@[i as int].0@));
        assert(crate::assoc::key_views(config.macros@).take(i + 1) =~= crate::assoc::key_views(
            config.macros@,
        ).take(i as int).push(config.macros@[i as int].0@));
        i += 1;
    }
    proof {
        assert(crate::assoc::key_views(config.macros@).take(i as int) =~= crate::assoc::key_views(
            config.macros@,
        ));
        assert(views(names@).to_set() =~= config@.macros.dom());
    }
    let sorted = sort_unique(&names);
    let mut text = String::new();
    let mut j: usize = 0;
    while j < sorted.len()
        invariant
            config.wf(),
            j <= sorted.len(),
            views(sorted@).to_set() == config@.macros.dom(),
            text@ == macro_listing(views(sorted@).take(j as int), config@.macros),
        decreases sorted.len() - j,
    {
        let name = &sorted[j];
        assert(views(sorted@).to_set().contains(views(sorted@)[j as int]));
        match config.get_macro(name.as_str()) {
            Some(commands) => {
                let ghost before = text@;
                push_str(&mut text, name.as_str());
                push_str(&mut text, " = ");
                push_str(&mut text, commands.as_str());
                push_str(&mut text, "\n");
                proof {
                    let o = views(sorted@).take(j + 1);
                    assert(o.drop_last() =~= views(sorted@).take(j as int));
                    assert(o.last() == name@);
                    assert(text@ =~= before + name@ + " = "@ + commands@ + "\n"@);
                }
            },
            None => {
                assert(false);
            },
        }
        j += 1;
    }
    assert(views(sorted@).take(j as int) =~= views(sorted@));
    text
}

/// The commands that the macro `name` runs for `args`, or the error that
/// there is no such macro.
pub fn run_macro(ctx: &Context, name: &str, args: &Vec<String>) -> (r: Result<Vec<String>, CommandError>)
    requires
        ctx.wf(),
    ensures
        match r {
            Ok(cmds) => ctx@.config.macros.contains_key(name@) && views(cmds@) == expand_spec(
                ctx@.config.macros[name@],
                views(args@),
            ),
            Err(e) => !ctx@.config.macros.contains_key(name@) && e@
                == CommandErrorView::MacroDoesNotExist(name@),
        },
{
    match ctx.config.get_macro(name) {
        Some(commands) => Ok(expand(commands.as_str(), args)),
        None => Err(CommandError::MacroDoesNotExist(copy_str(name))),
    }
}

/// The commands of the macro `name`, or of `default` where there is no such macro.
pub open spec fn macro_or(macros: Map<Seq<char>, Seq<char>>, name: Seq<char>, default: Seq<char>) -> Seq<char> {
    if macros.contains_key(name) {
        macros[name]
    } else {
        default
    }
}

/// The commands that the macro `name` runs for `args`; the commands `default`
/// where there is no such macro.
pub fn run_macro_or(ctx: &Context, name: &str, args: &Vec<String>, default: &str) -> (r: Vec<String>)
    requires
        ctx.wf(),
    ensures
        views(r@) == expand_spec(macro_or(ctx@.config.macros, name@, default@), views(args@)),
{
    match ctx.config.get_macro(name) {
        Some(commands) => expand(commands.as_str(), args),
        None => expand(default, args),
    }
}

} // verus!
