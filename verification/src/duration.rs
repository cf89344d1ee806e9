//! How a length of time is written in a command: parts separated by spaces,
//! each a number followed by its unit (`s`, `m`, `h`; seconds where the part
//! ends in a digit). The numbers are fractions; they are read, and the parts
//! added up, by the program around the library.
use crate::text::{chars_of, is_digit, split_str, split_text, string_from, views};
use vstd::prelude::*;

verus! {

/// The unit of one part.
#[derive(Clone, Copy, Debug, PartialEq, Eq, Structural)]
pub enum Unit {
    Seconds,
    Minutes,
    Hours,
    /// a character that is no unit
    Unknown(char),
}

/// One part of a length of time, before its number is read.
#[derive(Debug)]
pub enum DurationPart {
    /// a part with no characters (two spaces in a row, or none at all)
    Empty,
    /// the number as written, and its unit
    Number { text: String, unit: Unit },
}

pub enum DurationPartView {
    Empty,
    Number { text: Seq<char>, unit: Unit },
}

impl View for DurationPart {
    type V = DurationPartView;

    open spec fn view(&self) -> DurationPartView {
        match self {
            DurationPart::Empty => DurationPartView::Empty,
            DurationPart::Number { text, unit } => DurationPartView::Number { text: text@, unit: *unit },
        }
    }
}

/// The unit that the character `c` names.
pub open spec fn unit_of(c: char) -> Unit {
    if c == 's' {
        Unit::Seconds
    } else if c == 'm' {
        Unit::Minutes
    } else if c == 'h' {
        Unit::Hours
    } else {
        Unit::Unknown(c)
    }
}

/// A part, read: a part that ends in a digit is all number, in seconds;
/// otherwise its last character is the unit.
pub open spec fn part_spec(p: Seq<char>) -> DurationPartView {
    if p.len() == 0 {
        DurationPartView::Empty
    } else if is_digit(p.last()) {
        DurationPartView::Number { text: p, unit: Unit::Seconds }
    } else {
        DurationPartView::Number { text: p.drop_last(), unit: unit_of(p.last()) }
    }
}

/// The parts of the text `s`, in order.
pub open spec fn duration_parts(s: Seq<char>) -> Seq<DurationPartView> {
    split_text(s, " "@).map_values(|p: Seq<char>| part_spec(p))
}

fn unit_char(c: char) -> (u: Unit)
    ensures
        u == unit_of(c),
{
    if c == 's' {
        Unit::Seconds
    } else if c == 'm' {
        Unit::Minutes
    } else if c == 'h' {
        Unit::Hours
    } else {
        Unit::Unknown(c)
    }
}

fn read_part(p: &str) -> (r: DurationPart)
    ensures
        r@ == part_spec(p@),
{
    let cs = chars_of(p);
    if cs.len() == 0 {
        return DurationPart::Empty;
    }
    let last = cs[cs.len() - 1];
    assert(last == p@.last());
    if '0' <= last && last <= '9' {
        let text = string_from(&cs, 0, cs.len());
        assert(text@ =~= p@);
        DurationPart::Number { text, unit: Unit::Seconds }
    } else {
        let text = string_from(&cs, 0, cs.len() - 1);
        assert(text@ =~= p@.drop_last());
        DurationPart::Number { text, unit: unit_char(last) }
    }
}

/// Splits a length of time into its parts, in order.
pub fn parse_duration(s: &str) -> (r: Vec<DurationPart>)
    ensures
        r@.map_values(|p: DurationPart| p@) == duration_parts(s@),
{
    let parts = split_str(s, " ");
    let ghost ps = split_text(s@, " "@);
    assert(views(parts@) == ps);
    let mut out: Vec<DurationPart> = Vec::new();
    let mut i: usize = 0;
    while i < parts.len()
        invariant
            i <= parts.len(),
            views(parts@) == ps,
            out@.map_values(|p: DurationPart| p@) == ps.take(i as int).map_values(
                |p: Seq<char>| part_spec(p),
            ),
        decreases parts.len() - i,
    {
        let part = read_part(parts[i].as_str());
        let ghost before = out@;
        let ghost pv = part@;
        out.push(part);
        assert(parts@[i as int]@ == ps[i as int]);
        assert(out@.map_values(|p: DurationPart| p@) =~= before.map_values(|p: DurationPart| p@).push(pv));
        assert(ps.take(i + 1) =~= ps.take(i as int).push(ps[i as int]));
        assert(out@.map_values(|p: DurationPart| p@) =~= ps.take(i + 1).map_values(
            |p: Seq<char>| part_spec(p),
        ));
        i += 1;
    }
    assert(ps.take(i as int) =~= ps);
    out
}

} // verus!
