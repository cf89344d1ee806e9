//! Character-level text operations used by the command language:
//! splitting, joining, searching, replacing and integer parsing.
use vstd::prelude::*;

verus! {

/// Does `pat` occur in `s` starting at position `i`?
pub open spec fn matches_at(s: Seq<char>, pat: Seq<char>, i: int) -> bool {
    0 <= i && i + pat.len() <= s.len() && s.subrange(i, i + pat.len()) == pat
}

/// `pat` occurs somewhere in `s` (the empty pattern occurs everywhere).
pub open spec fn contains_text(s: Seq<char>, pat: Seq<char>) -> bool {
    exists|i: int| matches_at(s, pat, i)
}

pub open spec fn starts_with(s: Seq<char>, prefix: Seq<char>) -> bool {
    prefix.len() <= s.len() && s.subrange(0, prefix.len() as int) == prefix
}

pub open spec fn ends_with(s: Seq<char>, suffix: Seq<char>) -> bool {
    suffix.len() <= s.len() && s.subrange(s.len() - suffix.len(), s.len() as int) == suffix
}

/// The pieces of `s[start..]` separated by non-overlapping occurrences of `pat`,
/// scanning from `i` (the start of the current piece is `start`).
pub open spec fn split_from(s: Seq<char>, pat: Seq<char>, start: int, i: int) -> Seq<Seq<char>>
    decreases s.len() - i,
{
    if pat.len() == 0 || i + pat.len() > s.len() || i < 0 {
        seq![s.subrange(start, s.len() as int)]
    } else if matches_at(s, pat, i) {
        seq![s.subrange(start, i)] + split_from(s, pat, i + pat.len(), i + pat.len())
    } else {
        split_from(s, pat, start, i + 1)
    }
}

/// `s` split at every occurrence of `pat`, as `str::split` does it: the leftmost
/// occurrence first, occurrences never overlap, and there is always at least one piece.
pub open spec fn split_text(s: Seq<char>, pat: Seq<char>) -> Seq<Seq<char>> {
    split_from(s, pat, 0, 0)
}

/// A split always has at least one piece.
pub proof fn lemma_split_nonempty(s: Seq<char>, pat: Seq<char>, start: int, i: int)
    ensures
        split_from(s, pat, start, i).len() >= 1,
    decreases s.len() - i,
{
    if pat.len() == 0 || i + pat.len() > s.len() || i < 0 {
    } else if matches_at(s, pat, i) {
        lemma_split_nonempty(s, pat, i + pat.len(), i + pat.len());
    } else {
        lemma_split_nonempty(s, pat, start, i + 1);
    }
}

/// `parts` joined with `sep` between consecutive parts.
pub open spec fn join_text(parts: Seq<Seq<char>>, sep: Seq<char>) -> Seq<char>
    decreases parts.len(),
{
    if parts.len() == 0 {
        Seq::empty()
    } else if parts.len() == 1 {
        parts[0]
    } else {
        join_text(parts.drop_last(), sep) + sep + parts.last()
    }
}

/// `s[i..]` with every non-overlapping occurrence of `from` (leftmost first)
/// replaced by `to`.
pub open spec fn replace_from(s: Seq<char>, from: Seq<char>, to: Seq<char>, i: int) -> Seq<char>
    decreases s.len() - i,
{
    if i < 0 || i >= s.len() {
        Seq::empty()
    } else if from.len() > 0 && matches_at(s, from, i) {
        to + replace_from(s, from, to, i + from.len())
    } else {
        seq![s[i]] + replace_from(s, from, to, i + 1)
    }
}

/// `s` with every occurrence of the non-empty pattern `from` replaced by `to`,
/// as `str::replace` does it.
pub open spec fn replace_text(s: Seq<char>, from: Seq<char>, to: Seq<char>) -> Seq<char> {
    replace_from(s, from, to, 0)
}

/// The characters of a string slice, in order.
pub fn chars_of(s: &str) -> (r: Vec<char>)
    ensures
        r@ == s@,
{
    let mut r: Vec<char> = Vec::new();
    for c in it: s.chars()
        invariant
            r@ == it.seq().take(it.index() as int),
            it.seq() == s@,
    {
        r.push(c);
    }
    r
}

/// Appends one character to a string (`String::push`).
#[verifier::external_body]
pub(crate) fn push_char(s: &mut String, c: char)
    ensures
        final(s)@ == old(s)@.push(c),
{
    s.push(c);
}

/// Appends a string slice to a string.
pub(crate) fn push_str(s: &mut String, t: &str)
    ensures
        final(s)@ == old(s)@ + t@,
{
    s.append(t);
}

/// A new string holding the characters `cs[from..to]`.
pub fn string_from(cs: &Vec<char>, from: usize, to: usize) -> (r: String)
    requires
        from <= to <= cs.len(),
    ensures
        r@ == cs@.subrange(from as int, to as int),
{
    let mut r = String::new();
    let mut i = from;
    while i < to
        invariant
            from <= i <= to <= cs.len(),
            r@ == cs@.subrange(from as int, i as int),
        decreases to - i,
    {
        push_char(&mut r, cs[i]);
        i += 1;
    }
    r
}

/// A copy of a string slice.
pub fn copy_str(s: &str) -> (r: String)
    ensures
        r@ == s@,
{
    let mut r = String::new();
    push_str(&mut r, s);
    r
}

/// Character-wise equality of two string slices.
pub fn str_eq(a: &str, b: &str) -> (r: bool)
    ensures
        r == (a@ == b@),
{
    let x = chars_of(a);
    let y = chars_of(b);
    if x.len() != y.len() {
        return false;
    }
    let mut i: usize = 0;
    while i < x.len()
        invariant
            x@ == a@,
            y@ == b@,
            x.len() == y.len(),
            i <= x.len(),
            forall|j: int| 0 <= j < i ==> x@[j] == y@[j],
        decreases x.len() - i,
    {
        if x[i] != y[i] {
            return false;
        }
        i += 1;
    }
    assert(x@ =~= y@);
    true
}

/// Whether `pat` occurs in `cs` at position `i` (exec).
pub fn matches_at_exec(cs: &Vec<char>, pat: &Vec<char>, i: usize) -> (r: bool)
    ensures
        r == matches_at(cs@, pat@, i as int),
{
    if i > cs.len() || pat.len() > cs.len() - i {
        return false;
    }
    let mut j: usize = 0;
    while j < pat.len()
        invariant
            i + pat.len() <= cs.len(),
            j <= pat.len(),
            forall|k: int| 0 <= k < j ==> cs@[i + k] == pat@[k],
        decreases pat.len() - j,
    {
        if cs[i + j] != pat[j] {
            assert(cs@.subrange(i as int, i + pat.len())[j as int] != pat@[j as int]);
            return false;
        }
        j += 1;
    }
    assert(cs@.subrange(i as int, i + pat.len()) =~= pat@);
    true
}

/// Whether `pat` occurs anywhere in `s`.
pub fn contains_str(s: &str, pat: &str) -> (r: bool)
    ensures
        r == contains_text(s@, pat@),
{
    let cs = chars_of(s);
    let ps = chars_of(pat);
    if ps.len() == 0 {
        assert(s@.subrange(0, 0) =~= pat@);
        assert(matches_at(s@, pat@, 0));
        return true;
    }
    if ps.len() > cs.len() {
        assert forall|i: int| !matches_at(s@, pat@, i) by {}
        return false;
    }
    let mut i: usize = 0;
    while i <= cs.len() - ps.len()
        invariant
            cs@ == s@,
            ps@ == pat@,
            0 < ps.len() <= cs.len(),
            i <= cs.len() - ps.len() + 1,
            forall|k: int| 0 <= k < i ==> !matches_at(s@, pat@, k),
        decreases cs.len() - ps.len() + 1 - i,
    {
        if matches_at_exec(&cs, &ps, i) {
            return true;
        }
        i += 1;
    }
    assert forall|k: int| !matches_at(s@, pat@, k) by {}
    false
}

/// Whether `s` starts with `prefix`.
pub fn starts_with_str(s: &str, prefix: &str) -> (r: bool)
    ensures
        r == starts_with(s@, prefix@),
{
    let cs = chars_of(s);
    let ps = chars_of(prefix);
    matches_at_exec(&cs, &ps, 0)
}

/// Whether `s` ends with `suffix`.
pub fn ends_with_str(s: &str, suffix: &str) -> (r: bool)
    ensures
        r == ends_with(s@, suffix@),
{
    let cs = chars_of(s);
    let ps = chars_of(suffix);
    if ps.len() > cs.len() {
        return false;
    }
    matches_at_exec(&cs, &ps, cs.len() - ps.len())
}

/// `s` split at every occurrence of the pattern `pat` (see `split_text`).
pub fn split_str(s: &str, pat: &str) -> (r: Vec<String>)
    ensures
        r@.map_values(|p: String| p@) == split_text(s@, pat@),
{
    let cs = chars_of(s);
    let ps = chars_of(pat);
    let mut out: Vec<String> = Vec::new();
    if ps.len() == 0 {
        out.push(string_from(&cs, 0, cs.len()));
        assert(out@.map_values(|p: String| p@) =~= split_text(s@, pat@));
        return out;
    }
    let mut start: usize = 0;
    let mut i: usize = 0;
    while i <= cs.len() && ps.len() <= cs.len() - i
        invariant
            cs@ == s@,
            ps@ == pat@,
            ps.len() > 0,
            start <= i <= cs.len(),
            out@.map_values(|p: String| p@) + split_from(s@, pat@, start as int, i as int)
                == split_text(s@, pat@),
        decreases cs.len() - i,
    {
        if matches_at_exec(&cs, &ps, i) {
            let piece = string_from(&cs, start, i);
            let ghost before = out@.map_values(|p: String| p@);
            let ghost old_start = start as int;
            let ghost old_i = i as int;
            out.push(piece);
            assert(out@.map_values(|p: String| p@) =~= before.push(piece@));
            i = i + ps.len();
            start = i;
            assert(split_from(s@, pat@, old_start, old_i) == seq![s@.subrange(old_start, old_i)]
                + split_from(s@, pat@, i as int, i as int));
            assert(before + split_from(s@, pat@, old_start, old_i)
                =~= before.push(piece@) + split_from(s@, pat@, start as int, i as int));
        } else {
            i = i + 1;
        }
    }
    let piece = string_from(&cs, start, cs.len());
    let ghost before = out@.map_values(|p: String| p@);
    out.push(piece);
    assert(out@.map_values(|p: String| p@) =~= before.push(piece@));
    assert(split_from(s@, pat@, start as int, i as int) == seq![s@.subrange(start as int, s@.len() as int)]);
    assert(before + split_from(s@, pat@, start as int, i as int) =~= before.push(piece@));
    out
}

/// The views of a sequence of strings.
pub open spec fn views(v: Seq<String>) -> Seq<Seq<char>> {
    v.map_values(|p: String| p@)
}

/// The parts joined with `sep` between them (`[&str]::join`).
pub fn join_strs(parts: &Vec<String>, sep: &str) -> (r: String)
    ensures
        r@ == join_text(views(parts@), sep@),
{
    let mut r = String::new();
    let mut i: usize = 0;
    while i < parts.len()
        invariant
            i <= parts.len(),
            r@ == join_text(views(parts@).take(i as int), sep@),
        decreases parts.len() - i,
    {
        let ghost prev = views(parts@).take(i as int);
        if i > 0 {
            push_str(&mut r, sep);
        }
        push_str(&mut r, parts[i].as_str());
        proof {
            let next = views(parts@).take(i + 1);
            assert(next.drop_last() =~= prev);
            assert(next.last() == parts@[i as int]@);
            if i == 0 {
                assert(next =~= seq![parts@[0]@]);
            }
        }
        i += 1;
    }
    assert(views(parts@).take(parts.len() as int) =~= views(parts@));
    r
}

/// `s` with every occurrence of the non-empty pattern `from` replaced by `to`.
pub fn replace_str(s: &str, from: &str, to: &str) -> (r: String)
    requires
        from@.len() > 0,
    ensures
        r@ == replace_text(s@, from@, to@),
{
    let cs = chars_of(s);
    let fs = chars_of(from);
    let mut r = String::new();
    let mut i: usize = 0;
    while i < cs.len()
        invariant
            cs@ == s@,
            fs@ == from@,
            fs.len() > 0,
            i <= cs.len(),
            r@ + replace_from(s@, from@, to@, i as int) == replace_text(s@, from@, to@),
        decreases cs.len() - i,
    {
        if matches_at_exec(&cs, &fs, i) {
            let ghost prev = r@;
            push_str(&mut r, to);
            assert(prev + replace_from(s@, from@, to@, i as int) =~= r@ + replace_from(
                s@,
                from@,
                to@,
                i + fs.len(),
            ));
            i = i + fs.len();
        } else {
            let ghost prev = r@;
            push_char(&mut r, cs[i]);
            assert(prev + replace_from(s@, from@, to@, i as int) =~= r@ + replace_from(
                s@,
                from@,
                to@,
                i + 1,
            ));
            i = i + 1;
        }
    }
    assert(r@ + replace_from(s@, from@, to@, i as int) =~= r@);
    r
}

/// The lower-case form of a text, as `str::to_lowercase` computes it.
pub uninterp spec fn lowercase(s: Seq<char>) -> Seq<char>;

/// `str::to_lowercase`: the Unicode lower-case mapping of every character.
/// The contract names the result and states nothing more of it.
#[verifier::external_body]
pub(crate) fn to_lowercase(s: &str) -> (r: String)
    ensures
        r@ == lowercase(s@),
{
    s.to_lowercase()
}

/// Why a text is not an unsigned integer, as `usize::from_str` reports it.
#[derive(Clone, Copy, Debug, PartialEq, Eq)]
pub enum IntErrorKind {
    Empty,
    InvalidDigit,
    PosOverflow,
}

pub open spec fn is_digit(c: char) -> bool {
    '0' <= c <= '9'
}

pub open spec fn digit_value(c: char) -> int {
    c as int - '0' as int
}

/// Reads the decimal digits of `s[i..]` onto the value `acc` read so far.
pub open spec fn digits_from(s: Seq<char>, i: int, acc: int) -> Result<usize, IntErrorKind>
    decreases s.len() - i,
{
    if i < 0 || i >= s.len() {
        Ok(acc as usize)
    } else if !is_digit(s[i]) {
        Err(IntErrorKind::InvalidDigit)
    } else if acc * 10 + digit_value(s[i]) > usize::MAX {
        Err(IntErrorKind::PosOverflow)
    } else {
        digits_from(s, i + 1, acc * 10 + digit_value(s[i]))
    }
}

/// `usize::from_str`: an optional leading `+`, then one or more decimal digits,
/// read left to right; the first character that is no digit is an error, and so
/// is a value that passes `usize::MAX`.
pub open spec fn parse_usize_spec(s: Seq<char>) -> Result<usize, IntErrorKind> {
    if s.len() == 0 {
        Err(IntErrorKind::Empty)
    } else if s.len() == 1 && (s[0] == '+' || s[0] == '-') {
        Err(IntErrorKind::InvalidDigit)
    } else if s[0] == '+' {
        digits_from(s, 1, 0)
    } else {
        digits_from(s, 0, 0)
    }
}

/// Parses an unsigned integer the way `str::parse::<usize>` does.
pub fn parse_usize(s: &str) -> (r: Result<usize, IntErrorKind>)
    ensures
        r == parse_usize_spec(s@),
{
    let cs = chars_of(s);
    if cs.len() == 0 {
        return Err(IntErrorKind::Empty);
    }
    if cs.len() == 1 && (cs[0] == '+' || cs[0] == '-') {
        return Err(IntErrorKind::InvalidDigit);
    }
    let mut i: usize = if cs[0] == '+' { 1 } else { 0 };
    let mut acc: usize = 0;
    while i < cs.len()
        invariant
            cs@ == s@,
            cs.len() > 0,
            i <= cs.len(),
            digits_from(s@, i as int, acc as int) == parse_usize_spec(s@),
        decreases cs.len() - i,
    {
        let c = cs[i];
        if !('0' <= c && c <= '9') {
            return Err(IntErrorKind::InvalidDigit);
        }
        let d = (c as u32 - '0' as u32) as usize;
        if acc > (usize::MAX - d) / 10 {
            assert(acc * 10 + d > usize::MAX) by (nonlinear_arith)
                requires
                    acc > (usize::MAX - d) / 10,
                    d <= 9,
            ;
            return Err(IntErrorKind::PosOverflow);
        }
        assert(acc * 10 + d <= usize::MAX) by (nonlinear_arith)
            requires
                acc <= (usize::MAX - d) / 10,
                d <= 9,
        ;
        acc = acc * 10 + d;
        i += 1;
    }
    Ok(acc)
}


/// A line as read from the terminal, without its line ending: a trailing
/// `\n` goes, then a trailing `\r`.
pub open spec fn without_line_end(s: Seq<char>) -> Seq<char> {
    let a = if s.len() > 0 && s.last() == '\n' {
        s.drop_last()
    } else {
        s
    };
    if a.len() > 0 && a.last() == '\r' {
        a.drop_last()
    } else {
        a
    }
}

/// Takes the line ending off a line read from the terminal.
pub fn strip_line_end(s: &str) -> (r: String)
    ensures
        r@ == without_line_end(s@),
{
    let cs = chars_of(s);
    let mut n = cs.len();
    if n > 0 && cs[n - 1] == '\n' {
        n -= 1;
    }
    if n > 0 && cs[n - 1] == '\r' {
        n -= 1;
    }
    let r = string_from(&cs, 0, n);
    assert(r@ =~= without_line_end(s@));
    r
}

} // verus!
