//! Small helpers for building strings.

use vstd::prelude::*;

verus! {

/// Appends `c` to `text` with `String::push`, which puts the character at
/// the end of the string and leaves the rest as it was.
#[verifier::external_body]
pub(crate) fn push_char(text: &mut String, c: char)
    ensures
        final(text)@ == old(text)@.push(c),
{
    text.push(c);
}

/// Whether two texts hold the same characters.
pub fn same_text(a: &str, b: &str) -> (same: bool)
    ensures
        same == (a@ == b@),
{
    a.to_owned() == b.to_owned()
}

/// The character of one decimal digit.
pub open spec fn digit_char(d: nat) -> char {
    if d == 0 {
        '0'
    } else if d == 1 {
        '1'
    } else if d == 2 {
        '2'
    } else if d == 3 {
        '3'
    } else if d == 4 {
        '4'
    } else if d == 5 {
        '5'
    } else if d == 6 {
        '6'
    } else if d == 7 {
        '7'
    } else if d == 8 {
        '8'
    } else {
        '9'
    }
}

/// The decimal numeral of `n`, without leading zeros.
pub open spec fn decimal(n: nat) -> Seq<char>
    decreases n,
{
    if n < 10 {
        seq![digit_char(n)]
    } else {
        decimal(n / 10).push(digit_char(n % 10))
    }
}

fn digit(d: u64) -> (c: char)
    requires
        d < 10,
    ensures
        c == digit_char(d as nat),
{
    if d == 0 {
        '0'
    } else if d == 1 {
        '1'
    } else if d == 2 {
        '2'
    } else if d == 3 {
        '3'
    } else if d == 4 {
        '4'
    } else if d == 5 {
        '5'
    } else if d == 6 {
        '6'
    } else if d == 7 {
        '7'
    } else if d == 8 {
        '8'
    } else {
        '9'
    }
}

/// Writes `n` as a decimal numeral.
pub fn decimal_string(n: u64) -> (text: String)
    ensures
        text@ == decimal(n as nat),
    decreases n,
{
    if n < 10 {
        let mut text = String::new();
        push_char(&mut text, digit(n));
        assert(text@ =~= seq![digit_char(n as nat)]);
        text
    } else {
        let mut text = decimal_string(n / 10);
        push_char(&mut text, digit(n % 10));
        text
    }
}

/// The decimal numeral of `n`, with a minus sign where it is negative.
pub open spec fn signed_decimal(n: int) -> Seq<char> {
    if n < 0 {
        seq!['-'] + decimal((-n) as nat)
    } else {
        decimal(n as nat)
    }
}

/// Writes `n` as a decimal numeral, with a minus sign where it is negative.
pub fn signed_decimal_string(n: i32) -> (text: String)
    ensures
        text@ == signed_decimal(n as int),
{
    if n < 0 {
        let mut text = String::new();
        push_char(&mut text, '-');
        let magnitude: u64 = (-(n as i64)) as u64;
        text.append(decimal_string(magnitude).as_str());
        assert(text@ =~= seq!['-'] + decimal((-n) as nat));
        text
    } else {
        decimal_string(n as u64)
    }
}

/// The strings of `parts` one after the other, with `sep` between each two.
pub open spec fn joined(parts: Seq<Seq<char>>, sep: Seq<char>) -> Seq<char>
    decreases parts.len(),
{
    if parts.len() == 0 {
        Seq::empty()
    } else if parts.len() == 1 {
        parts[0]
    } else {
        joined(parts.drop_last(), sep) + sep + parts.last()
    }
}

/// The views of the strings of `parts`.
pub open spec fn views(parts: Seq<String>) -> Seq<Seq<char>> {
    parts.map_values(|s: String| s@)
}

/// Joins `parts` with `sep` between each two.
pub fn join(parts: &Vec<String>, sep: &str) -> (text: String)
    ensures
        text@ == joined(views(parts@), sep@),
{
    let mut text = String::new();
    let mut i: usize = 0;
    while i < parts.len()
        invariant
            i <= parts.len(),
            text@ == joined(views(parts@).take(i as int), sep@),
        decreases parts.len() - i,
    {
        let ghost done = views(parts@).take(i as int);
        let ghost more = views(parts@).take(i + 1);
        assert(more.drop_last() =~= done);
        assert(more.last() == parts[i as int]@);
        if i > 0 {
            text.append(sep);
        }
        text.append(parts[i].as_str());
        assert(text@ =~= joined(more, sep@));
        i += 1;
    }
    assert(views(parts@).take(i as int) =~= views(parts@));
    text
}

} // verus!
