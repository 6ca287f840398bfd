//! Text building: decimal numerals and separated lists.

use vstd::prelude::*;
use vstd::string::StringExecFns;

verus! {

/// The numeral of one decimal digit; the empty text for any other number.
pub open spec fn digit_text(d: int) -> Seq<char> {
    if d == 0 {
        "0"@
    } else if d == 1 {
        "1"@
    } else if d == 2 {
        "2"@
    } else if d == 3 {
        "3"@
    } else if d == 4 {
        "4"@
    } else if d == 5 {
        "5"@
    } else if d == 6 {
        "6"@
    } else if d == 7 {
        "7"@
    } else if d == 8 {
        "8"@
    } else if d == 9 {
        "9"@
    } else {
        Seq::empty()
    }
}

/// The decimal numeral of a natural number, without leading zeros.
pub open spec fn natural_text(n: nat) -> Seq<char>
    decreases n,
{
    if n < 10 {
        digit_text(n as int)
    } else {
        natural_text(n / 10) + digit_text((n % 10) as int)
    }
}

/// The decimal numeral of an integer: a minus sign before the numeral of a
/// negative number's magnitude.
pub open spec fn integer_text(n: int) -> Seq<char> {
    if n < 0 {
        "-"@ + natural_text((-n) as nat)
    } else {
        natural_text(n as nat)
    }
}

fn digit(d: u64) -> (text: &'static str)
    requires
        d < 10,
    ensures
        text@ == digit_text(d as int),
{
    if d == 0 {
        "0"
    } else if d == 1 {
        "1"
    } else if d == 2 {
        "2"
    } else if d == 3 {
        "3"
    } else if d == 4 {
        "4"
    } else if d == 5 {
        "5"
    } else if d == 6 {
        "6"
    } else if d == 7 {
        "7"
    } else if d == 8 {
        "8"
    } else {
        "9"
    }
}

/// Writes a natural number in decimal.
pub fn natural(n: u64) -> (text: String)
    ensures
        text@ == natural_text(n as nat),
    decreases n,
{
    if n < 10 {
        digit(n).to_owned()
    } else {
        let mut text = natural(n / 10);
        text.append(digit(n % 10));
        text
    }
}

/// Writes an integer in decimal.
pub fn integer(n: i64) -> (text: String)
    ensures
        text@ == integer_text(n as int),
{
    if n < 0 {
        let mut text = "-".to_owned();
        let magnitude: u64 = (-(n + 1)) as u64 + 1;
        text.append(natural(magnitude).as_str());
        text
    } else {
        natural(n as u64)
    }
}

/// What each string of a sequence holds.
pub open spec fn texts(strings: Seq<String>) -> Seq<Seq<char>> {
    strings.map_values(|s: String| s@)
}

/// The parts in their order, with the separator between each two neighbours.
pub open spec fn joined(parts: Seq<Seq<char>>, separator: Seq<char>) -> Seq<char>
    decreases parts.len(),
{
    if parts.len() == 0 {
        Seq::empty()
    } else if parts.len() == 1 {
        parts[0]
    } else {
        joined(parts.drop_last(), separator) + separator + parts.last()
    }
}

/// Joins the strings at the positions `from..to` with the separator.
pub fn join_range(parts: &Vec<String>, from: usize, to: usize, separator: &str) -> (text: String)
    requires
        from <= to <= parts@.len(),
    ensures
        text@ == joined(texts(parts@).subrange(from as int, to as int), separator@),
{
    let mut text = String::new();
    let mut i: usize = from;
    while i < to
        invariant
            from <= i <= to <= parts@.len(),
            text@ == joined(texts(parts@).subrange(from as int, i as int), separator@),
        decreases to - i,
    {
        let ghost before = texts(parts@).subrange(from as int, i as int);
        let ghost after = texts(parts@).subrange(from as int, i + 1);
        assert(after.drop_last() =~= before);
        assert(after.last() == parts@[i as int]@);
        if i > from {
            text.append(separator);
        }
        text.append(parts[i].as_str());
        assert(text@ =~= joined(after, separator@));
        i = i + 1;
    }
    text
}

} // verus!
