//! The text of an entry field: its lines put together, and the two checks
//! that the form makes on it.

use vstd::prelude::*;

verus! {

/// `text` without the whitespace at its two ends. It stands for what
/// `str::trim` returns.
pub uninterp spec fn trimmed(text: Seq<char>) -> Seq<char>;

/// The number that `text` spells, where it spells one that fits in eight
/// bits with a sign; else `None`. It stands for what `str::parse::<i8>`
/// returns.
pub uninterp spec fn parsed_i8(text: Seq<char>) -> Option<i8>;

/// Calls `str::trim`.
///
/// Believed, not proved: the result is a function of the text alone, named
/// [`trimmed`].
#[verifier::external_body]
pub(crate) fn trim<'a>(text: &'a str) -> (inner: &'a str)
    ensures
        inner@ == trimmed(text@),
{
    text.trim()
}

/// Calls `str::parse::<i8>` and drops what the error says.
///
/// Believed, not proved: the result is a function of the text alone, named
/// [`parsed_i8`].
#[verifier::external_body]
pub(crate) fn parse_i8(text: &str) -> (value: Option<i8>)
    ensures
        value == parsed_i8(text@),
{
    match text.parse::<i8>() {
        Ok(number) => Some(number),
        Err(_) => None,
    }
}

/// The lines of a field put one after the other, with `separator` between
/// each two of them.
pub open spec fn joined(lines: Seq<String>, separator: Seq<char>) -> Seq<char>
    decreases lines.len(),
{
    if lines.len() == 0 {
        Seq::empty()
    } else if lines.len() == 1 {
        lines[0]@
    } else {
        joined(lines.drop_last(), separator) + separator + lines.last()@
    }
}

/// Holds where a field holds nothing but whitespace.
pub open spec fn is_blank(lines: Seq<String>) -> bool {
    trimmed(joined(lines, Seq::empty())).len() == 0
}

/// Holds for a number that is a rating: 1, 2, 3, 4 or 5.
pub open spec fn rating_accepted(parsed: Option<i8>) -> bool {
    parsed matches Some(value) && 1 <= value <= 5
}

/// Holds where a field spells a rating, with or without whitespace round it.
pub open spec fn spells_rating(lines: Seq<String>) -> bool {
    !is_blank(lines) && rating_accepted(parsed_i8(trimmed(joined(lines, Seq::empty()))))
}

/// Computes [`joined`].
pub fn join(lines: &Vec<String>, separator: &str) -> (text: String)
    ensures
        text@ == joined(lines@, separator@),
{
    let mut text = String::new();
    let mut i: usize = 0;
    while i < lines.len()
        invariant
            i <= lines.len(),
            text@ == joined(lines@.take(i as int), separator@),
        decreases lines.len() - i,
    {
        proof {
            let next = lines@.take(i + 1);
            assert(next.drop_last() == lines@.take(i as int));
            assert(next.last() == lines@[i as int]);
            if i == 0 {
                assert(next[0] == lines@[0]);
                assert(Seq::<char>::empty() + lines@[0]@ == lines@[0]@);
            }
        }
        if i > 0 {
            text.append(separator);
        }
        text.append(lines[i].as_str());
        i = i + 1;
    }
    proof {
        assert(lines@.take(i as int) == lines@);
    }
    text
}

/// Tells whether a parsed number is a rating.
pub fn rating_in_range(parsed: Option<i8>) -> (accepted: bool)
    ensures
        accepted == rating_accepted(parsed),
{
    match parsed {
        Some(value) => 1 <= value && value <= 5,
        None => false,
    }
}

/// Tells whether a field holds nothing but whitespace.
pub fn blank(lines: &Vec<String>) -> (empty: bool)
    ensures
        empty == is_blank(lines@),
{
    let text = join(lines, "");
    proof {
        reveal_strlit("");
        assert(""@ == Seq::<char>::empty());
    }
    trim(text.as_str()).is_empty()
}

/// Tells whether a field spells a rating from 1 to 5.
pub fn rating_is_valid(lines: &Vec<String>) -> (valid: bool)
    ensures
        valid == spells_rating(lines@),
{
    let text = join(lines, "");
    proof {
        reveal_strlit("");
        assert(""@ == Seq::<char>::empty());
    }
    let inner = trim(text.as_str());
    if inner.is_empty() {
        false
    } else {
        rating_in_range(parse_i8(inner))
    }
}

} // verus!
