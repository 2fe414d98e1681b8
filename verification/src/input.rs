//! Reading the player's stake and decisions out of lines of text.

use vstd::prelude::*;
use vstd::string::StrSliceExecFns;
use crate::round::Decision;

verus! {

/// Whether `text` holds the letter `upper` or its lower-case form `lower`.
pub open spec fn mentions(text: Seq<char>, upper: char, lower: char) -> bool {
    text.contains(upper) || text.contains(lower)
}

/// The decision that a line of text stands for: a line with a Q in it quits,
/// else one with an H hits, else one with an S stands, in either case of the
/// letter; any other line is no decision.
pub open spec fn decision_of(text: Seq<char>) -> Option<Decision> {
    if mentions(text, 'Q', 'q') {
        Some(Decision::Quit)
    } else if mentions(text, 'H', 'h') {
        Some(Decision::Hit)
    } else if mentions(text, 'S', 's') {
        Some(Decision::Stand)
    } else {
        None
    }
}

/// Whether `text` holds one of the two letters.
pub fn has_letter(text: &str, upper: char, lower: char) -> (found: bool)
    ensures
        found == mentions(text@, upper, lower),
{
    let n: usize = text.unicode_len();
    let mut i: usize = 0;
    while i < n
        invariant
            i <= n,
            n == text@.len(),
            forall|j: int| 0 <= j < i ==> text@[j] != upper && text@[j] != lower,
        decreases n - i,
    {
        let c: char = text.get_char(i);
        if c == upper || c == lower {
            return true;
        }
        i += 1;
    }
    false
}

/// The decision that `text` stands for, if any.
pub fn parse_decision(text: &str) -> (decision: Option<Decision>)
    ensures
        decision == decision_of(text@),
{
    if has_letter(text, 'Q', 'q') {
        Some(Decision::Quit)
    } else if has_letter(text, 'H', 'h') {
        Some(Decision::Hit)
    } else if has_letter(text, 'S', 's') {
        Some(Decision::Stand)
    } else {
        None
    }
}

/// The largest stake that can be placed.
pub const MAX_BET: u32 = 65535;

/// Whether `c` is white space that may surround a stake: a space, a tab, a
/// line feed or a carriage return.
pub open spec fn is_blank(c: char) -> bool {
    c == ' ' || c == '\t' || c == '\n' || c == '\r'
}

/// Whether `c` is a decimal digit.
pub open spec fn is_digit(c: char) -> bool {
    '0' as int <= c as int <= '9' as int
}

/// The number that a run of decimal digits stands for.
pub open spec fn digits_value(digits: Seq<char>) -> int
    decreases digits.len(),
{
    if digits.len() == 0 {
        0
    } else {
        digits_value(digits.drop_last()) * 10 + (digits.last() as int - '0' as int)
    }
}

/// The first position from `from` on that holds no blank (the length of the
/// text if there is none).
pub open spec fn skip_blanks(text: Seq<char>, from: int) -> int
    decreases text.len() - from,
{
    if from < 0 || from >= text.len() || !is_blank(text[from]) {
        from
    } else {
        skip_blanks(text, from + 1)
    }
}

/// The first position from `from` on that holds no digit (the length of the
/// text if there is none).
pub open spec fn skip_digits(text: Seq<char>, from: int) -> int
    decreases text.len() - from,
{
    if from < 0 || from >= text.len() || !is_digit(text[from]) {
        from
    } else {
        skip_digits(text, from + 1)
    }
}

/// The stake that a line of text stands for: blanks, then one or more
/// digits, then blanks to the end, the digits giving a number from 1 to
/// `MAX_BET`. Any other line is no stake.
pub open spec fn bet_of(text: Seq<char>) -> Option<u32> {
    let start = skip_blanks(text, 0);
    let end = skip_digits(text, start);
    let value = digits_value(text.subrange(start, end));
    if start < end && skip_blanks(text, end) == text.len() && 1 <= value <= MAX_BET {
        Some(value as u32)
    } else {
        None
    }
}

/// Whether `text` is made of blanks up to `start`, digits from `start` up to
/// `end`, at least one, and blanks from `end` on.
pub open spec fn is_bet_text(text: Seq<char>, start: int, end: int) -> bool {
    &&& 0 <= start < end <= text.len()
    &&& forall|i: int| 0 <= i < start ==> is_blank(#[trigger] text[i])
    &&& forall|i: int| start <= i < end ==> is_digit(#[trigger] text[i])
    &&& forall|i: int| end <= i < text.len() ==> is_blank(#[trigger] text[i])
}

/// Skipping blanks from `from` stops at `to` when everything between is
/// blank and `to` is the end of the text or holds no blank.
pub proof fn skip_blanks_stops(text: Seq<char>, from: int, to: int)
    requires
        0 <= from <= to <= text.len(),
        forall|i: int| from <= i < to ==> is_blank(#[trigger] text[i]),
        to == text.len() || !is_blank(text[to]),
    ensures
        skip_blanks(text, from) == to,
    decreases to - from,
{
    if from < to {
        skip_blanks_stops(text, from + 1, to);
    }
}

/// Skipping digits from `from` stops at `to` when everything between is a
/// digit and `to` is the end of the text or holds no digit.
pub proof fn skip_digits_stops(text: Seq<char>, from: int, to: int)
    requires
        0 <= from <= to <= text.len(),
        forall|i: int| from <= i < to ==> is_digit(#[trigger] text[i]),
        to == text.len() || !is_digit(text[to]),
    ensures
        skip_digits(text, from) == to,
    decreases to - from,
{
    if from < to {
        skip_digits_stops(text, from + 1, to);
    }
}

/// A line of blanks, digits and blanks stands for the number that its
/// digits give if that is from 1 to `MAX_BET`, and for no stake otherwise.
pub proof fn bet_text_is_read(text: Seq<char>, start: int, end: int)
    requires
        is_bet_text(text, start, end),
    ensures
        bet_of(text) == if 1 <= digits_value(text.subrange(start, end)) <= MAX_BET {
            Some(digits_value(text.subrange(start, end)) as u32)
        } else {
            None
        },
{
    skip_blanks_stops(text, 0, start);
    skip_digits_stops(text, start, end);
    skip_blanks_stops(text, end, text.len() as int);
}

/// Whether `c` is a blank.
pub fn blank(c: char) -> (yes: bool)
    ensures
        yes == is_blank(c),
{
    c == ' ' || c == '\t' || c == '\n' || c == '\r'
}

/// The value of `c` as a decimal digit, if it is one.
pub fn digit(c: char) -> (value: Option<u32>)
    ensures
        value.is_some() == is_digit(c),
        is_digit(c) ==> value == Some((c as int - '0' as int) as u32),
{
    let code: u32 = c as u32;
    if 48 <= code && code <= 57 {
        Some(code - 48)
    } else {
        None
    }
}

/// The stake that `text` stands for, if any.
pub fn parse_bet(text: &str) -> (bet: Option<u32>)
    ensures
        bet == bet_of(text@),
{
    let n: usize = text.unicode_len();
    let mut i: usize = 0;
    while i < n && blank(text.get_char(i))
        invariant
            i <= n,
            n == text@.len(),
            skip_blanks(text@, 0) == skip_blanks(text@, i as int),
        decreases n - i,
    {
        i += 1;
    }
    let start: usize = i;
    let mut value: u32 = 0;
    loop
        invariant
            start <= i <= n,
            n == text@.len(),
            start == skip_blanks(text@, 0),
            skip_digits(text@, start as int) == skip_digits(text@, i as int),
            0 <= digits_value(text@.subrange(start as int, i as int)),
            digits_value(text@.subrange(start as int, i as int)) <= MAX_BET ==> value
                == digits_value(text@.subrange(start as int, i as int)),
            digits_value(text@.subrange(start as int, i as int)) > MAX_BET ==> value == MAX_BET + 1,
        ensures
            start <= i <= n,
            i == skip_digits(text@, start as int),
            0 <= digits_value(text@.subrange(start as int, i as int)),
            digits_value(text@.subrange(start as int, i as int)) <= MAX_BET ==> value
                == digits_value(text@.subrange(start as int, i as int)),
            digits_value(text@.subrange(start as int, i as int)) > MAX_BET ==> value == MAX_BET + 1,
        decreases n - i,
    {
        if i >= n {
            break;
        }
        let next: Option<u32> = digit(text.get_char(i));
        match next {
            None => {
                break;
            },
            Some(d) => {
                proof {
                    assert(text@.subrange(start as int, i + 1).drop_last() =~= text@.subrange(
                        start as int,
                        i as int,
                    ));
                }
                if value <= MAX_BET {
                    value = value * 10 + d;
                    if value > MAX_BET {
                        value = MAX_BET + 1;
                    }
                }
                i += 1;
            },
        }
    }
    let end: usize = i;
    while i < n && blank(text.get_char(i))
        invariant
            end <= i <= n,
            n == text@.len(),
            skip_blanks(text@, end as int) == skip_blanks(text@, i as int),
        decreases n - i,
    {
        i += 1;
    }
    if start < end && i == n && 1 <= value && value <= MAX_BET {
        Some(value)
    } else {
        None
    }
}

} // verus!
