//! Small operations on texts that the requests to the provider are built
//! with.

use vstd::prelude::*;
use vstd::string::{StrSliceExecFns, StringExecFns};

verus! {

/// Whether a character is white space: what `char::is_whitespace` returns
/// for it, which is whether Unicode gives it the property `White_Space`.
pub uninterp spec fn white_space(c: char) -> bool;

/// Calls `char::is_whitespace` of the standard library. Nothing is claimed of
/// the result but that it depends on the character alone.
#[verifier::external_body]
fn is_white_space(c: char) -> (blank: bool)
    ensures
        blank == white_space(c),
{
    c.is_whitespace()
}

/// The slash, as a set of characters.
pub open spec fn slash() -> spec_fn(char) -> bool {
    |c: char| c == '/'
}

/// White space, as a set of characters.
pub open spec fn blank() -> spec_fn(char) -> bool {
    |c: char| white_space(c)
}

/// `text` without the characters of `cut` at its end.
pub open spec fn without_trailing(text: Seq<char>, cut: spec_fn(char) -> bool) -> Seq<char>
    decreases text.len(),
{
    if text.len() > 0 && cut(text.last()) {
        without_trailing(text.drop_last(), cut)
    } else {
        text
    }
}

/// `text` without the characters of `cut` at its start.
pub open spec fn without_leading(text: Seq<char>, cut: spec_fn(char) -> bool) -> Seq<char>
    decreases text.len(),
{
    if text.len() > 0 && cut(text.first()) {
        without_leading(text.drop_first(), cut)
    } else {
        text
    }
}

/// `text` without the white space at its start and at its end.
pub open spec fn trimmed(text: Seq<char>) -> Seq<char> {
    without_trailing(without_leading(text, blank()), blank())
}

/// The character of a decimal digit.
pub open spec fn digit(d: nat) -> char {
    if d == 0 {
        '0'
    } else if d == 1 {
        '1'
    } else if d == 2 {
        '2'
    } else if d == 3 {
        '3'
    } else if d == 4 {
        '4'
    } else if d == 5 {
        '5'
    } else if d == 6 {
        '6'
    } else if d == 7 {
        '7'
    } else if d == 8 {
        '8'
    } else {
        '9'
    }
}

/// A number in decimal digits, without leading zeros.
pub open spec fn decimal(n: nat) -> Seq<char>
    decreases n,
{
    if n < 10 {
        seq![digit(n)]
    } else {
        decimal(n / 10).push(digit(n % 10))
    }
}

/// Cuts the slashes off the end of `text`.
pub fn trim_end_slashes(text: &str) -> (trimmed: &str)
    ensures
        trimmed@ == without_trailing(text@, slash()),
{
    let mut end = text.unicode_len();
    assert(text@.take(end as int) =~= text@);
    while end > 0 && text.get_char(end - 1) == '/'
        invariant
            end <= text@.len(),
            without_trailing(text@, slash()) == without_trailing(text@.take(end as int), slash()),
        decreases end,
    {
        assert(text@.take(end as int).drop_last() =~= text@.take(end - 1));
        end -= 1;
    }
    text.substring_char(0, end)
}

/// Cuts the slashes off the start of `text`.
pub fn trim_start_slashes(text: &str) -> (trimmed: &str)
    ensures
        trimmed@ == without_leading(text@, slash()),
{
    let len = text.unicode_len();
    let mut start: usize = 0;
    assert(text@.skip(0) =~= text@);
    while start < len && text.get_char(start) == '/'
        invariant
            start <= len == text@.len(),
            without_leading(text@, slash()) == without_leading(text@.skip(start as int), slash()),
        decreases len - start,
    {
        assert(text@.skip(start as int).drop_first() =~= text@.skip(start + 1));
        start += 1;
    }
    text.substring_char(start, len)
}

/// Cuts the white space off the start and the end of `text`.
pub fn trim(text: &str) -> (result: &str)
    ensures
        result@ == trimmed(text@),
{
    let len = text.unicode_len();
    let mut start: usize = 0;
    assert(text@.skip(0) =~= text@);
    while start < len && is_white_space(text.get_char(start))
        invariant
            start <= len == text@.len(),
            without_leading(text@, blank()) == without_leading(text@.skip(start as int), blank()),
        decreases len - start,
    {
        assert(text@.skip(start as int).drop_first() =~= text@.skip(start + 1));
        start += 1;
    }
    let ghost rest = text@.skip(start as int);
    let mut end = len;
    assert(rest.take(end - start) =~= rest);
    while end > start && is_white_space(text.get_char(end - 1))
        invariant
            start <= end <= len == text@.len(),
            rest == text@.skip(start as int),
            without_trailing(rest, blank()) == without_trailing(rest.take(end - start), blank()),
        decreases end,
    {
        assert(rest.take(end - start).drop_last() =~= rest.take(end - 1 - start));
        end -= 1;
    }
    text.substring_char(start, end)
}

/// The text of one decimal digit.
fn digit_text(d: u64) -> (text: &'static str)
    requires
        d < 10,
    ensures
        text@ == seq![digit(d as nat)],
{
    proof {
        reveal_strlit("0");
        reveal_strlit("1");
        reveal_strlit("2");
        reveal_strlit("3");
        reveal_strlit("4");
        reveal_strlit("5");
        reveal_strlit("6");
        reveal_strlit("7");
        reveal_strlit("8");
        reveal_strlit("9");
    }
    let text = if d == 0 {
        "0"
    } else if d == 1 {
        "1"
    } else if d == 2 {
        "2"
    } else if d == 3 {
        "3"
    } else if d == 4 {
        "4"
    } else if d == 5 {
        "5"
    } else if d == 6 {
        "6"
    } else if d == 7 {
        "7"
    } else if d == 8 {
        "8"
    } else {
        "9"
    };
    text
}

/// Writes a number in decimal digits.
pub fn decimal_text(n: u64) -> (text: String)
    ensures
        text@ == decimal(n as nat),
    decreases n,
{
    if n < 10 {
        String::from_str(digit_text(n))
    } else {
        let text = decimal_text(n / 10).concat(digit_text(n % 10));
        text
    }
}

/// The text, or `fallback` where there is none.
pub fn text_or(text: Option<String>, fallback: &str) -> (result: String)
    ensures
        result@ == match text {
            Some(t) => t@,
            None => fallback@,
        },
{
    match text {
        Some(t) => t,
        None => String::from_str(fallback),
    }
}

} // verus!
