//! The operations on text that the standard library carries out for this
//! crate. Verus reads none of them: each contract below is taken on trust.

use vstd::prelude::*;

verus! {

/// What `str::trim` makes of a text: the text without the white space at
/// its two ends.
pub uninterp spec fn trimmed(text: Seq<char>) -> Seq<char>;

/// Whether a character is one of the ten decimal digits.
pub open spec fn is_digit(c: char) -> bool {
    '0' as u32 <= c as u32 <= '9' as u32
}

/// The number that a text of decimal digits writes.
pub open spec fn digits_value(digits: Seq<char>) -> nat
    decreases digits.len(),
{
    if digits.len() == 0 {
        0
    } else {
        (10 * digits_value(digits.drop_last()) + (digits.last() as u32 - '0' as u32)) as nat
    }
}

/// Whether a text holds decimal digits only.
pub open spec fn all_digits(digits: Seq<char>) -> bool {
    forall|i: int| 0 <= i < digits.len() ==> is_digit(#[trigger] digits[i])
}

/// A text without the `+` that it may begin with.
pub open spec fn unsigned_part(text: Seq<char>) -> Seq<char> {
    if text.len() > 0 && text[0] == '+' {
        text.drop_first()
    } else {
        text
    }
}

/// The index that a text writes: the text is decimal digits, at least one,
/// with or without a `+` before them, and the number fits.
pub open spec fn parsed_index(text: Seq<char>) -> Option<usize> {
    let digits = unsigned_part(text);
    if digits.len() > 0 && all_digits(digits) && digits_value(digits) <= usize::MAX {
        Some(digits_value(digits) as usize)
    } else {
        None
    }
}

/// A text with a character in it that is no digit writes no index, unless
/// that character is a `+` at the very beginning.
pub proof fn lemma_no_digit_no_index(text: Seq<char>, at: int)
    requires
        0 <= at < text.len(),
        !is_digit(text[at]),
        at > 0 || text[0] != '+',
    ensures
        parsed_index(text) is None,
{
    let digits = unsigned_part(text);
    if text[0] == '+' {
        assert(digits[at - 1] == text[at]);
    } else {
        assert(digits[at] == text[at]);
    }
}

/// Calls `str::starts_with` with a text as the pattern. The standard
/// library returns `true` exactly when the pattern matches a prefix of the
/// text, which for a pattern that is itself a text means that the text
/// begins with the pattern's characters.
#[verifier::external_body]
pub(crate) fn starts_with(text: &str, prefix: &str) -> (found: bool)
    ensures
        found == prefix@.is_prefix_of(text@),
{
    text.starts_with(prefix)
}

/// Calls `str::trim`. The result depends on the text alone; the contract
/// gives it its name and claims no more.
#[verifier::external_body]
pub(crate) fn trim(text: &str) -> (inner: &str)
    ensures
        inner@ == trimmed(text@),
{
    text.trim()
}

/// Calls `str::parse::<usize>` and keeps the number, dropping the parse
/// error. The standard library accepts decimal digits with an optional `+`
/// sign before them and nothing else: no other sign, no white space, no
/// underscore. It fails on a text without digits and on a number that does
/// not fit the type.
#[verifier::external_body]
pub(crate) fn parse_index(text: &str) -> (index: Option<usize>)
    ensures
        index == parsed_index(text@),
{
    text.parse::<usize>().ok()
}

} // verus!
