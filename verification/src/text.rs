//! Text helpers shared by the modules that report in words.

use vstd::prelude::*;

verus! {

/// The character that writes the digit `d`, for `d` below ten.
pub open spec fn digit_char(d: nat) -> char {
    if d == 0 {
        '0'
    } else if d == 1 {
        '1'
    } else if d == 2 {
        '2'
    } else if d == 3 {
        '3'
    } else if d == 4 {
        '4'
    } else if d == 5 {
        '5'
    } else if d == 6 {
        '6'
    } else if d == 7 {
        '7'
    } else if d == 8 {
        '8'
    } else {
        '9'
    }
}

/// The decimal numeral of `n`: most significant digit first, no leading zero
/// except for zero itself.
pub open spec fn decimal_digits(n: nat) -> Seq<char>
    decreases n,
{
    if n < 10 {
        seq![digit_char(n)]
    } else {
        decimal_digits(n / 10).push(digit_char(n % 10))
    }
}

/// Calls `usize::to_string`. Trusted: the text is the decimal numeral of `n`,
/// as the standard library's `Display` for integers writes it.
#[verifier::external_body]
pub(crate) fn decimal_text(n: usize) -> (text: String)
    ensures
        text@ == decimal_digits(n as nat),
{
    n.to_string()
}

/// Calls `str::eq`. Trusted: two string slices are equal exactly when they hold
/// the same characters.
#[verifier::external_body]
pub(crate) fn same_text(a: &str, b: &str) -> (same: bool)
    ensures
        same == (a@ == b@),
{
    a == b
}

/// A text without the white space at its start and at its end, as `str::trim`
/// takes it off.
pub uninterp spec fn trimmed(text: Seq<char>) -> Seq<char>;

/// Calls `str::trim`. Trusted: the result depends on the characters alone.
#[verifier::external_body]
pub(crate) fn trim_text(text: &str) -> (out: &str)
    ensures
        out@ == trimmed(text@),
{
    text.trim()
}

/// A text with a tab put behind each of its line feeds.
pub open spec fn indented(text: Seq<char>) -> Seq<char>
    decreases text.len(),
{
    if text.len() == 0 {
        text
    } else if text.last() == '\n' {
        indented(text.drop_last()).push('\n').push('\t')
    } else {
        indented(text.drop_last()).push(text.last())
    }
}

/// Calls `str::replace` with a line feed as the pattern. Trusted: every line
/// feed is replaced by a line feed and a tab, and nothing else is changed.
#[verifier::external_body]
pub(crate) fn indent_text(text: &str) -> (out: String)
    ensures
        out@ == indented(text@),
{
    text.replace('\n', "\n\t")
}

/// A text between quotation marks, with the escapes that `Debug` writes.
pub uninterp spec fn quoted(text: Seq<char>) -> Seq<char>;

/// Formats a string slice with `Debug`. Trusted: the result depends on the
/// characters alone.
#[verifier::external_body]
pub(crate) fn quote_text(text: &str) -> (out: String)
    ensures
        out@ == quoted(text@),
{
    format!("{:?}", text)
}

/// Formats a value with `Debug`. Nothing is known of the text.
#[verifier::external_body]
pub(crate) fn debug_text<T: std::fmt::Debug>(value: &T) -> String {
    format!("{:?}", value)
}

} // verus!
