//! The clock and the random source that a simulated reading draws on.

use crate::handlers::{all_digits, digit_of, is_digit};
use std::fmt::Write;
use vstd::prelude::*;

verus! {

/// The pattern of a sample's timestamp: date and time in UTC, to the second,
/// in the ISO-8601 form `2024-01-31T23:59:59Z`.
pub const TIMESTAMP_FORMAT: &'static str = "%Y-%m-%dT%H:%M:%SZ";

/// The number that the two decimal digits of `text` at `at` and `at + 1`
/// write, if both are digits.
pub open spec fn two_digits(text: Seq<char>, at: int) -> Option<nat> {
    if 0 <= at && at + 1 < text.len() && is_digit(text[at]) && is_digit(text[at + 1]) {
        Some(10 * digit_of(text[at]) + digit_of(text[at + 1]))
    } else {
        None
    }
}

/// Whether two decimal digits stand in `text` at `at` and write a number
/// from `low` to `high`.
pub open spec fn two_digits_within(text: Seq<char>, at: int, low: nat, high: nat) -> bool {
    two_digits(text, at) matches Some(number) && low <= number <= high
}

/// Whether `year` writes the year of a timestamp: four decimal digits, or,
/// for a year after 9999, a plus sign and at least five digits.
pub open spec fn is_year(year: Seq<char>) -> bool {
    ||| year.len() == 4 && all_digits(year)
    ||| year.len() >= 6 && year[0] == '+' && all_digits(year.drop_first())
}

/// Whether `text` is a timestamp in UTC to the second, as ISO 8601 writes
/// it: a year, then `-MM-DDTHH:MM:SSZ` with a month from 01 to 12, a day from
/// 01 to 31, an hour up to 23, a minute up to 59 and a second up to 60 (a
/// leap second).
pub open spec fn is_utc_timestamp(text: Seq<char>) -> bool {
    let split = text.len() - 16;
    &&& text.len() >= 20
    &&& is_year(text.subrange(0, split))
    &&& text[split] == '-'
    &&& two_digits_within(text, split + 1, 1, 12)
    &&& text[split + 3] == '-'
    &&& two_digits_within(text, split + 4, 1, 31)
    &&& text[split + 6] == 'T'
    &&& two_digits_within(text, split + 7, 0, 23)
    &&& text[split + 9] == ':'
    &&& two_digits_within(text, split + 10, 0, 59)
    &&& text[split + 12] == ':'
    &&& two_digits_within(text, split + 13, 0, 60)
    &&& text[split + 15] == 'Z'
}

/// Reads the clock with `chrono::Utc::now` and renders the instant with
/// `chrono::DateTime::format` under `pattern`.
///
/// Which instant is rendered depends on the moment of the call, and nothing
/// is claimed of it. Claimed is the shape that chrono gives the text under
/// [`TIMESTAMP_FORMAT`]: `%Y` writes the year in four digits, or with a plus
/// sign and more digits after the year 9999; `%m`, `%d`, `%H`, `%M` and `%S`
/// each write two digits, within 01 to 12, 01 to 31, 00 to 23, 00 to 59 and 00
/// to 60; every other character of the pattern is written as it stands.
/// Under any other pattern nothing is claimed, and one that chrono cannot
/// render leaves the text empty. The clock is trusted to stand at or after
/// the Unix epoch and within the years that chrono can hold; chrono panics
/// when it does not.
#[verifier::external_body]
fn utc_now_text(pattern: &str) -> (text: String)
    ensures
        pattern@ == TIMESTAMP_FORMAT@ ==> is_utc_timestamp(text@),
{
    let mut text = String::new();
    let _ = write!(text, "{}", chrono::Utc::now().format(pattern));
    text
}

/// The current time in UTC, written under [`TIMESTAMP_FORMAT`].
pub fn get_current_timestamp() -> (text: String)
    ensures
        is_utc_timestamp(text@),
{
    utc_now_text(TIMESTAMP_FORMAT)
}

/// Draws one value with `rand::Rng::gen_range` from the thread-local
/// generator `rand::thread_rng()`, over the half-open range `low..high`.
///
/// Claimed: the value lies in that range. `gen_range` panics on an empty
/// range, which the precondition rules out. Which value comes is up to the
/// generator: two calls may differ.
#[verifier::external_body]
pub(crate) fn random_in_range(low: u32, high: u32) -> (value: u32)
    requires
        low < high,
    ensures
        low <= value < high,
{
    rand::Rng::gen_range(&mut rand::thread_rng(), low..high)
}

} // verus!
