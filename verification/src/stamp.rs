//! Files that are named after the time at which they came to be.

use vstd::prelude::*;

use crate::text::{decimal_text, digit_char, join3, two_digit_text};

verus! {

/// How a point in time is written in a file's name.
pub const STAMP_FORMAT: &'static str = "%Y-%m-%d_%H-%M-%S";

/// Whether a character is a decimal digit.
pub open spec fn is_digit(c: char) -> bool {
    '0' <= c <= '9'
}

/// Whether a text can be a year: digits, at least four of them, with a sign before them
/// where the year is not in the range 0 to 9999.
pub open spec fn is_year(t: Seq<char>) -> bool {
    &&& t.len() >= 4
    &&& forall|i: int|
        0 <= i < t.len() ==> is_digit(#[trigger] t[i]) || i == 0 && (t[i] == '+' || t[i] == '-')
}

/// A point in time, as it is written in a file's name. Leap seconds are the second 60.
pub open spec fn stamp_text(
    year: Seq<char>,
    month: nat,
    day: nat,
    hour: nat,
    minute: nat,
    second: nat,
) -> Seq<char> {
    year + seq!['-'] + two_digit_text(month) + seq!['-'] + two_digit_text(day) + seq!['_']
        + two_digit_text(hour) + seq!['-'] + two_digit_text(minute) + seq!['-'] + two_digit_text(
        second,
    )
}

/// Whether a text is a point in time.
pub open spec fn is_stamp(t: Seq<char>) -> bool {
    exists|year: Seq<char>, month: nat, day: nat, hour: nat, minute: nat, second: nat|
        {
            &&& #[trigger] stamp_text(year, month, day, hour, minute, second) == t
            &&& is_year(year)
            &&& 1 <= month <= 12
            &&& 1 <= day <= 31
            &&& hour <= 23
            &&& minute <= 59
            &&& second <= 60
        }
}

/// The local time, as `chrono::Local::now` reads it and `DateTime::format` writes it in
/// `STAMP_FORMAT`. Which time it is depends on the machine; that it is a time in that form
/// does not.
#[verifier::external_body]
fn local_time(format: &str) -> (r: String)
    requires
        format@ == "%Y-%m-%d_%H-%M-%S"@,
    ensures
        is_stamp(r@),
{
    chrono::Local::now().format(format).to_string()
}

/// The local time, for a file's name.
pub fn local_stamp() -> (r: String)
    ensures
        is_stamp(r@),
{
    local_time(STAMP_FORMAT)
}

/// The name of a recording's file.
pub open spec fn recording_name(stamp: Seq<char>) -> Seq<char> {
    "recording-"@ + stamp + ".mp4"@
}

/// The name of a recording's file.
pub fn recording_filename(stamp: &str) -> (r: String)
    ensures
        r@ == recording_name(stamp@),
{
    join3("recording-", stamp, ".mp4")
}

/// The name under which a captured picture is uploaded.
pub open spec fn screenshot_name(stamp: Seq<char>) -> Seq<char> {
    "screenshot-"@ + stamp + ".png"@
}

/// The name under which a captured picture is uploaded.
pub fn screenshot_filename(stamp: &str) -> (r: String)
    ensures
        r@ == screenshot_name(stamp@),
{
    join3("screenshot-", stamp, ".png")
}

/// Whether a character can stand in a file's name everywhere.
pub open spec fn is_plain(c: char) -> bool {
    is_digit(c) || 'a' <= c <= 'z' || c == '-' || c == '_' || c == '+' || c == '.'
}

/// Whether all characters of a text can stand in a file's name everywhere.
pub open spec fn all_plain(t: Seq<char>) -> bool {
    forall|i: int| 0 <= i < t.len() ==> is_plain(#[trigger] t[i])
}

proof fn lemma_two_digits_are_plain(n: nat)
    requires
        n < 100,
    ensures
        all_plain(two_digit_text(n)),
{
    reveal_with_fuel(decimal_text, 2);
    assert(decimal_text(n) =~= if n < 10 {
        seq![digit_char(n)]
    } else {
        seq![digit_char(n / 10), digit_char(n % 10)]
    });
}

/// Points in time are written without anything that a file's name cannot hold. In
/// particular they hold no colon, which Windows does not take.
pub proof fn law_stamps_suit_file_names(stamp: Seq<char>)
    requires
        is_stamp(stamp),
    ensures
        all_plain(stamp),
        all_plain(recording_name(stamp)),
        all_plain(screenshot_name(stamp)),
        !recording_name(stamp).contains(':'),
        !screenshot_name(stamp).contains(':'),
{
    let (year, month, day, hour, minute, second) = choose|
        year: Seq<char>,
        month: nat,
        day: nat,
        hour: nat,
        minute: nat,
        second: nat,
    |
        {
            &&& #[trigger] stamp_text(year, month, day, hour, minute, second) == stamp
            &&& is_year(year)
            &&& 1 <= month <= 12
            &&& 1 <= day <= 31
            &&& hour <= 23
            &&& minute <= 59
            &&& second <= 60
        };
    lemma_two_digits_are_plain(month);
    lemma_two_digits_are_plain(day);
    lemma_two_digits_are_plain(hour);
    lemma_two_digits_are_plain(minute);
    lemma_two_digits_are_plain(second);
    assert(all_plain(year));
    reveal_strlit("recording-");
    reveal_strlit(".mp4");
    reveal_strlit("screenshot-");
    reveal_strlit(".png");
}

} // verus!
