//! How numbers, times, names and keys are written.

use vstd::prelude::*;

use crate::mode::CaptureMode;
use crate::recording::format_elapsed;
use crate::secure::masked;
use crate::stamp::{recording_filename, screenshot_filename};
use crate::text::{
    contains, decimal, decimal_text, join, join3, occurs_at, repeat, same,
    signed_decimal, two_digits,
};

verus! {

/// A number is written as its digits, the highest first: one of a single digit as that digit, any
/// other as the number without its last digit, and that digit.
pub proof fn law_numbers_are_written_digit_by_digit(n: u64, r: String, rest: String)
    requires
        call_ensures(decimal, (n,), r),
        call_ensures(decimal, (n / 10,), rest),
    ensures
        n < 10 ==> r@.len() == 1 && r@[0] as u32 == 48 + n,
        n >= 10 ==> r@.len() == rest@.len() + 1 && r@.drop_last() == rest@ && r@.last() as u32 == 48
            + n % 10,
{
    if n >= 10 {
        assert(r@.drop_last() =~= rest@);
    }
}

/// A negative number is written as a minus sign and its magnitude, any other without a sign.
pub proof fn law_only_negative_numbers_have_a_sign(n: i64, magnitude: u64, r: String, rest: String)
    requires
        call_ensures(signed_decimal, (n,), r),
        call_ensures(decimal, (magnitude,), rest),
        magnitude == n || magnitude == -n,
    ensures
        0 <= n ==> r@ == rest@,
        n < 0 ==> r@.len() == rest@.len() + 1 && r@[0] == '-' && r@.skip(1) == rest@,
{
    if n < 0 {
        assert(r@.skip(1) =~= rest@);
    }
}

/// A number below 100 is written with two digits, the tens first.
pub proof fn law_minutes_have_two_digits(n: u64, r: String)
    requires
        call_ensures(two_digits, (n,), r),
        n < 100,
    ensures
        r@.len() == 2,
        r@[0] as u32 == 48 + n / 10,
        r@[1] as u32 == 48 + n % 10,
{
    reveal_with_fuel(decimal_text, 2);
}

/// Texts are joined in their order, and nothing comes between.
pub proof fn law_joined_texts_keep_their_order(a: &str, b: &str, c: &str, two: String, three: String)
    requires
        call_ensures(join, (a, b), two),
        call_ensures(join3, (a, b, c), three),
    ensures
        two@ == a@ + b@,
        three@ == two@ + c@,
{
}

/// Two texts are the same exactly where their characters are.
pub proof fn law_same_texts_have_the_same_characters(a: &str, b: &str, r: bool)
    requires
        call_ensures(same, (a, b), r),
    ensures
        r <==> a@ == b@,
{
}

/// A text holds another one exactly where that stands in it from some place on.
pub proof fn law_texts_hold_their_parts(before: Seq<char>, needle: &str, after: Seq<char>, hay: &str, r: bool)
    requires
        call_ensures(contains, (hay, needle), r),
    ensures
        hay@ == before + needle@ + after ==> r,
        r ==> exists|i: int|
            0 <= i <= hay@.len() - needle@.len() && #[trigger] hay@.subrange(i, i + needle@.len())
                == needle@,
{
    let at = before.len() as int;
    if hay@ == before + needle@ + after {
        assert(hay@.subrange(at, at + needle@.len()) =~= needle@);
        assert(occurs_at(needle@, hay@, at));
    }
    if r {
        let i = choose|i: int| occurs_at(needle@, hay@, i);
        assert(hay@.subrange(i, i + needle@.len()) == needle@);
    }
}

/// A unit is repeated just as often as asked.
pub proof fn law_units_are_repeated(unit: &str, n: usize, r: String, i: int)
    requires
        call_ensures(repeat, (unit, n), r),
        unit@.len() == 1,
    ensures
        r@.len() == n,
        0 <= i < n ==> r@[i] == unit@[0],
{
}

/// A time is written as minutes and two digits of seconds; from an hour on with the hours before
/// it, and the minutes in two digits too.
pub proof fn law_times_are_written_as_on_a_clock(
    ms: u64,
    hours: u64,
    minutes: u64,
    seconds: u64,
    r: String,
    th: String,
    tm: String,
    tm2: String,
    ts: String,
)
    requires
        call_ensures(format_elapsed, (ms,), r),
        ms as int / 1000 == hours * 3600 + minutes * 60 + seconds,
        minutes < 60,
        seconds < 60,
        call_ensures(decimal, (hours,), th),
        call_ensures(decimal, (minutes,), tm),
        call_ensures(two_digits, (minutes,), tm2),
        call_ensures(two_digits, (seconds,), ts),
    ensures
        hours == 0 ==> r@ == tm@ + seq![':'] + ts@,
        hours > 0 ==> r@ == th@ + seq![':'] + tm2@ + seq![':'] + ts@,
{
    let total = ms as int / 1000;
    assert(total / 3600 == hours && total % 3600 / 60 == minutes && total % 60 == seconds);
    reveal_strlit(":");
    assert(":"@ =~= seq![':']);
}

/// A recording's file and a picture's file are named after their kind and the time, with the
/// ending of their format.
pub proof fn law_files_are_named_after_the_time(stamp: &str, video: String, picture: String)
    requires
        call_ensures(recording_filename, (stamp,), video),
        call_ensures(screenshot_filename, (stamp,), picture),
    ensures
        video@ == "recording-"@ + stamp@ + ".mp4"@,
        picture@ == "screenshot-"@ + stamp@ + ".png"@,
{
}

/// Of a key at most its last 8 characters are shown, and none of one that has no more: the rest
/// is bullets, which do not tell how long the key is beyond 8 characters.
pub proof fn law_shown_keys_hide_all_but_their_end(key: String, r: Option<String>, i: int)
    requires
        call_ensures(masked, (Some(key),), r),
    ensures
        r is Some,
        key@.len() <= 8 ==> r->0@.len() == key@.len() && (0 <= i < key@.len() ==> r->0@[i]
            == '\u{2022}'),
        key@.len() > 8 ==> {
            &&& r->0@.len() == 16
            &&& 0 <= i < 8 ==> r->0@[i] == '\u{2022}'
            &&& 0 <= i < 8 ==> r->0@[8 + i] == key@[key@.len() - 8 + i]
        },
{
}

/// Without a key nothing is shown.
pub proof fn law_no_key_shows_nothing(r: Option<String>)
    requires
        call_ensures(masked, (None::<String>,), r),
    ensures
        r is None,
{
}

/// Modes are called region, window and fullscreen, and nothing else is a mode.
pub proof fn law_modes_have_their_names(mode: CaptureMode, name: &str, text: &'static str, r: Option<CaptureMode>)
    requires
        call_ensures(CaptureMode::as_str, (mode,), text),
        call_ensures(CaptureMode::parse, (name,), r),
    ensures
        mode == CaptureMode::Region ==> text@ == "region"@,
        mode == CaptureMode::Window ==> text@ == "window"@,
        mode == CaptureMode::Fullscreen ==> text@ == "fullscreen"@,
        r == Some(CaptureMode::Region) <==> name@ == "region"@,
        r == Some(CaptureMode::Window) <==> name@ == "window"@,
        r == Some(CaptureMode::Fullscreen) <==> name@ == "fullscreen"@,
{
    crate::mode::law_mode_names_are_distinct(CaptureMode::Region);
    crate::mode::law_mode_names_are_distinct(CaptureMode::Window);
    crate::mode::law_mode_names_are_distinct(CaptureMode::Fullscreen);
}

} // verus!
