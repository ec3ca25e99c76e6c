use teil_ing::geometry::{clamp, half, least, most};
use teil_ing::mode::CaptureMode;
use teil_ing::stamp::{local_stamp, recording_filename, screenshot_filename};
use teil_ing::text::{
    contains, decimal, join, join3, repeat, same, signed_decimal, two_digits,
};

#[test]
fn numbers_are_written_in_decimal() {
    for n in [0u64, 7, 9, 10, 42, 99, 100, 480, u64::MAX] {
        assert_eq!(decimal(n), format!("{n}"));
    }
    for n in [0i64, 5, -5, i64::MIN, i64::MAX] {
        assert_eq!(signed_decimal(n), format!("{n}"));
    }
    for n in [0u64, 9, 10, 59, 100] {
        assert_eq!(two_digits(n), format!("{n:02}"));
    }
}

#[test]
fn texts_are_joined_and_searched() {
    assert_eq!(join("a", "b"), "ab");
    assert_eq!(join3("a", "", "c"), "ac");
    assert!(same("…", "…"));
    assert!(!same("a", "A"));
    assert!(contains("Upgrade to Pro now", "Pro"));
    assert!(contains("Pro", "Pro"));
    assert!(contains("x", ""));
    assert!(!contains("Pr", "Pro"));
    assert!(!contains("pro", "Pro"));
    assert_eq!(repeat("\u{2022}", 3), "\u{2022}\u{2022}\u{2022}");
    assert_eq!(repeat("x", 0), "");
}

#[test]
fn coordinates_are_clamped_and_halved() {
    assert_eq!(clamp(-1, 0, 5), 0);
    assert_eq!(clamp(9, 0, 5), 5);
    assert_eq!(clamp(3, 0, 5), 3);
    assert_eq!(least(-2, 3), -2);
    assert_eq!(most(-2, 3), 3);
    for v in [0i32, 1, 7, -7, -8, i32::MIN, i32::MAX] {
        assert_eq!(half(v), v / 2);
    }
}

#[test]
fn modes_are_found_by_their_names() {
    for mode in [CaptureMode::Region, CaptureMode::Window, CaptureMode::Fullscreen] {
        assert_eq!(CaptureMode::parse(mode.as_str()), Some(mode));
    }
    assert_eq!(CaptureMode::parse("Region"), None);
    assert_eq!(CaptureMode::parse(""), None);
}

#[test]
fn files_are_named_after_the_time() {
    assert_eq!(
        screenshot_filename("2026-07-20_15-30-45"),
        "screenshot-2026-07-20_15-30-45.png"
    );
    assert_eq!(
        recording_filename("2026-07-20_15-30-45"),
        "recording-2026-07-20_15-30-45.mp4"
    );
}

#[test]
fn the_local_time_has_the_form_of_a_stamp() {
    let stamp = local_stamp();
    let shape: String = stamp.chars().map(|c| if c.is_ascii_digit() { '0' } else { c }).collect();
    assert_eq!(shape, "0000-00-00_00-00-00");
    let number = |from: usize, to: usize| stamp[from..to].parse::<u32>().unwrap();
    assert!((1..=12).contains(&number(5, 7)));
    assert!((1..=31).contains(&number(8, 10)));
    assert!(number(11, 13) <= 23);
    assert!(number(14, 16) <= 59);
    assert!(number(17, 19) <= 60);
}

#[test]
fn file_names_hold_no_colon() {
    let stamp = local_stamp();
    assert!(!recording_filename(&stamp).contains(':'));
    assert!(!screenshot_filename(&stamp).contains(':'));
}
