use glide::clock::{format_progress, ClockTime};
use glide::selection::{select_subtitle, select_track};
use glide::media::SubtitleTrack;
use glide::text::{i32_text, join, padded_u64_text, parse_i32, same_text, split_at_byte, u64_text};

#[test]
fn decimal_texts() {
    for n in [0u64, 7, 10, 99, 100, 1000, 18446744073709551615] {
        assert_eq!(u64_text(n), format!("{}", n));
        assert_eq!(padded_u64_text(n), format!("{:02}", n));
    }
    for i in [0i32, 5, -1, -10, 42, 2147483647, -2147483648] {
        assert_eq!(i32_text(i), format!("{}", i));
        assert_eq!(parse_i32(&i32_text(i)), Some(i));
    }
    assert_eq!(i32_text(-2147483648), "-2147483648");
}

#[test]
fn parsing_agrees_with_the_standard_library() {
    let inputs = [
        "", "-", "+", "0", "-0", "+0", "00012", "7", "-7", "+7", "12a", "a12", " 1", "1 ", "1_0",
        "2147483647", "2147483648", "-2147483648", "-2147483649", "99999999999999999999",
        "--1", "+-1", "1-", "\u{662}", "1\u{e9}", "-\u{e9}", "99999999999x",
        "000000000000000000000000000001",
    ];
    for input in inputs {
        assert_eq!(parse_i32(input), input.parse::<i32>().ok(), "{:?}", input);
    }
}

#[test]
fn splitting_at_a_byte() {
    assert_eq!(split_at_byte("sub-3", 4), Some(("sub-", "3")));
    assert_eq!(split_at_byte("sub-", 4), Some(("sub-", "")));
    assert_eq!(split_at_byte("sub", 4), None);
    assert_eq!(split_at_byte("\u{e9}\u{e9}5", 4), Some(("\u{e9}\u{e9}", "5")));
    assert_eq!(split_at_byte("abc\u{e9}5", 4), None);
    assert_eq!(split_at_byte("", 0), Some(("", "")));
}

#[test]
fn texts_are_compared_and_joined() {
    assert!(same_text("none", "none"));
    assert!(!same_text("none", "None"));
    assert_eq!(join("ext-", "file:///a"), "ext-file:///a");
}

#[test]
fn subtitle_targets() {
    assert_eq!(select_subtitle("none"), Some(None));
    assert_eq!(select_subtitle("sub-0"), Some(Some(SubtitleTrack::Inband(0))));
    assert_eq!(select_subtitle("sub-12"), Some(Some(SubtitleTrack::Inband(12))));
    assert_eq!(select_subtitle("abcd-5"), Some(Some(SubtitleTrack::Inband(-5))));
    assert_eq!(select_subtitle("\u{e9}\u{e9}5"), Some(Some(SubtitleTrack::Inband(5))));
    assert_eq!(
        select_subtitle("ext-file:///tmp/a.srt"),
        Some(Some(SubtitleTrack::External("file:///tmp/a.srt".to_string())))
    );
    assert_eq!(select_subtitle("ext-"), Some(Some(SubtitleTrack::External("".to_string()))));
    assert_eq!(select_subtitle(""), None);
    assert_eq!(select_subtitle("sub-"), None);
    assert_eq!(select_subtitle("sub-x"), None);
    assert_eq!(select_subtitle("nonex"), None);
    assert_eq!(select_subtitle("abc\u{e9}5"), None);
}

#[test]
fn track_targets() {
    assert_eq!(select_track("audio-0"), Some(0));
    assert_eq!(select_track("audio--1"), Some(-1));
    assert_eq!(select_track("video-17"), Some(17));
    assert_eq!(select_track("video--1"), Some(-1));
    assert_eq!(select_track("audio-"), None);
    assert_eq!(select_track("audio"), None);
    assert_eq!(select_track("audio-2147483648"), None);
}

#[test]
fn clock_times() {
    assert_eq!(ClockTime::from_seconds(3), ClockTime(Some(3_000_000_000)));
    assert_eq!(ClockTime::from_seconds(18446744073), ClockTime(Some(18446744073_000_000_000)));
    assert_eq!(ClockTime::from_seconds(18446744074), ClockTime(None));
    assert_eq!(ClockTime(Some(2_999_999_999)).seconds(), Some(2));
    assert_eq!(ClockTime(None).seconds(), None);
    assert_eq!(ClockTime::from_seconds(75).seconds(), Some(75));
    assert_eq!(ClockTime::from_seconds(0).text(), "00:00:00");
    assert_eq!(ClockTime::from_seconds(3661).text(), "01:01:01");
    assert_eq!(ClockTime::from_seconds(359999).text(), "99:59:59");
    assert_eq!(ClockTime::from_seconds(360000).text(), "100:00:00");
    assert_eq!(ClockTime(None).text(), "99:99:99");
}

#[test]
fn progress_labels() {
    assert_eq!(format_progress(61, 3600), "00:01:01 / 01:00:00");
    assert_eq!(format_progress(61, u64::MAX), "00:01:01");
    assert_eq!(format_progress(u64::MAX, 5), "99:99:99 / 00:00:05");
}
