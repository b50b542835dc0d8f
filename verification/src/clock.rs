//! Points in time and durations of a stream, in nanoseconds.

use vstd::prelude::*;

use crate::text;

verus! {

pub const NANOSECONDS_PER_SECOND: u64 = 1_000_000_000;

/// How far a step backwards jumps, in nanoseconds.
pub const SEEK_BACKWARD_OFFSET: u64 = 2_000_000_000;

/// How far a step forwards jumps, in nanoseconds.
pub const SEEK_FORWARD_OFFSET: u64 = 5_000_000_000;

/// A time of the stream clock in nanoseconds, or `None` where it is not known.
#[derive(Clone, Copy, Debug, PartialEq, Eq)]
pub struct ClockTime(pub Option<u64>);

/// A number of seconds as a clock time: unknown where the clock cannot hold it.
pub open spec fn clock_from_seconds(seconds: u64) -> ClockTime {
    if seconds * NANOSECONDS_PER_SECOND <= u64::MAX {
        ClockTime(Some((seconds * NANOSECONDS_PER_SECOND) as u64))
    } else {
        ClockTime(None)
    }
}

/// The whole seconds of a known time.
pub open spec fn clock_seconds(time: ClockTime) -> Option<u64> {
    match time.0 {
        Some(nanoseconds) => Some(nanoseconds / NANOSECONDS_PER_SECOND),
        None => None,
    }
}

/// A number of seconds as hours, minutes and seconds.
pub open spec fn seconds_text(seconds: nat) -> Seq<char> {
    text::padded_text(seconds / 3600) + ":"@ + text::padded_text(seconds / 60 % 60) + ":"@ + text::padded_text(
        seconds % 60,
    )
}

/// A clock time as hours, minutes and seconds, with nines for an unknown time.
pub open spec fn clock_text(time: ClockTime) -> Seq<char> {
    match clock_seconds(time) {
        Some(seconds) => seconds_text(seconds as nat),
        None => "99:99:99"@,
    }
}

/// The label of the progress bar: the position, and the duration where it is known.
pub open spec fn progress_label(position: ClockTime, duration: ClockTime) -> Seq<char> {
    if duration.0 is Some {
        clock_text(position) + " / "@ + clock_text(duration)
    } else {
        clock_text(position)
    }
}

impl ClockTime {
    /// The clock time of a number of seconds.
    pub fn from_seconds(seconds: u64) -> (r: ClockTime)
        ensures
            r == clock_from_seconds(seconds),
    {
        ClockTime(seconds.checked_mul(NANOSECONDS_PER_SECOND))
    }

    /// The whole seconds of a known time.
    pub fn seconds(&self) -> (r: Option<u64>)
        ensures
            r == clock_seconds(*self),
    {
        match self.0 {
            Some(nanoseconds) => Some(nanoseconds / NANOSECONDS_PER_SECOND),
            None => None,
        }
    }

    /// The time as hours, minutes and seconds.
    pub fn text(&self) -> (r: String)
        ensures
            r@ == clock_text(*self),
    {
        match self.seconds() {
            Some(seconds) => {
                let mut label = text::padded_u64_text(seconds / 3600);
                label.append(":");
                label.append(text::padded_u64_text(seconds / 60 % 60).as_str());
                label.append(":");
                label.append(text::padded_u64_text(seconds % 60).as_str());
                label
            },
            None => "99:99:99".to_owned(),
        }
    }
}

/// The label of the progress bar for a position and a duration in seconds.
pub fn format_progress(value: u64, duration: u64) -> (r: String)
    ensures
        r@ == progress_label(clock_from_seconds(value), clock_from_seconds(duration)),
{
    let position = ClockTime::from_seconds(value);
    let duration = ClockTime::from_seconds(duration);
    let mut label = position.text();
    if duration.0.is_some() {
        label.append(" / ");
        label.append(duration.text().as_str());
    }
    label
}

/// The seconds of a clock time that was made of seconds are those seconds, where the clock can
/// hold them.
pub proof fn law_seconds_round_trip(seconds: u64)
    requires
        seconds * NANOSECONDS_PER_SECOND <= u64::MAX,
    ensures
        clock_seconds(clock_from_seconds(seconds)) == Some(seconds),
{
}

/// The hours, minutes and seconds that are shown add up to the seconds, and neither minutes nor
/// seconds reach sixty.
pub proof fn law_parts_add_up(seconds: nat)
    ensures
        (seconds / 3600) * 3600 + (seconds / 60 % 60) * 60 + seconds % 60 == seconds,
        seconds / 60 % 60 < 60,
        seconds % 60 < 60,
{
}

/// A clock time that is made of seconds is that many thousand millions of nanoseconds; it is
/// unknown where the clock cannot hold them.
pub proof fn law_time_of_seconds(seconds: u64)
    ensures
        match clock_from_seconds(seconds).0 {
            Some(nanoseconds) => nanoseconds == seconds * 1_000_000_000,
            None => seconds * 1_000_000_000 > 0xffff_ffff_ffff_ffff,
        },
{
}

/// The seconds of a known time are all that have passed, and the next has not. An unknown time
/// has none.
pub proof fn law_seconds_of_time(time: ClockTime)
    ensures
        clock_seconds(time) is Some <==> time.0 is Some,
        time.0 matches Some(nanoseconds) ==> {
            let seconds = clock_seconds(time)->0;
            seconds * 1_000_000_000 <= nanoseconds < (seconds + 1) * 1_000_000_000
        },
{
}

/// The hours that a text of the form `h:mm:ss` writes.
pub open spec fn hours_read(label: Seq<char>) -> int {
    text::digits_value(label.take(label.len() - 6))
}

/// The minutes that a text of the form `h:mm:ss` writes.
pub open spec fn minutes_read(label: Seq<char>) -> int {
    text::digits_value(label.subrange(label.len() - 5, label.len() - 3))
}

/// The seconds that a text of the form `h:mm:ss` writes.
pub open spec fn seconds_read(label: Seq<char>) -> int {
    text::digits_value(label.skip(label.len() - 2))
}

/// `label` reads as a time of `seconds`: two digits or more for the hours, a colon, two digits for
/// the minutes, a colon, two digits for the seconds, with minutes and seconds below sixty.
pub open spec fn reads_as(label: Seq<char>, seconds: int) -> bool {
    &&& label.len() >= 8
    &&& label.len() > 8 ==> label[0] != '0'
    &&& forall|i: int|
        0 <= i < label.len() ==> (if i == label.len() - 3 || i == label.len() - 6 {
            #[trigger] label[i] == ':'
        } else {
            '0' <= label[i] <= '9'
        })
    &&& 0 <= minutes_read(label) < 60
    &&& 0 <= seconds_read(label) < 60
    &&& hours_read(label) * 3600 + minutes_read(label) * 60 + seconds_read(label) == seconds
}

/// The text of a known time reads back as its whole seconds: those that have passed, while the
/// next has not. An unknown time is written in nines.
pub proof fn law_text_reads_back(time: ClockTime)
    ensures
        match time.0 {
            Some(nanoseconds) => exists|seconds: int| #[trigger]
                reads_as(clock_text(time), seconds) && seconds * 1_000_000_000 <= nanoseconds < (
                seconds + 1) * 1_000_000_000,
            None => clock_text(time) == "99:99:99"@,
        },
{
    if time.0 is Some {
        let seconds = clock_seconds(time)->0;
        lemma_seconds_text_reads_back(seconds as nat);
        law_seconds_of_time(time);
        assert(reads_as(clock_text(time), seconds as int));
    }
}

/// The label of the progress bar is the text of the position; where the duration is known, a
/// slash and the text of the duration follow. Both read back as the seconds that they were made
/// of.
pub proof fn law_label_reads_back(value: u64, duration: u64)
    requires
        value * 1_000_000_000 <= 0xffff_ffff_ffff_ffff,
    ensures
        ({
            let label = progress_label(clock_from_seconds(value), clock_from_seconds(duration));
            if duration * 1_000_000_000 <= 0xffff_ffff_ffff_ffff {
                exists|position: Seq<char>, end: Seq<char>|
                    label == position + " / "@ + end && #[trigger] reads_as(position, value as int)
                        && #[trigger] reads_as(end, duration as int)
            } else {
                reads_as(label, value as int)
            }
        }),
{
    lemma_seconds_text_reads_back(value as nat);
    lemma_seconds_text_reads_back(duration as nat);
    let position = clock_text(clock_from_seconds(value));
    let end = clock_text(clock_from_seconds(duration));
    assert(reads_as(position, value as int));
    if duration * 1_000_000_000 <= 0xffff_ffff_ffff_ffff {
        assert(reads_as(end, duration as int));
    }
}

/// A position that the clock cannot hold is shown in nines, before the duration as without one.
pub proof fn law_label_of_unknown_position(duration: ClockTime)
    ensures
        progress_label(ClockTime(None), ClockTime(None)) == "99:99:99"@,
        duration.0 is Some ==> progress_label(ClockTime(None), duration) == "99:99:99"@ + " / "@
            + progress_label(duration, ClockTime(None)),
{
}

proof fn lemma_seconds_text_reads_back(seconds: nat)
    ensures
        reads_as(seconds_text(seconds), seconds as int),
{
    let hours = text::padded_text(seconds / 3600);
    let minutes = text::padded_text(seconds / 60 % 60);
    let rest = text::padded_text(seconds % 60);
    let label = seconds_text(seconds);
    text::law_padded_text(seconds / 3600);
    text::law_padded_text(seconds / 60 % 60);
    text::law_padded_text(seconds % 60);
    reveal_strlit(":");
    assert(label.len() == hours.len() + 6);
    assert(label.take(label.len() - 6) =~= hours);
    assert(label.subrange(label.len() - 5, label.len() - 3) =~= minutes);
    assert(label.skip(label.len() - 2) =~= rest);
    assert forall|i: int| 0 <= i < label.len() implies (if i == label.len() - 3 || i == label.len()
        - 6 {
        #[trigger] label[i] == ':'
    } else {
        '0' <= label[i] <= '9'
    }) by {
        if i < hours.len() {
            assert(text::is_digit(hours[i]));
        } else if hours.len() < i < hours.len() + 3 {
            assert(text::is_digit(minutes[i - hours.len() - 1]));
        } else if i > hours.len() + 3 {
            assert(text::is_digit(rest[i - hours.len() - 4]));
        }
    }
    law_parts_add_up(seconds);
}

} // verus!
