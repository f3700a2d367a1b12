//! Destination resolution: the stream name is the processing day written as
//! `YYYY-MM-DD`, and the group is a configured setting with a fixed default.
//! The clock itself is read through the `chrono` crate; everything derived
//! from the reading is verified here.

use vstd::prelude::*;
use vstd::string::StringExecFns;

use crate::types::LogDestination;
use crate::types::ProcessingTime;

verus! {

/// The decimal digit character for `d` (meaningful for `0 <= d <= 9`).
pub open spec fn digit_char(d: int) -> char {
    if d == 0 {
        '0'
    } else if d == 1 {
        '1'
    } else if d == 2 {
        '2'
    } else if d == 3 {
        '3'
    } else if d == 4 {
        '4'
    } else if d == 5 {
        '5'
    } else if d == 6 {
        '6'
    } else if d == 7 {
        '7'
    } else if d == 8 {
        '8'
    } else {
        '9'
    }
}

/// `n` written as exactly two decimal digits (meaningful for `0 <= n <= 99`).
pub open spec fn two_digits(n: int) -> Seq<char> {
    seq![digit_char(n / 10), digit_char(n % 10)]
}

/// `n` written as exactly four decimal digits (meaningful for
/// `0 <= n <= 9999`).
pub open spec fn four_digits(n: int) -> Seq<char> {
    seq![
        digit_char(n / 1000),
        digit_char((n / 100) % 10),
        digit_char((n / 10) % 10),
        digit_char(n % 10),
    ]
}

/// The stream name derived from a processing day: `YYYY-MM-DD`.
pub open spec fn spec_stream_name(t: ProcessingTime) -> Seq<char> {
    four_digits(t.year as int) + seq!['-'] + two_digits(t.month as int) + seq!['-'] + two_digits(
        t.day as int,
    )
}

/// The log group used when no setting selects one.
pub open spec fn default_group_name() -> Seq<char> {
    "ALB-access-log"@
}

/// The single decimal digit `d` as a string slice.
fn digit_str(d: u32) -> (r: &'static str)
    requires
        d < 10,
    ensures
        r@ == seq![digit_char(d as int)],
{
    proof {
        reveal_strlit("0");
        reveal_strlit("1");
        reveal_strlit("2");
        reveal_strlit("3");
        reveal_strlit("4");
        reveal_strlit("5");
        reveal_strlit("6");
        reveal_strlit("7");
        reveal_strlit("8");
        reveal_strlit("9");
    }
    match d {
        0 => "0",
        1 => "1",
        2 => "2",
        3 => "3",
        4 => "4",
        5 => "5",
        6 => "6",
        7 => "7",
        8 => "8",
        _ => "9",
    }
}

/// Formats the processing day as the destination stream name `YYYY-MM-DD`,
/// with zero padding in every field.
pub fn stream_name_for(t: &ProcessingTime) -> (r: String)
    requires
        t.wf(),
    ensures
        r@ == spec_stream_name(*t),
{
    proof {
        reveal_strlit("-");
    }
    let y = t.year as u32;
    let mut s = String::new();
    s.append(digit_str(y / 1000));
    s.append(digit_str((y / 100) % 10));
    s.append(digit_str((y / 10) % 10));
    s.append(digit_str(y % 10));
    s.append("-");
    s.append(digit_str(t.month / 10));
    s.append(digit_str(t.month % 10));
    s.append("-");
    s.append(digit_str(t.day / 10));
    s.append(digit_str(t.day % 10));
    proof {
        assert(s@ =~= spec_stream_name(*t));
    }
    s
}

/// Computes the destination for this invocation: the configured group, or the
/// fixed default when no setting is present, and the day-keyed stream name.
/// The result is a pure function of its inputs, so every invocation of one
/// day targets the same stream.
pub fn resolve_destination(group_setting: Option<String>, t: &ProcessingTime) -> (d: LogDestination)
    requires
        t.wf(),
    ensures
        match group_setting {
            Some(g) => d.group@ == g@,
            None => d.group@ == default_group_name(),
        },
        d.stream@ == spec_stream_name(*t),
{
    let group = match group_setting {
        Some(g) => g,
        None => "ALB-access-log".to_owned(),
    };
    LogDestination { group, stream: stream_name_for(t) }
}

/// Same group setting and same calendar day always resolve to the same
/// destination stream name, so repeating resolution within one day is safe:
/// the second attempt targets the stream the first one made, and the
/// stream-creation step tolerates the resulting "already exists" outcome.
pub proof fn lemma_destination_deterministic(t1: ProcessingTime, t2: ProcessingTime)
    requires
        t1.year == t2.year,
        t1.month == t2.month,
        t1.day == t2.day,
    ensures
        spec_stream_name(t1) == spec_stream_name(t2),
{
}

/// Relies on `chrono::Utc::now` and the `Datelike` accessors: `month` ranges
/// over 1 to 12 and `day` over 1 to 31; `year` and `timestamp_millis` are
/// whatever the clock reads.
#[verifier::external_body]
fn utc_now_parts() -> (t: ProcessingTime)
    ensures
        1 <= t.month <= 12,
        1 <= t.day <= 31,
{
    let now = chrono::Utc::now();
    ProcessingTime {
        year: chrono::Datelike::year(&now),
        month: chrono::Datelike::month(&now),
        day: chrono::Datelike::day(&now),
        millis: now.timestamp_millis(),
    }
}

/// Reads the invocation clock. `None` only when the clock reports a year that
/// cannot be written with four digits; every accepted reading is a
/// well-formed processing day.
pub fn current_processing_time() -> (r: Option<ProcessingTime>)
    ensures
        r matches Some(t) ==> t.wf(),
{
    let t = utc_now_parts();
    if 0 <= t.year && t.year <= 9999 {
        Some(t)
    } else {
        None
    }
}

} // verus!
