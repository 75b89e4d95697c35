//! Points in time and how they are shown: dates, times of the day, ages and times remaining.

use vstd::prelude::*;

use crate::dates::{date_on, full_date, month_and_day, zero_padded};
use crate::text;
use crate::text::{integer_text, join2, trim_text};

verus! {

/// The first second of the calendar.
pub const FIRST_SECOND: i64 = -8334601228800;

/// The last second of the calendar.
pub const LAST_SECOND: i64 = 8210266876799;

/// A point in time: whole seconds since the Unix epoch, and the nanoseconds since. A leap second is
/// counted as the second before it, with a billion nanoseconds or more.
pub struct Moment {
    pub secs: int,
    pub nanos: int,
}

/// Whether the calendar has this point in time.
pub open spec fn exists_in_calendar(secs: int, nanos: int) -> bool {
    &&& FIRST_SECOND <= secs <= LAST_SECOND
    &&& 0 <= nanos < 2_000_000_000
    &&& nanos >= 1_000_000_000 ==> secs % 60 == 59
}

/// A point in time that the calendar has.
#[derive(Clone, Copy, Debug, PartialEq, Eq)]
pub struct UtcTime {
    secs: i64,
    nanos: u32,
}

impl View for UtcTime {
    type V = Moment;

    closed spec fn view(&self) -> Moment {
        Moment { secs: self.secs as int, nanos: self.nanos as int }
    }
}

/// `chrono::DateTime::from_timestamp`: there is a date for these seconds and nanoseconds exactly
/// where the seconds lie between the ends of the calendar, and the nanoseconds are below a billion,
/// or below two billions in the last second of a minute.
#[verifier::external_body]
fn timestamp_exists(secs: i64, nanos: u32) -> (r: bool)
    ensures
        r == exists_in_calendar(secs as int, nanos as int),
{
    chrono::DateTime::from_timestamp(secs, nanos).is_some()
}

impl UtcTime {
    #[verifier::type_invariant]
    spec fn inv(self) -> bool {
        exists_in_calendar(self.secs as int, self.nanos as int)
    }

    /// The point in time with these seconds and nanoseconds, where the calendar has it.
    pub fn new(secs: i64, nanos: u32) -> (r: Option<UtcTime>)
        ensures
            r is Some <==> exists_in_calendar(secs as int, nanos as int),
            r matches Some(t) ==> t@ == (Moment { secs: secs as int, nanos: nanos as int }),
    {
        if timestamp_exists(secs, nanos) {
            Some(UtcTime { secs, nanos })
        } else {
            None
        }
    }

    /// Whole seconds since the Unix epoch.
    pub fn secs(&self) -> (r: i64)
        ensures
            r == self@.secs,
            FIRST_SECOND <= r <= LAST_SECOND,
    {
        proof {
            use_type_invariant(self);
        }
        self.secs
    }

    /// Nanoseconds since the last whole second.
    pub fn nanos(&self) -> (r: u32)
        ensures
            r == self@.nanos,
    {
        self.nanos
    }

    /// Whether this point in time lies after `other`.
    pub fn is_after(&self, other: &UtcTime) -> (r: bool)
        ensures
            r == later(self@, other@),
    {
        self.secs > other.secs || (self.secs == other.secs && self.nanos > other.nanos)
    }
}

/// Whether `a` lies after `b`.
pub open spec fn later(a: Moment, b: Moment) -> bool {
    a.secs > b.secs || (a.secs == b.secs && a.nanos > b.nanos)
}

/// `chrono::Utc::now`: the time on the clock, which lies after the Unix epoch. Which time that is
/// stays open.
#[verifier::external_body]
fn clock() -> (r: (i64, u32))
    ensures
        0 <= r.0,
        exists_in_calendar(r.0 as int, r.1 as int),
{
    let now = chrono::Utc::now();
    (now.timestamp(), now.timestamp_subsec_nanos())
}

/// Whether a clock can show this point in time: the calendar has it, and it lies after the Unix
/// epoch.
pub open spec fn on_clock(t: Moment) -> bool {
    0 <= t.secs && exists_in_calendar(t.secs, t.nanos)
}

/// The current time.
pub fn now() -> (r: UtcTime)
    ensures
        on_clock(r@),
{
    let (secs, nanos) = clock();
    UtcTime { secs, nanos }
}

/// The day on which a second falls at an offset, counted from the Unix epoch.
pub open spec fn day_at(secs: int, offset: int) -> int {
    (secs + offset) / 86400
}

/// The second of its day at an offset.
pub open spec fn second_at(secs: int, offset: int) -> int {
    (secs + offset) % 86400
}

/// The hour and the minute of a second of the day, such as "14:34".
pub open spec fn hour_and_minute(second: int) -> Seq<char> {
    zero_padded((second / 3600) as nat, 2) + ":"@ + zero_padded((second % 3600 / 60) as nat, 2)
}

/// The hour of a second of the day as the hands of a clock show it, from one to twelve.
pub open spec fn hour_on_dial(second: int) -> int {
    (second / 3600 + 11) % 12 + 1
}

/// The time of the day on a clock's face, such as "2:34 PM".
pub open spec fn dial_text(second: int) -> Seq<char> {
    let half = if second < 43200 {
        " AM"@
    } else {
        " PM"@
    };
    text::decimal(hour_on_dial(second) as nat) + ":"@ + zero_padded(
        (second % 3600 / 60) as nat,
        2,
    ) + half
}

/// The time of the day on a clock's face, with a space before an hour of one digit.
pub open spec fn padded_dial_text(second: int) -> Seq<char> {
    if hour_on_dial(second) < 10 {
        " "@ + dial_text(second)
    } else {
        dial_text(second)
    }
}

/// The patterns in use.
pub open spec fn known_pattern(pattern: Seq<char>) -> bool {
    ||| pattern == "%Y-%m-%d %H:%M"@
    ||| pattern == "%Y-%m-%d"@
    ||| pattern == "%l:%M %p"@
    ||| pattern == "%b %d, %l:%M %p"@
}

/// `chrono::DateTime::format`: the text for a point in time at an offset (in seconds) to the east of
/// UTC. Dates are written as [`full_date`] and [`month_and_day`] say, times of the day as
/// [`hour_and_minute`] and [`padded_dial_text`] say.
#[verifier::external_body]
fn write_time(secs: i64, nanos: u32, offset: i32, pattern: &str) -> (r: String)
    requires
        exists_in_calendar(secs as int, nanos as int),
        -86400 < offset < 86400,
        known_pattern(pattern@),
    ensures
        pattern@ == "%Y-%m-%d"@ ==> r@ == full_date(date_on(day_at(secs as int, offset as int))),
        pattern@ == "%Y-%m-%d %H:%M"@ ==> r@ == full_date(
            date_on(day_at(secs as int, offset as int)),
        ) + " "@ + hour_and_minute(second_at(secs as int, offset as int)),
        pattern@ == "%l:%M %p"@ ==> r@ == padded_dial_text(second_at(secs as int, offset as int)),
        pattern@ == "%b %d, %l:%M %p"@ ==> r@ == month_and_day(
            date_on(day_at(secs as int, offset as int)),
        ) + ", "@ + padded_dial_text(second_at(secs as int, offset as int)),
{
    let zone = chrono::FixedOffset::east_opt(offset).unwrap();
    let time = chrono::DateTime::from_timestamp(secs, nanos).unwrap();
    time.with_timezone(&zone).format(pattern).to_string()
}

/// The date of a point in time, in UTC.
pub open spec fn date_text(t: Moment) -> Seq<char> {
    full_date(date_on(day_at(t.secs, 0)))
}

/// The date and the minute of a point in time, in UTC.
pub open spec fn minute_text(t: Moment) -> Seq<char> {
    date_text(t) + " "@ + hour_and_minute(second_at(t.secs, 0))
}

/// The date and the minute, in UTC.
pub fn format_minute(t: &UtcTime) -> (r: String)
    ensures
        r@ == minute_text(t@),
{
    proof {
        use_type_invariant(t);
    }
    write_time(t.secs, t.nanos, 0, "%Y-%m-%d %H:%M")
}

/// The date, in UTC.
pub fn format_date(t: &UtcTime) -> (r: String)
    ensures
        r@ == date_text(t@),
{
    proof {
        use_type_invariant(t);
    }
    write_time(t.secs, t.nanos, 0, "%Y-%m-%d")
}

/// A timestamp as text, with `fallback` in place of seconds that the calendar does not have.
pub open spec fn timestamp_text(ts: Option<i64>, fallback: Moment) -> Seq<char> {
    match ts {
        Some(secs) => if exists_in_calendar(secs as int, 0) {
            minute_text((Moment { secs: secs as int, nanos: 0 }))
        } else {
            minute_text(fallback)
        },
        None => "-"@,
    }
}

/// Format timestamp as human-readable string, with `fallback` in place of seconds that the calendar
/// does not have.
pub fn format_timestamp_or(ts: Option<i64>, fallback: &UtcTime) -> (r: String)
    ensures
        r@ == timestamp_text(ts, fallback@),
{
    match ts {
        Some(secs) => match UtcTime::new(secs, 0) {
            Some(t) => format_minute(&t),
            None => format_minute(fallback),
        },
        None => "-".to_owned(),
    }
}

/// Format timestamp as human-readable string. Seconds that the calendar does not have are shown as
/// the current time.
pub fn format_timestamp(ts: Option<i64>) -> (r: String)
    ensures
        ts is None ==> r@ == "-"@,
        ts matches Some(secs) ==> exists_in_calendar(secs as int, 0) ==> r@ == minute_text(
            (Moment { secs: secs as int, nanos: 0 }),
        ),
        ts matches Some(secs) ==> !exists_in_calendar(secs as int, 0) ==> exists|now: Moment|
            on_clock(now) && r@ == #[trigger] minute_text(now),
{
    let fallback = now();
    format_timestamp_or(ts, &fallback)
}

// ---------------------------------------------------------------------------
// Ages

/// The time from `b` to `a` in nanoseconds. A leap second between the two counts where either of
/// them lies in it and the other at a later time of the day.
pub open spec fn nanos_between(a: Moment, b: Moment) -> int {
    let leap: int = if a.secs % 86400 > b.secs % 86400 && b.nanos >= 1_000_000_000 {
        1
    } else if a.secs % 86400 < b.secs % 86400 && a.nanos >= 1_000_000_000 {
        -1
    } else {
        0
    };
    (a.secs - b.secs + leap) * 1_000_000_000 + (a.nanos - b.nanos)
}

/// `n / d` without its fraction.
pub open spec fn truncated(n: int, d: int) -> int {
    if n >= 0 {
        n / d
    } else {
        -((-n) / d)
    }
}

/// The whole seconds from `b` to `a`.
pub open spec fn secs_between(a: Moment, b: Moment) -> int {
    truncated(nanos_between(a, b), 1_000_000_000)
}

/// `chrono::DateTime::signed_duration_since` and `chrono::TimeDelta::num_seconds`: the whole
/// seconds from `b` to `a`, without the fraction. A leap second counts as [`nanos_between`] says.
#[verifier::external_body]
fn elapsed_secs(a_secs: i64, a_nanos: u32, b_secs: i64, b_nanos: u32) -> (r: i64)
    requires
        exists_in_calendar(a_secs as int, a_nanos as int),
        exists_in_calendar(b_secs as int, b_nanos as int),
    ensures
        r == secs_between(
            (Moment { secs: a_secs as int, nanos: a_nanos as int }),
            (Moment { secs: b_secs as int, nanos: b_nanos as int }),
        ),
{
    let a = chrono::DateTime::from_timestamp(a_secs, a_nanos).unwrap();
    let b = chrono::DateTime::from_timestamp(b_secs, b_nanos).unwrap();
    a.signed_duration_since(b).num_seconds()
}

proof fn lemma_later(a: Moment, b: Moment)
    requires
        exists_in_calendar(a.secs, a.nanos),
        exists_in_calendar(b.secs, b.nanos),
        later(a, b),
    ensures
        secs_between(a, b) >= 0,
{
    assert(nanos_between(a, b) > -1_000_000_000);
}

/// The whole seconds from `b` to `a`.
pub fn seconds_between(a: &UtcTime, b: &UtcTime) -> (r: i64)
    ensures
        r == secs_between(a@, b@),
        -0x8000_0000_0000 < r < 0x8000_0000_0000,
        later(a@, b@) ==> r >= 0,
{
    proof {
        use_type_invariant(a);
        use_type_invariant(b);
        if later(a@, b@) {
            lemma_later(a@, b@);
        }
    }
    elapsed_secs(a.secs, a.nanos, b.secs, b.nanos)
}

/// A count with its unit, in the singular for one.
pub open spec fn ago(n: int, one: Seq<char>, many: Seq<char>) -> Seq<char> {
    if n == 1 {
        one
    } else {
        text::signed_decimal(n) + many
    }
}

/// How long ago something was, by the whole seconds that have passed.
pub open spec fn age_text(secs: int) -> Seq<char> {
    if secs < 10 {
        "Just now"@
    } else if secs < 60 {
        text::signed_decimal(secs) + " sec ago"@
    } else if secs / 60 < 60 {
        ago(secs / 60, "1 min ago"@, " min ago"@)
    } else if secs / 3600 < 24 {
        ago(secs / 3600, "1 hour ago"@, " hours ago"@)
    } else {
        ago(secs / 86400, "1 day ago"@, " days ago"@)
    }
}

/// How long before `now` the time `dt` lies.
pub fn format_relative_time_at(dt: &UtcTime, now: &UtcTime) -> (r: String)
    ensures
        r@ == age_text(secs_between(now@, dt@)),
{
    let secs: i64 = seconds_between(now, dt);
    if secs < 10 {
        "Just now".to_owned()
    } else if secs < 60 {
        join2(integer_text(secs).as_str(), " sec ago")
    } else if secs / 60 < 60 {
        let mins: i64 = secs / 60;
        if mins == 1 {
            "1 min ago".to_owned()
        } else {
            join2(integer_text(mins).as_str(), " min ago")
        }
    } else if secs / 3600 < 24 {
        let hours: i64 = secs / 3600;
        if hours == 1 {
            "1 hour ago".to_owned()
        } else {
            join2(integer_text(hours).as_str(), " hours ago")
        }
    } else {
        let days: i64 = secs / 86400;
        if days == 1 {
            "1 day ago".to_owned()
        } else {
            join2(integer_text(days).as_str(), " days ago")
        }
    }
}

/// Format a timestamp as relative time ("Just now", "5 min ago", "2 hours ago", etc.)
pub fn format_relative_time(dt: &UtcTime) -> (r: String)
    ensures
        exists|now: Moment| on_clock(now) && r@ == age_text(#[trigger] secs_between(now, dt@)),
{
    let now = now();
    format_relative_time_at(dt, &now)
}

// ---------------------------------------------------------------------------
// Times remaining

/// Hours and minutes.
pub open spec fn hours_and_minutes(secs: int) -> Seq<char> {
    text::signed_decimal(secs / 3600) + "h "@ + text::signed_decimal(secs % 3600 / 60) + "m"@
}

/// Days and hours.
pub open spec fn days_and_hours(secs: int) -> Seq<char> {
    text::signed_decimal(secs / 86400) + "d "@ + text::signed_decimal(secs % 86400 / 3600) + "h"@
}

/// The time that is left, by its two largest units.
pub open spec fn remaining_text(secs: int) -> Seq<char> {
    if secs <= 0 {
        "Expired"@
    } else if secs < 60 {
        text::signed_decimal(secs) + "s"@
    } else if secs < 3600 {
        text::signed_decimal(secs / 60) + "m"@
    } else if secs < 86400 {
        hours_and_minutes(secs)
    } else {
        days_and_hours(secs)
    }
}

/// Two counts, each with its unit.
pub fn two_units(a: i64, a_unit: &str, b: i64, b_unit: &str) -> (r: String)
    ensures
        r@ == text::signed_decimal(a as int) + a_unit@ + text::signed_decimal(b as int) + b_unit@,
{
    let mut s = join2(integer_text(a).as_str(), a_unit);
    s.append(integer_text(b).as_str());
    s.append(b_unit);
    s
}

/// Format the time remaining for a guest peer, which is nothing for a peer without an expiry.
pub fn format_time_remaining(remaining_secs: Option<i64>) -> (r: String)
    ensures
        r@ == (match remaining_secs {
            Some(secs) => remaining_text(secs as int),
            None => text::blank(),
        }),
{
    match remaining_secs {
        Some(secs) => {
            if secs <= 0 {
                "Expired".to_owned()
            } else if secs < 60 {
                join2(integer_text(secs).as_str(), "s")
            } else if secs < 3600 {
                join2(integer_text(secs / 60).as_str(), "m")
            } else if secs < 86400 {
                two_units(secs / 3600, "h ", secs % 3600 / 60, "m")
            } else {
                two_units(secs / 86400, "d ", secs % 86400 / 3600, "h")
            }
        },
        None => String::new(),
    }
}

// ---------------------------------------------------------------------------
// Chat times

/// `chrono::Local` as a time zone: the offset of the machine's time zone to the east of UTC in
/// seconds, at a point in time. Which offset that is stays open, but it is less than a day.
#[verifier::external_body]
fn machine_offset(secs: i64, nanos: u32) -> (r: i32)
    requires
        exists_in_calendar(secs as int, nanos as int),
    ensures
        -86400 < r < 86400,
{
    let time = chrono::DateTime::from_timestamp(secs, nanos).unwrap();
    time.with_timezone(&chrono::Local).offset().local_minus_utc()
}

/// The offset of the machine's time zone at a point in time, in seconds to the east of UTC.
pub fn local_offset(t: &UtcTime) -> (r: i32)
    ensures
        -86400 < r < 86400,
{
    proof {
        use_type_invariant(t);
    }
    machine_offset(t.secs, t.nanos)
}

/// A chat message's time: the time of the day, with "Yesterday" or the date where the message is
/// not from today. `offset` is the time zone's offset at the message, `now_offset` the one now.
pub open spec fn chat_time_text(t: Moment, offset: int, now: Moment, now_offset: int) -> Seq<char> {
    let day = day_at(t.secs, offset);
    let today = day_at(now.secs, now_offset);
    let second = second_at(t.secs, offset);
    if day == today {
        dial_text(second)
    } else if day == today - 1 {
        "Yesterday "@ + dial_text(second)
    } else {
        month_and_day(date_on(day)) + ", "@ + padded_dial_text(second)
    }
}

/// Trimming takes the space before an hour of one digit, and nothing else.
proof fn lemma_dial_trims(second: int)
    requires
        0 <= second < 86400,
    ensures
        text::trimmed(padded_dial_text(second)) == dial_text(second),
{
    reveal_strlit(" ");
    reveal_strlit(":");
    reveal_strlit(" AM");
    reveal_strlit(" PM");
    let hour = hour_on_dial(second) as nat;
    let dial = dial_text(second);
    text::decimal_denotes(hour);
    assert(text::decimal(hour)[0] == if hour < 10 {
        text::digit(hour)
    } else {
        text::digit(1)
    }) by {
        assert(text::decimal(1)[0] == text::digit(1));
        assert(hour >= 10 ==> hour / 10 == 1);
    }
    assert(dial[0] == text::decimal(hour)[0]);
    assert(dial.last() == 'M');
    text::trim_leaves_trim(dial);
    let padded = padded_dial_text(second);
    if hour < 10 {
        assert(padded.drop_first() =~= dial);
        assert(text::trim_start(padded) == text::trim_start(dial));
    }
}

/// The time of a chat message at given offsets.
pub fn format_chat_time_at(dt: &UtcTime, offset: i32, now: &UtcTime, now_offset: i32) -> (r: String)
    requires
        -86400 < offset < 86400,
        -86400 < now_offset < 86400,
    ensures
        r@ == chat_time_text(dt@, offset as int, now@, now_offset as int),
{
    proof {
        use_type_invariant(dt);
        use_type_invariant(now);
        lemma_dial_trims(second_at(dt@.secs, offset as int));
    }
    let today: i64 = floor_days(now.secs + now_offset as i64);
    let msg_date: i64 = floor_days(dt.secs + offset as i64);
    if msg_date == today {
        trim_text(write_time(dt.secs, dt.nanos, offset, "%l:%M %p").as_str())
    } else if msg_date == today - 1 {
        join2(
            "Yesterday ",
            trim_text(write_time(dt.secs, dt.nanos, offset, "%l:%M %p").as_str()).as_str(),
        )
    } else {
        write_time(dt.secs, dt.nanos, offset, "%b %d, %l:%M %p")
    }
}

/// The number of whole days, rounded down.
fn floor_days(secs: i64) -> (r: i64)
    requires
        -0x8000_0000_0000 < secs < 0x8000_0000_0000,
    ensures
        r == secs as int / 86400,
        -0x8000_0000_0000 <= r < 0x8000_0000_0000,
{
    if secs >= 0 {
        secs / 86400
    } else {
        -((86399 - secs) / 86400)
    }
}

/// Format a timestamp for chat display (e.g., "2:34 PM" or "Yesterday 2:34 PM"), in the machine's
/// time zone.
pub fn format_chat_time(dt: &UtcTime) -> (r: String)
    ensures
        exists|offset: int, now: Moment, now_offset: int|
            -86400 < offset < 86400 && -86400 < now_offset < 86400 && on_clock(now) && r@
                == #[trigger] chat_time_text(dt@, offset, now, now_offset),
{
    let now = now();
    let offset: i32 = local_offset(dt);
    let now_offset: i32 = local_offset(&now);
    format_chat_time_at(dt, offset, &now, now_offset)
}

// ---------------------------------------------------------------------------
// Laws

/// A second falls into its day, and the days and the seconds of the day together make up the time.
pub proof fn days_and_seconds_make_up_the_time(secs: int, offset: int)
    ensures
        secs + offset == 86400 * day_at(secs, offset) + second_at(secs, offset),
        0 <= second_at(secs, offset) < 86400,
{
}

/// The time of the day shows on the dial with the hours from one to twelve, the minutes in two
/// digits, and the half of the day; elsewhere with the hours from zero on, in two digits.
pub proof fn hours_show_on_the_dial(hour: int, minute: int, second: int)
    requires
        0 <= hour < 24,
        0 <= minute < 60,
        0 <= second < 60,
    ensures
        1 <= hour <= 11 ==> dial_text(3600 * hour + 60 * minute + second) == text::decimal(
            hour as nat,
        ) + ":"@ + zero_padded(minute as nat, 2) + " AM"@,
        hour == 0 ==> dial_text(3600 * hour + 60 * minute + second) == text::decimal(12) + ":"@
            + zero_padded(minute as nat, 2) + " AM"@,
        hour == 12 ==> dial_text(3600 * hour + 60 * minute + second) == text::decimal(12) + ":"@
            + zero_padded(minute as nat, 2) + " PM"@,
        13 <= hour ==> dial_text(3600 * hour + 60 * minute + second) == text::decimal(
            (hour - 12) as nat,
        ) + ":"@ + zero_padded(minute as nat, 2) + " PM"@,
        padded_dial_text(3600 * hour + 60 * minute + second) == if (1 <= hour <= 9) || (13 <= hour
            <= 21) {
            " "@
        } else {
            text::blank()
        } + dial_text(3600 * hour + 60 * minute + second),
        hour_and_minute(3600 * hour + 60 * minute + second) == zero_padded(hour as nat, 2) + ":"@
            + zero_padded(minute as nat, 2),
{
    let s = 3600 * hour + 60 * minute + second;
    assert(s / 3600 == hour);
    assert(s % 3600 / 60 == minute);
    assert(text::blank() + dial_text(s) =~= dial_text(s));
}

/// A date and minute are those of the day and the second of the day in UTC.
pub proof fn minutes_are_shown_in_utc(t: Moment, day: int, hour: int, minute: int, second: int)
    requires
        0 <= hour < 24,
        0 <= minute < 60,
        0 <= second < 60,
        t.secs == 86400 * day + 3600 * hour + 60 * minute + second,
    ensures
        date_text(t) == full_date(date_on(day)),
        minute_text(t) == full_date(date_on(day)) + " "@ + zero_padded(hour as nat, 2) + ":"@
            + zero_padded(minute as nat, 2),
        forall|fallback: Moment, ts: i64|
            exists_in_calendar(ts as int, 0) && ts == t.secs ==> #[trigger] timestamp_text(
                Some(ts),
                fallback,
            ) == minute_text(t),
        forall|ts: i64|
            !exists_in_calendar(ts as int, 0) ==> #[trigger] timestamp_text(Some(ts), t)
                == minute_text(t),
        timestamp_text(None, t) == "-"@,
{
    hours_show_on_the_dial(hour, minute, second);
    assert(day_at(t.secs, 0) == day);
    assert(second_at(t.secs, 0) == 3600 * hour + 60 * minute + second);
    assert(date_text(t) + " "@ + (zero_padded(hour as nat, 2) + ":"@ + zero_padded(
        minute as nat,
        2,
    )) =~= date_text(t) + " "@ + zero_padded(hour as nat, 2) + ":"@ + zero_padded(
        minute as nat,
        2,
    ));
}

/// A message of today shows the time of its day, one of yesterday says so before it, and any other
/// has the month and the day before it, where the time of the day may have a space in front.
pub proof fn messages_show_their_day(
    t: Moment,
    offset: int,
    now: Moment,
    now_offset: int,
    day: int,
    second: int,
    today: int,
    now_second: int,
)
    requires
        0 <= second < 86400,
        0 <= now_second < 86400,
        t.secs + offset == 86400 * day + second,
        now.secs + now_offset == 86400 * today + now_second,
    ensures
        day == today ==> chat_time_text(t, offset, now, now_offset) == dial_text(second),
        day + 1 == today ==> chat_time_text(t, offset, now, now_offset) == "Yesterday "@
            + dial_text(second),
        day < today - 1 || day > today ==> chat_time_text(t, offset, now, now_offset)
            == month_and_day(date_on(day)) + ", "@ + padded_dial_text(second),
{
    assert(day_at(t.secs, offset) == day);
    assert(day_at(now.secs, now_offset) == today);
    assert(second_at(t.secs, offset) == second);
}

/// The whole seconds between two points in time, neither of which lies in a leap second, are those
/// that have passed from the one to the other: all of them, and no more. From the other to the one
/// they are as many, with the other sign.
pub proof fn seconds_between_are_counted(a: Moment, b: Moment)
    requires
        0 <= a.nanos < 1_000_000_000,
        0 <= b.nanos < 1_000_000_000,
        !later(b, a),
    ensures
        secs_between(a, b) >= 0,
        b.secs * 1_000_000_000 + b.nanos + secs_between(a, b) * 1_000_000_000 <= a.secs
            * 1_000_000_000 + a.nanos,
        a.secs * 1_000_000_000 + a.nanos < b.secs * 1_000_000_000 + b.nanos + (secs_between(a, b)
            + 1) * 1_000_000_000,
        secs_between(b, a) == -secs_between(a, b),
{
}

/// Of two different points in time one is the later one: the one in the later second, or in the same
/// second the one with more nanoseconds.
pub proof fn later_is_an_order(a: Moment, b: Moment, c: Moment)
    ensures
        later(a, b) && later(b, c) ==> later(a, c),
        !(later(a, b) && later(b, a)),
        a == b || later(a, b) || later(b, a),
        a.secs > b.secs ==> later(a, b),
        a.secs == b.secs && a.nanos > b.nanos ==> later(a, b),
{
}

/// An age is shown in its largest unit, which is the seconds from ten on, the minutes, the hours or
/// the days: a full one in the singular, several in the plural. What is younger has happened just
/// now, and so has what has not happened yet.
pub proof fn ages_are_shown_in_their_largest_unit(
    days: int,
    hours: int,
    minutes: int,
    seconds: int,
)
    requires
        0 <= days,
        0 <= hours < 24,
        0 <= minutes < 60,
        0 <= seconds < 60,
    ensures
        forall|secs: int| secs < 10 ==> #[trigger] age_text(secs) == "Just now"@,
        ({
            let shown = age_text(86400 * days + 3600 * hours + 60 * minutes + seconds);
            &&& days == 1 ==> shown == "1 day ago"@
            &&& days > 1 ==> shown == text::signed_decimal(days) + " days ago"@
            &&& days == 0 && hours == 1 ==> shown == "1 hour ago"@
            &&& days == 0 && hours > 1 ==> shown == text::signed_decimal(hours) + " hours ago"@
            &&& days == 0 && hours == 0 && minutes == 1 ==> shown == "1 min ago"@
            &&& days == 0 && hours == 0 && minutes > 1 ==> shown == text::signed_decimal(minutes)
                + " min ago"@
            &&& days == 0 && hours == 0 && minutes == 0 && seconds >= 10 ==> shown
                == text::signed_decimal(seconds) + " sec ago"@
        }),
{
    let secs = 86400 * days + 3600 * hours + 60 * minutes + seconds;
    assert(secs / 86400 == days);
    assert(days == 0 ==> secs / 3600 == hours);
    assert(days == 0 && hours == 0 ==> secs / 60 == minutes);
}

/// The time that remains is shown in its two largest units from an hour on, in whole minutes or
/// seconds below, and as "Expired" where none remains.
pub proof fn remaining_times_are_shown_in_large_units(
    days: int,
    hours: int,
    minutes: int,
    seconds: int,
)
    requires
        0 <= days,
        0 <= hours < 24,
        0 <= minutes < 60,
        0 <= seconds < 60,
    ensures
        forall|secs: int| secs <= 0 ==> #[trigger] remaining_text(secs) == "Expired"@,
        ({
            let shown = remaining_text(86400 * days + 3600 * hours + 60 * minutes + seconds);
            &&& days > 0 ==> shown == text::signed_decimal(days) + "d "@ + text::signed_decimal(
                hours,
            ) + "h"@
            &&& days == 0 && hours > 0 ==> shown == text::signed_decimal(hours) + "h "@
                + text::signed_decimal(minutes) + "m"@
            &&& days == 0 && hours == 0 && minutes > 0 ==> shown == text::signed_decimal(minutes)
                + "m"@
            &&& days == 0 && hours == 0 && minutes == 0 && seconds > 0 ==> shown
                == text::signed_decimal(seconds) + "s"@
        }),
{
    let secs = 86400 * days + 3600 * hours + 60 * minutes + seconds;
    if days > 0 {
        assert(secs / 86400 == days && secs % 86400 / 3600 == hours);
    } else {
        assert(secs / 3600 == hours && secs % 3600 / 60 == minutes);
        assert(hours == 0 ==> secs / 60 == minutes);
    }
}

} // verus!
