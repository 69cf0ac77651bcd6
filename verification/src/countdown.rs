//! The countdown timer: an end instant, and the symbols that show how long
//! is left until it.

use crate::clock::local_now;
use crate::display::Color8;
use crate::font::COLON;
use crate::text::{chars_of, lowercased, parse_signed_chars, signed_value, trimmed};
use chrono::{TimeZone, Timelike};
use vstd::prelude::*;

verus! {

/// Nanoseconds in one second.
pub const NANOS_PER_SEC: u32 = 1_000_000_000;

/// An instant on the UTC time line: whole seconds since the Unix epoch and
/// the nanoseconds past them.
#[derive(Clone, Copy, Debug, PartialEq, Eq, Structural)]
pub struct Timestamp {
    pub secs: i64,
    pub nanos: u32,
}

/// No date the calendar can hold lies this many seconds from the epoch.
pub const CALENDAR_SECS: i64 = 10_000_000_000_000;

impl Timestamp {
    /// Whether the instant lies within the dates the calendar can hold.
    pub open spec fn in_calendar(self) -> bool {
        -CALENDAR_SECS < self.secs < CALENDAR_SECS
    }

    /// Position on the time line, in nanoseconds since the epoch.
    pub open spec fn total_nanos(self) -> int {
        self.secs * NANOS_PER_SEC + self.nanos
    }

    /// An instant from its two parts.
    pub fn new(secs: i64, nanos: u32) -> (t: Self)
        ensures
            t.secs == secs,
            t.nanos == nanos,
    {
        Self { secs, nanos }
    }

    /// Position on the time line, in nanoseconds since the epoch.
    pub fn nanos_since_epoch(&self) -> (n: i128)
        ensures
            n == self.total_nanos(),
    {
        self.secs as i128 * 1_000_000_000i128 + self.nanos as i128
    }

    /// Whether this instant is at or after `other`.
    pub fn reached(&self, other: &Timestamp) -> (r: bool)
        ensures
            r == (self.total_nanos() >= other.total_nanos()),
    {
        self.nanos_since_epoch() >= other.nanos_since_epoch()
    }
}

/// Whole seconds left from `now` until `end`, counting a started second as a
/// whole one; zero once `now` has reached `end`.
pub open spec fn seconds_left(end: Timestamp, now: Timestamp) -> nat {
    if now.total_nanos() >= end.total_nanos() {
        0
    } else {
        ((end.total_nanos() - now.total_nanos() + NANOS_PER_SEC) / (NANOS_PER_SEC as int)) as nat
    }
}

/// The two symbols of a group: what stands above the last decimal digit of
/// `value`, cut to a machine word, and that last digit. Below one hundred
/// these are its two digits.
pub open spec fn pair(value: nat) -> Seq<usize> {
    seq![(value / 10) as usize, (value % 10) as usize]
}

/// The symbols that show `secs` seconds: hours, minutes and seconds, two
/// digits each with a colon between groups. The hour group is left out when
/// it is zero, and the minute group when hours and minutes are both zero.
/// No seconds left shows as nothing at all.
pub open spec fn countdown_symbols(secs: nat) -> Seq<usize> {
    let h = secs / 3600;
    let m = (secs % 3600) / 60;
    let s = secs % 60;
    if secs == 0 {
        Seq::empty()
    } else if h > 0 {
        pair(h) + seq![COLON] + pair(m) + seq![COLON] + pair(s)
    } else if m > 0 {
        pair(m) + seq![COLON] + pair(s)
    } else {
        pair(s)
    }
}

/// Largest number of seconds a duration may hold, either way.
pub const MAX_DURATION_SECS: i64 = 9_223_372_036_854_775;

/// What the user asked of the countdown: how long or until when, and how
/// to draw it.
#[derive(Clone, Copy, Debug)]
pub struct CountdownArgs {
    /// Length of the countdown in seconds.
    pub duration: Option<i64>,
    /// Instant the countdown ends at.
    pub target: Option<Timestamp>,
    /// Height of each digit tile.
    pub height: u16,
    /// Width of each digit tile.
    pub width: u16,
    /// Horizontal offset.
    pub x: u16,
    /// Vertical offset.
    pub y: u16,
    /// Font of the digits.
    pub font: usize,
    /// Colour of the digit tiles.
    pub color: Color8,
}

/// The sub-commands of the clock.
#[derive(Clone, Copy, Debug)]
pub enum CountdownCommands {
    /// Start a countdown.
    Countdown(CountdownArgs),
}

/// A running countdown: the instant it ends at.
#[derive(Clone, Copy, Debug, PartialEq, Eq, Structural)]
pub struct CD {
    pub end: Timestamp,
}

/// Appends the two symbols of `value` to `digits`.
fn push_pair(digits: &mut Vec<usize>, value: u128)
    ensures
        final(digits)@ == old(digits)@ + pair(value as nat),
{
    digits.push(#[verifier::truncate] ((value / 10) as usize));
    digits.push((value % 10) as usize);
    assert(digits@ =~= old(digits)@ + pair(value as nat));
}

/// Reads the system clock.
///
/// Trusted: calls `chrono::Utc::now` and hands out the Unix timestamp of the
/// result and its nanoseconds. The claim is that the seconds lie within the
/// range of dates chrono can hold (well inside ten trillion either way) and
/// that the nanoseconds are those of a plain, non-leap second.
#[verifier::external_body]
fn utc_now() -> (now: Timestamp)
    ensures
        now.in_calendar(),
        now.nanos < NANOS_PER_SEC,
{
    let now = chrono::Utc::now();
    Timestamp { secs: now.timestamp(), nanos: now.timestamp_subsec_nanos() }
}

impl Timestamp {
    /// The instant the system clock reads.
    pub fn now() -> (now: Self)
        ensures
            now.in_calendar(),
            now.nanos < NANOS_PER_SEC,
    {
        utc_now()
    }
}

impl CD {
    /// Whether this countdown ends `duration` seconds after `now`, to the
    /// nanosecond.
    pub open spec fn started_at(&self, now: Timestamp, duration: i64) -> bool {
        &&& self.end.secs == now.secs + duration
        &&& self.end.nanos == now.nanos
    }

    /// Whether `digits` is what this countdown shows at the instant `now`.
    pub open spec fn shows_at(&self, now: Timestamp, digits: Seq<usize>) -> bool {
        digits == countdown_symbols(seconds_left(self.end, now))
    }

    /// A countdown of `duration` seconds that starts at the instant `now`.
    pub fn starting_at(now: Timestamp, duration: i64) -> (cd: Self)
        requires
            i64::MIN <= now.secs + duration <= i64::MAX,
        ensures
            cd.started_at(now, duration),
    {
        Self { end: Timestamp { secs: now.secs + duration, nanos: now.nanos } }
    }

    /// A countdown of `duration` seconds that starts now: the end lies
    /// `duration` seconds after the instant the system clock reads, whatever
    /// that is.
    pub fn new_duration(duration: i64) -> (cd: Self)
        requires
            -MAX_DURATION_SECS <= duration <= MAX_DURATION_SECS,
        ensures
            exists|now: Timestamp| #[trigger] cd.started_at(now, duration) && now.in_calendar(),
    {
        let now = utc_now();
        let cd = CD::starting_at(now, duration);
        assert(cd.started_at(now, duration) && now.in_calendar());
        cd
    }

    /// The symbols to show right now: what `remaining_at` gives for the
    /// instant the system clock reads, whatever that is.
    pub fn remaining(&self) -> (digits: Vec<usize>)
        ensures
            exists|now: Timestamp| #[trigger] self.shows_at(now, digits@) && now.in_calendar(),
    {
        let now = utc_now();
        let digits = self.remaining_at(now);
        assert(self.shows_at(now, digits@) && now.in_calendar());
        digits
    }

    /// A countdown that ends at `target`.
    pub fn new_target(target: Timestamp) -> (cd: Self)
        ensures
            cd.end == target,
    {
        Self { end: target }
    }

    /// The symbols to show at the instant `now`: empty once `now` has reached
    /// the end, and the time left otherwise.
    pub fn remaining_at(&self, now: Timestamp) -> (digits: Vec<usize>)
        ensures
            self.shows_at(now, digits@),
            digits@.len() == 0 <==> now.total_nanos() >= self.end.total_nanos(),
    {
        let mut digits: Vec<usize> = Vec::new();
        if now.reached(&self.end) {
            return digits;
        }
        let end: i128 = self.end.nanos_since_epoch();
        let start: i128 = now.nanos_since_epoch();
        let secs: u128 = ((end - start + 1_000_000_000i128) / 1_000_000_000i128) as u128;
        let h: u128 = secs / 3600;
        let m: u128 = (secs % 3600) / 60;
        let s: u128 = secs % 60;
        if h > 0 {
            push_pair(&mut digits, h);
            digits.push(COLON);
        }
        if h > 0 || m > 0 {
            push_pair(&mut digits, m);
            digits.push(COLON);
        }
        push_pair(&mut digits, s);
        assert(digits@ =~= countdown_symbols(secs as nat));
        digits
    }
}

/// As the clock advances the time left never grows: a later instant has at
/// most as many seconds left, and at most as many symbols on show.
pub proof fn lemma_remaining_never_grows(end: Timestamp, earlier: Timestamp, later: Timestamp)
    requires
        earlier.total_nanos() <= later.total_nanos(),
    ensures
        seconds_left(end, later) <= seconds_left(end, earlier),
        countdown_symbols(seconds_left(end, later)).len() <= countdown_symbols(
            seconds_left(end, earlier),
        ).len(),
{
}

/// Nothing is shown exactly once the end is reached: before it at least one
/// second is left, from it on none.
pub proof fn lemma_remaining_empty_once_reached(end: Timestamp, now: Timestamp)
    ensures
        seconds_left(end, now) == 0 <==> now.total_nanos() >= end.total_nanos(),
        countdown_symbols(seconds_left(end, now)).len() == 0 <==> now.total_nanos()
            >= end.total_nanos(),
{
}

/// Which groups are shown: seconds alone below one minute, minutes and
/// seconds below one hour, all three groups from one hour on, whatever the
/// minutes are. Minute and second groups never show 60 or more.
pub proof fn lemma_countdown_groups(secs: nat)
    ensures
        secs == 0 <==> countdown_symbols(secs).len() == 0,
        0 < secs < 60 <==> countdown_symbols(secs).len() == 2,
        60 <= secs < 3600 <==> countdown_symbols(secs).len() == 5,
        3600 <= secs <==> countdown_symbols(secs).len() == 8,
        0 < secs < 60 ==> countdown_symbols(secs) == pair(secs),
        60 <= secs < 3600 ==> countdown_symbols(secs) == pair(secs / 60) + seq![COLON] + pair(
            secs % 60,
        ),
        3600 <= secs ==> countdown_symbols(secs) == pair(secs / 3600) + seq![COLON] + pair(
            (secs % 3600) / 60,
        ) + seq![COLON] + pair(secs % 60),
        (secs % 3600) / 60 < 60,
        secs % 60 < 60,
{
}

/// Why a duration is turned down.
#[derive(Clone, Copy, Debug, PartialEq, Eq, Structural)]
pub enum DurationError {
    /// What stands before the unit is not a whole number of 64 bits.
    InvalidNumber,
    /// The duration is longer than a duration can be.
    OutOfRange,
}

impl DurationError {
    /// The words `describe` gives for each reason.
    pub open spec fn words(self) -> Seq<char> {
        match self {
            DurationError::InvalidNumber => "Invalid duration"@,
            DurationError::OutOfRange => "Duration out of range"@,
        }
    }

    /// Says in words why the duration is turned down.
    pub fn describe(&self) -> (words: &'static str)
        ensures
            words@ == self.words(),
    {
        match self {
            DurationError::InvalidNumber => "Invalid duration",
            DurationError::OutOfRange => "Duration out of range",
        }
    }
}

/// A number of seconds as a duration, if a duration can be that long.
pub open spec fn span(secs: int) -> Option<i64> {
    if -MAX_DURATION_SECS <= secs <= MAX_DURATION_SECS {
        Some(secs as i64)
    } else {
        None
    }
}

/// The number part of a duration text: all of it but a final unit letter.
pub open spec fn duration_number(s: Seq<char>) -> Seq<char> {
    if s.len() > 0 && (s.last() == 'h' || s.last() == 'm' || s.last() == 's') {
        s.drop_last()
    } else {
        s
    }
}

/// Seconds in the unit a duration text ends with: `h` for hours, `m` for
/// minutes, `s` or nothing for seconds.
pub open spec fn duration_unit(s: Seq<char>) -> int {
    if s.len() > 0 && s.last() == 'h' {
        3600
    } else if s.len() > 0 && s.last() == 'm' {
        60
    } else {
        1
    }
}

/// What a trimmed, lower-case duration text means: the whole number before
/// the unit, times the unit, in seconds.
pub open spec fn duration_of(s: Seq<char>) -> Result<i64, DurationError> {
    match signed_value(duration_number(s), i64::MAX as nat) {
        None => Err(DurationError::InvalidNumber),
        Some(n) => match span(n * duration_unit(s)) {
            Some(secs) => Ok(secs),
            None => Err(DurationError::OutOfRange),
        },
    }
}

/// A duration of whole hours, in seconds.
///
/// Trusted: calls `chrono::TimeDelta::try_hours` and hands out the whole
/// seconds of the result. The claim is chrono's documented one: the result
/// is `count * 3600` seconds unless that lies beyond the longest duration,
/// `i64::MAX / 1000` seconds either way, in which case there is none.
#[verifier::external_body]
fn hours(count: i64) -> (r: Option<i64>)
    ensures
        r == span(count * 3600),
{
    match chrono::TimeDelta::try_hours(count) {
        Some(d) => Some(d.num_seconds()),
        None => None,
    }
}

/// A duration of whole minutes, in seconds.
///
/// Trusted: calls `chrono::TimeDelta::try_minutes`; the claim is as for
/// hours, with `count * 60` seconds.
#[verifier::external_body]
fn minutes(count: i64) -> (r: Option<i64>)
    ensures
        r == span(count * 60),
{
    match chrono::TimeDelta::try_minutes(count) {
        Some(d) => Some(d.num_seconds()),
        None => None,
    }
}

/// A duration of whole seconds.
///
/// Trusted: calls `chrono::TimeDelta::try_seconds`; the claim is as for
/// hours, with `count` itself.
#[verifier::external_body]
fn seconds(count: i64) -> (r: Option<i64>)
    ensures
        r == span(count as int),
{
    match chrono::TimeDelta::try_seconds(count) {
        Some(d) => Some(d.num_seconds()),
        None => None,
    }
}

/// Reads a duration from text that is already trimmed and in lower case.
pub fn parse_plain_duration(s: &str) -> (r: Result<i64, DurationError>)
    ensures
        r == duration_of(s@),
        r matches Ok(secs) ==> -MAX_DURATION_SECS <= secs <= MAX_DURATION_SECS,
{
    let mut chars = chars_of(s);
    let n: usize = chars.len();
    let unit: char = if n > 0 {
        chars[n - 1]
    } else {
        ' '
    };
    if n > 0 && (unit == 'h' || unit == 'm' || unit == 's') {
        chars.pop();
        assert(chars@ =~= duration_number(s@));
    }
    assert(chars@ == duration_number(s@));
    let number = match parse_signed_chars(&chars) {
        Some(number) => number,
        None => {
            return Err(DurationError::InvalidNumber);
        },
    };
    let length = if n > 0 && unit == 'h' {
        hours(number)
    } else if n > 0 && unit == 'm' {
        minutes(number)
    } else {
        seconds(number)
    };
    match length {
        Some(secs) => Ok(secs),
        None => Err(DurationError::OutOfRange),
    }
}

/// Reads a duration such as `10m`, `1h`, `30s` or `45`: the text is trimmed
/// and put in lower case, then read as a whole number and a unit.
pub fn parse_duration(input: &str) -> (r: Result<i64, DurationError>)
    ensures
        r == duration_of(lowercased(trimmed(input@))),
        r matches Ok(secs) ==> -MAX_DURATION_SECS <= secs <= MAX_DURATION_SECS,
{
    let plain = input.trim().to_lowercase();
    parse_plain_duration(plain.as_str())
}

/// Why a target time is turned down.
#[derive(Clone, Copy, Debug, PartialEq, Eq, Structural)]
pub enum TargetError {
    /// The local time named does not exist, or exists twice.
    UnknownLocalTime,
    /// The text is neither a date and time nor a time of day.
    InvalidFormat,
}

impl TargetError {
    /// The words `describe` gives for each reason.
    pub open spec fn words(self) -> Seq<char> {
        match self {
            TargetError::UnknownLocalTime => "Unknown local time"@,
            TargetError::InvalidFormat => "Invalid time format"@,
        }
    }

    /// Says in words why the target time is turned down.
    pub fn describe(&self) -> (words: &'static str)
        ensures
            words@ == self.words(),
    {
        match self {
            TargetError::UnknownLocalTime => "Unknown local time",
            TargetError::InvalidFormat => "Invalid time format",
        }
    }

    /// The message for a text that was turned down: for a text that is no
    /// time, the words, a colon, a blank and the text; for a local time
    /// that is unknown, the words alone.
    pub open spec fn message_of(self, text: Seq<char>) -> Seq<char> {
        match self {
            TargetError::UnknownLocalTime => self.words(),
            TargetError::InvalidFormat => self.words() + ": "@ + text,
        }
    }

    /// The message for the input this error was given for. The input is
    /// trimmed as `parse_target_time` trims it.
    pub fn message(&self, input: &str) -> (message: String)
        ensures
            message@ == self.message_of(trimmed(input@)),
    {
        let mut message = String::from_str(self.describe());
        match self {
            TargetError::UnknownLocalTime => {},
            TargetError::InvalidFormat => {
                message.append(": ");
                message.append(input.trim());
            },
        }
        message
    }
}

/// What a text reads as.
#[derive(Clone, Copy, Debug, PartialEq, Eq, Structural)]
pub enum Reading {
    /// A date and time: seconds on the calendar's own time line, counted as
    /// if the calendar were UTC's, and nanoseconds.
    DateTime(i64, u32),
    /// A time of day: seconds since midnight, and nanoseconds.
    TimeOfDay(u32, u32),
    /// Neither.
    Nothing,
}

/// Seconds in one day.
pub const DAY_SECS: i64 = 86_400;

/// What reading `input` as a date and time in `format` gives: the seconds of
/// the date and time on the calendar's own time line and its nanoseconds,
/// or nothing when `input` does not read so.
pub uninterp spec fn datetime_parsed(input: Seq<char>, format: Seq<char>) -> Option<(i64, u32)>;

/// What reading `input` as a time of day in `format` gives: the seconds
/// since midnight and the nanoseconds, or nothing when `input` does not
/// read so.
pub uninterp spec fn time_parsed(input: Seq<char>, format: Seq<char>) -> Option<(u32, u32)>;

/// What a trimmed target text reads as: a date and time with seconds, or
/// without, or else a time of day with seconds, or without.
pub open spec fn target_reading(s: Seq<char>) -> Reading {
    if let Some(v) = datetime_parsed(s, "%Y-%m-%d %H:%M:%S"@) {
        Reading::DateTime(v.0, v.1)
    } else if let Some(v) = datetime_parsed(s, "%Y-%m-%d %H:%M"@) {
        Reading::DateTime(v.0, v.1)
    } else if let Some(v) = time_parsed(s, "%H:%M:%S"@) {
        Reading::TimeOfDay(v.0, v.1)
    } else if let Some(v) = time_parsed(s, "%H:%M"@) {
        Reading::TimeOfDay(v.0, v.1)
    } else {
        Reading::Nothing
    }
}

/// Reads a date and time.
///
/// Trusted: calls `chrono::NaiveDateTime::parse_from_str` and hands out the
/// result as seconds and nanoseconds. The claim is only that the result is
/// what `datetime_parsed` names for the same input and format.
#[verifier::external_body]
fn parse_datetime(input: &str, format: &str) -> (r: Option<(i64, u32)>)
    ensures
        r == datetime_parsed(input@, format@),
{
    match chrono::NaiveDateTime::parse_from_str(input, format) {
        Ok(dt) => Some((dt.and_utc().timestamp(), dt.and_utc().timestamp_subsec_nanos())),
        Err(_) => None,
    }
}

/// Reads a time of day.
///
/// Trusted: calls `chrono::NaiveTime::parse_from_str` and hands out the
/// result as seconds since midnight and nanoseconds. The claim is only that
/// the result is what `time_parsed` names for the same input and format.
#[verifier::external_body]
fn parse_time(input: &str, format: &str) -> (r: Option<(u32, u32)>)
    ensures
        r == time_parsed(input@, format@),
{
    match chrono::NaiveTime::parse_from_str(input, format) {
        Ok(t) => Some((t.num_seconds_from_midnight(), t.nanosecond())),
        Err(_) => None,
    }
}

/// Whether `t` can be the instant at which a local calendar shows the
/// calendar seconds `secs` and the nanoseconds `nanos`: a zone lies less
/// than a day from UTC, so `t` lies less than a day from `secs`, and it
/// keeps the nanoseconds.
pub open spec fn shown_locally(t: Timestamp, secs: int, nanos: u32) -> bool {
    t.nanos == nanos && secs - DAY_SECS < t.secs < secs + DAY_SECS
}

/// The instant at which the local calendar shows the given date and time.
///
/// Trusted: rebuilds the date and time with `chrono::DateTime::from_timestamp`
/// and maps it through `chrono::TimeZone::from_local_datetime` of
/// `chrono::Local`, keeping the result only if it is single. Whether there
/// is an answer, and which, depends on the machine's time zone. The claim
/// is what holds in every zone: an instant handed out is one the calendar
/// can hold, it keeps the nanoseconds, and it is the given seconds less the
/// zone's offset, which chrono keeps strictly within a day either way.
#[verifier::external_body]
fn local_instant(secs: i64, nanos: u32) -> (r: Option<Timestamp>)
    ensures
        r matches Some(t) ==> t.in_calendar() && shown_locally(t, secs as int, nanos),
{
    let naive = match chrono::DateTime::from_timestamp(secs, nanos) {
        Some(dt) => dt.naive_utc(),
        None => return None,
    };
    match chrono::Local.from_local_datetime(&naive).single() {
        Some(dt) => Some(Timestamp { secs: dt.timestamp(), nanos: dt.timestamp_subsec_nanos() }),
        None => None,
    }
}

/// The next time the clock shows what it shows at `at`: `at` itself while it
/// lies ahead of `now`, and the same time one day later once `now` has
/// reached it.
pub open spec fn next_occurrence(at: Timestamp, now: Timestamp) -> Timestamp {
    if now.total_nanos() >= at.total_nanos() {
        Timestamp { secs: (at.secs + DAY_SECS) as i64, nanos: at.nanos }
    } else {
        at
    }
}

/// Computes `next_occurrence`.
pub fn upcoming(at: Timestamp, now: Timestamp) -> (t: Timestamp)
    requires
        at.secs + DAY_SECS <= i64::MAX,
    ensures
        t == next_occurrence(at, now),
{
    if now.reached(&at) {
        Timestamp { secs: at.secs + DAY_SECS, nanos: at.nanos }
    } else {
        at
    }
}

/// What `input` reads as.
pub fn read_target(input: &str) -> (reading: Reading)
    ensures
        reading == target_reading(input@),
{
    if let Some(v) = parse_datetime(input, "%Y-%m-%d %H:%M:%S") {
        Reading::DateTime(v.0, v.1)
    } else if let Some(v) = parse_datetime(input, "%Y-%m-%d %H:%M") {
        Reading::DateTime(v.0, v.1)
    } else if let Some(v) = parse_time(input, "%H:%M:%S") {
        Reading::TimeOfDay(v.0, v.1)
    } else if let Some(v) = parse_time(input, "%H:%M") {
        Reading::TimeOfDay(v.0, v.1)
    } else {
        Reading::Nothing
    }
}

/// The calendar seconds and nanoseconds a reading names on a day that
/// starts at `midnight`: a date and time names its own, a time of day names
/// that many seconds after `midnight`, and nothing names none.
pub open spec fn calendar_seconds_of(reading: Reading, midnight: i64) -> Option<(i64, u32)> {
    match reading {
        Reading::DateTime(secs, nanos) => Some((secs, nanos)),
        Reading::TimeOfDay(secs, nanos) => Some(((midnight + secs) as i64, nanos)),
        Reading::Nothing => None,
    }
}

/// Computes `calendar_seconds_of`: what is handed to the local calendar.
pub fn calendar_seconds(reading: Reading, midnight: i64) -> (r: Option<(i64, u32)>)
    requires
        -CALENDAR_SECS < midnight < CALENDAR_SECS,
    ensures
        r == calendar_seconds_of(reading, midnight),
{
    match reading {
        Reading::DateTime(secs, nanos) => Some((secs, nanos)),
        Reading::TimeOfDay(secs, nanos) => Some((midnight + secs as i64, nanos)),
        Reading::Nothing => None,
    }
}

/// Whether `t` can be what a time of day resolves to, on a day that starts
/// at `midnight`, when the local calendar places the time of day at `today`
/// and the clock reads `now`: `today` is where some zone shows that time of
/// day, and `t` is its next occurrence.
pub open spec fn time_of_day_resolved(
    reading: Reading,
    t: Timestamp,
    midnight: i64,
    today: Timestamp,
    now: Timestamp,
) -> bool {
    &&& reading matches Reading::TimeOfDay(secs, nanos)
    &&& -CALENDAR_SECS < midnight < CALENDAR_SECS
    &&& shown_locally(today, midnight + secs, nanos)
    &&& t == next_occurrence(today, now)
}

/// What holds of the instant `t` a reading resolves to, whatever the
/// machine's zone and clock. A date and time resolves to an instant less
/// than a day from its calendar seconds, with its nanoseconds. A time of
/// day resolves to the next occurrence of an instant that some zone shows
/// as that time of day on some day, with its nanoseconds.
pub open spec fn resolved(reading: Reading, t: Timestamp) -> bool {
    match reading {
        Reading::DateTime(secs, nanos) => shown_locally(t, secs as int, nanos),
        Reading::TimeOfDay(secs, nanos) => t.nanos == nanos && exists|
            midnight: i64,
            today: Timestamp,
            now: Timestamp,
        | #[trigger] time_of_day_resolved(reading, t, midnight, today, now),
        Reading::Nothing => false,
    }
}

/// The instant a reading stands for. A date and time stands for the instant
/// the local calendar shows it. A time of day stands for the next instant
/// the local clock shows it, today or tomorrow. What the local calendar
/// says is the machine's to decide: whatever it says, a reading of nothing
/// is the one thing that gives `InvalidFormat`, the only other way to fail
/// is `UnknownLocalTime`, and an instant returned is one the reading can
/// resolve to.
pub fn resolve_target(reading: Reading) -> (r: Result<Timestamp, TargetError>)
    ensures
        r == Err::<Timestamp, TargetError>(TargetError::InvalidFormat) <==> reading
            == Reading::Nothing,
        r.is_err() ==> r == Err::<Timestamp, TargetError>(TargetError::InvalidFormat) || r == Err::<
            Timestamp,
            TargetError,
        >(TargetError::UnknownLocalTime),
        r matches Ok(t) ==> -CALENDAR_SECS < t.secs < CALENDAR_SECS + DAY_SECS,
        r matches Ok(t) ==> resolved(reading, t),
{
    let midnight: i64 = match reading {
        Reading::TimeOfDay(_, _) => local_now().midnight,
        _ => 0,
    };
    let (secs, nanos) = match calendar_seconds(reading, midnight) {
        Some(named) => named,
        None => {
            return Err(TargetError::InvalidFormat);
        },
    };
    let shown = match local_instant(secs, nanos) {
        Some(shown) => shown,
        None => {
            return Err(TargetError::UnknownLocalTime);
        },
    };
    match reading {
        Reading::TimeOfDay(_, _) => {
            let now = Timestamp::now();
            let t = upcoming(shown, now);
            assert(time_of_day_resolved(reading, t, midnight, shown, now));
            Ok(t)
        },
        _ => Ok(shown),
    }
}

/// Reads a target time such as `2025-07-19 12:00` or `18:30`: the text is
/// trimmed, read as a date and time or else as a time of day, and placed on
/// the local calendar. It fails with `InvalidFormat` exactly when the
/// trimmed text reads as neither, and an instant returned is one that the
/// reading of the trimmed text can resolve to.
pub fn parse_target_time(input: &str) -> (r: Result<Timestamp, TargetError>)
    ensures
        r == Err::<Timestamp, TargetError>(TargetError::InvalidFormat) <==> target_reading(
            trimmed(input@),
        ) == Reading::Nothing,
        r.is_err() ==> r == Err::<Timestamp, TargetError>(TargetError::InvalidFormat) || r == Err::<
            Timestamp,
            TargetError,
        >(TargetError::UnknownLocalTime),
        r matches Ok(t) ==> -CALENDAR_SECS < t.secs < CALENDAR_SECS + DAY_SECS,
        r matches Ok(t) ==> resolved(target_reading(trimmed(input@)), t),
{
    let reading = read_target(input.trim());
    resolve_target(reading)
}

} // verus!
