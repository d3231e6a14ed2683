//! Points in time, durations, and the file names made from them.
use crate::text::{
    decimal, digit, reading, two_digit_text, two_digits, two_digits_are_read_back,
};
use chrono::{DateTime, Datelike, Local, Timelike};
use vstd::prelude::*;

verus! {

/// A point in time: the seconds since 1970-01-01 00:00:00 UTC and the nanoseconds since
/// the last whole second. A leap second is written as second 59 of its minute with a
/// thousand million nanoseconds or more.
#[derive(Clone, Copy, Debug, PartialEq, Eq, Structural)]
pub struct Instant {
    pub seconds: i64,
    pub nanos: u32,
}

impl Instant {
    /// Whether the values are those of a point in time that a date with a year from 0 to
    /// 9999, and an offset of less than a day, can name.
    pub open spec fn wf(self) -> bool {
        &&& -62_167_305_600 <= self.seconds <= 253_402_387_200
        &&& self.nanos < 2_000_000_000
        &&& self.nanos >= 1_000_000_000 ==> self.seconds % 60 == 59
    }
}

/// The point in time that `text` names in the form of RFC 3339, or the words that say why it
/// names none.
pub uninterp spec fn rfc3339_instant(text: Seq<char>) -> Result<Instant, Seq<char>>;

/// `chrono::DateTime::parse_from_rfc3339`: the point in time it reads, as seconds and
/// nanoseconds (its `timestamp` and `timestamp_subsec_nanos`), or the text of its error. What it
/// reads from which text is left to the name; an instant that it gives is well formed, because
/// the year has four digits, the offset is less than a day and counts whole minutes, and a
/// sixtieth second is read as second 59 with a thousand million nanoseconds more.
#[verifier::external_body]
pub(crate) fn parse_rfc3339(text: &str) -> (r: Result<Instant, String>)
    ensures
        match r {
            Ok(i) => rfc3339_instant(text@) == Ok::<Instant, Seq<char>>(i) && i.wf(),
            Err(e) => rfc3339_instant(text@) == Err::<Instant, Seq<char>>(e@),
        },
{
    match DateTime::parse_from_rfc3339(text) {
        Ok(t) => Ok(Instant { seconds: t.timestamp(), nanos: t.timestamp_subsec_nanos() }),
        Err(e) => Err(e.to_string()),
    }
}

/// The leap second that lies between two points in time, where the later time of day is
/// the later one: a leap second that the earlier time of day is in has still to pass.
pub open spec fn leap_correction(from: Instant, to: Instant) -> int {
    if to.seconds % 86_400 > from.seconds % 86_400 && from.nanos >= 1_000_000_000 {
        1
    } else if to.seconds % 86_400 < from.seconds % 86_400 && to.nanos >= 1_000_000_000 {
        -1
    } else {
        0
    }
}

/// The nanoseconds from one point in time to another, negative where `to` is the earlier.
pub open spec fn nanos_between(from: Instant, to: Instant) -> int {
    (to.seconds - from.seconds + leap_correction(from, to)) * 1_000_000_000 + (to.nanos
        - from.nanos)
}

/// The whole seconds in a number of nanoseconds, rounded towards zero.
pub open spec fn whole_seconds(nanos: int) -> int {
    if nanos >= 0 {
        nanos / 1_000_000_000
    } else {
        -((-nanos) / 1_000_000_000)
    }
}

/// The whole seconds from one point in time to another.
pub open spec fn seconds_between(from: Instant, to: Instant) -> int {
    whole_seconds(nanos_between(from, to))
}

/// `chrono::DateTime::signed_duration_since`, then `TimeDelta::num_seconds`: the difference of
/// the two points in time in whole seconds, rounded towards zero. A leap second counts as
/// passed where the other point in time has the later time of day.
#[verifier::external_body]
pub(crate) fn elapsed_seconds(from: Instant, to: Instant) -> (r: i64)
    requires
        from.wf(),
        to.wf(),
    ensures
        r == seconds_between(from, to),
{
    let from = DateTime::from_timestamp(from.seconds, from.nanos).unwrap();
    let to = DateTime::from_timestamp(to.seconds, to.nanos).unwrap();
    to.signed_duration_since(from).num_seconds()
}

/// A date and a time of day as a clock on the wall shows them.
#[derive(Clone, Copy, Debug, PartialEq, Eq, Structural)]
pub struct LocalTime {
    pub year: i32,
    pub month: u32,
    pub day: u32,
    pub hour: u32,
    pub minute: u32,
    pub second: u32,
}

/// The days from 1970-01-01 to a day of the Gregorian calendar.
pub open spec fn days_from_civil(year: int, month: int, day: int) -> int {
    let y = if month <= 2 {
        year - 1
    } else {
        year
    };
    let era = y / 400;
    let year_of_era = y - era * 400;
    let months_from_march = if month > 2 {
        month - 3
    } else {
        month + 9
    };
    let day_of_year = (153 * months_from_march + 2) / 5 + day - 1;
    era * 146_097 + year_of_era * 365 + year_of_era / 4 - year_of_era / 100 + day_of_year - 719_468
}

impl LocalTime {
    /// Whether the values are those of a clock.
    pub open spec fn wf(self) -> bool {
        &&& -1 <= self.year <= 10_000
        &&& 1 <= self.month <= 12
        &&& 1 <= self.day <= 31
        &&& self.hour < 24
        &&& self.minute < 60
        &&& self.second < 60
    }

    /// The seconds from 1970-01-01 00:00:00 to this time on the same clock.
    pub open spec fn wall_seconds(self) -> int {
        days_from_civil(self.year as int, self.month as int, self.day as int) * 86_400 + self.hour
            * 3_600 + self.minute * 60 + self.second
    }
}

/// `chrono::DateTime::with_timezone` with `chrono::Local`: the date and time of day of the
/// instant in the time zone of the machine. The zone is not known here; in every zone the clock
/// differs from that of UTC by less than a day.
#[verifier::external_body]
pub(crate) fn local_time(i: Instant) -> (r: LocalTime)
    requires
        i.wf(),
    ensures
        r.wf(),
        -86_400 < r.wall_seconds() - i.seconds < 86_400,
{
    let t = DateTime::from_timestamp(i.seconds, i.nanos).unwrap().with_timezone(&Local);
    LocalTime {
        year: t.year(),
        month: t.month(),
        day: t.day(),
        hour: t.hour(),
        minute: t.minute(),
        second: t.second(),
    }
}

/// `n` in decimal, with three digits.
pub open spec fn three_digits(n: nat) -> Seq<char> {
    seq![digit(n / 100), digit(n / 10 % 10), digit(n % 10)]
}

/// The part of a second as a text: as many groups of three digits as it takes, behind a dot.
pub open spec fn fraction_text(nanos: nat) -> Seq<char> {
    if nanos == 0 {
        Seq::empty()
    } else if nanos % 1_000_000 == 0 {
        "."@ + three_digits(nanos / 1_000_000)
    } else if nanos % 1_000 == 0 {
        "."@ + three_digits(nanos / 1_000_000) + three_digits(nanos / 1_000 % 1_000)
    } else {
        "."@ + three_digits(nanos / 1_000_000) + three_digits(nanos / 1_000 % 1_000)
            + three_digits(nanos % 1_000)
    }
}

/// `YYYY-MM-DDTHH:MM:SS`, the part of the second, and the minutes by which the clock is ahead of
/// UTC, or behind it in the west.
pub open spec fn time_text(at: LocalTime, nanos: nat, west: bool, offset: nat) -> Seq<char> {
    year_digits(at.year as int) + "-"@ + two_digits(at.month as nat) + "-"@ + two_digits(
        at.day as nat,
    ) + "T"@ + two_digits(at.hour as nat) + ":"@ + two_digits(at.minute as nat) + ":"@
        + two_digits(at.second as nat) + fraction_text(nanos) + (if west {
        "-"@
    } else {
        "+"@
    }) + two_digits(offset / 60) + ":"@ + two_digits(offset % 60)
}

/// Whether `text` is what a clock writes down: a date, a time of day and an offset of a day at most,
/// rounded to minutes. In the years that have four digits, and with an offset of less than a day, it
/// is read back as what was written.
pub open spec fn is_clock_reading(
    text: Seq<char>,
    at: LocalTime,
    nanos: nat,
    west: bool,
    offset: nat,
) -> bool {
    &&& 1 <= at.month <= 12
    &&& 1 <= at.day <= 31
    &&& at.hour < 24
    &&& at.minute < 60
    &&& at.second < 60
    &&& nanos < 1_000_000_000
    &&& offset <= 1_440
    &&& text == time_text(at, nanos, west, offset)
    &&& 0 <= at.year <= 9_999 && offset < 1_440 ==> {
        &&& rfc3339_instant(text) matches Ok(i)
        &&& i.nanos == nanos
        &&& i.seconds == if west {
            at.wall_seconds() + offset * 60
        } else {
            at.wall_seconds() - offset * 60
        }
    }
}

/// Whether `text` is what some clock writes down at some time.
pub open spec fn is_written_time(text: Seq<char>) -> bool {
    exists|at: LocalTime, nanos: nat, west: bool, offset: nat|
        #[trigger] is_clock_reading(text, at, nanos, west, offset)
}

/// `chrono::Local::now`, then `DateTime::to_rfc3339`: the present time in the time zone of the
/// machine, in the form of RFC 3339. Which time it is rests on the clock. The date, the time of day
/// and the offset are written down part by part; `DateTime::parse_from_rfc3339` reads the same
/// instant from them, where the year has four digits and the offset is less than a day.
#[verifier::external_body]
pub(crate) fn now_rfc3339() -> (r: String)
    ensures
        is_written_time(r@),
{
    Local::now().to_rfc3339()
}

/// `HH:MM:SS` for a number of seconds; a negative number counts as none.
pub open spec fn hms(total_seconds: int) -> Seq<char> {
    let safe: nat = if total_seconds < 0 {
        0
    } else {
        total_seconds as nat
    };
    two_digits(safe / 3_600) + ":"@ + two_digits(safe % 3_600 / 60) + ":"@ + two_digits(safe % 60)
}

/// Writes a number of seconds as `HH:MM:SS`.
pub fn format_hms(total_seconds: i64) -> (r: String)
    ensures
        r@ == hms(total_seconds as int),
{
    let safe: u64 = if total_seconds < 0 {
        0
    } else {
        total_seconds as u64
    };
    two_digit_text(safe / 3_600).concat(":").concat(
        two_digit_text(safe % 3_600 / 60).as_str(),
    ).concat(":").concat(two_digit_text(safe % 60).as_str())
}

/// The text that stands for the duration of a recording from `started` to `ended`, where both
/// are known.
pub open spec fn duration_text(started: Option<Instant>, ended: Option<Instant>) -> Seq<char> {
    match (started, ended) {
        (Some(from), Some(to)) => hms(seconds_between(from, to)),
        _ => "00:00:00"@,
    }
}

/// Writes the duration from `started` to `ended`; it is `00:00:00` where one of them is missing.
pub fn duration_hms(started: Option<Instant>, ended: Option<Instant>) -> (r: String)
    requires
        started matches Some(i) ==> i.wf(),
        ended matches Some(i) ==> i.wf(),
    ensures
        r@ == duration_text(started, ended),
{
    match (started, ended) {
        (Some(from), Some(to)) => format_hms(elapsed_seconds(from, to)),
        _ => "00:00:00".to_owned(),
    }
}

/// The year of a date, with four digits; a year out of their reach has a sign.
pub open spec fn year_digits(year: int) -> Seq<char> {
    if year < 0 {
        "-"@ + four_digits((-year) as nat)
    } else if year <= 9_999 {
        four_digits(year as nat)
    } else {
        "+"@ + four_digits(year as nat)
    }
}

/// `n` in decimal, with at least four digits.
pub open spec fn four_digits(n: nat) -> Seq<char> {
    two_digits(n / 100) + two_digits(n % 100)
}

/// `DD.MM.YYYY`.
pub open spec fn date_text(t: LocalTime) -> Seq<char> {
    two_digits(t.day as nat) + "."@ + two_digits(t.month as nat) + "."@ + year_digits(
        t.year as int,
    )
}

/// `HH-mm-ss`.
pub open spec fn clock_text(t: LocalTime) -> Seq<char> {
    two_digits(t.hour as nat) + "-"@ + two_digits(t.minute as nat) + "-"@ + two_digits(
        t.second as nat,
    )
}

fn four_digit_text(n: u64) -> (r: String)
    ensures
        r@ == four_digits(n as nat),
{
    two_digit_text(n / 100).concat(two_digit_text(n % 100).as_str())
}

fn year_text(year: i32) -> (r: String)
    ensures
        r@ == year_digits(year as int),
{
    if year < 0 {
        "-".to_owned().concat(four_digit_text((-(year as i64)) as u64).as_str())
    } else if year <= 9_999 {
        four_digit_text(year as u64)
    } else {
        "+".to_owned().concat(four_digit_text(year as u64).as_str())
    }
}

fn date_string(t: LocalTime) -> (r: String)
    ensures
        r@ == date_text(t),
{
    two_digit_text(t.day as u64).concat(".").concat(two_digit_text(t.month as u64).as_str()).concat(
        ".",
    ).concat(year_text(t.year).as_str())
}

/// The directory of a session below the root of the recordings:
/// `<tag>/DD.MM.YYYY/meeting_HH-mm-ss`.
pub open spec fn session_dir_text(tag: Seq<char>, t: LocalTime) -> Seq<char> {
    tag + "/"@ + date_text(t) + "/meeting_"@ + clock_text(t)
}

/// Builds the directory of a session below the root of the recordings.
pub fn build_session_relative_dir(tag: &str, started_at: LocalTime) -> (r: String)
    ensures
        r@ == session_dir_text(tag@, started_at),
{
    let clock = two_digit_text(started_at.hour as u64).concat("-").concat(
        two_digit_text(started_at.minute as u64).as_str(),
    ).concat("-").concat(two_digit_text(started_at.second as u64).as_str());
    tag.to_owned().concat("/").concat(date_string(started_at).as_str()).concat("/meeting_").concat(
        clock.as_str(),
    )
}

/// The file for the transcript of a session that started at `started_at`.
pub fn transcript_name(started_at: LocalTime) -> (r: String)
    ensures
        r@ == "transcript_"@ + date_text(started_at) + ".txt"@,
{
    "transcript_".to_owned().concat(date_string(started_at).as_str()).concat(".txt")
}

/// The file for the summary of a session that started at `started_at`.
pub fn summary_name(started_at: LocalTime) -> (r: String)
    ensures
        r@ == "summary_"@ + date_text(started_at) + ".txt"@,
{
    "summary_".to_owned().concat(date_string(started_at).as_str()).concat(".txt")
}

/// A duration is written by its hours, minutes and seconds, and a negative one as none.
pub proof fn a_duration_is_written_by_its_parts(hours: nat, minutes: nat, seconds: nat, negative: int)
    requires
        minutes < 60,
        seconds < 60,
        negative < 0,
    ensures
        hms((hours * 3_600 + minutes * 60 + seconds) as int) == two_digits(hours) + ":"@
            + two_digits(minutes) + ":"@ + two_digits(seconds),
        hms(negative) == hms(0),
{
    let total = hours * 3_600 + minutes * 60 + seconds;
    assert(total / 3_600 == hours);
    assert(total % 3_600 / 60 == minutes);
    assert(total % 60 == seconds);
}

proof fn lemma_two_digits(n: nat)
    requires
        n < 100,
    ensures
        two_digits(n) == seq![digit(n / 10), digit(n % 10)],
{
    reveal_with_fuel(decimal, 2);
    assert(two_digits(n) =~= seq![digit(n / 10), digit(n % 10)]);
}

proof fn lemma_two_digits_differ(a: nat, b: nat)
    requires
        a < 100,
        b < 100,
        two_digits(a) == two_digits(b),
    ensures
        a == b,
{
    lemma_two_digits(a);
    lemma_two_digits(b);
    assert(two_digits(a)[0] == digit(a / 10) && two_digits(a)[1] == digit(a % 10));
    assert(two_digits(b)[0] == digit(b / 10) && two_digits(b)[1] == digit(b % 10));
}

/// The parts of a text that begins with `head` and goes on with two digits and `rest`.
proof fn lemma_cut(head: Seq<char>, n: nat, m: nat, a: Seq<char>, b: Seq<char>)
    requires
        n < 100,
        m < 100,
        head + two_digits(n) + a == head + two_digits(m) + b,
    ensures
        n == m,
        a == b,
{
    lemma_two_digits(n);
    lemma_two_digits(m);
    let s = head + two_digits(n) + a;
    let t = head + two_digits(m) + b;
    let from = head.len() as int;
    assert(s.subrange(from, from + 2) =~= two_digits(n));
    assert(t.subrange(from, from + 2) =~= two_digits(m));
    lemma_two_digits_differ(n, m);
    assert(s.skip(from + 2) =~= a);
    assert(t.skip(from + 2) =~= b);
}

proof fn lemma_regroup_date(
    tag: Seq<char>,
    slash: Seq<char>,
    d: Seq<char>,
    dot: Seq<char>,
    m: Seq<char>,
    high: Seq<char>,
    low: Seq<char>,
    rest: Seq<char>,
)
    ensures
        tag + slash + (d + dot + m + dot + (high + low)) + rest == (tag + slash) + d + (dot + m + (
        dot + high + (Seq::<char>::empty() + low + rest))),
{
    assert(tag + slash + (d + dot + m + dot + (high + low)) + rest =~= (tag + slash) + d + (dot + m
        + (dot + high + (Seq::<char>::empty() + low + rest))));
}

proof fn lemma_regroup_clock(
    head: Seq<char>,
    name: Seq<char>,
    h: Seq<char>,
    dash: Seq<char>,
    m: Seq<char>,
    s: Seq<char>,
)
    ensures
        head + name + (h + dash + m + dash + s) == head + (name + h + (dash + m + ((dash + s)
            + Seq::<char>::empty()))),
{
    assert(head + name + (h + dash + m + dash + s) =~= head + (name + h + (dash + m + ((dash + s)
        + Seq::<char>::empty()))));
}

/// The text of a directory, part by part.
proof fn lemma_session_dir_parts(tag: Seq<char>, t: LocalTime)
    requires
        t.wf(),
        0 <= t.year <= 9_999,
    ensures
        ({
            let seconds = ("-"@ + two_digits(t.second as nat)) + Seq::<char>::empty();
            let minutes = "-"@ + two_digits(t.minute as nat) + seconds;
            let hours = "/meeting_"@ + two_digits(t.hour as nat) + minutes;
            let low = Seq::<char>::empty() + two_digits((t.year % 100) as nat) + hours;
            let high = "."@ + two_digits((t.year / 100) as nat) + low;
            let month = "."@ + two_digits(t.month as nat) + high;
            session_dir_text(tag, t) == (tag + "/"@) + two_digits(t.day as nat) + month
        }),
{
    let seconds = ("-"@ + two_digits(t.second as nat)) + Seq::<char>::empty();
    let minutes = "-"@ + two_digits(t.minute as nat) + seconds;
    let hours = "/meeting_"@ + two_digits(t.hour as nat) + minutes;
    let low = Seq::<char>::empty() + two_digits((t.year % 100) as nat) + hours;
    let high = "."@ + two_digits((t.year / 100) as nat) + low;
    let month = "."@ + two_digits(t.month as nat) + high;
    assert(year_digits(t.year as int) == two_digits((t.year / 100) as nat) + two_digits(
        (t.year % 100) as nat,
    ));
    lemma_regroup_clock(
        tag + "/"@ + date_text(t),
        "/meeting_"@,
        two_digits(t.hour as nat),
        "-"@,
        two_digits(t.minute as nat),
        two_digits(t.second as nat),
    );
    lemma_regroup_date(
        tag,
        "/"@,
        two_digits(t.day as nat),
        "."@,
        two_digits(t.month as nat),
        two_digits((t.year / 100) as nat),
        two_digits((t.year % 100) as nat),
        hours,
    );
}

/// Recordings of the same source that start at different seconds on the clock have different
/// directories, in the years that have four digits.
pub proof fn different_times_have_different_directories(tag: Seq<char>, a: LocalTime, b: LocalTime)
    requires
        a.wf(),
        b.wf(),
        0 <= a.year <= 9_999,
        0 <= b.year <= 9_999,
        session_dir_text(tag, a) == session_dir_text(tag, b),
    ensures
        a == b,
{
    lemma_session_dir_parts(tag, a);
    lemma_session_dir_parts(tag, b);
    let seconds_a = ("-"@ + two_digits(a.second as nat)) + Seq::<char>::empty();
    let minutes_a = "-"@ + two_digits(a.minute as nat) + seconds_a;
    let hours_a = "/meeting_"@ + two_digits(a.hour as nat) + minutes_a;
    let low_a = Seq::<char>::empty() + two_digits((a.year % 100) as nat) + hours_a;
    let high_a = "."@ + two_digits((a.year / 100) as nat) + low_a;
    let month_a = "."@ + two_digits(a.month as nat) + high_a;
    let seconds_b = ("-"@ + two_digits(b.second as nat)) + Seq::<char>::empty();
    let minutes_b = "-"@ + two_digits(b.minute as nat) + seconds_b;
    let hours_b = "/meeting_"@ + two_digits(b.hour as nat) + minutes_b;
    let low_b = Seq::<char>::empty() + two_digits((b.year % 100) as nat) + hours_b;
    let high_b = "."@ + two_digits((b.year / 100) as nat) + low_b;
    let month_b = "."@ + two_digits(b.month as nat) + high_b;
    lemma_cut(tag + "/"@, a.day as nat, b.day as nat, month_a, month_b);
    lemma_cut("."@, a.month as nat, b.month as nat, high_a, high_b);
    lemma_cut("."@, (a.year / 100) as nat, (b.year / 100) as nat, low_a, low_b);
    lemma_cut(
        Seq::<char>::empty(),
        (a.year % 100) as nat,
        (b.year % 100) as nat,
        hours_a,
        hours_b,
    );
    lemma_cut("/meeting_"@, a.hour as nat, b.hour as nat, minutes_a, minutes_b);
    lemma_cut("-"@, a.minute as nat, b.minute as nat, seconds_a, seconds_b);
    lemma_cut("-"@, a.second as nat, b.second as nat, Seq::empty(), Seq::empty());
}

proof fn lemma_read_two_digits(n: nat)
    requires
        n < 100,
    ensures
        two_digits(n).len() == 2,
        reading(two_digits(n)) == n,
        '0' <= two_digits(n)[0] <= '9',
        '0' <= two_digits(n)[1] <= '9',
{
    two_digits_are_read_back(n);
}

/// The year of a date is read back from its digits: those of a year from 0 to 9999 stand alone, a
/// later one has a plus sign in front and one before the year 0 a minus sign. There are four
/// digits at least.
pub proof fn a_year_is_read_back(year: int)
    ensures
        0 <= year <= 9_999 ==> {
            &&& year_digits(year).len() == 4
            &&& reading(year_digits(year)) == year
        },
        year > 9_999 ==> {
            &&& year_digits(year)[0] == '+'
            &&& year_digits(year).len() > 5
            &&& reading(year_digits(year).skip(1)) == year
        },
        year < 0 ==> {
            &&& year_digits(year)[0] == '-'
            &&& year_digits(year).len() >= 5
            &&& reading(year_digits(year).skip(1)) == -year
        },
{
    reveal_strlit("-");
    reveal_strlit("+");
    let n = if year < 0 {
        (-year) as nat
    } else {
        year as nat
    };
    let s = four_digits(n);
    two_digits_are_read_back(n / 100);
    lemma_read_two_digits(n % 100);
    lemma_two_digits(n % 100);
    assert(s.drop_last() =~= two_digits(n / 100).push(digit(n % 100 / 10)));
    assert(s.drop_last().drop_last() =~= two_digits(n / 100));
    reveal_with_fuel(reading, 3);
    assert(reading(s) == n);
    if year < 0 || year > 9_999 {
        assert(year_digits(year).skip(1) =~= s);
    }
}

/// The directory of a session is made of its tag, the date, and the time of day, each in its place:
/// `<tag>/DD.MM.YYYY/meeting_HH-mm-ss`.
pub proof fn a_session_directory_is_read_back(tag: Seq<char>, t: LocalTime)
    requires
        t.wf(),
        0 <= t.year <= 9_999,
    ensures
        ({
            let s = session_dir_text(tag, t);
            let k = tag.len() as int;
            &&& s.len() == k + 28
            &&& s.take(k) == tag
            &&& s[k] == '/'
            &&& reading(s.subrange(k + 1, k + 3)) == t.day
            &&& s[k + 3] == '.'
            &&& reading(s.subrange(k + 4, k + 6)) == t.month
            &&& s[k + 6] == '.'
            &&& reading(s.subrange(k + 7, k + 11)) == t.year
            &&& s.subrange(k + 11, k + 20) == "/meeting_"@
            &&& reading(s.subrange(k + 20, k + 22)) == t.hour
            &&& s[k + 22] == '-'
            &&& reading(s.subrange(k + 23, k + 25)) == t.minute
            &&& s[k + 25] == '-'
            &&& reading(s.subrange(k + 26, k + 28)) == t.second
        }),
{
    let s = session_dir_text(tag, t);
    let k = tag.len() as int;
    reveal_strlit("/");
    reveal_strlit(".");
    reveal_strlit("-");
    reveal_strlit("/meeting_");
    lemma_read_two_digits(t.day as nat);
    lemma_read_two_digits(t.month as nat);
    lemma_read_two_digits(t.hour as nat);
    lemma_read_two_digits(t.minute as nat);
    lemma_read_two_digits(t.second as nat);
    a_year_is_read_back(t.year as int);
    let date = date_text(t);
    let clock = clock_text(t);
    assert(date.len() == 10);
    assert(clock.len() == 8);
    assert(s.take(k) =~= tag);
    assert(s.subrange(k + 1, k + 11) =~= date);
    assert(s.subrange(k + 11, k + 20) =~= "/meeting_"@);
    assert(s.subrange(k + 20, k + 28) =~= clock);
    assert(s.subrange(k + 1, k + 3) =~= two_digits(t.day as nat));
    assert(s.subrange(k + 4, k + 6) =~= two_digits(t.month as nat));
    assert(s.subrange(k + 7, k + 11) =~= year_digits(t.year as int));
    assert(s.subrange(k + 20, k + 22) =~= two_digits(t.hour as nat));
    assert(s.subrange(k + 23, k + 25) =~= two_digits(t.minute as nat));
    assert(s.subrange(k + 26, k + 28) =~= two_digits(t.second as nat));
}

/// A date is read back from its text, `DD.MM.` and the year.
pub proof fn a_date_is_read_back(t: LocalTime)
    requires
        t.wf(),
    ensures
        ({
            let s = date_text(t);
            &&& s.len() >= 10
            &&& reading(s.take(2)) == t.day
            &&& s[2] == '.'
            &&& reading(s.subrange(3, 5)) == t.month
            &&& s[5] == '.'
            &&& s.skip(6) == year_digits(t.year as int)
        }),
{
    let s = date_text(t);
    reveal_strlit(".");
    lemma_read_two_digits(t.day as nat);
    lemma_read_two_digits(t.month as nat);
    a_year_is_read_back(t.year as int);
    assert(s.take(2) =~= two_digits(t.day as nat));
    assert(s.subrange(3, 5) =~= two_digits(t.month as nat));
    assert(s.skip(6) =~= year_digits(t.year as int));
}

/// The duration of a recording is read back from its text: the hours, two digits of minutes and two
/// of seconds make up the seconds from the start to the end, or none where the end comes before
/// the start or one of them is not known.
pub proof fn a_duration_is_read_back(started: Option<Instant>, ended: Option<Instant>)
    ensures
        ({
            let s = duration_text(started, ended);
            let n = s.len() as int;
            let seconds = match (started, ended) {
                (Some(from), Some(to)) => if seconds_between(from, to) < 0 {
                    0
                } else {
                    seconds_between(from, to)
                },
                _ => 0,
            };
            &&& n >= 8
            &&& s[n - 6] == ':'
            &&& s[n - 3] == ':'
            &&& seconds == reading(s.take(n - 6)) * 3_600 + reading(s.subrange(n - 5, n - 3)) * 60
                + reading(s.skip(n - 2))
            &&& 0 <= reading(s.subrange(n - 5, n - 3)) < 60
            &&& 0 <= reading(s.skip(n - 2)) < 60
        }),
{
    let s = duration_text(started, ended);
    reveal_strlit(":");
    reveal_strlit("00:00:00");
    let seconds: int = match (started, ended) {
        (Some(from), Some(to)) => if seconds_between(from, to) < 0 {
            0
        } else {
            seconds_between(from, to)
        },
        _ => 0,
    };
    let safe = seconds as nat;
    two_digits_are_read_back(safe / 3_600);
    lemma_read_two_digits(safe % 3_600 / 60);
    lemma_read_two_digits(safe % 60);
    let text = hms(seconds);
    let n = text.len() as int;
    assert(text.take(n - 6) =~= two_digits(safe / 3_600));
    assert(text.subrange(n - 5, n - 3) =~= two_digits(safe % 3_600 / 60));
    assert(text.skip(n - 2) =~= two_digits(safe % 60));
    if !(started is Some && ended is Some) {
        lemma_two_digits(0);
        assert(s =~= text);
    }
}

/// The seconds between two points in time are those of the difference, rounded towards zero, where
/// neither lies in a leap second; and it is the same from either side but for the sign.
pub proof fn the_seconds_between_two_instants(from: Instant, to: Instant)
    ensures
        seconds_between(from, to) == -seconds_between(to, from),
        from.nanos < 1_000_000_000 && to.nanos < 1_000_000_000 ==> {
            let nanos = (to.seconds - from.seconds) * 1_000_000_000 + (to.nanos - from.nanos);
            let seconds = seconds_between(from, to);
            &&& nanos >= 0 ==> 0 <= nanos - seconds * 1_000_000_000 < 1_000_000_000
            &&& nanos < 0 ==> 0 <= seconds * 1_000_000_000 - nanos < 1_000_000_000
        },
{
    assert(leap_correction(from, to) == -leap_correction(to, from));
    assert(nanos_between(from, to) == -nanos_between(to, from));
}

} // verus!
