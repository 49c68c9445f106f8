//! Wall-clock formatting: turning seconds since the Unix epoch into the
//! civil (UTC, proleptic Gregorian) time of day and date, and rendering them
//! through a small strftime-like format language.
use vstd::prelude::*;

use crate::text::{decimal, extend_str, push_padded, string_of, zero_pad};

verus! {

/// The clock of the shell.
pub struct ClockService;

// ── The calendar ─────────────────────────────────────────────────────────

/// Whether `year` is a leap year.
pub open spec fn is_leap(year: int) -> bool {
    (year % 4 == 0 && year % 100 != 0) || year % 400 == 0
}

/// The number of days of `year`.
pub open spec fn year_length(year: int) -> int {
    if is_leap(year) { 366 } else { 365 }
}

/// The number of days of month `month` (1 to 12) in a leap or common year.
pub open spec fn month_length(leap: bool, month: int) -> int {
    if month == 2 {
        if leap { 29 } else { 28 }
    } else if month == 4 || month == 6 || month == 9 || month == 11 {
        30
    } else {
        31
    }
}

/// Counting whole years forward from `year`: the year that holds the day
/// `rem` days after the first of `year`, and that day's index in its year.
pub open spec fn year_walk(year: int, rem: nat) -> (int, nat)
    decreases rem,
{
    if rem < year_length(year) {
        (year, rem)
    } else {
        year_walk(year + 1, (rem - year_length(year)) as nat)
    }
}

/// Counting whole months forward from `month`: the month and the 1-based day
/// of month of the `day`-th day (1-based) counted from the first of `month`.
pub open spec fn month_walk(leap: bool, month: int, day: int) -> (int, int)
    decreases 13 - month,
{
    if month > 12 {
        (1, day)
    } else if day <= month_length(leap, month) {
        (month, day)
    } else {
        month_walk(leap, month + 1, day - month_length(leap, month))
    }
}

/// The civil date `(year, month, day)` of the day `days` days after
/// 1970-01-01.
pub open spec fn civil_date(days: nat) -> (int, int, int) {
    let (year, yday) = year_walk(1970, days);
    let (month, day) = month_walk(is_leap(year), 1, yday as int + 1);
    (year, month, day)
}

/// Zeller's congruence, Monday = 0 to Sunday = 6.
pub open spec fn weekday(year: int, month: int, day: int) -> int {
    let m = if month < 3 { month + 12 } else { month };
    let y = if month < 3 { year - 1 } else { year };
    let h = (day + (13 * (m + 1)) / 5 + y + y / 4 - y / 100 + y / 400) % 7;
    (h + 5) % 7
}

/// The broken-down time of a moment, as the format directives see it.
pub struct ClockFields {
    pub hours: int,
    pub minutes: int,
    pub seconds: int,
    pub year: int,
    pub month: int,
    pub day: int,
    pub weekday: int,
}

/// The broken-down time `secs` seconds after the epoch.
pub open spec fn clock_fields(secs: nat) -> ClockFields {
    let (year, month, day) = civil_date(secs / 86400);
    ClockFields {
        hours: ((secs % 86400) / 3600) as int,
        minutes: (((secs % 86400) % 3600) / 60) as int,
        seconds: ((secs % 86400) % 60) as int,
        year,
        month,
        day,
        weekday: weekday(year, month, day),
    }
}

pub open spec fn short_day_name(d: int) -> Seq<char> {
    if d == 0 { "Mon"@ }
    else if d == 1 { "Tue"@ }
    else if d == 2 { "Wed"@ }
    else if d == 3 { "Thu"@ }
    else if d == 4 { "Fri"@ }
    else if d == 5 { "Sat"@ }
    else { "Sun"@ }
}

pub open spec fn long_day_name(d: int) -> Seq<char> {
    if d == 0 { "Monday"@ }
    else if d == 1 { "Tuesday"@ }
    else if d == 2 { "Wednesday"@ }
    else if d == 3 { "Thursday"@ }
    else if d == 4 { "Friday"@ }
    else if d == 5 { "Saturday"@ }
    else { "Sunday"@ }
}

pub open spec fn short_month_name(m: int) -> Seq<char> {
    if m == 1 { "Jan"@ }
    else if m == 2 { "Feb"@ }
    else if m == 3 { "Mar"@ }
    else if m == 4 { "Apr"@ }
    else if m == 5 { "May"@ }
    else if m == 6 { "Jun"@ }
    else if m == 7 { "Jul"@ }
    else if m == 8 { "Aug"@ }
    else if m == 9 { "Sep"@ }
    else if m == 10 { "Oct"@ }
    else if m == 11 { "Nov"@ }
    else { "Dec"@ }
}

pub open spec fn long_month_name(m: int) -> Seq<char> {
    if m == 1 { "January"@ }
    else if m == 2 { "February"@ }
    else if m == 3 { "March"@ }
    else if m == 4 { "April"@ }
    else if m == 5 { "May"@ }
    else if m == 6 { "June"@ }
    else if m == 7 { "July"@ }
    else if m == 8 { "August"@ }
    else if m == 9 { "September"@ }
    else if m == 10 { "October"@ }
    else if m == 11 { "November"@ }
    else { "December"@ }
}

/// The 12-hour clock hour for a 24-hour clock hour.
pub open spec fn hour12(h: int) -> int {
    if h == 0 { 12 } else if h > 12 { h - 12 } else { h }
}

/// The 12-hour clock: the hour it shows is between 1 and 12 and agrees with
/// the 24-hour hour modulo 12, so that the hour it shows and whether it is
/// before noon (`%p`) give back the 24-hour hour: midnight is 12 AM, noon
/// 12 PM.
pub proof fn law_twelve_hour_clock(h: int)
    requires
        0 <= h < 24,
    ensures
        1 <= hour12(h) <= 12,
        hour12(h) % 12 == h % 12,
        h == if h < 12 { hour12(h) % 12 } else { hour12(h) % 12 + 12 },
{
}

/// What the directive `%f` renders to.
pub open spec fn directive(f: char, t: ClockFields) -> Seq<char> {
    if f == 'H' { zero_pad(decimal(t.hours as nat), 2) }
    else if f == 'M' { zero_pad(decimal(t.minutes as nat), 2) }
    else if f == 'S' { zero_pad(decimal(t.seconds as nat), 2) }
    else if f == 'I' { zero_pad(decimal(hour12(t.hours) as nat), 2) }
    else if f == 'p' { if t.hours < 12 { "AM"@ } else { "PM"@ } }
    else if f == 'Y' { zero_pad(decimal(t.year as nat), 4) }
    else if f == 'm' { zero_pad(decimal(t.month as nat), 2) }
    else if f == 'd' { zero_pad(decimal(t.day as nat), 2) }
    else if f == 'a' { short_day_name(t.weekday) }
    else if f == 'b' { short_month_name(t.month) }
    else if f == 'A' { long_day_name(t.weekday) }
    else if f == 'B' { long_month_name(t.month) }
    else if f == '%' { seq!['%'] }
    else { seq!['%', f] }
}

/// The rendering of `fmt`: ordinary characters are copied, `%` and the
/// character after it are replaced by what the directive renders to, and a
/// `%` at the very end is dropped.
pub open spec fn render(fmt: Seq<char>, t: ClockFields) -> Seq<char>
    decreases fmt.len(),
{
    if fmt.len() == 0 {
        Seq::empty()
    } else if fmt[0] == '%' {
        if fmt.len() == 1 {
            Seq::empty()
        } else {
            directive(fmt[1], t) + render(fmt.skip(2), t)
        }
    } else {
        seq![fmt[0]] + render(fmt.drop_first(), t)
    }
}

// ── Reading the clock ───────────────────────────────────────────────────

/// Seconds since the Unix epoch by the system clock (`SystemTime::now`),
/// zero if the clock is set before the epoch. Nothing is stated of the value:
/// it is the time.
#[verifier::external_body]
pub(crate) fn now_unix_secs() -> u64 {
    std::time::SystemTime::now().duration_since(std::time::UNIX_EPOCH).unwrap_or_default().as_secs()
}

fn month_len(leap: bool, month: u32) -> (r: u32)
    ensures
        r == month_length(leap, month as int),
{
    if month == 2 {
        if leap { 29 } else { 28 }
    } else if month == 4 || month == 6 || month == 9 || month == 11 {
        30
    } else {
        31
    }
}

proof fn lemma_year_walk_bounds(year: int, rem: nat)
    requires
        year >= 1970,
    ensures
        year_walk(year, rem).0 >= year,
        year_walk(year, rem).0 <= year + rem / 365,
        year_walk(year, rem).1 < year_length(year_walk(year, rem).0),
    decreases rem,
{
    if rem >= year_length(year) {
        lemma_year_walk_bounds(year + 1, (rem - year_length(year)) as nat);
    }
}

/// The days of the months before `month` in a leap or common year.
pub open spec fn days_before_month(leap: bool, month: int) -> int
    decreases month,
{
    if month <= 1 {
        0
    } else {
        days_before_month(leap, month - 1) + month_length(leap, month - 1)
    }
}

impl ClockService {
    /// Whether `year` is a leap year.
    pub fn is_leap_year(year: i64) -> (r: bool)
        ensures
            r == is_leap(year as int),
    {
        (year % 4 == 0 && year % 100 != 0) || (year % 400 == 0)
    }

    /// The day of the week of a date, Monday = 0 to Sunday = 6.
    pub fn day_of_week(year: i64, month: u32, day: u32) -> (r: u32)
        requires
            1 <= year <= 0x100_0000_0000,
            1 <= month <= 12,
            day <= 31,
        ensures
            r == weekday(year as int, month as int, day as int),
            r < 7,
    {
        let m = month as i64;
        let d = day as i64;
        let y = year;
        let adjusted_month = if m < 3 { m + 12 } else { m };
        let adjusted_year = if m < 3 { y - 1 } else { y };
        let h = (d + ((13 * (adjusted_month + 1)) / 5) + adjusted_year + (adjusted_year / 4) - (
        adjusted_year / 100) + (adjusted_year / 400)) % 7;
        ((h + 5) % 7) as u32
    }

    /// Renders `format` for the moment `secs` seconds after the epoch.
    ///
    /// Directives: `%H` `%M` `%S` two-digit hour, minute and second; `%I`
    /// two-digit 12-hour clock hour; `%p` AM/PM; `%Y` year of at least four
    /// digits; `%m` `%d` two-digit month and day; `%a` `%A` short and long
    /// weekday name; `%b` `%B` short and long month name; `%%` a percent sign.
    /// Any other directive is copied as it stands; a lone `%` at the end is
    /// dropped.
    pub fn format_from_epoch(secs: u64, format: &str) -> (r: String)
        ensures
            r@ == render(format@, clock_fields(secs as nat)),
    {
        let days: u64 = secs / 86400;
        let time_of_day = secs % 86400;
        let hours: u64 = time_of_day / 3600;
        let minutes: u64 = (time_of_day % 3600) / 60;
        let seconds: u64 = time_of_day % 60;

        let mut year: i64 = 1970;
        let mut remaining: i64 = days as i64;
        proof {
            assert(days <= 213503982334601);
        }
        loop
            invariant
                0 <= remaining <= days,
                days <= 213503982334601,
                year >= 1970,
                (year - 1970) * 365 <= days - remaining,
                year_walk(year as int, remaining as nat) == year_walk(1970, days as nat),
            ensures
                0 <= remaining < year_length(year as int),
                year >= 1970,
                (year - 1970) * 365 <= days - remaining,
                year_walk(1970, days as nat) == (year as int, remaining as nat),
            decreases remaining,
        {
            let days_in_year: i64 = if Self::is_leap_year(year) { 366 } else { 365 };
            if remaining < days_in_year {
                break;
            }
            remaining = remaining - days_in_year;
            year = year + 1;
        }
        let ghost leap = is_leap(year as int);
        proof {
            assert(year_walk(1970, days as nat) == (year as int, remaining as nat));
            lemma_year_walk_bounds(1970, days as nat);
            assert(days_before_month(leap, 1) == 0);
        }
        let leap_year = Self::is_leap_year(year);
        let mut month: u32 = 1;
        let mut day: u32 = (remaining as u32) + 1;
        let mut i: u32 = 1;
        loop
            invariant_except_break
                1 <= i <= 12,
                1 <= day,
                day as int + days_before_month(leap, i as int) <= remaining + 1,
                remaining < year_length(year as int),
                leap_year == leap,
                leap == is_leap(year as int),
                month == 1,
                month_walk(leap, i as int, day as int) == month_walk(leap, 1, remaining + 1),
            ensures
                1 <= month <= 12,
                1 <= day <= 31,
                (month as int, day as int) == month_walk(leap, 1, remaining + 1),
            decreases 12 - i,
        {
            let dim = month_len(leap_year, i);
            if day <= dim {
                month = i;
                break;
            }
            let ghost d0 = day;
            day = day - dim;
            if i == 12 {
                proof {
                    lemma_days_in_year(leap);
                    assert(days_before_month(leap, 13) == days_before_month(leap, 12)
                        + month_length(leap, 12));
                    assert(d0 > 31);
                    assert(d0 + days_before_month(leap, 12) <= remaining + 1);
                    assert(false);
                }
                break;
            }
            i = i + 1;
        }
        let ghost t = clock_fields(secs as nat);
        proof {
            assert(t.year == year as int);
            assert(t.month == month as int);
            assert(t.day == day as int);
            assert(t.hours == hours as int);
            assert(t.minutes == minutes as int);
            assert(t.seconds == seconds as int);
        }
        let dow = Self::day_of_week(year, month, day);
        proof {
            assert(t.weekday == dow as int);
        }
        let fmt = crate::text::chars_of(format);
        let mut out: Vec<char> = Vec::new();
        let n = fmt.len();
        let mut k: usize = 0;
        proof {
            assert(fmt@.skip(0) =~= fmt@);
            assert(out@ + render(fmt@, t) =~= render(fmt@, t));
        }
        while k < n
            invariant
                k <= n,
                n == fmt@.len(),
                fmt@ == format@,
                hours < 24,
                t == clock_fields(secs as nat),
                t.hours == hours as int,
                t.minutes == minutes as int,
                t.seconds == seconds as int,
                t.year == year as int,
                t.month == month as int,
                t.day == day as int,
                t.weekday == dow as int,
                1 <= month <= 12,
                dow < 7,
                year >= 1970,
                out@ + render(fmt@.skip(k as int), t) == render(format@, t),
            decreases n - k,
        {
            let c = fmt[k];
            let ghost rest = fmt@.skip(k as int);
            proof {
                assert(rest[0] == c);
            }
            if c == '%' {
                if k + 1 < n {
                    let f = fmt[k + 1];
                    let ghost before = out@;
                    Self::push_directive(&mut out, f, hours, minutes, seconds, year, month, day, dow);
                    proof {
                        assert(rest[1] == f);
                        assert(rest.skip(2) =~= fmt@.skip(k + 2));
                        assert(out@ == before + directive(f, t));
                    }
                    k = k + 2;
                } else {
                    proof {
                        assert(rest.len() == 1);
                        assert(fmt@.skip(k + 1) =~= Seq::<char>::empty());
                    }
                    k = k + 1;
                }
            } else {
                out.push(c);
                proof {
                    assert(rest.drop_first() =~= fmt@.skip(k + 1));
                }
                k = k + 1;
            }
        }
        proof {
            assert(fmt@.skip(n as int) =~= Seq::<char>::empty());
            assert(out@ =~= out@ + Seq::<char>::empty());
        }
        string_of(&out)
    }

    fn push_directive(
        out: &mut Vec<char>,
        f: char,
        hours: u64,
        minutes: u64,
        seconds: u64,
        year: i64,
        month: u32,
        day: u32,
        dow: u32,
    )
        requires
            hours < 24,
            year >= 0,
            1 <= month <= 12,
            dow < 7,
        ensures
            final(out)@ == old(out)@ + directive(
                f,
                ClockFields {
                    hours: hours as int,
                    minutes: minutes as int,
                    seconds: seconds as int,
                    year: year as int,
                    month: month as int,
                    day: day as int,
                    weekday: dow as int,
                },
            ),
    {
        if f == 'H' {
            push_padded(out, hours, 2);
        } else if f == 'M' {
            push_padded(out, minutes, 2);
        } else if f == 'S' {
            push_padded(out, seconds, 2);
        } else if f == 'I' {
            let h12 = if hours == 0 { 12 } else if hours > 12 { hours - 12 } else { hours };
            push_padded(out, h12, 2);
        } else if f == 'p' {
            if hours < 12 { extend_str(out, "AM") } else { extend_str(out, "PM") }
        } else if f == 'Y' {
            push_padded(out, year as u64, 4);
        } else if f == 'm' {
            push_padded(out, month as u64, 2);
        } else if f == 'd' {
            push_padded(out, day as u64, 2);
        } else if f == 'a' {
            extend_str(out, Self::short_day(dow));
        } else if f == 'b' {
            extend_str(out, Self::short_month(month));
        } else if f == 'A' {
            extend_str(out, Self::long_day(dow));
        } else if f == 'B' {
            extend_str(out, Self::long_month(month));
        } else if f == '%' {
            out.push('%');
            proof {
                assert(seq!['%'] =~= seq!['%']);
            }
        } else {
            out.push('%');
            out.push(f);
            proof {
                assert(final(out)@ =~= old(out)@ + seq!['%', f]);
            }
        }
        proof {
            if f == '%' {
                assert(final(out)@ =~= old(out)@ + seq!['%']);
            }
        }
    }

    fn short_day(d: u32) -> (r: &'static str)
        ensures
            r@ == short_day_name(d as int),
    {
        if d == 0 { "Mon" }
        else if d == 1 { "Tue" }
        else if d == 2 { "Wed" }
        else if d == 3 { "Thu" }
        else if d == 4 { "Fri" }
        else if d == 5 { "Sat" }
        else { "Sun" }
    }

    fn long_day(d: u32) -> (r: &'static str)
        ensures
            r@ == long_day_name(d as int),
    {
        if d == 0 { "Monday" }
        else if d == 1 { "Tuesday" }
        else if d == 2 { "Wednesday" }
        else if d == 3 { "Thursday" }
        else if d == 4 { "Friday" }
        else if d == 5 { "Saturday" }
        else { "Sunday" }
    }

    fn short_month(m: u32) -> (r: &'static str)
        ensures
            r@ == short_month_name(m as int),
    {
        if m == 1 { "Jan" }
        else if m == 2 { "Feb" }
        else if m == 3 { "Mar" }
        else if m == 4 { "Apr" }
        else if m == 5 { "May" }
        else if m == 6 { "Jun" }
        else if m == 7 { "Jul" }
        else if m == 8 { "Aug" }
        else if m == 9 { "Sep" }
        else if m == 10 { "Oct" }
        else if m == 11 { "Nov" }
        else { "Dec" }
    }

    fn long_month(m: u32) -> (r: &'static str)
        ensures
            r@ == long_month_name(m as int),
    {
        if m == 1 { "January" }
        else if m == 2 { "February" }
        else if m == 3 { "March" }
        else if m == 4 { "April" }
        else if m == 5 { "May" }
        else if m == 6 { "June" }
        else if m == 7 { "July" }
        else if m == 8 { "August" }
        else if m == 9 { "September" }
        else if m == 10 { "October" }
        else if m == 11 { "November" }
        else { "December" }
    }

    /// Renders `format` (see `format_from_epoch`) for the present moment.
    /// The result is the rendering for some moment: which one is the clock's
    /// to say.
    pub fn format_time(format: &str) -> (r: String)
        ensures
            exists|secs: u64| r@ == render(format@, clock_fields(secs as nat)),
    {
        let secs = now_unix_secs();
        Self::format_from_epoch(secs, format)
    }

    /// The hour (0 to 23, UTC) of the moment `secs` seconds after the epoch.
    pub fn hour_from_epoch(secs: u64) -> (r: u32)
        ensures
            r == (secs % 86400) / 3600,
            r < 24,
    {
        ((secs % 86400) / 3600) as u32
    }

    /// The minute (0 to 59) of the moment `secs` seconds after the epoch.
    pub fn minute_from_epoch(secs: u64) -> (r: u32)
        ensures
            r == (secs % 3600) / 60,
            r < 60,
    {
        ((secs % 3600) / 60) as u32
    }

    /// The present hour, 0 to 23 (UTC), read from the system clock: which
    /// hour it is rests on the clock, so only its range is stated.
    pub fn current_hour() -> (r: u32)
        ensures
            r < 24,
    {
        Self::hour_from_epoch(now_unix_secs())
    }

    /// The present minute, 0 to 59, read from the system clock: which
    /// minute it is rests on the clock, so only its range is stated.
    pub fn current_minute() -> (r: u32)
        ensures
            r < 60,
    {
        Self::minute_from_epoch(now_unix_secs())
    }
}

// ── The weekday of a day count ──────────────────────────────────────────

/// The days of the months from `month` to December in a leap or common year.
pub open spec fn days_from_month(leap: bool, month: int) -> int
    decreases 13 - month,
{
    if month > 12 {
        0
    } else {
        month_length(leap, month) + days_from_month(leap, month + 1)
    }
}

/// The civil date of the day after `(year, month, day)`.
pub open spec fn next_date(year: int, month: int, day: int) -> (int, int, int) {
    if day < month_length(is_leap(year), month) {
        (year, month, day + 1)
    } else if month < 12 {
        (year, month + 1, 1)
    } else {
        (year + 1, 1, 1)
    }
}

proof fn lemma_days_from_january(leap: bool)
    ensures
        days_from_month(leap, 1) == if leap { 366int } else { 365int },
{
    reveal_with_fuel(days_from_month, 14);
}

proof fn lemma_year_walk_succ(year: int, rem: nat)
    ensures
        year_walk(year, rem + 1) == if year_walk(year, rem).1 + 1 < year_length(year_walk(year, rem).0) {
            (year_walk(year, rem).0, (year_walk(year, rem).1 + 1) as nat)
        } else {
            (year_walk(year, rem).0 + 1, 0nat)
        },
    decreases rem,
{
    if rem < year_length(year) {
        if rem + 1 >= year_length(year) {
            assert(year_walk(year + 1, 0) == (year + 1, 0nat));
        }
    } else {
        lemma_year_walk_succ(year + 1, (rem - year_length(year)) as nat);
        assert((rem + 1 - year_length(year)) as nat == ((rem - year_length(year)) as nat + 1) as nat);
    }
}

proof fn lemma_month_walk_succ(leap: bool, month: int, day: int)
    requires
        1 <= month,
        1 <= day,
        day + 1 <= days_from_month(leap, month),
    ensures
        1 <= month_walk(leap, month, day).0 <= 12,
        1 <= month_walk(leap, month, day).1 <= month_length(leap, month_walk(leap, month, day).0),
        month_walk(leap, month, day).1 == month_length(leap, month_walk(leap, month, day).0)
            ==> month_walk(leap, month, day).0 < 12,
        month_walk(leap, month, day + 1) == if month_walk(leap, month, day).1 < month_length(
            leap,
            month_walk(leap, month, day).0,
        ) {
            (month_walk(leap, month, day).0, month_walk(leap, month, day).1 + 1)
        } else {
            (month_walk(leap, month, day).0 + 1, 1int)
        },
    decreases 13 - month,
{
    assert(month <= 12);
    if day <= month_length(leap, month) {
        if day == month_length(leap, month) {
            assert(days_from_month(leap, month + 1) >= 1);
            assert(month + 1 <= 12);
            assert(month_walk(leap, month + 1, 1) == (month + 1, 1int));
        }
    } else {
        lemma_month_walk_succ(leap, month + 1, day - month_length(leap, month));
    }
}

proof fn lemma_last_day_of_year(leap: bool)
    ensures
        month_walk(leap, 1, if leap { 366int } else { 365int }) == (12int, 31int),
{
    reveal_with_fuel(month_walk, 13);
}

proof fn lemma_civil_date_succ(n: nat)
    ensures
        civil_date(n).0 >= 1970,
        1 <= civil_date(n).1 <= 12,
        1 <= civil_date(n).2 <= month_length(is_leap(civil_date(n).0), civil_date(n).1),
        civil_date(n + 1) == next_date(civil_date(n).0, civil_date(n).1, civil_date(n).2),
{
    let (y, k) = year_walk(1970, n);
    lemma_year_walk_bounds(1970, n);
    lemma_year_walk_succ(1970, n);
    let leap = is_leap(y);
    lemma_days_from_january(leap);
    if k + 1 < year_length(y) {
        lemma_month_walk_succ(leap, 1, k as int + 1);
    } else {
        lemma_last_day_of_year(leap);
        assert(month_walk(is_leap(y + 1), 1, 1) == (1int, 1int));
    }
}

/// The sum behind Zeller's congruence, before it is taken modulo 7.
pub open spec fn zeller_sum(year: int, month: int, day: int) -> int {
    let m = if month < 3 { month + 12 } else { month };
    let y = if month < 3 { year - 1 } else { year };
    day + (13 * (m + 1)) / 5 + y + y / 4 - y / 100 + y / 400
}

proof fn lemma_leap_days_step(y: int)
    requires
        y >= 1,
    ensures
        (y / 4 - y / 100 + y / 400) - ((y - 1) / 4 - (y - 1) / 100 + (y - 1) / 400) == if is_leap(y) {
            1int
        } else {
            0int
        },
{
    assert(y / 4 - (y - 1) / 4 == if y % 4 == 0 { 1int } else { 0int });
    assert(y / 100 - (y - 1) / 100 == if y % 100 == 0 { 1int } else { 0int });
    assert(y / 400 - (y - 1) / 400 == if y % 400 == 0 { 1int } else { 0int });
    assert(y % 400 == 0 ==> y % 100 == 0);
    assert(y % 100 == 0 ==> y % 4 == 0);
}

proof fn lemma_zeller_succ(year: int, month: int, day: int)
    requires
        year >= 1,
        1 <= month <= 12,
        1 <= day <= month_length(is_leap(year), month),
    ensures
        (zeller_sum(next_date(year, month, day).0, next_date(year, month, day).1, next_date(year, month, day).2)
            - zeller_sum(year, month, day) - 1) % 7 == 0,
{
    let (y2, m2, d2) = next_date(year, month, day);
    let a = zeller_sum(year, month, day);
    let b = zeller_sum(y2, m2, d2);
    if day < month_length(is_leap(year), month) {
        assert(b == a + 1 + 7 * 0);
    } else if month == 2 {
        lemma_leap_days_step(year);
        assert(b == a + 1 + 7 * (-8));
    } else if month < 12 {
        assert(b == a + 1 + 7 * (-4) || b == a + 1 + 7 * (-5)) by {
            assert(month == 1 || month == 3 || month == 4 || month == 5 || month == 6 || month == 7
                || month == 8 || month == 9 || month == 10 || month == 11);
        }
    } else {
        assert(b == a + 1 + 7 * (-4));
    }
}

proof fn lemma_weekday_of_day(n: nat)
    ensures
        weekday(civil_date(n).0, civil_date(n).1, civil_date(n).2) == (n + 3) % 7,
    decreases n,
{
    if n == 0 {
        assert(year_walk(1970, 0) == (1970int, 0nat));
        assert(month_walk(false, 1, 1) == (1int, 1int));
        assert(civil_date(0) == (1970int, 1int, 1int));
    } else {
        let p = (n - 1) as nat;
        lemma_weekday_of_day(p);
        lemma_civil_date_succ(p);
        let (y, m, d) = civil_date(p);
        lemma_zeller_succ(y, m, d);
        let (y2, m2, d2) = next_date(y, m, d);
        let z = zeller_sum(y, m, d);
        let z2 = zeller_sum(y2, m2, d2);
        assert(weekday(y, m, d) == (z % 7 + 5) % 7);
        assert(weekday(y2, m2, d2) == (z2 % 7 + 5) % 7);
        assert((z2 % 7 + 5) % 7 == ((z % 7 + 5) % 7 + 1) % 7) by (nonlinear_arith)
            requires
                (z2 - z - 1) % 7 == 0,
        ;
        assert(((p + 3) % 7 + 1) % 7 == (n + 3) % 7);
    }
}

/// The weekday that the clock shows for a moment is the weekday of its day
/// count: the epoch's first day, 1970-01-01, was a Thursday, and each day
/// moves one weekday on (Monday = 0 to Sunday = 6).
pub proof fn law_weekday_of_moment(secs: nat)
    ensures
        clock_fields(secs).weekday == (secs / 86400 + 3) % 7,
{
    lemma_weekday_of_day(secs / 86400);
}

proof fn lemma_days_in_year(leap: bool)
    ensures
        days_before_month(leap, 13) == if leap { 366int } else { 365int },
{
    reveal_with_fuel(days_before_month, 13);
}

} // verus!
