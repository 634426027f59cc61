//! Instants, the calendar, and the one date format that storage links use.
use vstd::prelude::*;
use vstd::string::*;

use crate::text::number;
use crate::text::number::{push_padded, push_padded_signed};

verus! {

/// Nanoseconds in a second.
pub const NANOS_PER_SECOND: i128 = 1_000_000_000;

/// The first second of the calendar, at the start of the year -9999.
pub const FIRST_SECOND: i64 = -377_705_116_800;

/// The last second of the calendar, at the end of the year 9999.
pub const LAST_SECOND: i64 = 253_402_300_799;

/// The furthest from 1970 that an instant may lie, in nanoseconds.
pub const FURTHEST_NANOS: i128 = 400_000_000_000_000_000_000;

/// A point in time, seen as nanoseconds since the start of 1970 in UTC.
#[derive(Debug, Clone, Copy, PartialEq, Eq, PartialOrd, Ord, Hash)]
pub struct Timestamp {
    nanos: i128,
}

impl View for Timestamp {
    type V = int;

    closed spec fn view(&self) -> int {
        self.nanos as int
    }
}

/// The whole second that an instant lies in.
pub open spec fn second_of(nanos: int) -> int {
    nanos / NANOS_PER_SECOND as int
}

/// The instant lies in a year that the calendar has.
pub open spec fn on_calendar(nanos: int) -> bool {
    FIRST_SECOND <= second_of(nanos) <= LAST_SECOND
}

impl Timestamp {
    #[verifier::type_invariant]
    spec fn bounded(self) -> bool {
        -FURTHEST_NANOS <= self.nanos <= FURTHEST_NANOS
    }

    /// The instant `nanos` nanoseconds after the start of 1970, when it is not
    /// absurdly far away.
    pub fn from_unix_nanos(nanos: i128) -> (r: Option<Timestamp>)
        ensures
            r matches Some(t) ==> t@ == nanos,
            r is Some <==> -FURTHEST_NANOS <= nanos <= FURTHEST_NANOS,
    {
        if -FURTHEST_NANOS <= nanos && nanos <= FURTHEST_NANOS {
            Some(Timestamp { nanos })
        } else {
            None
        }
    }

    /// The instant as nanoseconds since the start of 1970.
    pub fn unix_nanos(&self) -> (r: i128)
        ensures
            r == self@,
            -FURTHEST_NANOS <= r <= FURTHEST_NANOS,
    {
        proof {
            use_type_invariant(self);
        }
        self.nanos
    }

    /// Whether the instant lies in a year that the calendar has.
    pub fn is_on_calendar(&self) -> (r: bool)
        ensures
            r == on_calendar(self@),
    {
        self.nanos >= -377_705_116_800_000_000_000 && self.nanos < 253_402_300_800_000_000_000
    }

    /// The instant `seconds` later, or earlier when negative, when the calendar
    /// still has it.
    pub fn plus_seconds(&self, seconds: i64) -> (r: Option<Timestamp>)
        ensures
            match r {
                Some(t) => t@ == self@ + seconds * NANOS_PER_SECOND,
                None => !on_calendar(self@ + seconds * NANOS_PER_SECOND),
            },
            r is Some <==> on_calendar(self@ + seconds * NANOS_PER_SECOND),
    {
        proof {
            use_type_invariant(self);
        }
        let nanos: i128 = self.nanos + (seconds as i128) * NANOS_PER_SECOND;
        if nanos >= -377_705_116_800_000_000_000 && nanos < 253_402_300_800_000_000_000 {
            Some(Timestamp { nanos })
        } else {
            None
        }
    }

    /// How many nanoseconds passed from `earlier` to this instant; negative when
    /// `earlier` is the later one.
    pub fn nanos_since(&self, earlier: &Timestamp) -> (r: i128)
        ensures
            r == self@ - earlier@,
    {
        proof {
            use_type_invariant(self);
            use_type_invariant(earlier);
        }
        self.nanos - earlier.nanos
    }
}

/// What a span of nanoseconds comes to in whole seconds, rounded towards zero.
pub open spec fn whole_seconds(nanos: int) -> int {
    if nanos >= 0 {
        nanos / NANOS_PER_SECOND as int
    } else {
        -((-nanos) / NANOS_PER_SECOND as int)
    }
}

/// `time::OffsetDateTime::now_utc` reads the system clock. Two calls may differ;
/// every reading lies on the calendar.
#[verifier::external_body]
pub(crate) fn now_utc() -> (r: Timestamp)
    ensures
        on_calendar(r@),
{
    Timestamp { nanos: time::OffsetDateTime::now_utc().unix_timestamp_nanos() }
}

/// The system clock gave this instant: it came back from a call of [`now_utc`].
pub closed spec fn clock_read(t: Timestamp) -> bool {
    call_ensures(now_utc, (), t)
}

/// What one call of `source` gave.
fn reading_of<F: Fn() -> Timestamp>(source: F) -> (r: Timestamp)
    requires
        call_requires(source, ()),
    ensures
        call_ensures(source, (), r),
{
    source()
}

/// The current instant, known to be one that the system clock gave.
pub(crate) fn read_clock() -> (r: Timestamp)
    ensures
        clock_read(r),
        on_calendar(r@),
{
    reading_of(now_utc)
}

/// The instant that `time` reads out of an ISO 8601 text, in nanoseconds since
/// the start of 1970.
pub uninterp spec fn iso8601_instant(s: Seq<char>) -> Option<int>;

/// `time::OffsetDateTime::parse` with `Iso8601::DEFAULT`: whether it succeeds,
/// and which instant it gives, depends on the text alone.
#[verifier::external_body]
pub(crate) fn parse_iso8601(s: &str) -> (r: Option<Timestamp>)
    ensures
        match r {
            Some(t) => iso8601_instant(s@) == Some(t@),
            None => iso8601_instant(s@) is None,
        },
{
    match time::OffsetDateTime::parse(
        s,
        &time::format_description::well_known::Iso8601::DEFAULT,
    ) {
        Ok(t) => Some(Timestamp { nanos: t.unix_timestamp_nanos() }),
        Err(_) => None,
    }
}

/// A date and a time of day in UTC.
#[derive(Debug, Clone, Copy, PartialEq, Eq, Structural)]
pub struct Civil {
    /// Year, negative before the common era.
    pub year: i32,
    /// Month, from 1.
    pub month: u8,
    /// Day of the month, from 1.
    pub day: u8,
    /// Hour, from 0 to 23.
    pub hour: u8,
    /// Minute, from 0 to 59.
    pub minute: u8,
    /// Second, from 0 to 59.
    pub second: u8,
}

/// A leap year of the Gregorian calendar.
pub open spec fn leap(year: int) -> bool {
    year % 4 == 0 && (year % 100 != 0 || year % 400 == 0)
}

/// How many days the month has.
pub open spec fn month_length(year: int, month: int) -> int {
    if month == 2 {
        if leap(year) {
            29
        } else {
            28
        }
    } else if month == 4 || month == 6 || month == 9 || month == 11 {
        30
    } else {
        31
    }
}

/// How many days of the year lie before the month.
pub open spec fn days_before_month(year: int, month: int) -> int
    decreases month,
{
    if month <= 1 {
        0
    } else {
        days_before_month(year, month - 1) + month_length(year, month - 1)
    }
}

/// How many leap days the years from 1 up to, but without, `year` have.
pub open spec fn leap_days_before(year: int) -> int {
    (year - 1) / 4 - (year - 1) / 100 + (year - 1) / 400
}

/// How many days lie between the start of 1970 and the start of the year.
pub open spec fn days_before_year(year: int) -> int {
    365 * (year - 1970) + leap_days_before(year) - leap_days_before(1970)
}

/// How many days lie between the start of 1970 and the date.
pub open spec fn day_number(year: int, month: int, day: int) -> int {
    days_before_year(year) + days_before_month(year, month) + day - 1
}

impl Civil {
    /// Every part lies in its range.
    pub open spec fn valid(self) -> bool {
        &&& 1 <= self.month <= 12
        &&& 1 <= self.day <= month_length(self.year as int, self.month as int)
        &&& self.hour < 24
        &&& self.minute < 60
        &&& self.second < 60
    }

    /// The second since the start of 1970 that is meant.
    pub open spec fn unix_second(self) -> int {
        day_number(self.year as int, self.month as int, self.day as int) * 86400 + self.hour * 3600
            + self.minute * 60 + self.second
    }

    /// `YYYY-MM-DDThh:mm:ssZ`.
    pub open spec fn text(self) -> Seq<char> {
        number::padded_signed(self.year as int, 4) + seq!['-'] + number::padded(
            self.month as nat,
            2,
        ) + seq!['-'] + number::padded(self.day as nat, 2) + seq!['T'] + number::padded(
            self.hour as nat,
            2,
        ) + seq![':'] + number::padded(self.minute as nat, 2) + seq![':'] + number::padded(
            self.second as nat,
            2,
        ) + seq!['Z']
    }
}

/// `time::OffsetDateTime::from_unix_timestamp` and the parts of the result: the
/// date and time of day in the proleptic Gregorian calendar, in UTC.
#[verifier::external_body]
fn civil_of(second: i64) -> (r: Civil)
    requires
        FIRST_SECOND <= second <= LAST_SECOND,
    ensures
        r.valid(),
        r.unix_second() == second,
{
    let t = time::OffsetDateTime::from_unix_timestamp(second).unwrap();
    Civil {
        year: t.year(),
        month: u8::from(t.month()),
        day: t.day(),
        hour: t.hour(),
        minute: t.minute(),
        second: t.second(),
    }
}

/// The date and time of day of an instant.
pub open spec fn civil(nanos: int) -> Civil {
    choose|c: Civil| c.valid() && c.unix_second() == second_of(nanos)
}

proof fn lemma_step_of_4(y: int)
    ensures
        y / 4 - (y - 1) / 4 == if y % 4 == 0 {
            1int
        } else {
            0int
        },
{
}

proof fn lemma_step_of_100(y: int)
    ensures
        y / 100 - (y - 1) / 100 == if y % 100 == 0 {
            1int
        } else {
            0int
        },
{
}

proof fn lemma_step_of_400(y: int)
    ensures
        y / 400 - (y - 1) / 400 == if y % 400 == 0 {
            1int
        } else {
            0int
        },
{
}

/// Every fourth century is a century, and every century a fourth year.
proof fn lemma_centuries(y: int)
    ensures
        y % 400 == 0 ==> y % 100 == 0,
        y % 100 == 0 ==> y % 4 == 0,
{
    assert(y % 400 == 0 ==> y == 100 * (4 * (y / 400)));
    assert(y % 100 == 0 ==> y == 4 * (25 * (y / 100)));
}

proof fn lemma_year_length(year: int)
    ensures
        days_before_year(year + 1) == days_before_year(year) + (if leap(year) {
            366int
        } else {
            365int
        }),
{
    lemma_step_of_4(year);
    lemma_step_of_100(year);
    lemma_step_of_400(year);
    lemma_centuries(year);
    assert(leap_days_before(year + 1) == year / 4 - year / 100 + year / 400);
}

proof fn lemma_years_in_order(a: int, b: int)
    requires
        a <= b,
    ensures
        days_before_year(a) + 365 * (b - a) <= days_before_year(b),
        a < b ==> days_before_year(a + 1) <= days_before_year(b),
    decreases b - a,
{
    if a < b {
        lemma_years_in_order(a + 1, b);
        lemma_year_length(a);
    }
}

proof fn lemma_months_of_year(year: int, month: int)
    requires
        1 <= month <= 12,
    ensures
        0 <= days_before_month(year, month),
        days_before_month(year, month) + month_length(year, month) <= if leap(year) {
            366int
        } else {
            365int
        },
{
    reveal_with_fuel(days_before_month, 13);
}

proof fn lemma_months_in_order(year: int, a: int, b: int)
    requires
        1 <= a < b <= 12,
    ensures
        days_before_month(year, a) + month_length(year, a) <= days_before_month(year, b),
    decreases b - a,
{
    if a + 1 < b {
        lemma_months_in_order(year, a, b - 1);
    }
}

/// Different dates have different day numbers.
proof fn lemma_dates_differ(a: Civil, b: Civil)
    requires
        a.valid(),
        b.valid(),
        day_number(a.year as int, a.month as int, a.day as int) == day_number(
            b.year as int,
            b.month as int,
            b.day as int,
        ),
    ensures
        a.year == b.year,
        a.month == b.month,
        a.day == b.day,
{
    lemma_months_of_year(a.year as int, a.month as int);
    lemma_months_of_year(b.year as int, b.month as int);
    lemma_year_length(a.year as int);
    lemma_year_length(b.year as int);
    if a.year < b.year {
        lemma_years_in_order(a.year as int, b.year as int);
    } else if b.year < a.year {
        lemma_years_in_order(b.year as int, a.year as int);
    } else if a.month < b.month {
        lemma_months_in_order(a.year as int, a.month as int, b.month as int);
    } else if b.month < a.month {
        lemma_months_in_order(a.year as int, b.month as int, a.month as int);
    }
}

/// A number has one quotient and one remainder only.
proof fn lemma_parts_are_unique(x: int, p: int, y: int, q: int, base: int)
    by (nonlinear_arith)
    requires
        x * base + p == y * base + q,
        0 <= p < base,
        0 <= q < base,
    ensures
        x == y,
        p == q,
{
}

/// A second of time has one date and time of day only.
pub proof fn law_calendar_is_unambiguous(a: Civil, b: Civil)
    requires
        a.valid(),
        b.valid(),
        a.unix_second() == b.unix_second(),
    ensures
        a == b,
{
    let x = day_number(a.year as int, a.month as int, a.day as int);
    let y = day_number(b.year as int, b.month as int, b.day as int);
    let p = a.hour * 3600 + a.minute * 60 + a.second;
    let q = b.hour * 3600 + b.minute * 60 + b.second;
    lemma_parts_are_unique(x, p, y, q, 86400);
    lemma_parts_are_unique(
        a.hour as int,
        a.minute * 60 + a.second,
        b.hour as int,
        b.minute * 60 + b.second,
        3600,
    );
    lemma_parts_are_unique(a.minute as int, a.second as int, b.minute as int, b.second as int, 60);
    lemma_dates_differ(a, b);
}

/// A day between the starts of two years lies in one of the years between.
proof fn lemma_year_of_day(day: int, from: int, to: int) -> (year: int)
    requires
        from < to,
        days_before_year(from) <= day < days_before_year(to),
    ensures
        from <= year < to,
        days_before_year(year) <= day < days_before_year(year + 1),
    decreases to - from,
{
    if day < days_before_year(from + 1) {
        from
    } else {
        lemma_year_of_day(day, from + 1, to)
    }
}

/// A day before the start of a month lies in one of the months before.
proof fn lemma_month_of_day(year: int, day: int, to: int) -> (month: int)
    requires
        1 < to <= 13,
        0 <= day < days_before_month(year, to),
    ensures
        1 <= month < to,
        days_before_month(year, month) <= day < days_before_month(year, month) + month_length(
            year,
            month,
        ),
    decreases to,
{
    if days_before_month(year, to - 1) <= day {
        to - 1
    } else {
        lemma_month_of_day(year, day, to - 1)
    }
}

/// Every second of the calendar has a date and a time of day.
pub proof fn law_every_second_has_a_date(second: int)
    requires
        FIRST_SECOND <= second <= LAST_SECOND,
    ensures
        exists|c: Civil| c.valid() && #[trigger] c.unix_second() == second,
{
    let number = second / 86400;
    let clock = second % 86400;
    assert(days_before_year(-9999) == -4371587);
    assert(days_before_year(10000) == 2932897);
    let year = lemma_year_of_day(number, -9999, 10000);
    let day = number - days_before_year(year);
    lemma_year_length(year);
    reveal_with_fuel(days_before_month, 13);
    let month = lemma_month_of_day(year, day, 13);
    let c = Civil {
        year: year as i32,
        month: month as u8,
        day: (day - days_before_month(year, month) + 1) as u8,
        hour: (clock / 3600) as u8,
        minute: (clock % 3600 / 60) as u8,
        second: (clock % 60) as u8,
    };
    assert(c.valid());
    assert(c.unix_second() == second);
}

/// The whole second that `t` lies in.
fn unix_second(t: &Timestamp) -> (r: i64)
    requires
        on_calendar(t@),
    ensures
        r == second_of(t@),
{
    let nanos: i128 = t.unix_nanos();
    if nanos >= 0 {
        (nanos / NANOS_PER_SECOND) as i64
    } else {
        let up: i128 = (NANOS_PER_SECOND - 1 - nanos) / NANOS_PER_SECOND;
        (0 - up) as i64
    }
}

/// Formats a timestamp the way storage expects: `YYYY-MM-DDThh:mm:ssZ`, without
/// fractions of a second and without a numeric offset. The text is part of what
/// gets signed, so it has to be exact.
pub fn iso8601(value: &Timestamp) -> (r: String)
    requires
        on_calendar(value@),
    ensures
        r@ == civil(value@).text(),
{
    let c: Civil = civil_of(unix_second(value));
    proof {
        law_calendar_is_unambiguous(c, civil(value@));
    }
    let mut out = String::new();
    push_padded_signed(&mut out, c.year, 4);
    out.push('-');
    push_padded(&mut out, c.month as u64, 2);
    out.push('-');
    push_padded(&mut out, c.day as u64, 2);
    out.push('T');
    push_padded(&mut out, c.hour as u64, 2);
    out.push(':');
    push_padded(&mut out, c.minute as u64, 2);
    out.push(':');
    push_padded(&mut out, c.second as u64, 2);
    out.push('Z');
    assert(out@ =~= c.text());
    out
}

/// The calendar starts at 1970 and goes on day by day: the next day of a month is one day
/// later, the first of the next month follows the last of this one, and the first of the
/// year follows the last of December.
pub proof fn law_days_follow_each_other(year: int, month: int, day: int)
    requires
        1 <= month <= 12,
    ensures
        day_number(1970, 1, 1) == 0,
        day_number(year, month, day + 1) == day_number(year, month, day) + 1,
        month < 12 ==> day_number(year, month + 1, 1) == day_number(
            year,
            month,
            month_length(year, month),
        ) + 1,
        day_number(year + 1, 1, 1) == day_number(year, 12, 31) + 1,
{
    reveal_with_fuel(days_before_month, 13);
    lemma_year_length(year);
}

/// How long the months are: thirty days in April, June, September and November, 28 in
/// February or 29 in a leap year, and 31 in the others. A year is a leap year when it is
/// divisible by four, but for a century that is not divisible by four hundred.
pub proof fn law_months_have_their_length(year: int)
    ensures
        month_length(year, 1) == 31 && month_length(year, 3) == 31 && month_length(year, 5) == 31,
        month_length(year, 7) == 31 && month_length(year, 8) == 31 && month_length(year, 10) == 31,
        month_length(year, 12) == 31,
        month_length(year, 4) == 30 && month_length(year, 6) == 30 && month_length(year, 9) == 30,
        month_length(year, 11) == 30,
        year % 400 == 0 ==> month_length(year, 2) == 29,
        year % 100 == 0 && year % 400 != 0 ==> month_length(year, 2) == 28,
        year % 4 == 0 && year % 100 != 0 ==> month_length(year, 2) == 29,
        year % 4 != 0 ==> month_length(year, 2) == 28,
{
    lemma_centuries(year);
}

/// The date and time of day of an instant are those of the second that it lies in: no
/// later than the instant, and less than a second earlier.
pub proof fn law_instants_have_their_date(nanos: int)
    requires
        on_calendar(nanos),
    ensures
        civil(nanos).valid(),
        civil(nanos).unix_second() * 1_000_000_000 <= nanos,
        nanos < (civil(nanos).unix_second() + 1) * 1_000_000_000,
{
    law_every_second_has_a_date(second_of(nanos));
}

/// A date and a time of day are written as `YYYY-MM-DDThh:mm:ssZ`: twenty characters, and
/// each part reads back from its place.
pub proof fn law_dates_read_back(c: Civil)
    requires
        c.valid(),
        0 <= c.year <= 9999,
    ensures
        c.text().len() == 20,
        number::number(c.text().subrange(0, 4)) == Some(c.year as nat),
        c.text()[4] == '-',
        number::number(c.text().subrange(5, 7)) == Some(c.month as nat),
        c.text()[7] == '-',
        number::number(c.text().subrange(8, 10)) == Some(c.day as nat),
        c.text()[10] == 'T',
        number::number(c.text().subrange(11, 13)) == Some(c.hour as nat),
        c.text()[13] == ':',
        number::number(c.text().subrange(14, 16)) == Some(c.minute as nat),
        c.text()[16] == ':',
        number::number(c.text().subrange(17, 19)) == Some(c.second as nat),
        c.text()[19] == 'Z',
{
    number::law_padding_reads_back(c.year as nat, 4);
    number::law_padding_reads_back(c.month as nat, 2);
    number::law_padding_reads_back(c.day as nat, 2);
    number::law_padding_reads_back(c.hour as nat, 2);
    number::law_padding_reads_back(c.minute as nat, 2);
    number::law_padding_reads_back(c.second as nat, 2);
    let t = c.text();
    assert(t.subrange(0, 4) =~= number::padded(c.year as nat, 4));
    assert(t.subrange(5, 7) =~= number::padded(c.month as nat, 2));
    assert(t.subrange(8, 10) =~= number::padded(c.day as nat, 2));
    assert(t.subrange(11, 13) =~= number::padded(c.hour as nat, 2));
    assert(t.subrange(14, 16) =~= number::padded(c.minute as nat, 2));
    assert(t.subrange(17, 19) =~= number::padded(c.second as nat, 2));
}

/// A span of time comes to the whole seconds in it, whichever way it points.
pub proof fn law_whole_seconds_round_towards_zero(nanos: int)
    ensures
        nanos >= 0 ==> whole_seconds(nanos) * 1_000_000_000 <= nanos < (whole_seconds(nanos) + 1)
            * 1_000_000_000,
        whole_seconds(-nanos) == -whole_seconds(nanos),
{
}

/// Moving an instant by seconds moves it by a thousand million nanoseconds each, as long as
/// it stays on the calendar, and two instants are as far apart as their counts.
pub proof fn law_instants_move_by_seconds(
    t: Timestamp,
    seconds: i64,
    moved: Option<Timestamp>,
    earlier: Timestamp,
    apart: i128,
)
    requires
        call_ensures(Timestamp::plus_seconds, (&t, seconds), moved),
        call_ensures(Timestamp::nanos_since, (&t, &earlier), apart),
    ensures
        moved is Some <==> -377_705_116_800_000_000_000 <= t@ + seconds * 1_000_000_000
            < 253_402_300_800_000_000_000,
        moved matches Some(later) ==> later@ == t@ + seconds * 1_000_000_000,
        apart == t@ - earlier@,
{
}

/// The text of an instant is the date and the time of day of the second that it lies in.
pub proof fn law_instants_are_written_as_their_date(t: Timestamp, r: String)
    requires
        on_calendar(t@),
        call_ensures(iso8601, (&t,), r),
    ensures
        exists|c: Civil| {
            &&& #[trigger] c.valid()
            &&& c.unix_second() * 1_000_000_000 <= t@
            &&& t@ < (c.unix_second() + 1) * 1_000_000_000
            &&& r@ == c.text()
        },
{
    law_instants_have_their_date(t@);
    assert(civil(t@).valid());
}

/// An instant counts as a reading exactly when a call of [`now_utc`] can have given it.
pub(crate) proof fn law_readings_come_from_the_clock(t: Timestamp)
    ensures
        clock_read(t) <==> call_ensures(now_utc, (), t),
        clock_read(t) ==> on_calendar(t@),
{
}

} // verus!
