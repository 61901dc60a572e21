//! Calendar dates of the proleptic Gregorian calendar, as `chrono` represents
//! them, and the boundaries that task maintenance uses: the retention cutoff
//! and the Monday that starts a week.

use vstd::prelude::*;
use chrono::{Datelike, Duration, NaiveDate};

verus! {

/// Earliest year that `chrono::NaiveDate` represents.
pub const MIN_YEAR: i32 = -262143;

/// Latest year that `chrono::NaiveDate` represents.
pub const MAX_YEAR: i32 = 262142;

pub open spec fn is_leap_year(y: int) -> bool {
    (y % 4 == 0 && y % 100 != 0) || y % 400 == 0
}

pub open spec fn days_in_month(y: int, m: int) -> int {
    if m == 2 {
        if is_leap_year(y) {
            29
        } else {
            28
        }
    } else if m == 4 || m == 6 || m == 9 || m == 11 {
        30
    } else {
        31
    }
}

/// Whether (`y`, `m`, `d`) names a day of the calendar.
pub open spec fn is_calendar_date(y: int, m: int, d: int) -> bool {
    1 <= m <= 12 && 1 <= d <= days_in_month(y, m)
}

/// Whether (`y`, `m`, `d`) names a day that `chrono::NaiveDate` represents.
pub open spec fn in_chrono_range(y: int, m: int, d: int) -> bool {
    MIN_YEAR <= y <= MAX_YEAR && is_calendar_date(y, m, d)
}

/// Days from 0000-01-01 to the first day of year `y`.
pub open spec fn days_before_year(y: int) -> int {
    365 * y + (y + 3) / 4 - (y + 99) / 100 + (y + 399) / 400
}

/// Days from the first day of year `y` to the first day of month `m`.
pub open spec fn days_before_month(y: int, m: int) -> int {
    let base: int = if m == 1 {
        0
    } else if m == 2 {
        31
    } else if m == 3 {
        59
    } else if m == 4 {
        90
    } else if m == 5 {
        120
    } else if m == 6 {
        151
    } else if m == 7 {
        181
    } else if m == 8 {
        212
    } else if m == 9 {
        243
    } else if m == 10 {
        273
    } else if m == 11 {
        304
    } else {
        334
    };
    if m > 2 && is_leap_year(y) {
        base + 1
    } else {
        base
    }
}

/// Days from 1970-01-01 to (`y`, `m`, `d`); negative before it.
pub open spec fn epoch_day(y: int, m: int, d: int) -> int {
    days_before_year(y) + days_before_month(y, m) + d - 1 - days_before_year(1970)
}

/// Day of the week of the day numbered `e`: 0 for Monday up to 6 for Sunday.
/// 1970-01-01 was a Thursday.
pub open spec fn weekday_of_day(e: int) -> int {
    (e + 3) % 7
}

/// Number of the earliest day that `chrono::NaiveDate` represents.
pub open spec fn min_day_number() -> int {
    epoch_day(MIN_YEAR as int, 1, 1)
}

/// `n` written in decimal with exactly `width` digits (leading zeros kept).
pub open spec fn decimal(n: int, width: nat) -> Seq<char>
    decreases width,
{
    if width == 0 {
        seq![]
    } else {
        decimal(n / 10, (width - 1) as nat).push(((n % 10) + 48) as char)
    }
}

/// The `YYYY-MM-DD` text of a date whose year has at most four digits.
pub open spec fn ymd_text(y: int, m: int, d: int) -> Seq<char> {
    decimal(y, 4) + seq!['-'] + decimal(m, 2) + seq!['-'] + decimal(d, 2)
}

/// Whether text `a` sorts before text `b` of the same length: at the first
/// position where they differ, `a` has the smaller character.
pub open spec fn text_before(a: Seq<char>, b: Seq<char>) -> bool {
    exists|i: int|
        0 <= i < a.len() && i < b.len() && a.subrange(0, i) == b.subrange(0, i) && (a[i] as u32)
            < (b[i] as u32)
}

pub open spec fn pow10(w: nat) -> int
    decreases w,
{
    if w == 0 {
        1
    } else {
        10 * pow10((w - 1) as nat)
    }
}

proof fn lemma_decimal_len(n: int, w: nat)
    ensures
        decimal(n, w).len() == w,
    decreases w,
{
    if w > 0 {
        lemma_decimal_len(n / 10, (w - 1) as nat);
    }
}

/// Appending anything to two texts keeps their order when the order is
/// decided within them.
proof fn lemma_before_extend(a: Seq<char>, b: Seq<char>, sa: Seq<char>, sb: Seq<char>)
    requires
        text_before(a, b),
    ensures
        text_before(a + sa, b + sb),
{
    let i = choose|i: int|
        0 <= i < a.len() && i < b.len() && a.subrange(0, i) == b.subrange(0, i) && (a[i] as u32)
            < (b[i] as u32);
    assert((a + sa).subrange(0, i) =~= a.subrange(0, i));
    assert((b + sb).subrange(0, i) =~= b.subrange(0, i));
    assert((a + sa)[i] == a[i]);
    assert((b + sb)[i] == b[i]);
}

/// A common prefix does not change the order of two texts.
proof fn lemma_before_prefix(p: Seq<char>, a: Seq<char>, b: Seq<char>)
    requires
        text_before(a, b),
    ensures
        text_before(p + a, p + b),
{
    let i = choose|i: int|
        0 <= i < a.len() && i < b.len() && a.subrange(0, i) == b.subrange(0, i) && (a[i] as u32)
            < (b[i] as u32);
    let k = p.len() + i;
    assert((p + a).subrange(0, k) =~= p + a.subrange(0, i));
    assert((p + b).subrange(0, k) =~= p + b.subrange(0, i));
    assert((p + a)[k] == a[i]);
    assert((p + b)[k] == b[i]);
}

/// No text sorts before itself, and two texts cannot each sort before the other.
proof fn lemma_before_asymmetric(a: Seq<char>, b: Seq<char>)
    ensures
        !text_before(a, a),
        !(text_before(a, b) && text_before(b, a)),
{
    if text_before(a, b) && text_before(b, a) {
        let i = choose|i: int|
            0 <= i < a.len() && i < b.len() && a.subrange(0, i) == b.subrange(0, i) && (
            a[i] as u32) < (b[i] as u32);
        let j = choose|j: int|
            0 <= j < b.len() && j < a.len() && b.subrange(0, j) == a.subrange(0, j) && (
            b[j] as u32) < (a[j] as u32);
        if i < j {
            assert(a[i] == a.subrange(0, j)[i]);
            assert(b[i] == b.subrange(0, j)[i]);
        } else if j < i {
            assert(a[j] == a.subrange(0, i)[j]);
            assert(b[j] == b.subrange(0, i)[j]);
        }
    }
}

/// Fixed-width decimal texts sort like the numbers they write.
proof fn lemma_decimal_order(x: int, y: int, w: nat)
    requires
        0 <= x < y < pow10(w),
    ensures
        text_before(decimal(x, w), decimal(y, w)),
    decreases w,
{
    let wm = (w - 1) as nat;
    lemma_decimal_len(x / 10, wm);
    lemma_decimal_len(y / 10, wm);
    if x / 10 < y / 10 {
        lemma_decimal_order(x / 10, y / 10, wm);
        lemma_before_extend(
            decimal(x / 10, wm),
            decimal(y / 10, wm),
            seq![((x % 10) + 48) as char],
            seq![((y % 10) + 48) as char],
        );
        assert(decimal(x, w) =~= decimal(x / 10, wm) + seq![((x % 10) + 48) as char]);
        assert(decimal(y, w) =~= decimal(y / 10, wm) + seq![((y % 10) + 48) as char]);
    } else {
        let k = wm as int;
        assert(decimal(x, w).subrange(0, k) =~= decimal(x / 10, wm));
        assert(decimal(y, w).subrange(0, k) =~= decimal(y / 10, wm));
        assert(decimal(x, w)[k] == ((x % 10) + 48) as char);
        assert(decimal(y, w)[k] == ((y % 10) + 48) as char);
    }
}

/// The `YYYY-MM-DD` texts of dates with four-digit years sort the way the
/// dates do, which is the order of their day numbers.
pub proof fn lemma_ymd_text_order(a: CalendarDate, b: CalendarDate)
    requires
        a.valid(),
        b.valid(),
        0 <= a.year <= 9999,
        0 <= b.year <= 9999,
    ensures
        text_before(
            ymd_text(a.year as int, a.month as int, a.day as int),
            ymd_text(b.year as int, b.month as int, b.day as int),
        ) <==> a.day_number() < b.day_number(),
{
    let ta = ymd_text(a.year as int, a.month as int, a.day as int);
    let tb = ymd_text(b.year as int, b.month as int, b.day as int);
    lemma_before_asymmetric(ta, tb);
    if date_precedes(
        a.year as int,
        a.month as int,
        a.day as int,
        b.year as int,
        b.month as int,
        b.day as int,
    ) {
        lemma_ymd_text_precedes(a, b);
        lemma_day_number_order(a, b);
    } else if date_precedes(
        b.year as int,
        b.month as int,
        b.day as int,
        a.year as int,
        a.month as int,
        a.day as int,
    ) {
        lemma_ymd_text_precedes(b, a);
        lemma_day_number_order(b, a);
    } else {
        assert(a == b);
    }
}

proof fn lemma_ymd_text_precedes(a: CalendarDate, b: CalendarDate)
    requires
        a.valid(),
        b.valid(),
        0 <= a.year <= 9999,
        0 <= b.year <= 9999,
        date_precedes(
            a.year as int,
            a.month as int,
            a.day as int,
            b.year as int,
            b.month as int,
            b.day as int,
        ),
    ensures
        text_before(
            ymd_text(a.year as int, a.month as int, a.day as int),
            ymd_text(b.year as int, b.month as int, b.day as int),
        ),
{
    reveal_with_fuel(pow10, 5);
    let dash = seq!['-'];
    let ya = decimal(a.year as int, 4);
    let yb = decimal(b.year as int, 4);
    let ma = decimal(a.month as int, 2);
    let mb = decimal(b.month as int, 2);
    let da = decimal(a.day as int, 2);
    let db = decimal(b.day as int, 2);
    lemma_decimal_len(a.year as int, 4);
    lemma_decimal_len(b.year as int, 4);
    lemma_decimal_len(a.month as int, 2);
    lemma_decimal_len(b.month as int, 2);
    if a.year < b.year {
        lemma_decimal_order(a.year as int, b.year as int, 4);
        lemma_before_extend(ya, yb, dash + ma + dash + da, dash + mb + dash + db);
        assert(ymd_text(a.year as int, a.month as int, a.day as int) =~= ya + (dash + ma + dash
            + da));
        assert(ymd_text(b.year as int, b.month as int, b.day as int) =~= yb + (dash + mb + dash
            + db));
    } else if a.month < b.month {
        lemma_decimal_order(a.month as int, b.month as int, 2);
        lemma_before_extend(ma, mb, dash + da, dash + db);
        lemma_before_prefix(ya + dash, ma + (dash + da), mb + (dash + db));
        assert(ymd_text(a.year as int, a.month as int, a.day as int) =~= (ya + dash) + (ma + (
        dash + da)));
        assert(ymd_text(b.year as int, b.month as int, b.day as int) =~= (ya + dash) + (mb + (
        dash + db)));
    } else {
        lemma_decimal_order(a.day as int, b.day as int, 2);
        lemma_before_prefix(ya + dash + ma + dash, da, db);
        assert(ymd_text(a.year as int, a.month as int, a.day as int) =~= (ya + dash + ma + dash)
            + da);
        assert(ymd_text(b.year as int, b.month as int, b.day as int) =~= (ya + dash + ma + dash)
            + db);
    }
}

/// Text that `chrono` writes for a date with the format `%Y-%m-%d`.
pub uninterp spec fn chrono_ymd_text(year: i32, month: u32, day: u32) -> Seq<char>;

/// `chrono::NaiveDate::from_ymd_opt`: whether the date exists in `chrono`'s
/// range. Its documentation: `None` for a day that does not exist, an invalid
/// month or day, or a year out of range.
#[verifier::external_body]
fn chrono_accepts(year: i32, month: u32, day: u32) -> (ok: bool)
    ensures
        ok == in_chrono_range(year as int, month as int, day as int),
{
    NaiveDate::from_ymd_opt(year, month, day).is_some()
}

/// `Datelike::weekday` followed by `Weekday::num_days_from_monday`: 0 for
/// Monday up to 6 for Sunday.
#[verifier::external_body]
fn chrono_days_from_monday(year: i32, month: u32, day: u32) -> (w: u32)
    requires
        in_chrono_range(year as int, month as int, day as int),
    ensures
        w == weekday_of_day(epoch_day(year as int, month as int, day as int)),
{
    NaiveDate::from_ymd_opt(year, month, day).unwrap().weekday().num_days_from_monday()
}

/// `NaiveDate - Duration::days(n)`: the day `days` days earlier. It panics
/// when the result leaves `chrono`'s range, which `requires` rules out.
#[verifier::external_body]
fn chrono_days_before(year: i32, month: u32, day: u32, days: u32) -> (r: (i32, u32, u32))
    requires
        in_chrono_range(year as int, month as int, day as int),
        epoch_day(year as int, month as int, day as int) - days >= min_day_number(),
    ensures
        in_chrono_range(r.0 as int, r.1 as int, r.2 as int),
        epoch_day(r.0 as int, r.1 as int, r.2 as int) == epoch_day(
            year as int,
            month as int,
            day as int,
        ) - days,
{
    let date = NaiveDate::from_ymd_opt(year, month, day).unwrap() - Duration::days(
        i64::from(days),
    );
    (date.year(), date.month(), date.day())
}

/// `NaiveDate::checked_sub_signed(Duration::days(n))`: the day `days` days
/// earlier, `None` when it leaves `chrono`'s range (a count of days beyond the
/// `i32` range also gives `None`, and such a count always leaves the range).
#[verifier::external_body]
fn chrono_checked_days_before(year: i32, month: u32, day: u32, days: u32) -> (r: Option<
    (i32, u32, u32),
>)
    requires
        in_chrono_range(year as int, month as int, day as int),
    ensures
        r is Some <==> epoch_day(year as int, month as int, day as int) - days
            >= min_day_number(),
        r matches Some(d) ==> in_chrono_range(d.0 as int, d.1 as int, d.2 as int) && epoch_day(
            d.0 as int,
            d.1 as int,
            d.2 as int,
        ) == epoch_day(year as int, month as int, day as int) - days,
{
    match NaiveDate::from_ymd_opt(year, month, day)
        .unwrap()
        .checked_sub_signed(Duration::days(i64::from(days)))
    {
        Some(date) => Some((date.year(), date.month(), date.day())),
        None => None,
    }
}

/// `NaiveDate::format("%Y-%m-%d")` turned into a `String`: four digits of
/// year, two of month and two of day for the years 0 to 9999. For other years
/// `chrono` writes a sign and more digits, which is left unstated here beyond
/// the name `chrono_ymd_text`.
#[verifier::external_body]
fn chrono_format_ymd(year: i32, month: u32, day: u32) -> (s: String)
    requires
        in_chrono_range(year as int, month as int, day as int),
    ensures
        s@ == chrono_ymd_text(year, month, day),
        0 <= year <= 9999 ==> s@ == ymd_text(year as int, month as int, day as int),
{
    NaiveDate::from_ymd_opt(year, month, day).unwrap().format("%Y-%m-%d").to_string()
}

/// A year has 365 days, 366 when it is a leap year.
proof fn lemma_year_length(y: int)
    ensures
        days_before_year(y + 1) - days_before_year(y) == if is_leap_year(y) {
            366int
        } else {
            365int
        },
{
}

/// Years that come later start later, by at least the length of the earlier year.
proof fn lemma_year_order(y1: int, y2: int)
    requires
        y1 < y2,
    ensures
        days_before_year(y1) + (if is_leap_year(y1) {
            366int
        } else {
            365int
        }) <= days_before_year(y2),
    decreases y2 - y1,
{
    lemma_year_length(y1);
    if y1 + 1 < y2 {
        lemma_year_order(y1 + 1, y2);
    }
}

/// A day of a year lies between its first day and its last.
proof fn lemma_day_of_year_bounds(y: int, m: int, d: int)
    requires
        is_calendar_date(y, m, d),
    ensures
        0 <= days_before_month(y, m) + d - 1 < if is_leap_year(y) {
            366int
        } else {
            365int
        },
{
}

/// Within a year, a later month starts after every day of an earlier month.
proof fn lemma_month_order(y: int, m1: int, d1: int, m2: int, d2: int)
    requires
        is_calendar_date(y, m1, d1),
        is_calendar_date(y, m2, d2),
        m1 < m2,
    ensures
        days_before_month(y, m1) + d1 < days_before_month(y, m2) + d2,
{
}

/// Whether (`y1`, `m1`, `d1`) comes before (`y2`, `m2`, `d2`) on the calendar.
pub open spec fn date_precedes(y1: int, m1: int, d1: int, y2: int, m2: int, d2: int) -> bool {
    ||| y1 < y2
    ||| y1 == y2 && m1 < m2
    ||| y1 == y2 && m1 == m2 && d1 < d2
}

/// Day numbers follow the calendar: an earlier date has a smaller number.
pub proof fn lemma_day_number_order(a: CalendarDate, b: CalendarDate)
    requires
        a.valid(),
        b.valid(),
        date_precedes(
            a.year as int,
            a.month as int,
            a.day as int,
            b.year as int,
            b.month as int,
            b.day as int,
        ),
    ensures
        a.day_number() < b.day_number(),
{
    lemma_day_of_year_bounds(a.year as int, a.month as int, a.day as int);
    lemma_day_of_year_bounds(b.year as int, b.month as int, b.day as int);
    if a.year < b.year {
        lemma_year_order(a.year as int, b.year as int);
    } else if a.month < b.month {
        lemma_month_order(a.year as int, a.month as int, a.day as int, b.month as int, b.day as int);
    }
}

/// Two dates with the same day number are the same date.
pub proof fn lemma_day_number_injective(a: CalendarDate, b: CalendarDate)
    requires
        a.valid(),
        b.valid(),
        a.day_number() == b.day_number(),
    ensures
        a == b,
{
    if date_precedes(
        a.year as int,
        a.month as int,
        a.day as int,
        b.year as int,
        b.month as int,
        b.day as int,
    ) {
        lemma_day_number_order(a, b);
    } else if date_precedes(
        b.year as int,
        b.month as int,
        b.day as int,
        a.year as int,
        a.month as int,
        a.day as int,
    ) {
        lemma_day_number_order(b, a);
    }
}

/// A day of the calendar.
#[derive(Debug, Clone, Copy, PartialEq, Eq, Structural)]
pub struct CalendarDate {
    pub year: i32,
    pub month: u32,
    pub day: u32,
}

impl CalendarDate {
    /// Whether the date exists and lies in `chrono`'s range.
    pub open spec fn valid(self) -> bool {
        in_chrono_range(self.year as int, self.month as int, self.day as int)
    }

    /// Days from 1970-01-01 to this date.
    pub open spec fn day_number(self) -> int {
        epoch_day(self.year as int, self.month as int, self.day as int)
    }

    /// Day of the week: 0 for Monday up to 6 for Sunday.
    pub open spec fn weekday(self) -> int {
        weekday_of_day(self.day_number())
    }

    /// The date (`year`, `month`, `day`), if it exists in `chrono`'s range.
    pub fn from_ymd(year: i32, month: u32, day: u32) -> (r: Option<CalendarDate>)
        ensures
            r is Some <==> in_chrono_range(year as int, month as int, day as int),
            r matches Some(d) ==> d.year == year && d.month == month && d.day == day,
    {
        if chrono_accepts(year, month, day) {
            Some(CalendarDate { year, month, day })
        } else {
            None
        }
    }

    /// Day of the week: 0 for Monday up to 6 for Sunday.
    pub fn days_from_monday(&self) -> (w: u32)
        requires
            self.valid(),
        ensures
            w == self.weekday(),
            w < 7,
    {
        chrono_days_from_monday(self.year, self.month, self.day)
    }

    /// The date `days` days earlier.
    pub fn days_before(&self, days: u32) -> (r: CalendarDate)
        requires
            self.valid(),
            self.day_number() - days >= min_day_number(),
        ensures
            r.valid(),
            r.day_number() == self.day_number() - days,
    {
        let (year, month, day) = chrono_days_before(self.year, self.month, self.day, days);
        CalendarDate { year, month, day }
    }

    /// The date `days` days earlier, or `None` when it would precede the
    /// earliest date `chrono` represents.
    pub fn checked_days_before(&self, days: u32) -> (r: Option<CalendarDate>)
        requires
            self.valid(),
        ensures
            r is Some <==> self.day_number() - days >= min_day_number(),
            r matches Some(d) ==> d.valid() && d.day_number() == self.day_number() - days,
    {
        match chrono_checked_days_before(self.year, self.month, self.day, days) {
            Some((year, month, day)) => Some(CalendarDate { year, month, day }),
            None => None,
        }
    }

    /// The date as `YYYY-MM-DD`.
    pub fn to_iso_string(&self) -> (s: String)
        requires
            self.valid(),
        ensures
            s@ == chrono_ymd_text(self.year, self.month, self.day),
            0 <= self.year <= 9999 ==> s@ == ymd_text(
                self.year as int,
                self.month as int,
                self.day as int,
            ),
    {
        chrono_format_ymd(self.year, self.month, self.day)
    }
}

/// The calendar date `retention_days` before `today`: completed urgent tasks
/// created on or before it are purged. `None` when that date would precede the
/// earliest date `chrono` represents.
pub fn retention_cutoff(today: CalendarDate, retention_days: u32) -> (cutoff: Option<
    CalendarDate,
>)
    requires
        today.valid(),
    ensures
        cutoff is Some <==> today.day_number() - retention_days >= min_day_number(),
        cutoff matches Some(c) ==> c.valid() && c.day_number() == today.day_number()
            - retention_days,
{
    today.checked_days_before(retention_days)
}

/// A longer retention gives an earlier cutoff, and for four-digit years its
/// `YYYY-MM-DD` text sorts first.
pub proof fn lemma_longer_retention_earlier_cutoff(
    today: CalendarDate,
    shorter: u32,
    longer: u32,
    cutoff_shorter: CalendarDate,
    cutoff_longer: CalendarDate,
)
    requires
        cutoff_shorter.valid(),
        cutoff_longer.valid(),
        shorter < longer,
        cutoff_shorter.day_number() == today.day_number() - shorter,
        cutoff_longer.day_number() == today.day_number() - longer,
    ensures
        date_precedes(
            cutoff_longer.year as int,
            cutoff_longer.month as int,
            cutoff_longer.day as int,
            cutoff_shorter.year as int,
            cutoff_shorter.month as int,
            cutoff_shorter.day as int,
        ),
        0 <= cutoff_shorter.year <= 9999 && 0 <= cutoff_longer.year <= 9999 ==> text_before(
            ymd_text(
                cutoff_longer.year as int,
                cutoff_longer.month as int,
                cutoff_longer.day as int,
            ),
            ymd_text(
                cutoff_shorter.year as int,
                cutoff_shorter.month as int,
                cutoff_shorter.day as int,
            ),
        ),
{
    if 0 <= cutoff_shorter.year <= 9999 && 0 <= cutoff_longer.year <= 9999 {
        lemma_ymd_text_order(cutoff_longer, cutoff_shorter);
    }
    if !date_precedes(
        cutoff_longer.year as int,
        cutoff_longer.month as int,
        cutoff_longer.day as int,
        cutoff_shorter.year as int,
        cutoff_shorter.month as int,
        cutoff_shorter.day as int,
    ) {
        if cutoff_longer == cutoff_shorter {
        } else {
            lemma_day_number_order(cutoff_shorter, cutoff_longer);
        }
    }
}

/// Monday (ISO) of the week containing `date`.
pub fn iso_week_start(date: CalendarDate) -> (monday: CalendarDate)
    requires
        date.valid(),
        date.day_number() - date.weekday() >= min_day_number(),
    ensures
        monday.valid(),
        monday.day_number() == date.day_number() - date.weekday(),
        monday.weekday() == 0,
        date.day_number() - 6 <= monday.day_number() <= date.day_number(),
        date.weekday() == 0 ==> monday == date,
{
    let days_from_monday = date.days_from_monday();
    let monday = date.days_before(days_from_monday);
    proof {
        if date.weekday() == 0 {
            lemma_day_number_injective(monday, date);
        }
    }
    monday
}

/// Index of the Monday-to-Sunday week that holds the day numbered `e`.
pub open spec fn week_index(e: int) -> int {
    (e + 3) / 7
}

/// All days of one week share the Monday that starts it: two valid dates of
/// the same week are mapped to the same date by the rule of `iso_week_start`.
pub proof fn lemma_same_week_same_start(
    d1: CalendarDate,
    d2: CalendarDate,
    m1: CalendarDate,
    m2: CalendarDate,
)
    requires
        d1.valid(),
        d2.valid(),
        m1.valid(),
        m2.valid(),
        week_index(d1.day_number()) == week_index(d2.day_number()),
        m1.day_number() == d1.day_number() - d1.weekday(),
        m2.day_number() == d2.day_number() - d2.weekday(),
    ensures
        m1 == m2,
{
    lemma_day_number_injective(m1, m2);
}

} // verus!
