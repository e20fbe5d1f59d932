//! Civil calendar arithmetic, deadlines and their obligations.
use vstd::prelude::*;
use crate::id_map::{IdMap, strictly_sorted};
use crate::resource::Id;

verus! {

/// A proleptic Gregorian calendar date.
#[derive(Debug, Clone, Copy, PartialEq, Eq, Structural, PartialOrd, Ord, Hash)]
pub struct CivilDate {
    pub year: i32,
    pub month: u8,
    pub day: u8,
}

/// Gregorian leap-year rule.
pub open spec fn leap(year: int) -> bool {
    year % 4 == 0 && (year % 100 != 0 || year % 400 == 0)
}

pub open spec fn month_length(year: int, month: int) -> int {
    if month == 1 || month == 3 || month == 5 || month == 7 || month == 8 || month == 10
        || month == 12 {
        31
    } else if month == 4 || month == 6 || month == 9 || month == 11 {
        30
    } else if month == 2 {
        if leap(year) {
            29
        } else {
            28
        }
    } else {
        0
    }
}

/// A real calendar date: a month of the year and a day within that month.
pub open spec fn valid_date(year: int, month: int, day: int) -> bool {
    1 <= month <= 12 && 1 <= day <= month_length(year, month)
}

/// Days from 0000-03-01 to `y`-03-01 (negative before it).
#[verifier::opaque]
pub open spec fn march_years(y: int) -> int {
    365 * y + y / 4 - y / 100 + y / 400
}

/// Day number of a date counted from 1970-01-01, with years running from
/// March so that February's length only matters at the end of a year.
/// It is defined for every field value, valid date or not.
pub open spec fn ordinal(year: int, month: int, day: int) -> int {
    let y = if month <= 2 {
        year - 1
    } else {
        year
    };
    let m = if month > 2 {
        month - 3
    } else {
        month + 9
    };
    march_years(y) + (153 * m + 2) / 5 + day - 1 - 719468
}

/// First day of `year`.
pub open spec fn year_start(year: int) -> int {
    ordinal(year, 1, 1)
}

/// Days of `year` before the first of `month`.
pub open spec fn month_offset(year: int, month: int) -> int {
    ordinal(year, month, 1) - year_start(year)
}

/// `d` is a real date and falls on day `n`.
#[verifier::opaque]
pub open spec fn falls_on(d: CivilDate, n: int) -> bool {
    valid_date(d.year as int, d.month as int, d.day as int) && ordinal(
        d.year as int,
        d.month as int,
        d.day as int,
    ) == n
}

/// The date that falls on day `n` (counted from 1970-01-01), if any.
pub open spec fn date_of_day(n: int) -> Option<CivilDate> {
    if exists|d: CivilDate| #[trigger] falls_on(d, n) {
        Some(choose|d: CivilDate| #[trigger] falls_on(d, n))
    } else {
        None
    }
}

impl CivilDate {
    pub open spec fn valid(self) -> bool {
        valid_date(self.year as int, self.month as int, self.day as int)
    }

    pub open spec fn day_number(self) -> int {
        ordinal(self.year as int, self.month as int, self.day as int)
    }

    pub fn new(year: i32, month: u8, day: u8) -> (r: Result<Self, &'static str>)
        ensures
            valid_date(year as int, month as int, day as int) ==> r == Ok::<CivilDate, &'static str>(
                CivilDate { year, month, day },
            ),
            !valid_date(year as int, month as int, day as int) ==> r == Err::<CivilDate, &'static str>(
                "invalid civil date",
            ),
    {
        if !(1 <= month && month <= 12) || day == 0 {
            return Err("invalid civil date");
        }
        let max_day = days_in_month(year, month);
        if day > max_day {
            return Err("invalid civil date");
        }
        Ok(CivilDate { year, month, day })
    }

    /// The date `days` days later, or `None` when its year leaves the `i32`
    /// range.
    pub fn checked_add_days(self, days: u32) -> (r: Option<Self>)
        ensures
            r matches Some(d) ==> d.valid() && d.day_number() == self.day_number() + days,
            r is None <==> !(year_start(i32::MIN as int) <= self.day_number() + days < year_start(
                i32::MAX as int + 1,
            )),
            r == date_of_day(self.day_number() + days),
    {
        let n = days_from_civil(self.year, self.month, self.day);
        let target = n + days as i64;
        let r = civil_from_days(target);
        proof {
            let t = self.day_number() + days;
            reveal(falls_on);
            if r is None {
                if exists|d: CivilDate| #[trigger] falls_on(d, t) {
                    let d = choose|d: CivilDate| #[trigger] falls_on(d, t);
                    lemma_date_within_year(d.year as int, d.month as int, d.day as int);
                    lemma_year_start_monotone(i32::MIN as int, d.year as int);
                    lemma_year_start_monotone(d.year as int + 1, i32::MAX as int + 1);
                }
            } else {
                let d = r->0;
                assert(falls_on(d, t));
                let e = choose|e: CivilDate| #[trigger] falls_on(e, t);
                lemma_day_number_injective(d, e);
            }
        }
        r
    }
}

/// The year length step: a year has 365 days, 366 when leap.
pub proof fn lemma_year_length(year: int)
    ensures
        year_start(year + 1) - year_start(year) == if leap(year) {
            366int
        } else {
            365int
        },
{
    reveal(march_years);
    let y = year;
    lemma_div_step(y, 4);
    lemma_div_step(y, 100);
    lemma_div_step(y, 400);
    assert(y % 100 == 0 ==> y % 4 == 0) by {
        vstd::arithmetic::div_mod::lemma_fundamental_div_mod(y, 100);
        vstd::arithmetic::div_mod::lemma_fundamental_div_mod(y, 4);
    }
    assert(y % 400 == 0 ==> y % 100 == 0) by {
        vstd::arithmetic::div_mod::lemma_fundamental_div_mod(y, 400);
        vstd::arithmetic::div_mod::lemma_fundamental_div_mod(y, 100);
    }
}

/// Floor division steps up by one exactly at multiples of the divisor.
pub proof fn lemma_div_step(y: int, k: int)
    requires
        k > 0,
    ensures
        y / k - (y - 1) / k == if y % k == 0 {
            1int
        } else {
            0int
        },
{
    vstd::arithmetic::div_mod::lemma_fundamental_div_mod(y, k);
    vstd::arithmetic::div_mod::lemma_fundamental_div_mod(y - 1, k);
    let q = y / k;
    let r = y % k;
    assert(k * q == q * k) by (nonlinear_arith);
    assert((q - 1) * k == q * k - k) by (nonlinear_arith);
    if r == 0 {
        vstd::arithmetic::div_mod::lemma_fundamental_div_mod_converse(y - 1, k, q - 1, k - 1);
    } else {
        vstd::arithmetic::div_mod::lemma_fundamental_div_mod_converse(y - 1, k, q, r - 1);
    }
}

/// Offsets of the months within a year.
pub proof fn lemma_month_offsets(year: int, month: int)
    requires
        1 <= month <= 12,
    ensures
        month_offset(year, month) >= 0,
        month == 1 ==> month_offset(year, month) == 0,
        month_offset(year, month) + month_length(year, month) == if month == 12 {
            year_start(year + 1) - year_start(year)
        } else {
            month_offset(year, month + 1)
        },
{
    lemma_year_length(year);
    assert(march_years(year) - march_years(year - 1) == year_start(year + 1) - year_start(year));
}

/// Each month ends no later than the next one begins.
pub proof fn lemma_month_offsets_increase(year: int, lo: int, hi: int)
    requires
        1 <= lo < hi <= 12,
    ensures
        month_offset(year, lo) + month_length(year, lo) <= month_offset(year, hi),
    decreases hi - lo,
{
    lemma_month_offsets(year, lo);
    if lo + 1 < hi {
        lemma_month_offsets_increase(year, lo + 1, hi);
        lemma_month_offsets(year, lo + 1);
    }
}

/// A valid date lies inside its year.
pub proof fn lemma_date_within_year(year: int, month: int, day: int)
    requires
        valid_date(year, month, day),
    ensures
        year_start(year) <= ordinal(year, month, day) < year_start(year + 1),
{
    lemma_month_offsets(year, month);
    lemma_month_offsets(year, 12);
    if month < 12 {
        lemma_month_offsets_increase(year, month, 12);
    }
    assert(ordinal(year, month, day) == year_start(year) + month_offset(year, month) + day - 1);
}

/// Later years start later: at least 365 days per year in between.
pub proof fn lemma_year_start_monotone(a: int, b: int)
    requires
        a <= b,
    ensures
        year_start(b) - year_start(a) >= 365 * (b - a),
    decreases b - a,
{
    if a < b {
        lemma_year_start_monotone(a, b - 1);
        lemma_year_length(b - 1);
    }
}

/// Distinct valid dates have distinct day numbers.
pub proof fn lemma_day_number_injective(d1: CivilDate, d2: CivilDate)
    requires
        d1.valid(),
        d2.valid(),
        d1.day_number() == d2.day_number(),
    ensures
        d1 == d2,
{
    let (y1, y2) = (d1.year as int, d2.year as int);
    lemma_date_within_year(y1, d1.month as int, d1.day as int);
    lemma_date_within_year(y2, d2.month as int, d2.day as int);
    if y1 < y2 {
        lemma_year_start_monotone(y1 + 1, y2);
    }
    if y2 < y1 {
        lemma_year_start_monotone(y2 + 1, y1);
    }
    assert(y1 == y2);
    let (m1, m2) = (d1.month as int, d2.month as int);
    if m1 != m2 {
        let (lo, hi) = if m1 < m2 {
            (m1, m2)
        } else {
            (m2, m1)
        };
        lemma_month_offsets_increase(y1, lo, hi);
        lemma_month_offsets(y1, lo);
        lemma_month_offsets(y1, hi);
        assert(false);
    }
}

fn is_leap_year(year: i32) -> (b: bool)
    ensures
        b == leap(year as int),
{
    let shifted: u64 = (year as i64 + 2_147_484_000i64) as u64;
    assert(shifted as int == year as int + 400 * 5_368_710);
    shifted % 4 == 0 && (shifted % 100 != 0 || shifted % 400 == 0)
}

fn days_in_month(year: i32, month: u8) -> (d: u8)
    ensures
        d == month_length(year as int, month as int),
{
    match month {
        1 | 3 | 5 | 7 | 8 | 10 | 12 => 31,
        4 | 6 | 9 | 11 => 30,
        2 => if is_leap_year(year) {
            29
        } else {
            28
        },
        _ => 0,
    }
}

/// `march_years(y)` for a year in the `i32` range shifted by whole
/// 400-year cycles (146097 days each) to stay non-negative.
fn march_years_exec(y: i64) -> (r: i64)
    requires
        i32::MIN - 1 <= y <= i32::MAX + 1,
    ensures
        r == march_years(y as int),
        -1_000_000_000_000 <= r <= 1_000_000_000_000,
{
    reveal(march_years);
    let shifted: u64 = (y + 2_147_484_000i64) as u64;
    let ghost ys = shifted as int;
    assert(ys == y + 400 * 5_368_710);
    assert(ys / 4 == y / 4 + 100 * 5_368_710);
    assert(ys / 100 == y / 100 + 4 * 5_368_710);
    assert(ys / 400 == y / 400 + 5_368_710);
    let total: u64 = 365 * shifted + shifted / 4 - shifted / 100 + shifted / 400;
    (total as i64) - 146_097i64 * 5_368_710i64
}

fn days_from_civil(year: i32, month: u8, day: u8) -> (r: i64)
    ensures
        r == ordinal(year as int, month as int, day as int),
        -1_001_000_000_000 <= r <= 1_001_000_000_000,
{
    let y: i64 = year as i64 - if month <= 2 {
        1
    } else {
        0
    };
    let m: i64 = if month > 2 {
        month as i64 - 3
    } else {
        month as i64 + 9
    };
    march_years_exec(y) + (153 * m + 2) / 5 + day as i64 - 1 - 719_468
}

fn year_start_exec(year: i64) -> (r: i64)
    requires
        i32::MIN <= year <= i32::MAX + 1,
    ensures
        r == year_start(year as int),
        -1_001_000_000_000 <= r <= 1_001_000_000_000,
{
    march_years_exec(year - 1) + 306 - 719_468
}

/// The date with day number `days`, found by bisection on the year.
fn civil_from_days(days: i64) -> (r: Option<CivilDate>)
    ensures
        r matches Some(d) ==> d.valid() && d.day_number() == days,
        r is None <==> !(year_start(i32::MIN as int) <= days < year_start(i32::MAX as int + 1)),
{
    let low_start = year_start_exec(i32::MIN as i64);
    let high_start = year_start_exec(i32::MAX as i64 + 1);
    if days < low_start || days >= high_start {
        return None;
    }
    let mut lo: i64 = i32::MIN as i64;
    let mut hi: i64 = i32::MAX as i64 + 1;
    while hi - lo > 1
        invariant
            i32::MIN <= lo < hi <= i32::MAX + 1,
            year_start(lo as int) <= days < year_start(hi as int),
        decreases hi - lo,
    {
        let mid = lo + (hi - lo) / 2;
        if year_start_exec(mid) <= days {
            lo = mid;
        } else {
            hi = mid;
        }
    }
    let year = lo as i32;
    proof {
        lemma_year_length(year as int);
    }
    let day_of_year = days - year_start_exec(lo);
    let mut month: u8 = 1;
    proof {
        lemma_month_offsets(year as int, 1);
    }
    while month < 12 && day_of_year >= days_from_civil(year, month + 1, 1) - year_start_exec(lo)
        invariant
            1 <= month <= 12,
            lo == year as int,
            day_of_year == days - year_start(year as int),
            0 <= day_of_year < year_start(year as int + 1) - year_start(year as int),
            month_offset(year as int, month as int) <= day_of_year,
        decreases 12 - month,
    {
        month = month + 1;
    }
    proof {
        lemma_month_offsets(year as int, month as int);
    }
    let day = (day_of_year - (days_from_civil(year, month, 1) - year_start_exec(lo)) + 1) as u8;
    let date = CivilDate { year, month, day };
    proof {
        assert(date.day_number() == year_start(year as int) + month_offset(year as int, month as int)
            + day - 1);
    }
    Some(date)
}

/// Adding days composes: `n` then `m` days is `n + m` days.
pub proof fn lemma_add_days_composes(d: CivilDate, n: nat, m: nat)
    requires
        d.valid(),
        date_of_day(d.day_number() + n) is Some,
    ensures
        date_of_day(d.day_number() + n)->0.valid(),
        date_of_day(date_of_day(d.day_number() + n)->0.day_number() + m) == date_of_day(
            d.day_number() + n + m,
        ),
{
    reveal(falls_on);
    let t = d.day_number() + n;
    let e = choose|e: CivilDate| #[trigger] falls_on(e, t);
    assert(falls_on(e, t));
}

/// The calendar round trip: a valid date's day number gives the date back,
/// and the date found for a day number falls on that day.
pub proof fn lemma_calendar_round_trip(d: CivilDate, n: int)
    requires
        d.valid(),
    ensures
        date_of_day(d.day_number()) == Some(d),
        date_of_day(n) matches Some(e) ==> e.valid() && e.day_number() == n,
{
    reveal(falls_on);
    assert(falls_on(d, d.day_number()));
    let e = choose|e: CivilDate| #[trigger] falls_on(e, d.day_number());
    lemma_day_number_injective(d, e);
}

/// The laws of `CivilDate::checked_add_days`, whose answer is
/// `date_of_day(d.day_number() + days)`: adding no days gives the date back;
/// adding `a` then `b` days is adding `a + b`; and adding fewer days gives
/// an earlier date.
pub proof fn lemma_checked_add_days_laws(d: CivilDate, a: nat, b: nat)
    requires
        d.valid(),
    ensures
        date_of_day(d.day_number() + 0) == Some(d),
        date_of_day(d.day_number() + a) matches Some(e) ==> date_of_day(e.day_number() + b) == date_of_day(
            d.day_number() + a + b,
        ),
        a < b && date_of_day(d.day_number() + a) is Some && date_of_day(d.day_number() + b) is Some ==> date_before(
            date_of_day(d.day_number() + a)->0,
            date_of_day(d.day_number() + b)->0,
        ),
{
    lemma_calendar_round_trip(d, d.day_number() + a);
    lemma_calendar_round_trip(d, d.day_number() + b);
    assert(d.day_number() + 0 == d.day_number());
    if date_of_day(d.day_number() + a) is Some {
        lemma_add_days_composes(d, a, b);
    }
    if a < b && date_of_day(d.day_number() + a) is Some && date_of_day(d.day_number() + b) is Some {
        lemma_date_order(date_of_day(d.day_number() + a)->0, date_of_day(d.day_number() + b)->0);
    }
}

/// Day numbers count from the epoch: 1970-01-01 is day 0.
pub proof fn lemma_epoch_is_day_zero()
    ensures
        ordinal(1970, 1, 1) == 0,
        date_of_day(0) == Some(CivilDate { year: 1970, month: 1, day: 1 }),
{
    reveal(march_years);
    let d = CivilDate { year: 1970, month: 1, day: 1 };
    assert(d.valid());
    lemma_calendar_round_trip(d, 0);
}

/// `a` comes before `b` in calendar order: by year, then month, then day.
pub open spec fn date_before(a: CivilDate, b: CivilDate) -> bool {
    a.year < b.year || (a.year == b.year && (a.month < b.month || (a.month == b.month && a.day < b.day)))
}

/// Calendar order of valid dates is the order of their day numbers.
pub proof fn lemma_date_order(a: CivilDate, b: CivilDate)
    requires
        a.valid(),
        b.valid(),
    ensures
        date_before(a, b) <==> a.day_number() < b.day_number(),
{
    let (ya, yb) = (a.year as int, b.year as int);
    lemma_date_within_year(ya, a.month as int, a.day as int);
    lemma_date_within_year(yb, b.month as int, b.day as int);
    if ya < yb {
        lemma_year_start_monotone(ya + 1, yb);
    } else if yb < ya {
        lemma_year_start_monotone(yb + 1, ya);
    } else {
        let (ma, mb) = (a.month as int, b.month as int);
        assert(a.day_number() == year_start(ya) + month_offset(ya, ma) + a.day - 1);
        assert(b.day_number() == year_start(ya) + month_offset(ya, mb) + b.day - 1);
        if ma < mb {
            lemma_month_offsets_increase(ya, ma, mb);
        } else if mb < ma {
            lemma_month_offsets_increase(ya, mb, ma);
        }
    }
}

#[derive(Debug, Clone, Copy, PartialEq, Eq, Structural)]
pub enum DeadlineType {
    Filing,
    Response,
    Appeal,
    Other,
}

#[derive(Debug, Clone, Copy, PartialEq, Eq, Structural)]
pub enum DeadlineStatus {
    Planned,
    Due,
    Satisfied,
    Overdue,
    Cancelled,
}

/// The deadline status machine.
pub open spec fn deadline_step(from: DeadlineStatus, to: DeadlineStatus) -> bool {
    match (from, to) {
        (DeadlineStatus::Planned, DeadlineStatus::Due) => true,
        (DeadlineStatus::Planned, DeadlineStatus::Cancelled) => true,
        (DeadlineStatus::Due, DeadlineStatus::Satisfied) => true,
        (DeadlineStatus::Due, DeadlineStatus::Overdue) => true,
        (DeadlineStatus::Due, DeadlineStatus::Cancelled) => true,
        (DeadlineStatus::Overdue, DeadlineStatus::Satisfied) => true,
        (DeadlineStatus::Overdue, DeadlineStatus::Cancelled) => true,
        _ => false,
    }
}

impl DeadlineStatus {
    pub fn can_transition_to(&self, next: &Self) -> (b: bool)
        ensures
            b == deadline_step(*self, *next),
    {
        match (self, next) {
            (DeadlineStatus::Planned, DeadlineStatus::Due) => true,
            (DeadlineStatus::Planned, DeadlineStatus::Cancelled) => true,
            (DeadlineStatus::Due, DeadlineStatus::Satisfied) => true,
            (DeadlineStatus::Due, DeadlineStatus::Overdue) => true,
            (DeadlineStatus::Due, DeadlineStatus::Cancelled) => true,
            (DeadlineStatus::Overdue, DeadlineStatus::Satisfied) => true,
            (DeadlineStatus::Overdue, DeadlineStatus::Cancelled) => true,
            _ => false,
        }
    }
}

/// The deadline lifecycle: a planned deadline falls due or is cancelled; a
/// due deadline is satisfied, becomes overdue or is cancelled; an overdue
/// deadline can still be satisfied (a late filing) or cancelled; nothing
/// returns to planned or due from a later status, and nothing moves to
/// itself.
pub proof fn lemma_deadline_lifecycle(s: DeadlineStatus)
    ensures
        s == DeadlineStatus::Planned ==> deadline_step(s, DeadlineStatus::Due) && deadline_step(
            s,
            DeadlineStatus::Cancelled,
        ) && !deadline_step(s, DeadlineStatus::Satisfied) && !deadline_step(s, DeadlineStatus::Overdue),
        s == DeadlineStatus::Due || s == DeadlineStatus::Overdue ==> deadline_step(s, DeadlineStatus::Satisfied)
            && deadline_step(s, DeadlineStatus::Cancelled),
        deadline_step(DeadlineStatus::Due, DeadlineStatus::Overdue),
        !deadline_step(s, DeadlineStatus::Planned),
        s != DeadlineStatus::Planned ==> !deadline_step(s, DeadlineStatus::Due),
        !deadline_step(s, s),
{
}

/// Satisfied and cancelled deadlines are final.
pub proof fn lemma_deadline_final_states(from: DeadlineStatus, to: DeadlineStatus)
    requires
        from == DeadlineStatus::Satisfied || from == DeadlineStatus::Cancelled,
    ensures
        !deadline_step(from, to),
{
}

#[derive(Debug, Clone, PartialEq, Eq)]
pub struct Deadline {
    pub deadline_id: Id,
    pub procedure_id: Id,
    pub name: String,
    pub deadline_type: DeadlineType,
    pub anchor_date: CivilDate,
    pub duration_days: u32,
    pub due_date: CivilDate,
    pub status: DeadlineStatus,
    pub source_refs: Vec<Id>,
}

/// A deadline is valid exactly when its texts and sources are present and
/// its due date is a real date falling `duration_days` days after its
/// anchor date.
pub proof fn lemma_deadline_due_date(d: Deadline)
    ensures
        d.validity() is Ok ==> d.due_date.valid() && d.due_date.day_number() == d.anchor_date.day_number()
            + d.duration_days,
        d.deadline_id@.len() > 0 && d.procedure_id@.len() > 0 && d.name@.len() > 0 && d.source_refs@.len() > 0
            && d.due_date.valid() && d.due_date.day_number() == d.anchor_date.day_number() + d.duration_days
            ==> d.validity() is Ok,
{
    if d.due_date.valid() {
        lemma_calendar_round_trip(d.due_date, d.anchor_date.day_number() + d.duration_days);
    } else {
        let n = d.anchor_date.day_number() + d.duration_days;
        reveal(falls_on);
        if date_of_day(n) is Some {
            let e = choose|e: CivilDate| #[trigger] falls_on(e, n);
            assert(falls_on(e, n));
        }
    }
}

impl Deadline {
    pub open spec fn validity(&self) -> Result<(), &'static str> {
        if self.deadline_id@.len() == 0 {
            Err("deadline id is required")
        } else if self.procedure_id@.len() == 0 {
            Err("deadline procedure is required")
        } else if self.name@.len() == 0 {
            Err("deadline name is required")
        } else if self.source_refs@.len() == 0 {
            Err("deadline source references are required")
        } else if date_of_day(self.anchor_date.day_number() + self.duration_days) is None {
            Err("deadline due date overflow")
        } else if date_of_day(self.anchor_date.day_number() + self.duration_days) != Some(
            self.due_date,
        ) {
            Err("deadline due date does not match duration")
        } else {
            Ok(())
        }
    }

    pub fn validate(&self) -> (r: Result<(), &'static str>)
        ensures
            r == self.validity(),
            r is Ok ==> self.due_date.valid() && self.due_date.day_number() == self.anchor_date.day_number()
                + self.duration_days,
    {
        proof {
            lemma_deadline_due_date(*self);
        }
        if self.deadline_id.as_str().is_empty() {
            return Err("deadline id is required");
        }
        if self.procedure_id.as_str().is_empty() {
            return Err("deadline procedure is required");
        }
        if self.name.as_str().is_empty() {
            return Err("deadline name is required");
        }
        if self.source_refs.len() == 0 {
            return Err("deadline source references are required");
        }
        let expected = match self.anchor_date.checked_add_days(self.duration_days) {
            Some(d) => d,
            None => return Err("deadline due date overflow"),
        };
        if self.due_date != expected {
            return Err("deadline due date does not match duration");
        }
        Ok(())
    }
}

#[derive(Debug, Clone, Copy, PartialEq, Eq, Structural)]
pub enum ApplicabilityStatus {
    Unverified,
    Verified,
    Uncertain,
    ReviewRequired,
}

#[derive(Debug, Clone, PartialEq, Eq)]
pub struct Obligation {
    pub obligation_id: Id,
    pub deadline_id: Id,
    pub description: String,
    pub applicability: ApplicabilityStatus,
    pub source_refs: Vec<Id>,
}

impl Obligation {
    pub open spec fn validity(&self) -> Result<(), &'static str> {
        if self.obligation_id@.len() == 0 {
            Err("obligation id is required")
        } else if self.deadline_id@.len() == 0 {
            Err("obligation deadline is required")
        } else if self.description@.len() == 0 {
            Err("obligation description is required")
        } else if self.source_refs@.len() == 0 {
            Err("obligation source references are required")
        } else {
            Ok(())
        }
    }

    pub fn validate(&self) -> (r: Result<(), &'static str>)
        ensures
            r == self.validity(),
    {
        if self.obligation_id.as_str().is_empty() {
            return Err("obligation id is required");
        }
        if self.deadline_id.as_str().is_empty() {
            return Err("obligation deadline is required");
        }
        if self.description.as_str().is_empty() {
            return Err("obligation description is required");
        }
        if self.source_refs.len() == 0 {
            return Err("obligation source references are required");
        }
        Ok(())
    }
}

/// The first failing check of `obligations[i..]` against the registry
/// contents `existing`, for a deadline `deadline_id`.
pub open spec fn obligations_check(
    existing: Map<Seq<char>, Obligation>,
    deadline_id: Seq<char>,
    obligations: Seq<Obligation>,
    i: int,
) -> Result<(), &'static str>
    decreases obligations.len() - i,
{
    if i < 0 || i >= obligations.len() {
        Ok(())
    } else if obligations[i].validity() is Err {
        obligations[i].validity()
    } else if obligations[i].deadline_id@ != deadline_id {
        Err("obligation belongs to another deadline")
    } else if existing.contains_key(obligations[i].obligation_id@) {
        Err("duplicate obligation id")
    } else {
        obligations_check(existing, deadline_id, obligations, i + 1)
    }
}

/// `m` with the first `n` obligations stored in order, later ones replacing
/// earlier ones under the same id.
pub open spec fn store_obligations(m: Map<Seq<char>, Obligation>, obligations: Seq<Obligation>, n: int) -> Map<
    Seq<char>,
    Obligation,
>
    decreases n,
{
    if n <= 0 || n > obligations.len() {
        m
    } else {
        store_obligations(m, obligations, n - 1).insert(
            obligations[n - 1].obligation_id@,
            obligations[n - 1],
        )
    }
}

pub struct DeadlineRegistry {
    deadlines: IdMap<Deadline>,
    obligations: IdMap<Obligation>,
}

impl DeadlineRegistry {
    pub closed spec fn wf(&self) -> bool {
        self.deadlines.wf() && self.obligations.wf()
    }

    /// Stored deadlines by id.
    pub closed spec fn deadline_map(&self) -> Map<Seq<char>, Deadline> {
        self.deadlines.map()
    }

    /// Stored obligations by id.
    pub closed spec fn obligation_map(&self) -> Map<Seq<char>, Obligation> {
        self.obligations.map()
    }

    pub fn new() -> (r: Self)
        ensures
            r.wf(),
            r.deadline_map() == Map::<Seq<char>, Deadline>::empty(),
            r.obligation_map() == Map::<Seq<char>, Obligation>::empty(),
    {
        DeadlineRegistry { deadlines: IdMap::new(), obligations: IdMap::new() }
    }

    /// What inserting `deadline` with `obligations` answers.
    pub open spec fn insertion(&self, deadline: Deadline, obligations: Seq<Obligation>) -> Result<
        (),
        &'static str,
    > {
        if deadline.validity() is Err {
            deadline.validity()
        } else if self.deadline_map().contains_key(deadline.deadline_id@) {
            Err("duplicate deadline id")
        } else {
            obligations_check(self.obligation_map(), deadline.deadline_id@, obligations, 0)
        }
    }

    /// Stores a valid deadline under a fresh id together with its
    /// obligations; nothing is stored when any check fails.
    pub fn insert(&mut self, deadline: Deadline, obligations: Vec<Obligation>) -> (r: Result<(), &'static str>)
        requires
            old(self).wf(),
        ensures
            final(self).wf(),
            r == old(self).insertion(deadline, obligations@),
            r is Ok ==> deadline.due_date.valid() && deadline.due_date.day_number() == deadline.anchor_date.day_number()
                + deadline.duration_days,
            r is Ok ==> final(self).deadline_map() == old(self).deadline_map().insert(
                deadline.deadline_id@,
                deadline,
            ) && final(self).obligation_map() == store_obligations(
                old(self).obligation_map(),
                obligations@,
                obligations@.len() as int,
            ),
            r is Err ==> final(self).deadline_map() == old(self).deadline_map()
                && final(self).obligation_map() == old(self).obligation_map(),
    {
        match deadline.validate() {
            Ok(()) => {},
            Err(e) => return Err(e),
        }
        if self.deadlines.contains_key(deadline.deadline_id.as_str()) {
            return Err("duplicate deadline id");
        }
        let n = obligations.len();
        let mut i: usize = 0;
        while i < n
            invariant
                self.wf(),
                *self == *old(self),
                deadline.validity() is Ok,
                !old(self).deadline_map().contains_key(deadline.deadline_id@),
                n == obligations@.len(),
                i <= n,
                obligations_check(self.obligation_map(), deadline.deadline_id@, obligations@, 0)
                    == obligations_check(
                    self.obligation_map(),
                    deadline.deadline_id@,
                    obligations@,
                    i as int,
                ),
            decreases n - i,
        {
            let obligation = &obligations[i];
            match obligation.validate() {
                Ok(()) => {},
                Err(e) => return Err(e),
            }
            if !crate::text::str_eq(obligation.deadline_id.as_str(), deadline.deadline_id.as_str()) {
                return Err("obligation belongs to another deadline");
            }
            if self.obligations.contains_key(obligation.obligation_id.as_str()) {
                return Err("duplicate obligation id");
            }
            i = i + 1;
        }
        let key = deadline.deadline_id.clone();
        self.deadlines.insert_new(key, deadline);
        let ghost base = old(self).obligation_map();
        let mut items = obligations;
        let ghost all = items@;
        let mut j: usize = 0;
        while j < n
            invariant
                self.wf(),
                self.deadline_map() == old(self).deadline_map().insert(deadline.deadline_id@, deadline),
                n == all.len(),
                j <= n,
                items@ == all.skip(j as int),
                self.obligation_map() == store_obligations(base, all, j as int),
            decreases n - j,
        {
            let item = items.remove(0);
            assert(item == all[j as int]);
            let key = item.obligation_id.clone();
            self.obligations.insert(key, item);
            proof {
                assert(items@ =~= all.skip(j + 1));
            }
            j = j + 1;
        }
        Ok(())
    }
}

impl DeadlineRegistry {
    /// Obligations in ascending id order.
    pub closed spec fn obligation_seq(&self) -> Seq<Obligation> {
        self.obligations.value_seq()
    }

    /// Moves a stored deadline to `next` when the status machine allows it.
    pub fn transition(&mut self, deadline_id: &Id, next: DeadlineStatus) -> (r: Result<(), &'static str>)
        requires
            old(self).wf(),
        ensures
            final(self).wf(),
            final(self).obligation_map() == old(self).obligation_map(),
            !old(self).deadline_map().contains_key(deadline_id@) ==> r == Err::<(), &'static str>(
                "deadline not found",
            ),
            old(self).deadline_map().contains_key(deadline_id@) && !deadline_step(
                old(self).deadline_map()[deadline_id@].status,
                next,
            ) ==> r == Err::<(), &'static str>("invalid deadline status transition"),
            r is Ok <==> old(self).deadline_map().contains_key(deadline_id@) && deadline_step(
                old(self).deadline_map()[deadline_id@].status,
                next,
            ),
            r is Ok ==> final(self).deadline_map() == old(self).deadline_map().insert(
                deadline_id@,
                Deadline { status: next, ..old(self).deadline_map()[deadline_id@] },
            ),
            r is Err ==> final(self).deadline_map() == old(self).deadline_map(),
            old(self).deadline_map().contains_key(deadline_id@) && (old(self).deadline_map()[deadline_id@].status
                == DeadlineStatus::Due || old(self).deadline_map()[deadline_id@].status == DeadlineStatus::Overdue) && (
            next == DeadlineStatus::Satisfied || next == DeadlineStatus::Cancelled) ==> r is Ok,
    {
        proof {
            if old(self).deadline_map().contains_key(deadline_id@) {
                lemma_deadline_lifecycle(old(self).deadline_map()[deadline_id@].status);
            }
        }
        let allowed = match self.deadlines.get(deadline_id.as_str()) {
            None => return Err("deadline not found"),
            Some(d) => d.status.can_transition_to(&next),
        };
        if !allowed {
            return Err("invalid deadline status transition");
        }
        let mut deadline = self.deadlines.take(deadline_id.as_str());
        deadline.status = next;
        self.deadlines.insert_new(deadline_id.clone(), deadline);
        Ok(())
    }

    pub fn get_deadline(&self, id: &Id) -> (r: Option<&Deadline>)
        requires
            self.wf(),
        ensures
            r is Some <==> self.deadline_map().contains_key(id@),
            r matches Some(d) ==> *d == self.deadline_map()[id@],
    {
        self.deadlines.get(id.as_str())
    }

    pub fn get_obligation(&self, id: &Id) -> (r: Option<&Obligation>)
        requires
            self.wf(),
        ensures
            r is Some <==> self.obligation_map().contains_key(id@),
            r matches Some(o) ==> *o == self.obligation_map()[id@],
    {
        self.obligations.get(id.as_str())
    }

    /// Stored deadline ids in ascending order.
    pub fn deadline_ids(&self) -> (r: Vec<Id>)
        requires
            self.wf(),
        ensures
            strictly_sorted(r@.map_values(|s: String| s@)),
            forall|k: Seq<char>|
                self.deadline_map().contains_key(k) <==> r@.map_values(|s: String| s@).contains(k),
    {
        self.deadlines.keys()
    }

    /// The obligations of one deadline, in ascending obligation id order.
    pub fn obligations_for(&self, deadline_id: &Id) -> (r: Vec<&Obligation>)
        requires
            self.wf(),
        ensures
            r@.map_values(|o: &Obligation| *o) == self.obligation_seq().filter(
                |o: Obligation| o.deadline_id@ == deadline_id@,
            ),
    {
        let ghost pred = |o: Obligation| o.deadline_id@ == deadline_id@;
        let ghost all = self.obligation_seq();
        let n = self.obligations.len();
        let mut r: Vec<&Obligation> = Vec::new();
        let mut i: usize = 0;
        while i < n
            invariant
                self.wf(),
                all == self.obligation_seq(),
                pred == (|o: Obligation| o.deadline_id@ == deadline_id@),
                n == all.len(),
                i <= n,
                r@.map_values(|o: &Obligation| *o) == all.take(i as int).filter(pred),
            decreases n - i,
        {
            let item = self.obligations.value_at(i);
            proof {
                assert(all.take(i + 1) =~= all.take(i as int).push(all[i as int]));
                all.take(i as int).lemma_filter_push(all[i as int], pred);
            }
            assert(*item == all[i as int]);
            if crate::text::str_eq(item.deadline_id.as_str(), deadline_id.as_str()) {
                assert(pred(all[i as int]));
                r.push(item);
                assert(r@.map_values(|o: &Obligation| *o) =~= all.take(i as int).filter(pred).push(
                    *item,
                ));
            } else {
                assert(!pred(all[i as int]));
            }
            assert(r@.map_values(|o: &Obligation| *o) == all.take(i + 1).filter(pred));
            i = i + 1;
        }
        assert(all.take(n as int) =~= all);
        r
    }
}

impl Default for DeadlineRegistry {
    fn default() -> (r: Self)
        ensures
            r.wf(),
            r.deadline_map() == Map::<Seq<char>, Deadline>::empty(),
            r.obligation_map() == Map::<Seq<char>, Obligation>::empty(),
    {
        DeadlineRegistry::new()
    }
}

} // verus!
