//! Timestamps rendered in China Standard Time (UTC+8, Beijing time).

use vstd::prelude::*;

use crate::text::{push_char, push_zero_padded, zero_padded};

verus! {

/// Gregorian leap-year rule.
pub open spec fn is_leap_year(y: int) -> bool {
    y % 4 == 0 && (y % 100 != 0 || y % 400 == 0)
}

/// Number of days in year `y`.
pub open spec fn days_in_year(y: int) -> nat {
    if is_leap_year(y) { 366 } else { 365 }
}

/// Days from 1970-01-01 to January 1st of year `y` (for `y >= 1970`).
pub open spec fn days_before_year(y: int) -> nat
    decreases y - 1970,
{
    if y <= 1970 {
        0
    } else {
        days_before_year(y - 1) + days_in_year(y - 1)
    }
}

/// Leap years in `1..=y`.
spec fn leaps_through(y: int) -> int {
    y / 4 - y / 100 + y / 400
}

proof fn lemma_leap_step(y: int)
    requires
        y >= 1,
    ensures
        leaps_through(y) - leaps_through(y - 1) == if is_leap_year(y) { 1int } else { 0int },
{
    assert(y / 4 - (y - 1) / 4 == if y % 4 == 0 { 1int } else { 0int }) by (nonlinear_arith)
        requires y >= 1;
    assert(y / 100 - (y - 1) / 100 == if y % 100 == 0 { 1int } else { 0int }) by (nonlinear_arith)
        requires y >= 1;
    assert(y / 400 - (y - 1) / 400 == if y % 400 == 0 { 1int } else { 0int }) by (nonlinear_arith)
        requires y >= 1;
    assert(y % 400 == 0 ==> y % 100 == 0) by (nonlinear_arith)
        requires y >= 1;
    assert(y % 100 == 0 ==> y % 4 == 0) by (nonlinear_arith)
        requires y >= 1;
}

proof fn lemma_days_before_year_closed(y: int)
    requires
        y >= 1970,
    ensures
        days_before_year(y) == 365 * (y - 1970) + leaps_through(y - 1) - leaps_through(1969),
    decreases y - 1970,
{
    if y > 1970 {
        lemma_days_before_year_closed(y - 1);
        lemma_leap_step(y - 1);
    }
}

proof fn lemma_four_centuries(y: int)
    requires
        y >= 1970,
    ensures
        days_before_year(y + 400) == days_before_year(y) + 146097,
{
    lemma_days_before_year_closed(y);
    lemma_days_before_year_closed(y + 400);
    assert(leaps_through(y + 399) == leaps_through(y - 1) + 97) by (nonlinear_arith)
        requires y >= 1970;
}


proof fn lemma_eras(k: int)
    requires
        k >= 0,
    ensures
        days_before_year(1970 + 400 * k) == 146097 * k,
    decreases k,
{
    if k > 0 {
        lemma_eras(k - 1);
        lemma_four_centuries(1970 + 400 * (k - 1));
    }
}

/// Number of days in month `m` (1-based) of year `y`.
pub open spec fn days_in_month(y: int, m: int) -> nat {
    if m == 2 {
        if is_leap_year(y) { 29 } else { 28 }
    } else if m == 4 || m == 6 || m == 9 || m == 11 {
        30
    } else {
        31
    }
}

/// Days from January 1st to the first day of month `m` in year `y`.
pub open spec fn days_before_month(y: int, m: int) -> nat
    decreases m,
{
    if m <= 1 {
        0
    } else {
        days_before_month(y, m - 1) + days_in_month(y, m - 1)
    }
}

/// `(y, m, d)` is the calendar date that lies `day` days after 1970-01-01.
pub open spec fn is_date_of_day(day: int, y: int, m: int, d: int) -> bool {
    &&& y >= 1970
    &&& 1 <= m <= 12
    &&& 1 <= d <= days_in_month(y, m)
    &&& days_before_year(y) + days_before_month(y, m) + d - 1 == day
}

proof fn lemma_months_fill_year(y: int)
    ensures
        days_before_month(y, 13) == days_in_year(y),
{
    reveal_with_fuel(days_before_month, 13);
}

fn year_length(y: u64) -> (n: u64)
    ensures
        n == days_in_year(y as int),
{
    if y % 4 == 0 && (y % 100 != 0 || y % 400 == 0) { 366 } else { 365 }
}

fn month_length(y: u64, m: u64) -> (n: u64)
    ensures
        n == days_in_month(y as int, m as int),
{
    if m == 2 {
        if y % 4 == 0 && (y % 100 != 0 || y % 400 == 0) { 29 } else { 28 }
    } else if m == 4 || m == 6 || m == 9 || m == 11 {
        30
    } else {
        31
    }
}

proof fn lemma_months_monotone(y: int, a: int, b: int)
    requires
        a <= b,
    ensures
        days_before_month(y, a) <= days_before_month(y, b),
    decreases b - a,
{
    if a < b {
        lemma_months_monotone(y, a, b - 1);
    }
}

proof fn lemma_years_monotone(a: int, b: int)
    requires
        1970 <= a <= b,
    ensures
        days_before_year(a) <= days_before_year(b),
    decreases b - a,
{
    if a < b {
        lemma_years_monotone(a, b - 1);
    }
}

/// A valid date lies inside its year and its month.
proof fn lemma_date_bounds(day: int, y: int, m: int, d: int)
    requires
        is_date_of_day(day, y, m, d),
    ensures
        days_before_year(y) <= day < days_before_year(y + 1),
        days_before_month(y, m) <= day - days_before_year(y) < days_before_month(y, m + 1),
{
    lemma_months_monotone(y, m + 1, 13);
    lemma_months_fill_year(y);
}

/// Each day number has exactly one calendar date.
pub proof fn lemma_date_unique(day: int, y1: int, m1: int, d1: int, y2: int, m2: int, d2: int)
    requires
        is_date_of_day(day, y1, m1, d1),
        is_date_of_day(day, y2, m2, d2),
    ensures
        y1 == y2 && m1 == m2 && d1 == d2,
{
    lemma_date_bounds(day, y1, m1, d1);
    lemma_date_bounds(day, y2, m2, d2);
    if y1 < y2 {
        lemma_years_monotone(y1 + 1, y2);
    } else if y2 < y1 {
        lemma_years_monotone(y2 + 1, y1);
    }
    assert(y1 == y2);
    if m1 < m2 {
        lemma_months_monotone(y1, m1 + 1, m2);
    } else if m2 < m1 {
        lemma_months_monotone(y1, m2 + 1, m1);
    }
}

/// The calendar date of day number `day` (counted from 1970-01-01).
pub open spec fn date_of(day: int) -> (int, int, int) {
    choose|t: (int, int, int)| is_date_of_day(day, t.0, t.1, t.2)
}

/// The calendar date `day` days after 1970-01-01.
fn date_of_day(day: u64) -> (ymd: (u64, u64, u64))
    requires
        day <= 1_000_000_000_000,
    ensures
        is_date_of_day(day as int, ymd.0 as int, ymd.1 as int, ymd.2 as int),
        date_of(day as int) == (ymd.0 as int, ymd.1 as int, ymd.2 as int),
{
    let era = day / 146097;
    let mut rem = day % 146097;
    let mut y: u64 = 1970 + 400 * era;
    proof {
        lemma_eras(era as int);
    }
    while rem >= year_length(y)
        invariant
            1970 <= y,
            y + rem <= 1970 + 400 * era + 146097,
            rem <= day,
            days_before_year(y as int) + rem == day,
            era <= 7_000_000,
        decreases rem,
    {
        rem = rem - year_length(y);
        y = y + 1;
    }
    proof {
        lemma_months_fill_year(y as int);
    }
    let mut m: u64 = 1;
    while rem >= month_length(y, m)
        invariant
            1 <= m <= 12,
            days_before_month(y as int, m as int) + rem < days_in_year(y as int),
            days_before_month(y as int, 13) == days_in_year(y as int),
            days_before_year(y as int) + days_before_month(y as int, m as int) + rem == day,
        decreases 12 - m,
    {
        rem = rem - month_length(y, m);
        m = m + 1;
        if m == 13 {
            assert(false);
        }
    }
    let ymd = (y, m, rem + 1);
    proof {
        let t = (y as int, m as int, (rem + 1) as int);
        assert(is_date_of_day(day as int, t.0, t.1, t.2));
        let c = date_of(day as int);
        lemma_date_unique(day as int, t.0, t.1, t.2, c.0, c.1, c.2);
    }
    ymd
}


/// Seconds since 1970-01-01 00:00 on Beijing's wall clock (UTC+8) for a Unix timestamp in ms.
pub open spec fn beijing_seconds(ms: nat) -> nat {
    ms / 1000 + 8 * 3600
}

/// Beijing day number (days since 1970-01-01) of a Unix timestamp in ms.
pub open spec fn beijing_day(ms: nat) -> nat {
    beijing_seconds(ms) / 86400
}

/// Hour, minute and second of the Beijing wall clock.
pub open spec fn beijing_hms(ms: nat) -> (nat, nat, nat) {
    let sod = beijing_seconds(ms) % 86400;
    (sod / 3600, (sod % 3600) / 60, sod % 60)
}

/// `YYYY-MM-DD` of the Beijing calendar date.
pub open spec fn beijing_date_text(ms: nat) -> Seq<char> {
    let t = date_of(beijing_day(ms) as int);
    zero_padded(t.0 as nat, 4) + seq!['-'] + zero_padded(t.1 as nat, 2) + seq!['-']
        + zero_padded(t.2 as nat, 2)
}

/// `HH:MM` or `HH:MM:SS` of the Beijing wall clock.
pub open spec fn beijing_clock_text(ms: nat, with_seconds: bool) -> Seq<char> {
    let hms = beijing_hms(ms);
    let hm = zero_padded(hms.0, 2) + seq![':'] + zero_padded(hms.1, 2);
    if with_seconds {
        hm + seq![':'] + zero_padded(hms.2, 2)
    } else {
        hm
    }
}

/// `YYYY-MM-DD HH:MM` (or with `:SS`) in Beijing time.
pub open spec fn beijing_datetime_text(ms: nat, with_seconds: bool) -> Seq<char> {
    beijing_date_text(ms) + seq![' '] + beijing_clock_text(ms, with_seconds)
}

/// `HH:00` of the hour that contains the timestamp, in Beijing time.
pub open spec fn beijing_hour_label_text(ms: nat) -> Seq<char> {
    zero_padded(beijing_hms(ms).0, 2) + seq![':', '0', '0']
}

fn push_beijing_date(out: &mut String, ms: u64)
    ensures
        final(out)@ == old(out)@ + beijing_date_text(ms as nat),
{
    let day = (ms / 1000 + 28800) / 86400;
    let ymd = date_of_day(day);
    push_zero_padded(out, ymd.0, 4);
    push_char(out, '-');
    push_zero_padded(out, ymd.1, 2);
    push_char(out, '-');
    push_zero_padded(out, ymd.2, 2);
    assert(out@ =~= old(out)@ + beijing_date_text(ms as nat));
}

fn push_beijing_clock(out: &mut String, ms: u64, with_seconds: bool)
    ensures
        final(out)@ == old(out)@ + beijing_clock_text(ms as nat, with_seconds),
{
    let sod = (ms / 1000 + 28800) % 86400;
    push_zero_padded(out, sod / 3600, 2);
    push_char(out, ':');
    push_zero_padded(out, (sod % 3600) / 60, 2);
    if with_seconds {
        push_char(out, ':');
        push_zero_padded(out, sod % 60, 2);
    }
    assert(out@ =~= old(out)@ + beijing_clock_text(ms as nat, with_seconds));
}

fn beijing_datetime(ms: u64, with_seconds: bool) -> (s: String)
    ensures
        s@ == beijing_datetime_text(ms as nat, with_seconds),
{
    let mut s = String::new();
    push_beijing_date(&mut s, ms);
    push_char(&mut s, ' ');
    push_beijing_clock(&mut s, ms, with_seconds);
    assert(s@ =~= beijing_datetime_text(ms as nat, with_seconds));
    s
}

/// `2026-05-26 04:40` in Beijing.
pub fn format_ms_china_datetime(ms: u64) -> (s: String)
    ensures
        s@ == beijing_datetime_text(ms as nat, false),
{
    beijing_datetime(ms, false)
}

/// `2026-05-26 04:40:23` in Beijing.
pub fn format_ms_china_datetime_secs(ms: u64) -> (s: String)
    ensures
        s@ == beijing_datetime_text(ms as nat, true),
{
    beijing_datetime(ms, true)
}

/// Hour bucket label for trend charts: `21:00` (Beijing).
pub fn format_ms_china_hour_label(ms: u64) -> (s: String)
    ensures
        s@ == beijing_hour_label_text(ms as nat),
{
    let mut s = String::new();
    let sod = (ms / 1000 + 28800) % 86400;
    push_zero_padded(&mut s, sod / 3600, 2);
    push_char(&mut s, ':');
    push_char(&mut s, '0');
    push_char(&mut s, '0');
    assert(s@ =~= beijing_hour_label_text(ms as nat));
    s
}

/// Short clock label for charts: `21:39` or `21:39:05`, the time field of the
/// full Beijing datetime.
pub fn format_ms_china_time(ms: u64, with_seconds: bool) -> (s: String)
    ensures
        s@ == beijing_clock_text(ms as nat, with_seconds),
{
    let mut s = String::new();
    push_beijing_clock(&mut s, ms, with_seconds);
    assert(s@ =~= beijing_clock_text(ms as nat, with_seconds));
    s
}

} // verus!
