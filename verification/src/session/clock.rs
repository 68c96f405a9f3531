//! The time that recorded frames carry: UTC, as RFC 3339 writes it.

use crate::scan;
use crate::text;
use vstd::prelude::*;

verus! {

/// An outside type: an instant of the system's clock.
#[verifier::external_type_specification]
#[verifier::external_body]
pub struct ExSystemTime(std::time::SystemTime);

/// Reads the system's clock. Nothing is promised of the instant.
pub assume_specification[ std::time::SystemTime::now ]() -> (instant: std::time::SystemTime)
;

/// The whole seconds from the Unix epoch to an instant, and the nanoseconds
/// beyond them. Both are zero for an instant before the epoch.
pub uninterp spec fn unix_instant(instant: std::time::SystemTime) -> (u64, u32);

/// Calls `SystemTime::duration_since` with the Unix epoch and takes the duration
/// apart. A duration has less than a second of nanoseconds.
#[verifier::external_body]
fn unix_parts(instant: std::time::SystemTime) -> (parts: (u64, u32))
    ensures
        parts == unix_instant(instant),
        parts.1 < 1_000_000_000,
{
    let duration = instant.duration_since(std::time::UNIX_EPOCH).unwrap_or_default();
    (duration.as_secs(), duration.subsec_nanos())
}

/// Whether a year has a day more.
pub open spec fn is_leap(year: int) -> bool {
    year % 4 == 0 && (year % 100 != 0 || year % 400 == 0)
}

/// The number of days of a month.
pub open spec fn month_length(year: int, month: int) -> int {
    if month == 2 {
        if is_leap(year) {
            29
        } else {
            28
        }
    } else if month == 4 || month == 6 || month == 9 || month == 11 {
        30
    } else {
        31
    }
}

/// Whether there is such a day in the Gregorian calendar.
pub open spec fn is_date(year: int, month: int, day: int) -> bool {
    1 <= month <= 12 && 1 <= day <= month_length(year, month)
}

/// How many leap years there are from year 1 to `year`.
pub open spec fn leap_years(year: int) -> int {
    year / 4 - year / 100 + year / 400
}

/// The days of a year before the first of a month.
pub open spec fn days_to_month(year: int, month: int) -> int
    decreases month,
{
    if month <= 1 {
        0
    } else {
        days_to_month(year, month - 1) + month_length(year, month - 1)
    }
}

/// The days from 1970-01-01 to a date.
pub open spec fn epoch_days(year: int, month: int, day: int) -> int {
    365 * (year - 1970) + leap_years(year - 1) - leap_years(1969) + days_to_month(year, month)
        + day - 1
}

proof fn lemma_year_of_era(doe: int)
    requires
        0 <= doe < 146_097,
    ensures
        ({
            let yoe = (doe - doe / 1_460 + doe / 36_524 - doe / 146_096) / 365;
            let doy = doe - (365 * yoe + yoe / 4 - yoe / 100);
            0 <= yoe < 400 && 0 <= doy <= 365 && (doy == 365 ==> is_leap(yoe + 1))
        }),
{
    let century = doe / 36_524;
    assert(0 <= century <= 4);
    let doc = doe - century * 36_524;
    assert(0 <= doc < 36_524);
}

/// The month, counted from March, that a day of such a year falls in.
pub open spec fn march_month(doy: int) -> int {
    (5 * doy + 2) / 153
}

proof fn lemma_days_to_month(year: int)
    ensures
        days_to_month(year, 1) == 0,
        days_to_month(year, 2) == 31,
        forall|month: int|
            3 <= month <= 12 ==> #[trigger] days_to_month(year, month) == month_length(year, 2) + 31
                + (153 * (month - 3) + 2) / 5,
{
    reveal_with_fuel(days_to_month, 13);
    let feb = month_length(year, 2);
    assert(days_to_month(year, 3) == feb + 31);
    assert(days_to_month(year, 4) == feb + 62);
    assert(days_to_month(year, 5) == feb + 92);
    assert(days_to_month(year, 6) == feb + 123);
    assert(days_to_month(year, 7) == feb + 153);
    assert(days_to_month(year, 8) == feb + 184);
    assert(days_to_month(year, 9) == feb + 215);
    assert(days_to_month(year, 10) == feb + 245);
    assert(days_to_month(year, 11) == feb + 276);
    assert(days_to_month(year, 12) == feb + 306);
}

proof fn lemma_march_month(doy: int)
    requires
        0 <= doy <= 365,
    ensures
        ({
            let mp = march_month(doy);
            let day = doy - (153 * mp + 2) / 5 + 1;
            &&& 0 <= mp <= 11
            &&& 1 <= day <= 31
            &&& mp == 1 || mp == 3 || mp == 6 || mp == 8 ==> day <= 30
            &&& mp == 11 ==> day <= 29 && (day == 29 ==> doy == 365)
        }),
{
}

proof fn lemma_leap_years(era: int, yoe: int)
    requires
        0 <= yoe < 400,
    ensures
        leap_years(yoe + era * 400) == 97 * era + yoe / 4 - yoe / 100,
        leap_years(yoe + era * 400 - 1) + (if is_leap(yoe + era * 400) {
            1int
        } else {
            0int
        }) == leap_years(yoe + era * 400),
        is_leap(yoe + era * 400 + 1) == is_leap(yoe + 1),
{
    let year = yoe + era * 400;
    assert(year / 4 == 100 * era + yoe / 4);
    assert(year / 100 == 4 * era + yoe / 100);
    assert(year / 400 == era);
    assert(year % 400 == yoe);
    assert((year + 1) % 400 == (yoe + 1) % 400);
    assert((year + 1) % 100 == (yoe + 1) % 100);
    assert((year + 1) % 4 == (yoe + 1) % 4);
    lemma_leap_step(year);
}

proof fn lemma_leap_step(year: int)
    ensures
        leap_years(year - 1) + (if is_leap(year) {
            1int
        } else {
            0int
        }) == leap_years(year),
{
    assert(year / 4 == (year - 1) / 4 + if year % 4 == 0 {
        1int
    } else {
        0int
    });
    assert(year / 100 == (year - 1) / 100 + if year % 100 == 0 {
        1int
    } else {
        0int
    });
    assert(year / 400 == (year - 1) / 400 + if year % 400 == 0 {
        1int
    } else {
        0int
    });
}

/// The year of a day, given its year and month counted from March.
pub open spec fn january_year(spring: int, mp: int) -> int {
    if mp < 10 {
        spring
    } else {
        spring + 1
    }
}

/// The month of a day, given its month counted from March.
pub open spec fn january_month(mp: int) -> int {
    if mp < 10 {
        mp + 3
    } else {
        mp - 9
    }
}

proof fn lemma_march_to_january(era: int, yoe: int, doy: int)
    requires
        0 <= yoe < 400,
        0 <= doy <= 365,
        doy == 365 ==> is_leap(yoe + 1),
    ensures
        ({
            let mp = march_month(doy);
            let day = doy - (153 * mp + 2) / 5 + 1;
            let year = january_year(yoe + era * 400, mp);
            let month = january_month(mp);
            &&& is_date(year, month, day)
            &&& epoch_days(year, month, day) == 146_097 * era + 365 * yoe + yoe / 4 - yoe / 100
                + doy - 719_468
        }),
{
    let mp = march_month(doy);
    let spring = yoe + era * 400;
    lemma_march_month(doy);
    lemma_leap_years(era, yoe);
    lemma_days_to_month(spring);
    lemma_days_to_month(spring + 1);
    assert(leap_years(1969) == 477);
    if mp < 10 {
        assert(days_to_month(spring, mp + 3) == month_length(spring, 2) + 31 + (153 * mp + 2) / 5);
    } else if mp == 10 {
        assert((153 * mp + 2) / 5 == 306);
    } else {
        assert((153 * mp + 2) / 5 == 337);
    }
}

/// The date of the day that is `days_since_epoch` days after 1970-01-01.
pub fn civil_from_days(days_since_epoch: i64) -> (date: (i64, u32, u32))
    requires
        days_since_epoch + 719_468 <= i64::MAX,
    ensures
        is_date(date.0 as int, date.1 as int, date.2 as int),
        epoch_days(date.0 as int, date.1 as int, date.2 as int) == days_since_epoch,
        date.0 > i64::MIN,
{
    let z: i64 = days_since_epoch + 719_468;
    let era: i64 = if z >= 0 {
        z / 146_097
    } else {
        -1 - (-1 - z) / 146_097
    };
    let doe: i64 = z - era * 146_097;
    proof {
        lemma_year_of_era(doe as int);
    }
    let yoe: i64 = (doe - doe / 1_460 + doe / 36_524 - doe / 146_096) / 365;
    let doy: i64 = doe - (365 * yoe + yoe / 4 - yoe / 100);
    proof {
        lemma_march_month(doy as int);
        lemma_march_to_january(era as int, yoe as int, doy as int);
    }
    let mp: i64 = (5 * doy + 2) / 153;
    let day: i64 = doy - (153 * mp + 2) / 5 + 1;
    let month: i64 = if mp < 10 {
        mp + 3
    } else {
        mp - 9
    };
    let year: i64 = yoe + era * 400;
    if month <= 2 {
        (year + 1, month as u32, day as u32)
    } else {
        (year, month as u32, day as u32)
    }
}

proof fn lemma_leap_years_grow(earlier: int, later: int)
    requires
        earlier <= later,
    ensures
        leap_years(earlier) <= leap_years(later),
    decreases later - earlier,
{
    if earlier < later {
        lemma_leap_years_grow(earlier, later - 1);
        lemma_leap_step(later);
    }
}

proof fn lemma_day_of_year(year: int, month: int, day: int)
    requires
        is_date(year, month, day),
    ensures
        0 <= days_to_month(year, month) + day - 1 < 365 + (if is_leap(year) {
            1int
        } else {
            0int
        }),
{
    lemma_days_to_month(year);
}

proof fn lemma_later_month(year: int, month: int, day: int, month2: int, day2: int)
    requires
        is_date(year, month, day),
        is_date(year, month2, day2),
        month < month2,
    ensures
        days_to_month(year, month) + day < days_to_month(year, month2) + day2,
{
    lemma_days_to_month(year);
    assert(3 <= month2 ==> days_to_month(year, month2) == month_length(year, 2) + 31 + (153 * (
    month2 - 3) + 2) / 5);
    assert(3 <= month ==> days_to_month(year, month) == month_length(year, 2) + 31 + (153 * (month
        - 3) + 2) / 5);
}

proof fn lemma_later_year(year: int, month: int, day: int, year2: int, month2: int, day2: int)
    requires
        is_date(year, month, day),
        is_date(year2, month2, day2),
        year < year2,
    ensures
        epoch_days(year, month, day) < epoch_days(year2, month2, day2),
{
    lemma_day_of_year(year, month, day);
    lemma_day_of_year(year2, month2, day2);
    lemma_leap_step(year);
    lemma_leap_years_grow(year, year2 - 1);
}

/// Two dates that are the same number of days from the epoch are the same
/// date.
pub proof fn law_one_date_per_day(
    year: int,
    month: int,
    day: int,
    year2: int,
    month2: int,
    day2: int,
)
    requires
        is_date(year, month, day),
        is_date(year2, month2, day2),
        epoch_days(year, month, day) == epoch_days(year2, month2, day2),
    ensures
        year == year2 && month == month2 && day == day2,
{
    if year < year2 {
        lemma_later_year(year, month, day, year2, month2, day2);
    } else if year2 < year {
        lemma_later_year(year2, month2, day2, year, month, day);
    } else {
        if month < month2 {
            lemma_later_month(year, month, day, month2, day2);
        } else if month2 < month {
            lemma_later_month(year, month2, day2, month, day);
        }
    }
}

/// A year, with at least four characters.
pub open spec fn year_text(year: int) -> Seq<char> {
    if year < 0 {
        "-"@ + text::padded_of((-year) as nat, 3)
    } else {
        text::padded_of(year as nat, 4)
    }
}

/// A moment of a day of a year, as RFC 3339 writes it.
pub open spec fn timestamp(year: int, month: int, day: int, second: int, nanos: nat) -> Seq<char> {
    year_text(year) + "-"@ + text::padded_of(month as nat, 2) + "-"@ + text::padded_of(
        day as nat,
        2,
    ) + "T"@ + text::padded_of((second / 3_600) as nat, 2) + ":"@ + text::padded_of(
        (second % 3_600 / 60) as nat,
        2,
    ) + ":"@ + text::padded_of((second % 60) as nat, 2) + "."@ + text::padded_of(nanos, 9) + "Z"@
}

/// Whether a text is the timestamp of an instant: seconds, read as a signed
/// number, and nanoseconds from the Unix epoch.
pub open spec fn stamps(text: Seq<char>, seconds: u64, nanos: u32) -> bool {
    let total = seconds as i64;
    exists|year: int, month: int, day: int|
        is_date(year, month, day) && #[trigger] epoch_days(year, month, day) == total as int / 86_400
            && text == timestamp(year, month, day, total as int % 86_400, nanos as nat)
}

/// The timestamp of an instant.
pub fn unix_to_rfc3339_utc(seconds: u64, nanos: u32) -> (text: String)
    ensures
        stamps(text@, seconds, nanos),
{
    let total: i64 = seconds as i64;
    let days: i64 = if total >= 0 {
        total / 86_400
    } else {
        -1 - (-1 - total) / 86_400
    };
    let second: i64 = if total >= 0 {
        total % 86_400
    } else {
        86_399 - (-1 - total) % 86_400
    };
    assert(days == total as int / 86_400 && second == total as int % 86_400);
    let (year, month, day) = civil_from_days(days);
    let mut text = if year < 0 {
        let mut text = "-".to_owned();
        text.append(text::padded((0 - year) as u64, 3).as_str());
        text
    } else {
        text::padded(year as u64, 4)
    };
    text.append("-");
    text.append(text::padded(month as u64, 2).as_str());
    text.append("-");
    text.append(text::padded(day as u64, 2).as_str());
    text.append("T");
    text.append(text::padded((second / 3_600) as u64, 2).as_str());
    text.append(":");
    text.append(text::padded((second % 3_600 / 60) as u64, 2).as_str());
    text.append(":");
    text.append(text::padded((second % 60) as u64, 2).as_str());
    text.append(".");
    text.append(text::padded(nanos as u64, 9).as_str());
    text.append("Z");
    proof {
        assert(epoch_days(year as int, month as int, day as int) == total as int / 86_400);
        assert(text@ =~= timestamp(
            year as int,
            month as int,
            day as int,
            total as int % 86_400,
            nanos as nat,
        ));
    }
    text
}

/// The timestamp of an instant of the system's clock.
pub fn system_time_to_rfc3339_utc(time: std::time::SystemTime) -> (text: String)
    ensures
        stamps(text@, unix_instant(time).0, unix_instant(time).1),
{
    let (seconds, nanos) = unix_parts(time);
    unix_to_rfc3339_utc(seconds, nanos)
}

/// The timestamp of now.
pub fn utc_rfc3339_now() -> (text: String)
    ensures
        exists|seconds: u64, nanos: u32|
            nanos < 1_000_000_000 && #[trigger] stamps(text@, seconds, nanos),
{
    let (seconds, nanos) = unix_parts(std::time::SystemTime::now());
    unix_to_rfc3339_utc(seconds, nanos)
}

/// Days are counted from the first of January 1970, one by one: from a day to the
/// next of its month, from the last of a month to the first of the next, and from
/// the last of a year to the first of the next.
pub proof fn law_days_are_counted_one_by_one(year: int, month: int, day: int)
    requires
        is_date(year, month, day),
    ensures
        epoch_days(1970, 1, 1) == 0,
        epoch_days(year, month, day + 1) == epoch_days(year, month, day) + 1,
        day == month_length(year, month) && month < 12 ==> epoch_days(year, month + 1, 1)
            == epoch_days(year, month, day) + 1,
        day == 31 && month == 12 ==> epoch_days(year + 1, 1, 1) == epoch_days(year, month, day) + 1,
        month == 4 || month == 6 || month == 9 || month == 11 ==> month_length(year, month) == 30,
        month == 2 ==> month_length(year, month) == 28 + (if year % 400 == 0 || (year % 4 == 0
            && year % 100 != 0) {
            1int
        } else {
            0int
        }),
        month == 1 || month == 3 || month == 5 || month == 7 || month == 8 || month == 10 || month
            == 12 ==> month_length(year, month) == 31,
{
    lemma_days_to_month(year);
    lemma_days_to_month(year + 1);
    lemma_leap_step(year);
    if month == 12 {
        assert(days_to_month(year, 12) == month_length(year, 2) + 306);
    }
}

proof fn lemma_width(n: nat, width: nat, bound: nat)
    requires
        n < bound,
        width == 2 && bound == 100 || width == 4 && bound == 10_000 || width == 9 && bound
            == 1_000_000_000,
    ensures
        text::padded_of(n, width).len() == width,
{
    scan::law_number_is_written(n, width);
    lemma_digits_needed(n, width);
}

proof fn lemma_digits_needed(n: nat, width: nat)
    requires
        width == 1 && n < 10 || width == 2 && n < 100 || width == 3 && n < 1_000 || width == 4 && n
            < 10_000 || width == 5 && n < 100_000 || width == 6 && n < 1_000_000 || width == 7 && n
            < 10_000_000 || width == 8 && n < 100_000_000 || width == 9 && n < 1_000_000_000,
    ensures
        text::decimal_of(n).len() <= width,
    decreases width,
{
    if n >= 10 {
        lemma_digits_needed(n / 10, (width - 1) as nat);
    }
}

/// A timestamp of one of the years that have four digits is thirty characters long,
/// and each part of the moment stands at its place: the date, a `T`, the time of day
/// to the nanosecond, and a `Z`.
pub proof fn law_timestamp_is_written_in_place(
    year: int,
    month: int,
    day: int,
    hour: int,
    minute: int,
    second: int,
    nanos: nat,
)
    requires
        0 <= year < 10_000,
        is_date(year, month, day),
        0 <= hour < 24,
        0 <= minute < 60,
        0 <= second < 60,
        nanos < 1_000_000_000,
    ensures
        ({
            let stamp = timestamp(year, month, day, hour * 3_600 + minute * 60 + second, nanos);
            &&& stamp.len() == 30
            &&& scan::value_of(stamp.subrange(0, 4)) == year
            &&& stamp[4] == '-'
            &&& scan::value_of(stamp.subrange(5, 7)) == month
            &&& stamp[7] == '-'
            &&& scan::value_of(stamp.subrange(8, 10)) == day
            &&& stamp[10] == 'T'
            &&& scan::value_of(stamp.subrange(11, 13)) == hour
            &&& stamp[13] == ':'
            &&& scan::value_of(stamp.subrange(14, 16)) == minute
            &&& stamp[16] == ':'
            &&& scan::value_of(stamp.subrange(17, 19)) == second
            &&& stamp[19] == '.'
            &&& scan::value_of(stamp.subrange(20, 29)) == nanos
            &&& stamp[29] == 'Z'
        }),
{
    let moment = hour * 3_600 + minute * 60 + second;
    assert(moment / 3_600 == hour);
    assert(moment % 3_600 == minute * 60 + second);
    assert(moment % 3_600 / 60 == minute);
    assert(moment % 60 == second);
    let y = text::padded_of(year as nat, 4);
    let mo = text::padded_of(month as nat, 2);
    let d = text::padded_of(day as nat, 2);
    let h = text::padded_of(hour as nat, 2);
    let mi = text::padded_of(minute as nat, 2);
    let s = text::padded_of(second as nat, 2);
    let n = text::padded_of(nanos, 9);
    lemma_width(year as nat, 4, 10_000);
    lemma_width(month as nat, 2, 100);
    lemma_width(day as nat, 2, 100);
    lemma_width(hour as nat, 2, 100);
    lemma_width(minute as nat, 2, 100);
    lemma_width(second as nat, 2, 100);
    lemma_width(nanos, 9, 1_000_000_000);
    scan::law_number_is_written(year as nat, 4);
    scan::law_number_is_written(month as nat, 2);
    scan::law_number_is_written(day as nat, 2);
    scan::law_number_is_written(hour as nat, 2);
    scan::law_number_is_written(minute as nat, 2);
    scan::law_number_is_written(second as nat, 2);
    scan::law_number_is_written(nanos, 9);
    reveal_strlit("-");
    reveal_strlit("T");
    reveal_strlit(":");
    reveal_strlit(".");
    reveal_strlit("Z");
    assert("-"@ =~= seq!['-'] && "T"@ =~= seq!['T'] && ":"@ =~= seq![':'] && "."@ =~= seq!['.']
        && "Z"@ =~= seq!['Z']);
    let stamp = timestamp(year, month, day, moment, nanos);
    assert(stamp == y + "-"@ + mo + "-"@ + d + "T"@ + h + ":"@ + mi + ":"@ + s + "."@ + n + "Z"@);
    assert(stamp.subrange(0, 4) =~= y);
    assert(stamp.subrange(5, 7) =~= mo);
    assert(stamp.subrange(8, 10) =~= d);
    assert(stamp.subrange(11, 13) =~= h);
    assert(stamp.subrange(14, 16) =~= mi);
    assert(stamp.subrange(17, 19) =~= s);
    assert(stamp.subrange(20, 29) =~= n);
}

} // verus!
