//! The days of the Gregorian calendar, carried on before its adoption: the date of a day, and how
//! it is written.

use vstd::prelude::*;

use crate::text;

verus! {

/// A day by its year, its month and its number in the month, both counted from one. The year before
/// year one is year zero.
pub struct Date {
    pub year: int,
    pub month: int,
    pub day: int,
}

/// Whether a year has a 29th of February.
pub open spec fn is_leap(year: int) -> bool {
    year % 4 == 0 && (year % 100 != 0 || year % 400 == 0)
}

/// The number of days in a month.
pub open spec fn month_length(year: int, month: int) -> int {
    if month == 2 {
        if is_leap(year) {
            29
        } else {
            28
        }
    } else if month == 4 || month == 6 || month == 9 || month == 11 {
        30
    } else {
        31
    }
}

/// The number of days of a year before one of its months.
pub open spec fn days_before_month(year: int, month: int) -> int
    decreases month,
{
    if month <= 1 {
        0
    } else {
        days_before_month(year, month - 1) + month_length(year, month - 1)
    }
}

/// The number of leap years from year one up to a year.
pub open spec fn leap_years(year: int) -> int {
    year / 4 - year / 100 + year / 400
}

/// The days from the Unix epoch to the start of a year, negative for a year before it.
pub open spec fn days_before_year(year: int) -> int {
    365 * (year - 1970) + leap_years(year - 1) - leap_years(1969)
}

/// Whether the calendar has this date.
pub open spec fn is_date(d: Date) -> bool {
    1 <= d.month <= 12 && 1 <= d.day <= month_length(d.year, d.month)
}

/// The day of a date, counted from the Unix epoch.
pub open spec fn day_number(d: Date) -> int {
    days_before_year(d.year) + days_before_month(d.year, d.month) + d.day - 1
}

/// Whether a date is the one of a day that is counted from the Unix epoch.
pub open spec fn is_date_of(d: Date, day: int) -> bool {
    is_date(d) && day_number(d) == day
}

/// The date of a day that is counted from the Unix epoch.
pub open spec fn date_on(day: int) -> Date {
    choose|d: Date| is_date_of(d, day)
}

// ---------------------------------------------------------------------------
// Texts

/// A number with zeros before it, up to a width.
pub open spec fn zero_padded(n: nat, width: nat) -> Seq<char> {
    let digits = text::decimal(n);
    if digits.len() < width {
        Seq::new((width - digits.len()) as nat, |i: int| '0') + digits
    } else {
        digits
    }
}

/// A year in at least four digits, with its sign where it lies before year zero or has more than
/// four digits.
pub open spec fn year_text(year: int) -> Seq<char> {
    if year < 0 {
        "-"@ + zero_padded((-year) as nat, 4)
    } else if year > 9999 {
        "+"@ + zero_padded(year as nat, 4)
    } else {
        zero_padded(year as nat, 4)
    }
}

/// The short name of a month.
pub open spec fn month_name(month: int) -> Seq<char> {
    if month == 1 {
        "Jan"@
    } else if month == 2 {
        "Feb"@
    } else if month == 3 {
        "Mar"@
    } else if month == 4 {
        "Apr"@
    } else if month == 5 {
        "May"@
    } else if month == 6 {
        "Jun"@
    } else if month == 7 {
        "Jul"@
    } else if month == 8 {
        "Aug"@
    } else if month == 9 {
        "Sep"@
    } else if month == 10 {
        "Oct"@
    } else if month == 11 {
        "Nov"@
    } else {
        "Dec"@
    }
}

/// A date by its numbers, such as "2024-02-29".
pub open spec fn full_date(d: Date) -> Seq<char> {
    year_text(d.year) + "-"@ + zero_padded(d.month as nat, 2) + "-"@ + zero_padded(d.day as nat, 2)
}

/// A date without its year, such as "Feb 29".
pub open spec fn month_and_day(d: Date) -> Seq<char> {
    month_name(d.month) + " "@ + zero_padded(d.day as nat, 2)
}

// ---------------------------------------------------------------------------
// Laws

/// The months of a year have 366 days where it is a leap year, and 365 where it is not.
proof fn lemma_year_length(year: int)
    ensures
        days_before_month(year, 13) == if is_leap(year) {
            366int
        } else {
            365
        },
{
    reveal_with_fuel(days_before_month, 13);
}

/// A leap year adds one to the number of leap years.
proof fn lemma_leap_years(year: int)
    ensures
        leap_years(year) == leap_years(year - 1) + if is_leap(year) {
            1int
        } else {
            0
        },
{
    assert(year / 4 == (year - 1) / 4 + if year % 4 == 0 {
        1int
    } else {
        0
    });
    assert(year / 100 == (year - 1) / 100 + if year % 100 == 0 {
        1int
    } else {
        0
    });
    assert(year / 400 == (year - 1) / 400 + if year % 400 == 0 {
        1int
    } else {
        0
    });
    assert(year % 400 == 0 ==> year % 100 == 0);
    assert(year % 100 == 0 ==> year % 4 == 0);
}

/// The days are counted from the first of January of 1970, and a year takes as many as its months
/// have together: 366 where it is a leap year, and 365 where it is not.
pub proof fn years_follow_each_other(year: int)
    ensures
        days_before_year(1970) == 0,
        days_before_year(year + 1) == days_before_year(year) + days_before_month(year, 13),
        days_before_month(year, 13) == if is_leap(year) {
            366int
        } else {
            365
        },
{
    lemma_year_length(year);
    lemma_leap_years(year);
}

/// The start of a year lies before the start of each later one, by at least the year's length.
proof fn lemma_years_grow(a: int, b: int)
    requires
        a < b,
    ensures
        days_before_year(a) + days_before_month(a, 13) <= days_before_year(b),
    decreases b - a,
{
    years_follow_each_other(b - 1);
    if a < b - 1 {
        lemma_years_grow(a, b - 1);
    } else {
        years_follow_each_other(a);
    }
}

/// The start of a month lies before the start of each later one, by at least the month's length.
proof fn lemma_months_grow(year: int, a: int, b: int)
    requires
        1 <= a < b,
    ensures
        days_before_month(year, a) + month_length(year, a) <= days_before_month(year, b),
    decreases b - a,
{
    if a < b - 1 {
        lemma_months_grow(year, a, b - 1);
    }
}

/// Whether `a` lies before `b`, by the year, then the month, then the day.
pub open spec fn earlier(a: Date, b: Date) -> bool {
    ||| a.year < b.year
    ||| a.year == b.year && a.month < b.month
    ||| a.year == b.year && a.month == b.month && a.day < b.day
}

/// Of two dates, the earlier one by year, month and day has the smaller number.
pub proof fn dates_are_in_order(a: Date, b: Date)
    requires
        is_date(a),
        is_date(b),
    ensures
        earlier(a, b) <==> day_number(a) < day_number(b),
        a == b <==> day_number(a) == day_number(b),
{
    if earlier(a, b) {
        lemma_order(a, b);
    }
    if earlier(b, a) {
        lemma_order(b, a);
    }
}

proof fn lemma_order(a: Date, b: Date)
    requires
        is_date(a),
        is_date(b),
        earlier(a, b),
    ensures
        day_number(a) < day_number(b),
{
    lemma_months_grow(a.year, a.month, 13);
    lemma_starts(b.year, b.month);
    if a.year < b.year {
        lemma_years_grow(a.year, b.year);
    } else if a.month < b.month {
        lemma_months_grow(a.year, a.month, b.month);
    }
}

/// No month starts before its year.
proof fn lemma_starts(year: int, month: int)
    ensures
        days_before_month(year, month) >= 0,
    decreases month,
{
    if month > 1 {
        lemma_starts(year, month - 1);
    }
}

/// The date after a date.
pub open spec fn next_date(d: Date) -> Date {
    if d.day < month_length(d.year, d.month) {
        Date { year: d.year, month: d.month, day: d.day + 1 }
    } else if d.month < 12 {
        Date { year: d.year, month: d.month + 1, day: 1 }
    } else {
        Date { year: d.year + 1, month: 1, day: 1 }
    }
}

/// The date before a date.
pub open spec fn previous_date(d: Date) -> Date {
    if d.day > 1 {
        Date { year: d.year, month: d.month, day: d.day - 1 }
    } else if d.month > 1 {
        Date { year: d.year, month: d.month - 1, day: month_length(d.year, d.month - 1) }
    } else {
        Date { year: d.year - 1, month: 12, day: 31 }
    }
}

/// The next date is the one of the next day, and the previous date the one of the day before.
pub proof fn dates_follow_each_other(d: Date, day: int)
    requires
        is_date_of(d, day),
    ensures
        is_date_of(next_date(d), day + 1),
        is_date_of(previous_date(d), day - 1),
{
    years_follow_each_other(d.year);
    years_follow_each_other(d.year - 1);
    assert(days_before_month(d.year, 13) == days_before_month(d.year, 12) + 31);
    assert(days_before_month(d.year - 1, 13) == days_before_month(d.year - 1, 12) + 31);
    assert(days_before_month(d.year + 1, 1) == 0);
    assert(days_before_month(d.year, d.month + 1) == days_before_month(d.year, d.month)
        + month_length(d.year, d.month));
}

proof fn lemma_day_has_date(day: int)
    ensures
        exists|d: Date| is_date_of(d, day),
    decreases if day < 0 {
        -day
    } else {
        day
    },
{
    if day == 0 {
        years_follow_each_other(1970);
        assert(is_date_of(Date { year: 1970, month: 1, day: 1 }, 0));
    } else if day > 0 {
        lemma_day_has_date(day - 1);
        dates_follow_each_other(date_on(day - 1), day - 1);
    } else {
        lemma_day_has_date(day + 1);
        dates_follow_each_other(date_on(day + 1), day + 1);
    }
}

/// Every day has one date, and no other.
pub proof fn each_day_has_one_date(day: int, d: Date)
    ensures
        is_date_of(date_on(day), day),
        is_date_of(d, day) <==> d == date_on(day),
{
    lemma_day_has_date(day);
    if is_date_of(d, day) {
        dates_are_in_order(d, date_on(day));
    }
}

/// A number is brought up to its width by zeros in front, and by nothing else; one that is wide
/// enough stays as it is. The number that is written is the one that was given.
pub proof fn zeros_fill_up_the_width(n: nat, width: nat, i: int)
    ensures
        text::decimal(n).len() >= width ==> zero_padded(n, width) == text::decimal(n),
        text::decimal(n).len() < width ==> zero_padded(n, width).len() == width,
        ({
            let fill = zero_padded(n, width).len() - text::decimal(n).len();
            &&& fill >= 0
            &&& 0 <= i < fill ==> zero_padded(n, width)[i] == '0'
            &&& zero_padded(n, width).skip(fill) == text::decimal(n)
        }),
{
    let digits = text::decimal(n);
    let fill = zero_padded(n, width).len() - digits.len();
    assert(zero_padded(n, width).skip(fill) =~= digits);
}

proof fn lemma_two_digits(n: nat)
    requires
        n < 100,
    ensures
        zero_padded(n, 2) == seq![text::digit(n / 10), text::digit(n % 10)],
{
    if n < 10 {
        assert(text::digit(0) == '0');
        assert(zero_padded(n, 2) =~= seq![text::digit(0), text::digit(n)]);
    } else {
        assert(text::decimal(n / 10) =~= seq![text::digit(n / 10)]);
        assert(text::decimal(n) =~= seq![text::digit(n / 10), text::digit(n % 10)]);
    }
}

/// The month and the day are written in two digits each, behind a year of four digits where the year
/// has no more, and dashes stand between them. A year before year zero has a minus sign, and one of
/// more than four digits a plus sign.
pub proof fn dates_are_written_by_their_numbers(d: Date)
    requires
        is_date(d),
    ensures
        full_date(d) == year_text(d.year) + seq![
            '-',
            text::digit((d.month / 10) as nat),
            text::digit((d.month % 10) as nat),
            '-',
            text::digit((d.day / 10) as nat),
            text::digit((d.day % 10) as nat),
        ],
        0 <= d.year <= 9999 ==> year_text(d.year) == zero_padded(d.year as nat, 4),
        9999 < d.year ==> year_text(d.year) == seq!['+'] + text::decimal(d.year as nat),
        d.year < 0 ==> year_text(d.year) == seq!['-'] + zero_padded((-d.year) as nat, 4),
        month_and_day(d) == month_name(d.month) + seq![
            ' ',
            text::digit((d.day / 10) as nat),
            text::digit((d.day % 10) as nat),
        ],
{
    reveal_strlit("-");
    reveal_strlit("+");
    reveal_strlit(" ");
    lemma_two_digits(d.month as nat);
    lemma_two_digits(d.day as nat);
    assert(full_date(d) =~= year_text(d.year) + seq![
        '-',
        text::digit((d.month / 10) as nat),
        text::digit((d.month % 10) as nat),
        '-',
        text::digit((d.day / 10) as nat),
        text::digit((d.day % 10) as nat),
    ]);
    assert(month_and_day(d) =~= month_name(d.month) + seq![
        ' ',
        text::digit((d.day / 10) as nat),
        text::digit((d.day % 10) as nat),
    ]);
    assert("-"@ =~= seq!['-']);
    assert("+"@ =~= seq!['+']);
    if 9999 < d.year {
        lemma_wide(d.year as nat);
    }
}

proof fn lemma_wide(n: nat)
    requires
        n > 999,
    ensures
        text::decimal(n).len() >= 4,
{
    reveal_with_fuel(text::decimal, 4);
    text::decimal_denotes(n / 1000);
    assert(n / 10 / 10 / 10 == n / 1000);
    assert(text::decimal(n / 10 / 10 / 10).len() > 0);
}

/// Every month has a name of its own, by which it is known.
pub proof fn months_have_names(a: int, b: int)
    requires
        1 <= a <= 12,
        1 <= b <= 12,
    ensures
        month_name(a) == month_name(b) <==> a == b,
        month_name(a).len() == 3,
        month_name(1) == "Jan"@ && month_name(2) == "Feb"@ && month_name(3) == "Mar"@,
        month_name(4) == "Apr"@ && month_name(5) == "May"@ && month_name(6) == "Jun"@,
        month_name(7) == "Jul"@ && month_name(8) == "Aug"@ && month_name(9) == "Sep"@,
        month_name(10) == "Oct"@ && month_name(11) == "Nov"@ && month_name(12) == "Dec"@,
{
    reveal_strlit("Jan");
    reveal_strlit("Feb");
    reveal_strlit("Mar");
    reveal_strlit("Apr");
    reveal_strlit("May");
    reveal_strlit("Jun");
    reveal_strlit("Jul");
    reveal_strlit("Aug");
    reveal_strlit("Sep");
    reveal_strlit("Oct");
    reveal_strlit("Nov");
    reveal_strlit("Dec");
    let (x, y) = (month_name(a), month_name(b));
    assert(x == y ==> x[0] == y[0] && x[1] == y[1] && x[2] == y[2]);
}

/// The months have thirty or thirty-one days, by turns up to July and from August on, but that
/// February has twenty-eight, and twenty-nine in a leap year: every fourth, without those that close
/// a century, unless they close four.
pub proof fn months_have_their_lengths(year: int)
    ensures
        month_length(year, 1) == 31 && month_length(year, 3) == 31 && month_length(year, 5) == 31,
        month_length(year, 7) == 31 && month_length(year, 8) == 31 && month_length(year, 10) == 31,
        month_length(year, 12) == 31 && month_length(year, 4) == 30 && month_length(year, 6) == 30,
        month_length(year, 9) == 30 && month_length(year, 11) == 30,
        month_length(year, 2) == 28 || month_length(year, 2) == 29,
        month_length(year, 2) == 29 <==> is_leap(year),
        year % 4 != 0 ==> !is_leap(year),
        year % 4 == 0 && year % 100 != 0 ==> is_leap(year),
        year % 100 == 0 ==> (is_leap(year) <==> year % 400 == 0),
{
    assert(year % 100 == 0 ==> year % 4 == 0);
}

} // verus!
