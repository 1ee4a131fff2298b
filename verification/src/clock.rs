//! Moments in civil time, and the files of a run that are named after one.

use crate::text;
use vstd::prelude::*;

verus! {

// ---------------------------------------------------------------------------
// Moments
// ---------------------------------------------------------------------------

/// A second of civil time.
#[derive(Clone, Copy, Debug, PartialEq, Eq, Structural)]
pub struct Moment {
    /// The year, with the year before the first counted as zero.
    pub year: i32,
    /// The month, from one.
    pub month: u32,
    /// The day of the month, from one.
    pub day: u32,
    /// The hour, from zero.
    pub hour: u32,
    /// The minute, from zero.
    pub minute: u32,
    /// The second, from zero.
    pub second: u32,
}

/// Whether the year has a 29th of February.
pub open spec fn is_leap(year: int) -> bool {
    year % 4 == 0 && (year % 100 != 0 || year % 400 == 0)
}

/// How many days a month has.
pub open spec fn days_in_month(year: int, month: int) -> int {
    if month == 2 {
        if is_leap(year) {
            29
        } else {
            28
        }
    } else if month == 4 || month == 6 || month == 9 || month == 11 {
        30
    } else {
        31
    }
}

impl Moment {
    /// The calendar has this moment, and its year is not too far away.
    pub open spec fn valid(self) -> bool {
        &&& -262143 <= self.year <= 262142
        &&& 1 <= self.month <= 12
        &&& 1 <= self.day <= days_in_month(self.year as int, self.month as int)
        &&& self.hour < 24
        &&& self.minute < 60
        &&& self.second < 60
    }

    /// Whether the calendar has this moment, and its year is not too far away.
    pub fn check(&self) -> (ok: bool)
        ensures
            ok == self.valid(),
    {
        if self.year < -262143 || self.year > 262142 || self.month < 1 || self.month > 12 {
            return false;
        }
        // Shifted by a whole number of leap cycles, the year is positive and as long as before.
        let shifted: u32 = (self.year + 400000) as u32;
        let leap = shifted % 4 == 0 && (shifted % 100 != 0 || shifted % 400 == 0);
        assert(leap == is_leap(self.year as int));
        let days: u32 = match self.month {
            2 => if leap {
                29
            } else {
                28
            },
            4 => 30,
            6 => 30,
            9 => 30,
            11 => 30,
            _ => 31,
        };
        self.day >= 1 && self.day <= days && self.hour < 24 && self.minute < 60 && self.second < 60
    }
}

// ---------------------------------------------------------------------------
// Notation
// ---------------------------------------------------------------------------

/// `n` in decimal notation with leading zeros up to `width` digits.
#[verifier::opaque]
pub open spec fn zero_padded(n: nat, width: nat) -> Seq<char> {
    let digits = text::decimal(n);
    if digits.len() >= width {
        digits
    } else {
        text::repeated("0"@, (width - digits.len()) as nat) + digits
    }
}

/// A year: four digits, and before those a sign where the year is not one of four digits.
pub open spec fn year_text(year: int) -> Seq<char> {
    if 0 <= year <= 9999 {
        zero_padded(year as nat, 4)
    } else if year < 0 {
        "-"@ + zero_padded((-year) as nat, 4)
    } else {
        "+"@ + zero_padded(year as nat, 4)
    }
}

/// What the letter after a percent sign stands for.
pub open spec fn field(letter: char, moment: Moment) -> Seq<char> {
    if letter == 'Y' {
        year_text(moment.year as int)
    } else if letter == 'm' {
        zero_padded(moment.month as nat, 2)
    } else if letter == 'd' {
        zero_padded(moment.day as nat, 2)
    } else if letter == 'H' {
        zero_padded(moment.hour as nat, 2)
    } else if letter == 'M' {
        zero_padded(moment.minute as nat, 2)
    } else {
        zero_padded(moment.second as nat, 2)
    }
}

/// From place `i` on, each percent sign of the pattern stands before one of the letters `Y`, `m`,
/// `d`, `H`, `M`, `S`.
pub open spec fn is_pattern(pattern: Seq<char>, i: int) -> bool
    decreases pattern.len() - i,
{
    if i >= pattern.len() {
        true
    } else if pattern[i] == '%' {
        &&& i + 1 < pattern.len()
        &&& (pattern[i + 1] == 'Y' || pattern[i + 1] == 'm' || pattern[i + 1] == 'd'
            || pattern[i + 1] == 'H' || pattern[i + 1] == 'M' || pattern[i + 1] == 'S')
        &&& is_pattern(pattern, i + 2)
    } else {
        is_pattern(pattern, i + 1)
    }
}

/// The pattern from place `i` on, with its fields filled in.
pub open spec fn filled_in(pattern: Seq<char>, i: int, moment: Moment) -> Seq<char>
    decreases pattern.len() - i,
{
    if i >= pattern.len() {
        Seq::empty()
    } else if pattern[i] == '%' && i + 1 < pattern.len() {
        field(pattern[i + 1], moment) + filled_in(pattern, i + 2, moment)
    } else {
        seq![pattern[i]] + filled_in(pattern, i + 1, moment)
    }
}

/// The pattern with the fields of a moment filled in.
///
/// Trusted: `NaiveDateTime::format` of `chrono`, whose result is turned into a string; the moment
/// is first made into a `NaiveDateTime` by `NaiveDate::from_ymd_opt` and `NaiveDate::and_hms_opt`,
/// which succeed on every valid moment. Claimed of it, for patterns with no other fields than the
/// six that stand for year, month, day, hour, minute and second: each field is replaced by its
/// number with leading zeros, and everything else is kept.
#[verifier::external_body]
fn format_moment(moment: &Moment, pattern: &str) -> (s: String)
    requires
        moment.valid(),
        is_pattern(pattern@, 0),
    ensures
        s@ == filled_in(pattern@, 0, *moment),
{
    chrono::NaiveDate::from_ymd_opt(moment.year, moment.month, moment.day)
        .unwrap()
        .and_hms_opt(moment.hour, moment.minute, moment.second)
        .unwrap()
        .format(pattern)
        .to_string()
}

/// The stamp of a moment: its date, an underscore and its time.
pub open spec fn stamp(moment: Moment) -> Seq<char> {
    year_text(moment.year as int) + zero_padded(moment.month as nat, 2) + zero_padded(
        moment.day as nat,
        2,
    ) + "_"@ + zero_padded(moment.hour as nat, 2) + zero_padded(moment.minute as nat, 2)
        + zero_padded(moment.second as nat, 2)
}

/// A moment as people write it: its date, a space and its time.
pub open spec fn readable(moment: Moment) -> Seq<char> {
    year_text(moment.year as int) + "-"@ + zero_padded(moment.month as nat, 2) + "-"@ + zero_padded(
        moment.day as nat,
        2,
    ) + " "@ + zero_padded(moment.hour as nat, 2) + ":"@ + zero_padded(moment.minute as nat, 2)
        + ":"@ + zero_padded(moment.second as nat, 2)
}

/// Concatenation may be grouped either way.
proof fn regroup(a: Seq<char>, b: Seq<char>, c: Seq<char>)
    ensures
        a + (b + c) == a + b + c,
{
    assert(a + (b + c) =~= a + b + c);
}

/// The pattern of the stamp, filled in.
proof fn stamp_fills_pattern(m: Moment)
    ensures
        is_pattern("%Y%m%d_%H%M%S"@, 0),
        filled_in("%Y%m%d_%H%M%S"@, 0, m) == stamp(m),
{
    reveal_strlit("%Y%m%d_%H%M%S");
    reveal_strlit("_");
    let p = "%Y%m%d_%H%M%S"@;
    assert(is_pattern(p, 13));
    assert(p[11] == '%' && p[12] == 'S');
    assert(is_pattern(p, 11));
    assert(p[9] == '%' && p[10] == 'M');
    assert(is_pattern(p, 9));
    assert(p[7] == '%' && p[8] == 'H');
    assert(is_pattern(p, 7));
    assert(p[6] == '_');
    assert(is_pattern(p, 6));
    assert(p[4] == '%' && p[5] == 'd');
    assert(is_pattern(p, 4));
    assert(p[2] == '%' && p[3] == 'm');
    assert(is_pattern(p, 2));
    assert(p[0] == '%' && p[1] == 'Y');
    assert(is_pattern(p, 0));
    let all = filled_in(p, 0, m);
    assert(filled_in(p, 0, m) == year_text(m.year as int) + filled_in(p, 2, m));
    let t0 = year_text(m.year as int);
    assert(all == t0 + filled_in(p, 2, m));
    assert(filled_in(p, 2, m) == zero_padded(m.month as nat, 2) + filled_in(p, 4, m));
    regroup(t0, zero_padded(m.month as nat, 2), filled_in(p, 4, m));
    let t1 = t0 + zero_padded(m.month as nat, 2);
    assert(all == t1 + filled_in(p, 4, m));
    assert(filled_in(p, 4, m) == zero_padded(m.day as nat, 2) + filled_in(p, 6, m));
    regroup(t1, zero_padded(m.day as nat, 2), filled_in(p, 6, m));
    let t2 = t1 + zero_padded(m.day as nat, 2);
    assert(all == t2 + filled_in(p, 6, m));
    assert(seq!['_'] =~= "_"@);
    assert(filled_in(p, 6, m) == "_"@ + filled_in(p, 7, m));
    regroup(t2, "_"@, filled_in(p, 7, m));
    let t3 = t2 + "_"@;
    assert(all == t3 + filled_in(p, 7, m));
    assert(filled_in(p, 7, m) == zero_padded(m.hour as nat, 2) + filled_in(p, 9, m));
    regroup(t3, zero_padded(m.hour as nat, 2), filled_in(p, 9, m));
    let t4 = t3 + zero_padded(m.hour as nat, 2);
    assert(all == t4 + filled_in(p, 9, m));
    assert(filled_in(p, 9, m) == zero_padded(m.minute as nat, 2) + filled_in(p, 11, m));
    regroup(t4, zero_padded(m.minute as nat, 2), filled_in(p, 11, m));
    let t5 = t4 + zero_padded(m.minute as nat, 2);
    assert(all == t5 + filled_in(p, 11, m));
    assert(filled_in(p, 11, m) == zero_padded(m.second as nat, 2) + filled_in(p, 13, m));
    regroup(t5, zero_padded(m.second as nat, 2), filled_in(p, 13, m));
    let t6 = t5 + zero_padded(m.second as nat, 2);
    assert(all == t6 + filled_in(p, 13, m));
    assert(filled_in(p, 13, m) == Seq::<char>::empty());
    assert(all =~= t6);
}

/// The pattern of the readable notation, filled in.
proof fn readable_fills_pattern(m: Moment)
    ensures
        is_pattern("%Y-%m-%d %H:%M:%S"@, 0),
        filled_in("%Y-%m-%d %H:%M:%S"@, 0, m) == readable(m),
{
    reveal_strlit("%Y-%m-%d %H:%M:%S");
    reveal_strlit(" ");
    reveal_strlit("-");
    reveal_strlit(":");
    let p = "%Y-%m-%d %H:%M:%S"@;
    assert(is_pattern(p, 17));
    assert(p[15] == '%' && p[16] == 'S');
    assert(is_pattern(p, 15));
    assert(p[14] == ':');
    assert(is_pattern(p, 14));
    assert(p[12] == '%' && p[13] == 'M');
    assert(is_pattern(p, 12));
    assert(p[11] == ':');
    assert(is_pattern(p, 11));
    assert(p[9] == '%' && p[10] == 'H');
    assert(is_pattern(p, 9));
    assert(p[8] == ' ');
    assert(is_pattern(p, 8));
    assert(p[6] == '%' && p[7] == 'd');
    assert(is_pattern(p, 6));
    assert(p[5] == '-');
    assert(is_pattern(p, 5));
    assert(p[3] == '%' && p[4] == 'm');
    assert(is_pattern(p, 3));
    assert(p[2] == '-');
    assert(is_pattern(p, 2));
    assert(p[0] == '%' && p[1] == 'Y');
    assert(is_pattern(p, 0));
    let all = filled_in(p, 0, m);
    assert(filled_in(p, 0, m) == year_text(m.year as int) + filled_in(p, 2, m));
    let t0 = year_text(m.year as int);
    assert(all == t0 + filled_in(p, 2, m));
    assert(seq!['-'] =~= "-"@);
    assert(filled_in(p, 2, m) == "-"@ + filled_in(p, 3, m));
    regroup(t0, "-"@, filled_in(p, 3, m));
    let t1 = t0 + "-"@;
    assert(all == t1 + filled_in(p, 3, m));
    assert(filled_in(p, 3, m) == zero_padded(m.month as nat, 2) + filled_in(p, 5, m));
    regroup(t1, zero_padded(m.month as nat, 2), filled_in(p, 5, m));
    let t2 = t1 + zero_padded(m.month as nat, 2);
    assert(all == t2 + filled_in(p, 5, m));
    assert(seq!['-'] =~= "-"@);
    assert(filled_in(p, 5, m) == "-"@ + filled_in(p, 6, m));
    regroup(t2, "-"@, filled_in(p, 6, m));
    let t3 = t2 + "-"@;
    assert(all == t3 + filled_in(p, 6, m));
    assert(filled_in(p, 6, m) == zero_padded(m.day as nat, 2) + filled_in(p, 8, m));
    regroup(t3, zero_padded(m.day as nat, 2), filled_in(p, 8, m));
    let t4 = t3 + zero_padded(m.day as nat, 2);
    assert(all == t4 + filled_in(p, 8, m));
    assert(seq![' '] =~= " "@);
    assert(filled_in(p, 8, m) == " "@ + filled_in(p, 9, m));
    regroup(t4, " "@, filled_in(p, 9, m));
    let t5 = t4 + " "@;
    assert(all == t5 + filled_in(p, 9, m));
    assert(filled_in(p, 9, m) == zero_padded(m.hour as nat, 2) + filled_in(p, 11, m));
    regroup(t5, zero_padded(m.hour as nat, 2), filled_in(p, 11, m));
    let t6 = t5 + zero_padded(m.hour as nat, 2);
    assert(all == t6 + filled_in(p, 11, m));
    assert(seq![':'] =~= ":"@);
    assert(filled_in(p, 11, m) == ":"@ + filled_in(p, 12, m));
    regroup(t6, ":"@, filled_in(p, 12, m));
    let t7 = t6 + ":"@;
    assert(all == t7 + filled_in(p, 12, m));
    assert(filled_in(p, 12, m) == zero_padded(m.minute as nat, 2) + filled_in(p, 14, m));
    regroup(t7, zero_padded(m.minute as nat, 2), filled_in(p, 14, m));
    let t8 = t7 + zero_padded(m.minute as nat, 2);
    assert(all == t8 + filled_in(p, 14, m));
    assert(seq![':'] =~= ":"@);
    assert(filled_in(p, 14, m) == ":"@ + filled_in(p, 15, m));
    regroup(t8, ":"@, filled_in(p, 15, m));
    let t9 = t8 + ":"@;
    assert(all == t9 + filled_in(p, 15, m));
    assert(filled_in(p, 15, m) == zero_padded(m.second as nat, 2) + filled_in(p, 17, m));
    regroup(t9, zero_padded(m.second as nat, 2), filled_in(p, 17, m));
    let t10 = t9 + zero_padded(m.second as nat, 2);
    assert(all == t10 + filled_in(p, 17, m));
    assert(filled_in(p, 17, m) == Seq::<char>::empty());
    assert(all =~= t10);
}

/// The stamp of a moment, by which the files of a run are named.
pub fn run_stamp(moment: &Moment) -> (s: String)
    requires
        moment.valid(),
    ensures
        s@ == stamp(*moment),
{
    proof {
        stamp_fills_pattern(*moment);
    }
    format_moment(moment, "%Y%m%d_%H%M%S")
}

/// A moment as people write it.
pub fn readable_moment(moment: &Moment) -> (s: String)
    requires
        moment.valid(),
    ensures
        s@ == readable(*moment),
{
    proof {
        readable_fills_pattern(*moment);
    }
    format_moment(moment, "%Y-%m-%d %H:%M:%S")
}

// ---------------------------------------------------------------------------
// Files of a run
// ---------------------------------------------------------------------------

/// The names of the files that a run leaves.
#[derive(Debug)]
pub struct RunFiles {
    /// The raw data.
    pub csv: String,
    /// The summary in Markdown.
    pub summary: String,
    /// The page of charts.
    pub charts: String,
    /// The tables in plain text.
    pub ascii: String,
}

/// The names of the files of a run with this stamp.
pub fn run_files(stamp: &str) -> (files: RunFiles)
    ensures
        files.csv@ == "benchmark_"@ + stamp@ + ".csv"@,
        files.summary@ == "summary_"@ + stamp@ + ".md"@,
        files.charts@ == "charts_"@ + stamp@ + ".html"@,
        files.ascii@ == "ascii_"@ + stamp@ + ".txt"@,
{
    let mut csv = String::from_str("benchmark_");
    csv.append(stamp);
    csv.append(".csv");
    let mut summary = String::from_str("summary_");
    summary.append(stamp);
    summary.append(".md");
    let mut charts = String::from_str("charts_");
    charts.append(stamp);
    charts.append(".html");
    let mut ascii = String::from_str("ascii_");
    ascii.append(stamp);
    ascii.append(".txt");
    RunFiles { csv, summary, charts, ascii }
}

// ---------------------------------------------------------------------------
// Laws
// ---------------------------------------------------------------------------

/// A number below a hundred takes two digits.
proof fn two_digits(n: nat)
    requires
        n < 100,
    ensures
        zero_padded(n, 2) == seq![text::digit(n / 10), text::digit(n % 10)],
{
    reveal(zero_padded);
    reveal_strlit("0");
    reveal_with_fuel(text::decimal, 2);
    reveal_with_fuel(text::repeated, 2);
    assert(zero_padded(n, 2) =~= seq![text::digit(n / 10), text::digit(n % 10)]);
}

/// A number below ten thousand takes four digits.
proof fn four_digits(n: nat)
    requires
        n < 10000,
    ensures
        zero_padded(n, 4) == seq![
            text::digit(n / 1000),
            text::digit(n / 100 % 10),
            text::digit(n / 10 % 10),
            text::digit(n % 10),
        ],
{
    reveal(zero_padded);
    reveal_strlit("0");
    reveal_with_fuel(text::decimal, 4);
    reveal_with_fuel(text::repeated, 4);
    assert(zero_padded(n, 4) =~= seq![
        text::digit(n / 1000),
        text::digit(n / 100 % 10),
        text::digit(n / 10 % 10),
        text::digit(n % 10),
    ]);
}

/// The stamp of a moment in a year of four digits, character by character.
proof fn stamp_spelled_out(m: Moment)
    requires
        m.valid(),
        0 <= m.year <= 9999,
    ensures
        stamp(m) == seq![
            text::digit(m.year as nat / 1000),
            text::digit(m.year as nat / 100 % 10),
            text::digit(m.year as nat / 10 % 10),
            text::digit(m.year as nat % 10),
            text::digit(m.month as nat / 10),
            text::digit(m.month as nat % 10),
            text::digit(m.day as nat / 10),
            text::digit(m.day as nat % 10),
            '_',
            text::digit(m.hour as nat / 10),
            text::digit(m.hour as nat % 10),
            text::digit(m.minute as nat / 10),
            text::digit(m.minute as nat % 10),
            text::digit(m.second as nat / 10),
            text::digit(m.second as nat % 10),
        ],
{
    reveal_strlit("_");
    four_digits(m.year as nat);
    two_digits(m.month as nat);
    two_digits(m.day as nat);
    two_digits(m.hour as nat);
    two_digits(m.minute as nat);
    two_digits(m.second as nat);
}

/// The stamp of a moment in a year of four digits has eight digits, an underscore and six digits.
pub proof fn stamp_shape(m: Moment)
    requires
        m.valid(),
        0 <= m.year <= 9999,
    ensures
        stamp(m).len() == 15,
        stamp(m)[8] == '_',
        forall|i: int| 0 <= i < 15 && i != 8 ==> text::is_digit(#[trigger] stamp(m)[i]),
{
    stamp_spelled_out(m);
}

/// Digits tell apart the numbers that they stand for.
proof fn digits_differ(a: nat, b: nat)
    requires
        a < 10,
        b < 10,
        text::digit(a) == text::digit(b),
    ensures
        a == b,
{
}

/// Two digits tell apart the numbers below a hundred.
proof fn pairs_differ(a: nat, b: nat)
    requires
        a < 100,
        b < 100,
        text::digit(a / 10) == text::digit(b / 10),
        text::digit(a % 10) == text::digit(b % 10),
    ensures
        a == b,
{
    digits_differ(a / 10, b / 10);
    digits_differ(a % 10, b % 10);
}

/// No two moments in years of four digits have the same stamp, so runs that start in different
/// seconds leave different files.
pub proof fn stamps_differ(a: Moment, b: Moment)
    requires
        a.valid(),
        b.valid(),
        0 <= a.year <= 9999,
        0 <= b.year <= 9999,
    ensures
        stamp(a) == stamp(b) <==> a == b,
{
    if stamp(a) == stamp(b) {
        stamp_spelled_out(a);
        stamp_spelled_out(b);
        let (s, t) = (stamp(a), stamp(b));
        assert(s[0] == t[0] && s[1] == t[1] && s[2] == t[2] && s[3] == t[3]);
        assert(s[4] == t[4] && s[5] == t[5] && s[6] == t[6] && s[7] == t[7]);
        assert(s[9] == t[9] && s[10] == t[10] && s[11] == t[11] && s[12] == t[12]);
        assert(s[13] == t[13] && s[14] == t[14]);
        let (x, y) = (a.year as nat, b.year as nat);
        digits_differ(x / 1000, y / 1000);
        digits_differ(x / 100 % 10, y / 100 % 10);
        digits_differ(x / 10 % 10, y / 10 % 10);
        digits_differ(x % 10, y % 10);
        pairs_differ(a.month as nat, b.month as nat);
        pairs_differ(a.day as nat, b.day as nat);
        pairs_differ(a.hour as nat, b.hour as nat);
        pairs_differ(a.minute as nat, b.minute as nat);
        pairs_differ(a.second as nat, b.second as nat);
    }
}

/// Leap years come every fourth year, but not every hundredth unless it is a four hundredth; four
/// hundred years on the calendar is the same.
pub proof fn leap_years_follow_the_calendar(year: int)
    ensures
        year % 400 == 0 ==> is_leap(year),
        year % 100 == 0 && year % 400 != 0 ==> !is_leap(year),
        year % 4 == 0 && year % 100 != 0 ==> is_leap(year),
        year % 4 != 0 ==> !is_leap(year),
        is_leap(year + 400) == is_leap(year),
{
}

/// A month has thirty-one days if it is odd up to July or even from August on, and thirty
/// otherwise, but February has twenty-nine in a leap year and twenty-eight in others.
pub proof fn months_have_their_days(year: int, month: int)
    requires
        1 <= month <= 12,
    ensures
        month == 2 && is_leap(year) ==> days_in_month(year, month) == 29,
        month == 2 && !is_leap(year) ==> days_in_month(year, month) == 28,
        month != 2 && month <= 7 ==> days_in_month(year, month) == 30 + month % 2,
        month >= 8 ==> days_in_month(year, month) == 31 - month % 2,
{
}

/// A moment is valid exactly where its month, day, hour, minute and second are within their bounds
/// and its year within that of the calendar.
pub proof fn moments_are_valid_within_bounds(m: Moment)
    ensures
        m.valid() <==> -262143 <= m.year <= 262142 && 1 <= m.month <= 12 && 1 <= m.day
            <= days_in_month(m.year as int, m.month as int) && m.hour <= 23 && m.minute <= 59
            && m.second <= 59,
{
}

/// Leading zeros do not change what is denoted, and bring a number to the width asked for.
pub proof fn zero_padded_reads_back(n: nat, width: nat)
    ensures
        zero_padded(n, width).len() >= width,
        zero_padded(n, width).len() > width ==> zero_padded(n, width) == text::decimal(n),
        forall|i: int|
            0 <= i < zero_padded(n, width).len() ==> text::is_digit(
                #[trigger] zero_padded(n, width)[i],
            ),
        text::digits_value(zero_padded(n, width)) == n,
{
    reveal(zero_padded);
    reveal_strlit("0");
    text::decimal_reads_back(n);
    let digits = text::decimal(n);
    if digits.len() < width {
        let gap = (width - digits.len()) as nat;
        let zeros = text::repeated("0"@, gap);
        text::repeated_len("0"@, gap);
        assert forall|i: int| 0 <= i < gap implies #[trigger] zeros[i] == '0' by {
            text::repeated_holds_copies("0"@, gap, i);
        }
        zeros_denote_nothing(zeros);
        text::digits_denote_by_place(zeros, digits, '0');
        assert(0 * vstd::arithmetic::power::pow(10, digits.len()) == 0) by (nonlinear_arith);
        let whole = zero_padded(n, width);
        assert(whole == zeros + digits);
        assert forall|i: int| 0 <= i < whole.len() implies text::is_digit(#[trigger] whole[i]) by {
            if i < gap {
                assert(whole[i] == zeros[i]);
            } else {
                assert(whole[i] == digits[i - gap]);
            }
        }
    }
}

/// Zeros alone denote zero.
proof fn zeros_denote_nothing(zeros: Seq<char>)
    requires
        forall|i: int| 0 <= i < zeros.len() ==> #[trigger] zeros[i] == '0',
    ensures
        text::digits_value(zeros) == 0,
    decreases zeros.len(),
{
    if zeros.len() > 0 {
        let front = zeros.drop_last();
        assert forall|i: int| 0 <= i < front.len() implies #[trigger] front[i] == '0' by {
            assert(front[i] == zeros[i]);
        }
        zeros_denote_nothing(front);
        assert(zeros[zeros.len() - 1] == '0');
    }
}

/// A year is written with at least four digits, which denote it; a sign stands before them exactly
/// where it is before the year zero or takes more than four.
pub proof fn year_text_reads_back(year: int)
    ensures
        year_text(year).len() >= 4,
        0 <= year <= 9999 ==> text::is_digit(year_text(year)[0]) && text::digits_value(
            year_text(year),
        ) == year,
        year < 0 ==> year_text(year)[0] == '-' && year_text(year).len() >= 5 && text::digits_value(
            year_text(year).skip(1),
        ) == -year,
        year > 9999 ==> year_text(year)[0] == '+' && text::digits_value(year_text(year).skip(1))
            == year,
{
    reveal_strlit("-");
    reveal_strlit("+");
    let n: nat = if year < 0 {
        (-year) as nat
    } else {
        year as nat
    };
    zero_padded_reads_back(n, 4);
    let digits = zero_padded(n, 4);
    if year < 0 || year > 9999 {
        assert(year_text(year).skip(1) =~= digits);
    } else {
        assert(text::is_digit(digits[0]));
    }
}

/// The digits of a stamp, counted from its end, denote the second, minute, hour, day and month, and
/// what stands before them is the year.
pub proof fn stamp_tells_the_moment(m: Moment)
    requires
        m.valid(),
    ensures
        ({
            let s = stamp(m);
            let n = s.len() as int;
            &&& n >= 15
            &&& s.take(n - 11) == year_text(m.year as int)
            &&& text::digits_value(s.subrange(n - 11, n - 9)) == m.month
            &&& text::digits_value(s.subrange(n - 9, n - 7)) == m.day
            &&& s[n - 7] == '_'
            &&& text::digits_value(s.subrange(n - 6, n - 4)) == m.hour
            &&& text::digits_value(s.subrange(n - 4, n - 2)) == m.minute
            &&& text::digits_value(s.subrange(n - 2, n)) == m.second
        }),
{
    reveal_strlit("_");
    let y = year_text(m.year as int);
    year_text_reads_back(m.year as int);
    let (a, b, c, d, e) = (
        zero_padded(m.month as nat, 2),
        zero_padded(m.day as nat, 2),
        zero_padded(m.hour as nat, 2),
        zero_padded(m.minute as nat, 2),
        zero_padded(m.second as nat, 2),
    );
    two_digits(m.month as nat);
    two_digits(m.day as nat);
    two_digits(m.hour as nat);
    two_digits(m.minute as nat);
    two_digits(m.second as nat);
    zero_padded_reads_back(m.month as nat, 2);
    zero_padded_reads_back(m.day as nat, 2);
    zero_padded_reads_back(m.hour as nat, 2);
    zero_padded_reads_back(m.minute as nat, 2);
    zero_padded_reads_back(m.second as nat, 2);
    let s = stamp(m);
    let n = s.len() as int;
    assert(n == y.len() + 11);
    assert(s.take(n - 11) =~= y);
    assert(s.subrange(n - 11, n - 9) =~= a);
    assert(s.subrange(n - 9, n - 7) =~= b);
    assert(s.subrange(n - 6, n - 4) =~= c);
    assert(s.subrange(n - 4, n - 2) =~= d);
    assert(s.subrange(n - 2, n) =~= e);
}

/// So do those of the readable notation, between their separators.
pub proof fn readable_tells_the_moment(m: Moment)
    requires
        m.valid(),
    ensures
        ({
            let s = readable(m);
            let n = s.len() as int;
            &&& n >= 19
            &&& s.take(n - 15) == year_text(m.year as int)
            &&& s[n - 15] == '-'
            &&& text::digits_value(s.subrange(n - 14, n - 12)) == m.month
            &&& s[n - 12] == '-'
            &&& text::digits_value(s.subrange(n - 11, n - 9)) == m.day
            &&& s[n - 9] == ' '
            &&& text::digits_value(s.subrange(n - 8, n - 6)) == m.hour
            &&& s[n - 6] == ':'
            &&& text::digits_value(s.subrange(n - 5, n - 3)) == m.minute
            &&& s[n - 3] == ':'
            &&& text::digits_value(s.subrange(n - 2, n)) == m.second
        }),
{
    reveal_strlit("-");
    reveal_strlit(" ");
    reveal_strlit(":");
    let y = year_text(m.year as int);
    year_text_reads_back(m.year as int);
    let (a, b, c, d, e) = (
        zero_padded(m.month as nat, 2),
        zero_padded(m.day as nat, 2),
        zero_padded(m.hour as nat, 2),
        zero_padded(m.minute as nat, 2),
        zero_padded(m.second as nat, 2),
    );
    two_digits(m.month as nat);
    two_digits(m.day as nat);
    two_digits(m.hour as nat);
    two_digits(m.minute as nat);
    two_digits(m.second as nat);
    zero_padded_reads_back(m.month as nat, 2);
    zero_padded_reads_back(m.day as nat, 2);
    zero_padded_reads_back(m.hour as nat, 2);
    zero_padded_reads_back(m.minute as nat, 2);
    zero_padded_reads_back(m.second as nat, 2);
    let s = readable(m);
    let n = s.len() as int;
    assert(n == y.len() + 15);
    assert(s.take(n - 15) =~= y);
    assert(s.subrange(n - 14, n - 12) =~= a);
    assert(s.subrange(n - 11, n - 9) =~= b);
    assert(s.subrange(n - 8, n - 6) =~= c);
    assert(s.subrange(n - 5, n - 3) =~= d);
    assert(s.subrange(n - 2, n) =~= e);
}

} // verus!
