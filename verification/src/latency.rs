//! Latencies in milliseconds, exact to the microsecond, as stored results hold them.

use crate::text;
use vstd::prelude::*;

verus! {

/// A latency.
#[derive(Clone, Copy, Debug, PartialEq, Eq, Structural)]
pub struct Latency {
    /// Whole milliseconds.
    pub ms: u64,
    /// The microseconds beyond.
    pub us: u64,
}

impl Latency {
    /// The microseconds do not make up another millisecond.
    pub open spec fn wf(self) -> bool {
        self.us < 1000
    }

    /// The whole latency in microseconds.
    pub open spec fn micros(self) -> nat {
        self.ms as nat * 1000 + self.us as nat
    }
}

/// No latency at all.
pub open spec fn no_latency() -> Latency {
    Latency { ms: 0, us: 0 }
}

// ---------------------------------------------------------------------------
// Notation
// ---------------------------------------------------------------------------

/// A fraction of a thousand parts as digits after the point, without trailing zeros.
pub open spec fn fraction_digits(us: nat) -> Seq<char> {
    if us % 100 == 0 {
        seq![text::digit(us / 100)]
    } else if us % 10 == 0 {
        seq![text::digit(us / 100), text::digit(us / 10 % 10)]
    } else {
        seq![text::digit(us / 100), text::digit(us / 10 % 10), text::digit(us % 10)]
    }
}

/// A latency in milliseconds, in decimal notation with no more places than it needs.
pub open spec fn latency_name(latency: Latency) -> Seq<char> {
    if latency.us == 0 {
        text::decimal(latency.ms as nat)
    } else {
        text::decimal(latency.ms as nat) + "."@ + fraction_digits(latency.us as nat)
    }
}

/// Where the run of digits ends that reaches at least up to place `i`.
pub open spec fn run_end(s: Seq<char>, i: int) -> int
    decreases s.len() - i,
{
    if 0 <= i < s.len() && text::is_digit(s[i]) {
        run_end(s, i + 1)
    } else {
        i
    }
}

/// The thousandths that one to three digits after the point denote.
pub open spec fn thousandths(digits: Seq<char>) -> nat {
    if digits.len() == 1 {
        text::digits_value(digits) * 100
    } else if digits.len() == 2 {
        text::digits_value(digits) * 10
    } else {
        text::digits_value(digits)
    }
}

/// The latency that a text denotes: digits, and after them possibly a point and one to three
/// digits. Other texts, and numbers of milliseconds beyond 64 bits, denote none.
pub open spec fn latency_read(s: Seq<char>) -> Option<Latency> {
    let end = run_end(s, 0);
    let whole = text::digits_value(s.take(end));
    let rest = s.skip(end + 1);
    if end == 0 || whole > u64::MAX {
        None
    } else if end == s.len() {
        Some(Latency { ms: whole as u64, us: 0 })
    } else if s[end] == '.' && 1 <= rest.len() <= 3 && run_end(rest, 0) == rest.len() {
        Some(Latency { ms: whole as u64, us: thousandths(rest) as u64 })
    } else {
        None
    }
}

/// The digit `d` as text.
fn push_digit(s: &mut String, d: u64)
    requires
        d < 10,
    ensures
        final(s)@ == old(s)@.push(text::digit(d as nat)),
{
    let digit = text::decimal_text(d);
    s.append(digit.as_str());
    assert(s@ =~= old(s)@.push(text::digit(d as nat)));
}

/// A latency in milliseconds, in decimal notation with no more places than it needs.
pub fn latency_text(latency: Latency) -> (s: String)
    requires
        latency.wf(),
    ensures
        s@ == latency_name(latency),
{
    let mut s = text::decimal_text(latency.ms);
    let us = latency.us;
    if us == 0 {
        return s;
    }
    s.append(".");
    let ghost point = s@;
    push_digit(&mut s, us / 100);
    if us % 100 != 0 {
        push_digit(&mut s, us / 10 % 10);
        if us % 10 != 0 {
            push_digit(&mut s, us % 10);
        }
    }
    assert(s@ =~= point + fraction_digits(us as nat));
    s
}

/// What a digit stands for; nothing where the character is no digit.
fn digit_of(c: char) -> (d: Option<u64>)
    ensures
        match d {
            Some(n) => text::is_digit(c) && n == c as nat - 48,
            None => !text::is_digit(c),
        },
{
    if '0' <= c && c <= '9' {
        Some(c as u64 - 48)
    } else {
        None
    }
}

/// Where a run of digits ends, what stands before is digits and what stands there is not.
proof fn run_end_facts(s: Seq<char>, i: int)
    requires
        0 <= i <= s.len(),
    ensures
        i <= run_end(s, i) <= s.len(),
        forall|k: int| i <= k < run_end(s, i) ==> text::is_digit(#[trigger] s[k]),
        run_end(s, i) < s.len() ==> !text::is_digit(s[run_end(s, i)]),
    decreases s.len() - i,
{
    if i < s.len() && text::is_digit(s[i]) {
        run_end_facts(s, i + 1);
    }
}

/// A run of digits ends at the first place that holds none.
proof fn run_end_at(s: Seq<char>, i: int, end: int)
    requires
        0 <= i <= end <= s.len(),
        forall|k: int| i <= k < end ==> text::is_digit(#[trigger] s[k]),
        end < s.len() ==> !text::is_digit(s[end]),
    ensures
        run_end(s, i) == end,
    decreases end - i,
{
    if i < end {
        assert(text::is_digit(s[i]));
        run_end_at(s, i + 1, end);
    }
}

/// More digits never denote less.
proof fn digits_value_grows(s: Seq<char>, i: int, j: int)
    requires
        0 <= i <= j <= s.len(),
        forall|k: int| 0 <= k < j ==> text::is_digit(#[trigger] s[k]),
    ensures
        text::digits_value(s.take(i)) <= text::digits_value(s.take(j)),
    decreases j,
{
    if i < j {
        digits_value_grows(s, i, j - 1);
        assert(s.take(j).drop_last() =~= s.take(j - 1));
        assert(text::is_digit(s[j - 1]));
    }
}

/// Reads the latency that a text denotes.
pub fn parse_latency(text: &str) -> (latency: Option<Latency>)
    ensures
        latency == latency_read(text@),
        latency matches Some(l) ==> l.wf(),
{
    let n = text.unicode_len();
    let ghost s = text@;
    proof {
        run_end_facts(s, 0);
    }
    let mut ms: u64 = 0;
    let mut i: usize = 0;
    let mut more = true;
    while more && i < n
        invariant
            n == s.len(),
            s == text@,
            0 <= i <= run_end(s, 0) <= n,
            run_end(s, 0) == run_end(s, i as int),
            ms == text::digits_value(s.take(i as int)),
            !more ==> i == run_end(s, 0),
            forall|k: int| 0 <= k < run_end(s, 0) ==> text::is_digit(#[trigger] s[k]),
        decreases n - i, more as int,
    {
        match digit_of(text.get_char(i)) {
            Some(d) => {
                proof {
                    run_end_facts(s, i + 1);
                    assert(s.take(i + 1).drop_last() =~= s.take(i as int));
                    digits_value_grows(s, i + 1, run_end(s, 0));
                }
                match ms.checked_mul(10) {
                    Some(tens) => match tens.checked_add(d) {
                        Some(sum) => {
                            ms = sum;
                        },
                        None => return None,
                    },
                    None => return None,
                }
                i = i + 1;
            },
            None => {
                more = false;
            },
        }
    }
    if i == 0 {
        return None;
    }
    if i == n {
        return Some(Latency { ms, us: 0 });
    }
    if text.get_char(i) != '.' {
        return None;
    }
    let places = n - i - 1;
    if places < 1 || places > 3 {
        return None;
    }
    let ghost rest = s.skip(i + 1);
    proof {
        run_end_facts(rest, 0);
    }
    let mut us: u64 = 0;
    let mut j: usize = 0;
    while j < places
        invariant
            j <= places <= 3,
            places == rest.len(),
            n == s.len(),
            s == text@,
            i + 1 + places == n,
            rest == s.skip(i + 1),
            forall|k: int| 0 <= k < j ==> text::is_digit(#[trigger] rest[k]),
            us == text::digits_value(rest.take(j as int)),
            j == 0 ==> us == 0,
            j == 1 ==> us < 10,
            j == 2 ==> us < 100,
            j == 3 ==> us < 1000,
            i == run_end(s, 0),
            i < s.len(),
            s[i as int] == '.',
            run_end(rest, 0) == rest.len() ==> forall|k: int|
                0 <= k < rest.len() ==> text::is_digit(#[trigger] rest[k]),
        decreases places - j,
    {
        match digit_of(text.get_char(i + 1 + j)) {
            Some(d) => {
                assert(rest[j as int] == s[i + 1 + j]);
                assert(rest.take(j + 1).drop_last() =~= rest.take(j as int));
                us = us * 10 + d;
                j = j + 1;
            },
            None => {
                assert(!text::is_digit(rest[j as int]));
                return None;
            },
        }
    }
    proof {
        run_end_at(rest, 0, rest.len() as int);
        assert(rest.take(rest.len() as int) =~= rest);
    }
    if places == 1 {
        us = us * 100;
    } else if places == 2 {
        us = us * 10;
    }
    Some(Latency { ms, us })
}

// ---------------------------------------------------------------------------
// Order
// ---------------------------------------------------------------------------

/// Whether `a` is shorter than `b`.
pub fn shorter(a: Latency, b: Latency) -> (yes: bool)
    requires
        a.wf(),
        b.wf(),
    ensures
        yes == (a.micros() < b.micros()),
{
    a.ms < b.ms || (a.ms == b.ms && a.us < b.us)
}

// ---------------------------------------------------------------------------
// Laws
// ---------------------------------------------------------------------------

/// Reading the notation of a latency gives the latency back.
pub proof fn latency_reads_back(latency: Latency)
    requires
        latency.wf(),
    ensures
        latency_read(latency_name(latency)) == Some(latency),
{
    reveal_strlit(".");
    let ms = latency.ms as nat;
    let us = latency.us as nat;
    let whole = text::decimal(ms);
    let s = latency_name(latency);
    let end = whole.len() as int;
    text::decimal_reads_back(ms);
    assert forall|k: int| 0 <= k < end implies text::is_digit(#[trigger] s[k]) by {
        assert(s[k] == whole[k]);
    }
    run_end_at(s, 0, end);
    assert(s.take(end) =~= whole);
    if us > 0 {
        let digits = fraction_digits(us);
        assert(s[end] == '.');
        assert(s.skip(end + 1) =~= digits);
        run_end_at(digits, 0, digits.len() as int);
        reveal_with_fuel(text::digits_value, 4);
        if us % 100 == 0 {
            assert(digits.drop_last() =~= Seq::<char>::empty());
        } else if us % 10 == 0 {
            assert(digits.drop_last() =~= seq![text::digit(us / 100)]);
            assert(digits.drop_last().drop_last() =~= Seq::<char>::empty());
        } else {
            assert(digits.drop_last() =~= seq![text::digit(us / 100), text::digit(us / 10 % 10)]);
            assert(digits.drop_last().drop_last() =~= seq![text::digit(us / 100)]);
            assert(digits.drop_last().drop_last().drop_last() =~= Seq::<char>::empty());
        }
        assert(thousandths(digits) == us);
    }
}

/// Whole milliseconds are written, and read, as whole numbers are.
pub proof fn whole_latency_is_plain(ms: u64)
    ensures
        latency_name(Latency { ms, us: 0 }) == text::decimal(ms as nat),
        latency_read(text::decimal(ms as nat)) == Some(Latency { ms, us: 0 }),
{
    latency_reads_back(Latency { ms, us: 0 });
}

/// Whole milliseconds may also be written with a zero after the point.
pub proof fn zero_fraction_reads_as_whole(ms: u64)
    ensures
        latency_read(text::decimal(ms as nat) + ".0"@) == Some(Latency { ms, us: 0 }),
{
    reveal_strlit(".0");
    let whole = text::decimal(ms as nat);
    let s = whole + ".0"@;
    let end = whole.len() as int;
    text::decimal_reads_back(ms as nat);
    assert forall|k: int| 0 <= k < end implies text::is_digit(#[trigger] s[k]) by {
        assert(s[k] == whole[k]);
    }
    run_end_at(s, 0, end);
    assert(s.take(end) =~= whole);
    let rest = s.skip(end + 1);
    assert(rest =~= seq!['0']);
    run_end_at(rest, 0, 1);
    reveal_with_fuel(text::digits_value, 2);
    assert(rest.drop_last() =~= Seq::<char>::empty());
}

/// Whether a text is made of digits only and has at least one.
pub open spec fn is_number(s: Seq<char>) -> bool {
    s.len() > 0 && forall|i: int| 0 <= i < s.len() ==> text::is_digit(#[trigger] s[i])
}

/// A number is a latency of that many milliseconds; a number, a point and a number of up to three
/// digits is a latency with that many tenths, hundredths or thousandths more.
pub proof fn numbers_are_latencies(whole: Seq<char>, part: Seq<char>)
    requires
        is_number(whole),
        is_number(part),
    ensures
        text::digits_value(whole) <= u64::MAX ==> (latency_read(whole) matches Some(l) && l.ms
            == text::digits_value(whole) && l.us == 0),
        text::digits_value(whole) > u64::MAX ==> latency_read(whole) is None && latency_read(
            whole + "."@ + part,
        ) is None,
        part.len() > 3 ==> latency_read(whole + "."@ + part) is None,
        text::digits_value(whole) <= u64::MAX && part.len() <= 3 ==> (latency_read(
            whole + "."@ + part,
        ) matches Some(l) && l.ms == text::digits_value(whole) && l.us < 1000 && l.us
            == text::digits_value(part) * (if part.len() == 1 {
            100int
        } else if part.len() == 2 {
            10
        } else {
            1
        })),
{
    reveal_strlit(".");
    let s = whole + "."@ + part;
    let end = whole.len() as int;
    assert(whole.take(end) =~= whole);
    run_end_at(whole, 0, end);
    assert forall|k: int| 0 <= k < end implies text::is_digit(#[trigger] s[k]) by {
        assert(s[k] == whole[k]);
    }
    assert(s[end] == '.');
    run_end_at(s, 0, end);
    assert(s.take(end) =~= whole);
    assert(s.skip(end + 1) =~= part);
    run_end_at(part, 0, part.len() as int);
    if part.len() <= 3 {
        short_numbers_are_small(part);
    }
}

/// A number of up to three digits is below the power of ten with as many zeros.
proof fn short_numbers_are_small(s: Seq<char>)
    requires
        is_number(s),
        s.len() <= 3,
    ensures
        s.len() == 1 ==> text::digits_value(s) < 10,
        s.len() == 2 ==> text::digits_value(s) < 100,
        s.len() == 3 ==> text::digits_value(s) < 1000,
{
    reveal_with_fuel(text::digits_value, 4);
    assert(text::is_digit(s[s.len() - 1]));
    if s.len() >= 2 {
        assert(text::is_digit(s[s.len() - 2]));
    }
    if s.len() == 3 {
        assert(text::is_digit(s[0]));
    }
}

/// Only such texts are latencies.
pub proof fn latencies_are_numbers(s: Seq<char>)
    requires
        latency_read(s) is Some,
    ensures
        is_number(s) || exists|whole: Seq<char>, part: Seq<char>|
            is_number(whole) && is_number(part) && part.len() <= 3 && s == #[trigger] (whole + "."@
                + part),
{
    reveal_strlit(".");
    run_end_facts(s, 0);
    let end = run_end(s, 0);
    if end == s.len() {
        assert(is_number(s));
    } else {
        let (whole, part) = (s.take(end), s.skip(end + 1));
        run_end_facts(part, 0);
        assert forall|i: int| 0 <= i < whole.len() implies text::is_digit(#[trigger] whole[i]) by {
            assert(whole[i] == s[i]);
        }
        assert(s =~= whole + "."@ + part);
        assert(is_number(whole) && is_number(part));
    }
}

/// A latency is written without zeros that it does not need: none in front of whole milliseconds
/// that are not zero, and none behind the point at the end.
pub proof fn latency_name_is_shortest(latency: Latency)
    requires
        latency.wf(),
    ensures
        ({
            let name = latency_name(latency);
            &&& name.len() > 0
            &&& latency.ms > 0 ==> name[0] != '0'
            &&& latency.us == 0 ==> is_number(name)
            &&& latency.us > 0 ==> name.last() != '0' && !is_number(name)
            &&& latency.ms == 0 ==> name[0] == '0' && (latency.us > 0 ==> name[1] == '.')
        }),
{
    reveal_strlit(".");
    let name = latency_name(latency);
    let whole = text::decimal(latency.ms as nat);
    text::decimal_reads_back(latency.ms as nat);
    text::decimal_has_no_leading_zero(latency.ms as nat);
    assert(name[0] == whole[0]);
    if latency.us > 0 {
        assert(name[whole.len() as int] == '.');
        let digits = fraction_digits(latency.us as nat);
        assert(name.last() == digits.last());
    }
}

/// A millisecond is a thousand microseconds, and no latency is no microsecond.
pub proof fn micros_count_everything(latency: Latency)
    ensures
        no_latency().micros() == 0,
        no_latency().wf(),
        latency.wf() <==> latency.us <= 999,
        latency.ms > 0 ==> latency.micros() == (Latency {
            ms: (latency.ms - 1) as u64,
            us: latency.us,
        }).micros() + 1000,
        latency.us > 0 ==> latency.micros() == (Latency {
            ms: latency.ms,
            us: (latency.us - 1) as u64,
        }).micros() + 1,
{
}

} // verus!
