//! Building blocks of every report: numbers, padding, rules and lists as text.

use vstd::prelude::*;

verus! {

// ---------------------------------------------------------------------------
// Decimal numbers
// ---------------------------------------------------------------------------

/// The character that stands for the digit `d`.
pub open spec fn digit(d: nat) -> char {
    (48 + d) as char
}

/// `n` in decimal notation, without sign or leading zeros.
pub open spec fn decimal(n: nat) -> Seq<char>
    decreases n,
{
    if n < 10 {
        seq![digit(n)]
    } else {
        decimal(n / 10).push(digit(n % 10))
    }
}

/// Whether `c` is one of the ten decimal digits.
pub open spec fn is_digit(c: char) -> bool {
    '0' <= c && c <= '9'
}

/// The number that a run of decimal digits denotes; an empty run denotes zero.
pub open spec fn digits_value(s: Seq<char>) -> nat
    decreases s.len(),
{
    if s.len() == 0 {
        0
    } else {
        digits_value(s.drop_last()) * 10 + (s.last() as nat - 48) as nat
    }
}

/// Decimal notation is made of digits only, is never empty, and reading it back gives the number.
pub proof fn decimal_reads_back(n: nat)
    ensures
        decimal(n).len() >= 1,
        forall|i: int| 0 <= i < decimal(n).len() ==> is_digit(#[trigger] decimal(n)[i]),
        digits_value(decimal(n)) == n,
    decreases n,
{
    reveal_with_fuel(digits_value, 2);
    if n < 10 {
        assert(decimal(n).drop_last() =~= Seq::<char>::empty());
    } else {
        decimal_reads_back(n / 10);
        assert(decimal(n).drop_last() =~= decimal(n / 10));
    }
}

/// Two numbers with the same decimal notation are the same number.
pub proof fn decimal_injective(a: nat, b: nat)
    requires
        decimal(a) == decimal(b),
    ensures
        a == b,
{
    decimal_reads_back(a);
    decimal_reads_back(b);
}

/// The digit `d` as text.
fn digit_text(d: u128) -> (s: &'static str)
    requires
        d < 10,
    ensures
        s@ == seq![digit(d as nat)],
{
    proof {
        reveal_strlit("0");
        reveal_strlit("1");
        reveal_strlit("2");
        reveal_strlit("3");
        reveal_strlit("4");
        reveal_strlit("5");
        reveal_strlit("6");
        reveal_strlit("7");
        reveal_strlit("8");
        reveal_strlit("9");
    }
    match d {
        0 => "0",
        1 => "1",
        2 => "2",
        3 => "3",
        4 => "4",
        5 => "5",
        6 => "6",
        7 => "7",
        8 => "8",
        _ => "9",
    }
}

/// `n` in decimal notation.
pub fn wide_decimal_text(n: u128) -> (s: String)
    ensures
        s@ == decimal(n as nat),
    decreases n,
{
    if n < 10 {
        String::from_str(digit_text(n))
    } else {
        let mut s = wide_decimal_text(n / 10);
        s.append(digit_text(n % 10));
        assert(s@ =~= decimal(n as nat));
        s
    }
}

/// `n` in decimal notation.
pub fn decimal_text(n: u64) -> (s: String)
    ensures
        s@ == decimal(n as nat),
{
    wide_decimal_text(n as u128)
}

// ---------------------------------------------------------------------------
// Repetition and padding
// ---------------------------------------------------------------------------

/// `n` copies of `unit`, one after the other.
pub open spec fn repeated(unit: Seq<char>, n: nat) -> Seq<char>
    decreases n,
{
    if n == 0 {
        Seq::empty()
    } else {
        repeated(unit, (n - 1) as nat) + unit
    }
}

/// `n` copies of `unit`, one after the other.
pub fn repeat_text(unit: &str, n: usize) -> (s: String)
    ensures
        s@ == repeated(unit@, n as nat),
{
    let mut s = String::new();
    let mut i: usize = 0;
    while i < n
        invariant
            i <= n,
            s@ == repeated(unit@, i as nat),
        decreases n - i,
    {
        s.append(unit);
        i = i + 1;
    }
    s
}

/// A repetition is as long as its copies together.
pub proof fn repeated_len(unit: Seq<char>, n: nat)
    ensures
        repeated(unit, n).len() == unit.len() * n,
    decreases n,
{
    if n == 0 {
        assert(unit.len() * n == 0) by (nonlinear_arith)
            requires
                n == 0,
        ;
    } else {
        repeated_len(unit, (n - 1) as nat);
        assert(unit.len() * n == unit.len() * (n - 1) + unit.len()) by (nonlinear_arith)
            requires
                n > 0,
        ;
    }
}

/// `s` set flush right in a column of `width` characters; a longer text is kept whole.
pub open spec fn right_aligned(s: Seq<char>, width: nat) -> Seq<char> {
    if s.len() >= width {
        s
    } else {
        repeated(" "@, (width - s.len()) as nat) + s
    }
}

/// `text` set flush right in a column of `width` characters.
pub fn align_right(text: &str, width: usize) -> (s: String)
    ensures
        s@ == right_aligned(text@, width as nat),
{
    let len = text.unicode_len();
    if len >= width {
        String::from_str(text)
    } else {
        let mut s = repeat_text(" ", width - len);
        s.append(text);
        s
    }
}

/// A column is exactly as wide as asked for, unless its text is wider.
pub proof fn right_aligned_len(s: Seq<char>, width: nat)
    ensures
        right_aligned(s, width).len() == if s.len() >= width { s.len() } else { width },
{
    reveal_strlit(" ");
    if s.len() < width {
        repeated_len(" "@, (width - s.len()) as nat);
    }
}

// ---------------------------------------------------------------------------
// Lists
// ---------------------------------------------------------------------------

/// The contents of each string.
pub open spec fn views(items: Seq<String>) -> Seq<Seq<char>> {
    Seq::new(items.len(), |i: int| items[i]@)
}

/// The items in order, with a comma and a space between neighbours.
pub open spec fn comma_joined(items: Seq<Seq<char>>) -> Seq<char>
    decreases items.len(),
{
    if items.len() == 0 {
        Seq::empty()
    } else if items.len() == 1 {
        items[0]
    } else {
        comma_joined(items.drop_last()) + ", "@ + items.last()
    }
}

/// A list in square brackets.
pub open spec fn bracketed(items: Seq<Seq<char>>) -> Seq<char> {
    "["@ + comma_joined(items) + "]"@
}

/// The decimal notation of each number.
pub open spec fn decimals(values: Seq<u64>) -> Seq<Seq<char>> {
    Seq::new(values.len(), |i: int| decimal(values[i] as nat))
}

/// The decimal notation of each count.
pub open spec fn count_decimals(values: Seq<usize>) -> Seq<Seq<char>> {
    Seq::new(values.len(), |i: int| decimal(values[i] as nat))
}

/// The items in order, with a comma and a space between neighbours.
fn join_with_commas(items: &Vec<String>) -> (s: String)
    ensures
        s@ == comma_joined(views(items@)),
{
    let mut s = String::new();
    let mut i: usize = 0;
    while i < items.len()
        invariant
            i <= items.len(),
            s@ == comma_joined(views(items@).take(i as int)),
        decreases items.len() - i,
    {
        let ghost before = views(items@).take(i as int);
        let ghost after = views(items@).take(i + 1);
        assert(after.drop_last() =~= before);
        assert(after.last() == items@[i as int]@);
        if i > 0 {
            s.append(", ");
            s.append(items[i].as_str());
        } else {
            s.append(items[i].as_str());
            assert(s@ =~= items@[0]@);
        }
        i = i + 1;
    }
    assert(views(items@).take(items@.len() as int) =~= views(items@));
    s
}

/// A list in square brackets.
pub fn bracketed_list(items: &Vec<String>) -> (s: String)
    ensures
        s@ == bracketed(views(items@)),
{
    let inner = join_with_commas(items);
    let mut s = String::from_str("[");
    s.append(inner.as_str());
    s.append("]");
    s
}

/// Numbers as a list in square brackets.
pub fn number_list(values: &Vec<u64>) -> (s: String)
    ensures
        s@ == bracketed(decimals(values@)),
{
    let mut items: Vec<String> = Vec::new();
    let mut i: usize = 0;
    while i < values.len()
        invariant
            i <= values.len(),
            items@.len() == i,
            forall|k: int| 0 <= k < i ==> (#[trigger] items@[k])@ == decimal(values@[k] as nat),
        decreases values.len() - i,
    {
        items.push(decimal_text(values[i]));
        i = i + 1;
    }
    assert(views(items@) =~= decimals(values@));
    bracketed_list(&items)
}

/// Counts as a list in square brackets.
pub fn count_list(values: &Vec<usize>) -> (s: String)
    ensures
        s@ == bracketed(count_decimals(values@)),
{
    let mut items: Vec<String> = Vec::new();
    let mut i: usize = 0;
    while i < values.len()
        invariant
            i <= values.len(),
            items@.len() == i,
            forall|k: int| 0 <= k < i ==> (#[trigger] items@[k])@ == decimal(values@[k] as nat),
        decreases values.len() - i,
    {
        items.push(decimal_text(values[i] as u64));
        i = i + 1;
    }
    assert(views(items@) =~= count_decimals(values@));
    bracketed_list(&items)
}

// ---------------------------------------------------------------------------
// Occurrence
// ---------------------------------------------------------------------------

/// `whole` holds `part` as an unbroken piece.
#[verifier::opaque]
pub open spec fn occurs_in(part: Seq<char>, whole: Seq<char>) -> bool {
    exists|before: Seq<char>, after: Seq<char>| whole == #[trigger] (before + part + after)
}

/// A text occurs in what it is put between.
pub proof fn occurs_between(before: Seq<char>, part: Seq<char>, after: Seq<char>)
    ensures
        occurs_in(part, before + part + after),
        occurs_in(part, before + part),
        occurs_in(part, part + after),
        occurs_in(part, part),
{
    reveal(occurs_in);
    let none = Seq::<char>::empty();
    assert(before + part =~= before + part + none);
    assert(part + after =~= none + part + after);
    assert(part =~= none + part + none);
}

/// What occurs in a part occurs in the whole.
pub proof fn occurs_through(part: Seq<char>, middle: Seq<char>, whole: Seq<char>)
    requires
        occurs_in(part, middle),
        occurs_in(middle, whole),
    ensures
        occurs_in(part, whole),
{
    reveal(occurs_in);
    let (a, b) = choose|a: Seq<char>, b: Seq<char>| middle == #[trigger] (a + part + b);
    let (c, d) = choose|c: Seq<char>, d: Seq<char>| whole == #[trigger] (c + middle + d);
    assert(whole =~= (c + a) + part + (b + d));
}

/// A text occurs in another exactly where some stretch of the other equals it.
pub proof fn occurrence_has_a_place(part: Seq<char>, whole: Seq<char>)
    ensures
        occurs_in(part, whole) <==> exists|i: int|
            0 <= i && i + part.len() <= whole.len() && #[trigger] whole.subrange(
                i,
                i + part.len(),
            ) == part,
{
    reveal(occurs_in);
    if occurs_in(part, whole) {
        let (a, b) = choose|a: Seq<char>, b: Seq<char>| whole == #[trigger] (a + part + b);
        let i = a.len() as int;
        assert(whole.subrange(i, i + part.len()) =~= part);
    }
    if exists|i: int|
        0 <= i && i + part.len() <= whole.len() && #[trigger] whole.subrange(i, i + part.len())
            == part {
        let i = choose|i: int|
            0 <= i && i + part.len() <= whole.len() && #[trigger] whole.subrange(i, i + part.len())
                == part;
        assert(whole =~= whole.take(i) + part + whole.skip(i + part.len()));
    }
}

/// Where a text occurs, so does its beginning.
pub proof fn occurs_beginning(head: Seq<char>, tail: Seq<char>, whole: Seq<char>)
    requires
        occurs_in(head + tail, whole),
    ensures
        occurs_in(head, whole),
{
    occurs_between(Seq::empty(), head, tail);
    occurs_through(head, head + tail, whole);
}

/// Where a text occurs, so do its last two pieces.
pub proof fn occurs_end_of_two(p: Seq<char>, a: Seq<char>, b: Seq<char>, whole: Seq<char>)
    requires
        occurs_in(p + a + b, whole),
    ensures
        occurs_in(a + b, whole),
{
    assert(p + a + b =~= p + (a + b));
    occurs_between(p, a + b, Seq::empty());
    occurs_through(a + b, p + a + b, whole);
}

/// Where a text occurs, so do its last three pieces.
pub proof fn occurs_end_of_three(
    p: Seq<char>,
    a: Seq<char>,
    b: Seq<char>,
    c: Seq<char>,
    whole: Seq<char>,
)
    requires
        occurs_in(p + a + b + c, whole),
    ensures
        occurs_in(a + b + c, whole),
{
    assert(p + a + b + c =~= p + (a + b + c));
    occurs_between(p, a + b + c, Seq::empty());
    occurs_through(a + b + c, p + a + b + c, whole);
}

// ---------------------------------------------------------------------------
// Laws
// ---------------------------------------------------------------------------

/// A run of digits denotes what its first part denotes, shifted by the places of its second part,
/// and what its second part denotes; a single digit denotes itself.
pub proof fn digits_denote_by_place(a: Seq<char>, b: Seq<char>, c: char)
    ensures
        digits_value(Seq::empty()) == 0,
        is_digit(c) ==> digits_value(seq![c]) == c as int - '0' as int,
        digits_value(a + b) == digits_value(a) * vstd::arithmetic::power::pow(10, b.len())
            + digits_value(b),
    decreases b.len(),
{
    reveal(vstd::arithmetic::power::pow);
    reveal_with_fuel(digits_value, 2);
    assert(seq![c].drop_last() =~= Seq::<char>::empty());
    if b.len() == 0 {
        assert(a + b =~= a);
    } else {
        let front = b.drop_last();
        digits_denote_by_place(a, front, c);
        assert((a + b).drop_last() =~= a + front);
        let (x, y, p) = (
            digits_value(a) as int,
            digits_value(front) as int,
            vstd::arithmetic::power::pow(10, front.len()),
        );
        assert((x * p + y) * 10 == x * (10 * p) + y * 10) by (nonlinear_arith);
    }
}

/// Only zero is written with a zero in front.
pub proof fn decimal_has_no_leading_zero(n: nat)
    ensures
        n > 0 ==> decimal(n)[0] != '0',
        n == 0 ==> decimal(n) == seq!['0'],
    decreases n,
{
    if n >= 10 {
        decimal_has_no_leading_zero(n / 10);
        decimal_reads_back(n / 10);
    } else {
        assert(decimal(n)[0] == digit(n));
    }
}

/// Each place of a repetition holds the character of the copy that it falls into.
pub proof fn repeated_holds_copies(unit: Seq<char>, n: nat, i: int)
    requires
        0 <= i < unit.len() * n,
    ensures
        repeated(unit, n).len() == unit.len() * n,
        repeated(unit, n)[i] == unit[i % unit.len() as int],
    decreases n,
{
    let len = unit.len() as int;
    repeated_len(unit, n);
    if n == 0 {
        assert(len * n == 0) by (nonlinear_arith)
            requires
                n == 0,
        ;
    } else {
        let before = len * (n - 1);
        repeated_len(unit, (n - 1) as nat);
        assert(len * n == before + len) by (nonlinear_arith)
            requires
                before == len * (n - 1),
        ;
        if i < before {
            repeated_holds_copies(unit, (n - 1) as nat, i);
        } else {
            assert(before == (n - 1) * len) by (nonlinear_arith)
                requires
                    before == len * (n - 1),
            ;
            vstd::arithmetic::div_mod::lemma_fundamental_div_mod_converse(
                i,
                len,
                n - 1,
                i - before,
            );
        }
    }
}

/// A text set flush right stands at the end of its column, with nothing but spaces before it.
pub proof fn right_aligned_stands_at_the_end(s: Seq<char>, width: nat, i: int)
    ensures
        right_aligned(s, width).len() >= s.len(),
        right_aligned(s, width).skip(right_aligned(s, width).len() - s.len()) == s,
        0 <= i < right_aligned(s, width).len() - s.len() ==> right_aligned(s, width)[i] == ' ',
{
    reveal_strlit(" ");
    right_aligned_len(s, width);
    let r = right_aligned(s, width);
    if s.len() < width {
        let gap = (width - s.len()) as nat;
        repeated_len(" "@, gap);
        assert(r.skip(r.len() - s.len()) =~= s);
        if 0 <= i < gap {
            repeated_holds_copies(" "@, gap, i);
        }
    } else {
        assert(r.skip(0) =~= s);
    }
}

/// Joining two lists puts a comma and a space between them; a single item is joined to itself.
pub proof fn comma_joined_in_parts(a: Seq<Seq<char>>, b: Seq<Seq<char>>, item: Seq<char>)
    ensures
        comma_joined(Seq::empty()) == Seq::<char>::empty(),
        comma_joined(seq![item]) == item,
        a.len() > 0 && b.len() > 0 ==> comma_joined(a + b) == comma_joined(a) + ", "@
            + comma_joined(b),
    decreases b.len(),
{
    if a.len() > 0 && b.len() > 0 {
        let front = b.drop_last();
        assert((a + b).drop_last() =~= a + front);
        assert((a + b).last() == b.last());
        if front.len() == 0 {
            assert(a + front =~= a);
        } else {
            comma_joined_in_parts(a, front, item);
            assert(comma_joined(a + b) =~= comma_joined(a) + ", "@ + comma_joined(b));
        }
    }
}

/// A list in brackets is the joined items between an opening and a closing bracket.
pub proof fn bracketed_encloses(items: Seq<Seq<char>>)
    ensures
        bracketed(items).len() == comma_joined(items).len() + 2,
        bracketed(items)[0] == '[',
        bracketed(items).last() == ']',
        bracketed(items).subrange(1, bracketed(items).len() - 1) == comma_joined(items),
{
    reveal_strlit("[");
    reveal_strlit("]");
    assert(bracketed(items).subrange(1, bracketed(items).len() - 1) =~= comma_joined(items));
}

/// A list of numbers has one item for each number, and reading the item gives the number back.
pub proof fn listed_numbers_read_back(values: Seq<u64>, counts: Seq<usize>, i: int)
    ensures
        decimals(values).len() == values.len(),
        0 <= i < values.len() ==> digits_value(decimals(values)[i]) == values[i],
        0 <= i < values.len() && values[i] > 0 ==> decimals(values)[i][0] != '0',
        count_decimals(counts).len() == counts.len(),
        0 <= i < counts.len() ==> digits_value(count_decimals(counts)[i]) == counts[i],
        0 <= i < counts.len() && counts[i] > 0 ==> count_decimals(counts)[i][0] != '0',
{
    if 0 <= i < values.len() {
        decimal_reads_back(values[i] as nat);
        decimal_has_no_leading_zero(values[i] as nat);
    }
    if 0 <= i < counts.len() {
        decimal_reads_back(counts[i] as nat);
        decimal_has_no_leading_zero(counts[i] as nat);
    }
}

/// The texts of a list are those of its strings, in their order.
pub proof fn views_keep_every_text(items: Seq<String>, i: int)
    ensures
        views(items).len() == items.len(),
        0 <= i < items.len() ==> views(items)[i] == items[i]@,
{
}

/// There are ten digits, from `0` to `9`, and each stands for the number that many after `0`.
pub proof fn digits_run_from_zero_to_nine(c: char, d: nat)
    ensures
        is_digit(c) <==> '0' as int <= c as int <= '9' as int,
        d < 10 ==> is_digit(digit(d)) && digit(d) as int - '0' as int == d,
{
}

} // verus!
