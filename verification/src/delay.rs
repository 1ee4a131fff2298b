//! Names of write delays.

use crate::text;
use vstd::prelude::*;

verus! {

/// How a delay of `ms` milliseconds is called: in whole seconds from one second on, in
/// milliseconds below.
pub open spec fn delay_name(ms: nat) -> Seq<char> {
    if ms >= 1000 {
        text::decimal(ms / 1000) + "s"@
    } else {
        text::decimal(ms) + "ms"@
    }
}

/// The name of a delay of `delay_ms` milliseconds.
pub fn format_delay(delay_ms: u64) -> (s: String)
    ensures
        s@ == delay_name(delay_ms as nat),
{
    if delay_ms >= 1000 {
        let mut s = text::decimal_text(delay_ms / 1000);
        s.append("s");
        s
    } else {
        let mut s = text::decimal_text(delay_ms);
        s.append("ms");
        s
    }
}

/// Two delays share a name exactly when they are equal, or when both last a second or more and
/// have the same number of whole seconds.
pub proof fn delay_names_agree(a: nat, b: nat)
    ensures
        delay_name(a) == delay_name(b) <==> a == b || (a >= 1000 && b >= 1000 && a / 1000 == b
            / 1000),
{
    reveal_strlit("s");
    reveal_strlit("ms");
    if delay_name(a) == delay_name(b) {
        let x = if a >= 1000 { a / 1000 } else { a };
        let y = if b >= 1000 { b / 1000 } else { b };
        let dx = text::decimal(x);
        let dy = text::decimal(y);
        text::decimal_reads_back(x);
        text::decimal_reads_back(y);
        let s = delay_name(a);
        let n = s.len() as int;
        if a >= 1000 && b < 1000 {
            assert(dx + "s"@ == dy + "ms"@);
            assert(s[n - 2] == dx[dx.len() - 1]);
            assert(s[n - 2] == 'm');
        } else if a < 1000 && b >= 1000 {
            assert(dx + "ms"@ == dy + "s"@);
            assert(s[n - 2] == dy[dy.len() - 1]);
            assert(s[n - 2] == 'm');
        } else if a >= 1000 {
            assert(s.take(n - 1) =~= dx);
            assert(s.take(n - 1) =~= dy);
            text::decimal_injective(x, y);
        } else {
            assert(s.take(n - 2) =~= dx);
            assert(s.take(n - 2) =~= dy);
            text::decimal_injective(x, y);
        }
    }
}

/// The name of a delay tells how long it is: below a second its digits count the milliseconds and
/// `ms` follows; from a second on they count the whole seconds, and a single `s` follows.
pub proof fn delay_name_tells_the_delay(ms: nat)
    ensures
        ({
            let name = delay_name(ms);
            let n = name.len() as int;
            &&& n >= 2
            &&& name[n - 1] == 's'
            &&& ms < 1000 ==> {
                &&& n >= 3
                &&& name[n - 2] == 'm'
                &&& text::digits_value(name.take(n - 2)) == ms
                &&& forall|i: int| 0 <= i < n - 2 ==> text::is_digit(#[trigger] name[i])
                &&& ms > 0 ==> name[0] != '0'
            }
            &&& ms >= 1000 ==> {
                let seconds = text::digits_value(name.take(n - 1));
                &&& seconds * 1000 <= ms < (seconds + 1) * 1000
                &&& forall|i: int| 0 <= i < n - 1 ==> text::is_digit(#[trigger] name[i])
                &&& name[0] != '0'
            }
        }),
{
    reveal_strlit("s");
    reveal_strlit("ms");
    let name = delay_name(ms);
    let n = name.len() as int;
    let x = if ms >= 1000 {
        ms / 1000
    } else {
        ms
    };
    text::decimal_reads_back(x);
    text::decimal_has_no_leading_zero(x);
    let digits = text::decimal(x);
    assert(forall|i: int| 0 <= i < digits.len() ==> name[i] == #[trigger] digits[i]);
    assert forall|i: int| 0 <= i < digits.len() implies text::is_digit(#[trigger] name[i]) by {
        assert(text::is_digit(digits[i]));
    }
    if ms < 1000 {
        assert(name.take(n - 2) =~= digits);
    } else {
        assert(name.take(n - 1) =~= digits);
    }
}

} // verus!
