//! Decimal notation of unsigned integers.

use vstd::prelude::*;
use vstd::string::*;

verus! {

/// The character that writes the digit `d`.
pub open spec fn digit_char(d: nat) -> char
    recommends
        d < 10,
{
    if d == 0 {
        '0'
    } else if d == 1 {
        '1'
    } else if d == 2 {
        '2'
    } else if d == 3 {
        '3'
    } else if d == 4 {
        '4'
    } else if d == 5 {
        '5'
    } else if d == 6 {
        '6'
    } else if d == 7 {
        '7'
    } else if d == 8 {
        '8'
    } else {
        '9'
    }
}

/// The decimal notation of `n`: most significant digit first, no sign, and
/// no leading zero except for zero itself.
pub open spec fn decimal_digits(n: nat) -> Seq<char>
    decreases n,
{
    if n < 10 {
        seq![digit_char(n)]
    } else {
        decimal_digits(n / 10).push(digit_char(n % 10))
    }
}

/// A decimal notation is never empty.
pub proof fn lemma_decimal_nonempty(n: nat)
    ensures
        decimal_digits(n).len() >= 1,
        n >= 10 ==> decimal_digits(n).len() >= 2,
    decreases n,
{
    if n >= 10 {
        lemma_decimal_nonempty(n / 10);
    }
}

/// Two numbers with the same decimal notation are the same number.
pub proof fn lemma_decimal_injective(a: nat, b: nat)
    requires
        decimal_digits(a) == decimal_digits(b),
    ensures
        a == b,
    decreases a,
{
    lemma_decimal_nonempty(a);
    lemma_decimal_nonempty(b);
    if a < 10 && b < 10 {
        assert(decimal_digits(a)[0] == digit_char(a));
        assert(decimal_digits(b)[0] == digit_char(b));
    } else if a >= 10 && b >= 10 {
        let da = decimal_digits(a / 10);
        let db = decimal_digits(b / 10);
        assert(decimal_digits(a).last() == digit_char(a % 10));
        assert(decimal_digits(b).last() == digit_char(b % 10));
        assert(decimal_digits(a).drop_last() == da);
        assert(decimal_digits(b).drop_last() == db);
        lemma_decimal_injective(a / 10, b / 10);
    }
}

/// The one-character text of the digit `d`.
fn digit_text(d: u64) -> (text: &'static str)
    requires
        d < 10,
    ensures
        text@ == seq![digit_char(d as nat)],
{
    proof {
        reveal_strlit("0");
        reveal_strlit("1");
        reveal_strlit("2");
        reveal_strlit("3");
        reveal_strlit("4");
        reveal_strlit("5");
        reveal_strlit("6");
        reveal_strlit("7");
        reveal_strlit("8");
        reveal_strlit("9");
    }
    let text: &'static str = if d == 0 {
        "0"
    } else if d == 1 {
        "1"
    } else if d == 2 {
        "2"
    } else if d == 3 {
        "3"
    } else if d == 4 {
        "4"
    } else if d == 5 {
        "5"
    } else if d == 6 {
        "6"
    } else if d == 7 {
        "7"
    } else if d == 8 {
        "8"
    } else {
        "9"
    };
    text
}

/// Appends the decimal notation of `n` to `out`.
pub fn append_decimal(out: &mut String, n: u64)
    ensures
        final(out)@ == old(out)@ + decimal_digits(n as nat),
    decreases n,
{
    if n >= 10 {
        append_decimal(out, n / 10);
    }
    out.append(digit_text(n % 10));
}

/// The decimal notation of `n` as a string.
pub fn decimal_string(n: u64) -> (text: String)
    ensures
        text@ == decimal_digits(n as nat),
{
    let mut text = String::new();
    append_decimal(&mut text, n);
    text
}

} // verus!
