//! Decimal text of signed integers, as it appears inside rendered messages.

use vstd::prelude::*;
use vstd::string::*;

verus! {

/// The character of one decimal digit.
pub open spec fn digit_char(d: int) -> char
    recommends
        0 <= d < 10,
{
    if d == 0 {
        '0'
    } else if d == 1 {
        '1'
    } else if d == 2 {
        '2'
    } else if d == 3 {
        '3'
    } else if d == 4 {
        '4'
    } else if d == 5 {
        '5'
    } else if d == 6 {
        '6'
    } else if d == 7 {
        '7'
    } else if d == 8 {
        '8'
    } else {
        '9'
    }
}

/// The digits of a natural number, most significant first, without leading
/// zeros; zero is the single digit `0`.
pub open spec fn decimal_nat(n: nat) -> Seq<char>
    decreases n,
{
    if n < 10 {
        seq![digit_char(n as int)]
    } else {
        decimal_nat(n / 10).push(digit_char((n % 10) as int))
    }
}

/// The decimal text of an integer: a minus sign before the digits of a
/// negative number, no sign otherwise.
pub open spec fn decimal(v: int) -> Seq<char> {
    if v < 0 {
        seq!['-'] + decimal_nat((-v) as nat)
    } else {
        decimal_nat(v as nat)
    }
}

fn digit_str(d: u64) -> (s: &'static str)
    requires
        d < 10,
    ensures
        s@ == seq![digit_char(d as int)],
{
    proof {
        reveal_strlit("0");
        reveal_strlit("1");
        reveal_strlit("2");
        reveal_strlit("3");
        reveal_strlit("4");
        reveal_strlit("5");
        reveal_strlit("6");
        reveal_strlit("7");
        reveal_strlit("8");
        reveal_strlit("9");
    }
    let s = if d == 0 {
        "0"
    } else if d == 1 {
        "1"
    } else if d == 2 {
        "2"
    } else if d == 3 {
        "3"
    } else if d == 4 {
        "4"
    } else if d == 5 {
        "5"
    } else if d == 6 {
        "6"
    } else if d == 7 {
        "7"
    } else if d == 8 {
        "8"
    } else {
        "9"
    };
    assert(s@ =~= seq![digit_char(d as int)]);
    s
}

fn append_decimal_nat(out: &mut String, n: u64)
    ensures
        final(out)@ == old(out)@ + decimal_nat(n as nat),
    decreases n,
{
    if n >= 10 {
        append_decimal_nat(out, n / 10);
    }
    out.append(digit_str(n % 10));
    assert(final(out)@ =~= old(out)@ + decimal_nat(n as nat));
}

/// Appends the decimal text of `v` to `out`.
pub fn append_decimal(out: &mut String, v: i64)
    ensures
        final(out)@ == old(out)@ + decimal(v as int),
{
    if v < 0 {
        out.append("-");
        proof {
            reveal_strlit("-");
            assert("-"@ =~= seq!['-']);
        }
        let magnitude: u64 = (-(v + 1)) as u64 + 1;
        append_decimal_nat(out, magnitude);
        assert(final(out)@ =~= old(out)@ + decimal(v as int));
    } else {
        append_decimal_nat(out, v as u64);
    }
}

/// The decimal text of `v` as an owned string.
pub fn decimal_string(v: i64) -> (s: String)
    ensures
        s@ == decimal(v as int),
{
    let mut s = String::new();
    append_decimal(&mut s, v);
    assert(s@ =~= decimal(v as int));
    s
}

/// Distinct digits have distinct characters.
pub proof fn lemma_digit_char_injective(a: int, b: int)
    requires
        0 <= a < 10,
        0 <= b < 10,
        digit_char(a) == digit_char(b),
    ensures
        a == b,
{
}

/// The digits of a number are at least one character, at least two from
/// ten on, and never open with a minus sign.
pub proof fn lemma_decimal_nat_shape(n: nat)
    ensures
        decimal_nat(n).len() >= 1,
        n >= 10 ==> decimal_nat(n).len() >= 2,
        decimal_nat(n)[0] != '-',
    decreases n,
{
    if n >= 10 {
        lemma_decimal_nat_shape(n / 10);
    }
}

/// Two natural numbers with the same digits are the same number.
pub proof fn lemma_decimal_nat_injective(a: nat, b: nat)
    requires
        decimal_nat(a) == decimal_nat(b),
    ensures
        a == b,
    decreases a,
{
    lemma_decimal_nat_shape(a);
    lemma_decimal_nat_shape(b);
    if a < 10 {
        assert(decimal_nat(a)[0] == digit_char(a as int));
        assert(decimal_nat(b)[0] == digit_char(b as int));
        lemma_digit_char_injective(a as int, b as int);
    } else {
        let front_a = decimal_nat(a / 10);
        let front_b = decimal_nat(b / 10);
        let last_a = digit_char((a % 10) as int);
        let last_b = digit_char((b % 10) as int);
        assert(front_a.push(last_a) == front_b.push(last_b));
        assert(front_a.push(last_a).last() == last_a);
        assert(front_b.push(last_b).last() == last_b);
        assert(front_a =~= front_a.push(last_a).drop_last());
        assert(front_b =~= front_b.push(last_b).drop_last());
        lemma_digit_char_injective((a % 10) as int, (b % 10) as int);
        lemma_decimal_nat_injective(a / 10, b / 10);
    }
}

/// The decimal text names its number: two integers with the same text are
/// the same integer.
pub proof fn lemma_decimal_injective(a: int, b: int)
    requires
        decimal(a) == decimal(b),
    ensures
        a == b,
{
    let minus = seq!['-'];
    if a < 0 {
        lemma_decimal_nat_shape((-a) as nat);
        assert(decimal(a)[0] == '-');
    } else {
        lemma_decimal_nat_shape(a as nat);
    }
    if b < 0 {
        lemma_decimal_nat_shape((-b) as nat);
        assert(decimal(b)[0] == '-');
    } else {
        lemma_decimal_nat_shape(b as nat);
    }
    if a < 0 {
        let digits_a = decimal_nat((-a) as nat);
        let digits_b = decimal_nat((-b) as nat);
        assert(digits_a =~= (minus + digits_a).drop_first());
        assert(digits_b =~= (minus + digits_b).drop_first());
        lemma_decimal_nat_injective((-a) as nat, (-b) as nat);
    } else {
        lemma_decimal_nat_injective(a as nat, b as nat);
    }
}

} // verus!
