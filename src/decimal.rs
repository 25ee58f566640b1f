//! Decimal text of integers, as `{}` formatting writes it.
use vstd::prelude::*;

verus! {

/// The character of a decimal digit.
pub open spec fn digit_char(d: int) -> char {
    if d == 0 {
        '0'
    } else if d == 1 {
        '1'
    } else if d == 2 {
        '2'
    } else if d == 3 {
        '3'
    } else if d == 4 {
        '4'
    } else if d == 5 {
        '5'
    } else if d == 6 {
        '6'
    } else if d == 7 {
        '7'
    } else if d == 8 {
        '8'
    } else {
        '9'
    }
}

/// Decimal digits of `n`, most significant first, without leading zeros.
pub open spec fn decimal(n: nat) -> Seq<char>
    decreases n,
{
    if n < 10 {
        seq![digit_char(n as int)]
    } else {
        decimal(n / 10).push(digit_char((n % 10) as int))
    }
}

/// Decimal text of a signed integer: a minus sign before the digits of a negative one.
pub open spec fn signed_decimal(n: int) -> Seq<char> {
    if n < 0 {
        seq!['-'] + decimal((-n) as nat)
    } else {
        decimal(n as nat)
    }
}

/// The one-character text of the digit `d`.
fn digit_str(d: u64) -> (r: &'static str)
    requires
        d < 10,
    ensures
        r@ == seq![digit_char(d as int)],
{
    proof {
        reveal_strlit("0");
        reveal_strlit("1");
        reveal_strlit("2");
        reveal_strlit("3");
        reveal_strlit("4");
        reveal_strlit("5");
        reveal_strlit("6");
        reveal_strlit("7");
        reveal_strlit("8");
        reveal_strlit("9");
    }
    match d {
        0 => "0",
        1 => "1",
        2 => "2",
        3 => "3",
        4 => "4",
        5 => "5",
        6 => "6",
        7 => "7",
        8 => "8",
        _ => "9",
    }
}

/// Appends the decimal digits of `n` to `out`.
pub fn push_decimal(out: &mut String, n: u64)
    ensures
        final(out)@ == old(out)@ + decimal(n as nat),
    decreases n,
{
    if n >= 10 {
        push_decimal(out, n / 10);
    }
    out.append(digit_str(n % 10));
    proof {
        if n >= 10 {
            assert(decimal(n as nat) == decimal((n / 10) as nat).push(digit_char((n % 10) as int)));
        }
    }
}

/// Appends the decimal text of a signed `n` to `out`.
pub fn push_signed_decimal(out: &mut String, n: i64)
    ensures
        final(out)@ == old(out)@ + signed_decimal(n as int),
{
    if n < 0 {
        proof {
            reveal_strlit("-");
        }
        out.append("-");
        let magnitude: u64 = if n == i64::MIN { 9223372036854775808u64 } else { (-n) as u64 };
        push_decimal(out, magnitude);
    } else {
        push_decimal(out, n as u64);
    }
}

/// Different integers have different decimal texts.
pub proof fn lemma_signed_decimal_injective(a: int, b: int)
    requires
        a != b,
    ensures
        signed_decimal(a) != signed_decimal(b),
{
    lemma_decimal_first_digit((vstd::math::abs(a)) as nat);
    lemma_decimal_first_digit((vstd::math::abs(b)) as nat);
    if a < 0 && b < 0 {
        lemma_decimal_injective((-a) as nat, (-b) as nat);
        if signed_decimal(a) == signed_decimal(b) {
            assert(decimal((-a) as nat) == signed_decimal(a).skip(1));
            assert(decimal((-b) as nat) == signed_decimal(b).skip(1));
        }
    } else if a >= 0 && b >= 0 {
        lemma_decimal_injective(a as nat, b as nat);
    } else if signed_decimal(a) == signed_decimal(b) {
        assert(signed_decimal(a)[0] == signed_decimal(b)[0]);
    }
}

/// A decimal text is never empty and never starts with a minus sign.
pub proof fn lemma_decimal_first_digit(n: nat)
    ensures
        decimal(n).len() >= 1,
        decimal(n)[0] != '-',
    decreases n,
{
    if n >= 10 {
        lemma_decimal_first_digit(n / 10);
    }
}

/// Different natural numbers have different decimal texts.
pub proof fn lemma_decimal_injective(a: nat, b: nat)
    requires
        a != b,
    ensures
        decimal(a) != decimal(b),
    decreases a + b,
{
    lemma_decimal_first_digit(a);
    lemma_decimal_first_digit(b);
    if decimal(a) == decimal(b) {
        if a < 10 && b < 10 {
            assert(decimal(a)[0] == decimal(b)[0]);
        } else if a >= 10 && b >= 10 {
            let pa = decimal(a / 10);
            let pb = decimal(b / 10);
            assert(pa == decimal(a).drop_last());
            assert(pb == decimal(b).drop_last());
            assert(decimal(a).last() == digit_char((a % 10) as int));
            assert(decimal(b).last() == digit_char((b % 10) as int));
            if a / 10 == b / 10 {
                assert(a % 10 != b % 10);
            } else {
                lemma_decimal_injective(a / 10, b / 10);
            }
        } else if a < 10 {
            lemma_decimal_first_digit(b / 10);
            assert(decimal(b).len() >= 2);
        } else {
            lemma_decimal_first_digit(a / 10);
            assert(decimal(a).len() >= 2);
        }
    }
}

} // verus!
