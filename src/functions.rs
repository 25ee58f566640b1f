//! Free functions over integers, slices and strings.
use vstd::prelude::*;

verus! {

/// Whether a mathematical integer fits in an `i32`.
pub open spec fn fits_i32(x: int) -> bool {
    i32::MIN <= x <= i32::MAX
}

/// Absolute value of an integer.
pub open spec fn magnitude(x: int) -> int {
    if x < 0 {
        -x
    } else {
        x
    }
}

/// Quotient of `a / b` rounded toward zero, as Rust's integer division does.
pub open spec fn trunc_quot(a: int, b: int) -> int {
    if (a < 0) == (b < 0) {
        magnitude(a) / magnitude(b)
    } else {
        -(magnitude(a) / magnitude(b))
    }
}

/// Remainder that goes with `trunc_quot`: it takes the sign of `a`.
pub open spec fn trunc_rem(a: int, b: int) -> int {
    a - b * trunc_quot(a, b)
}

/// Sum of a sequence of integers.
pub open spec fn seq_sum(s: Seq<i32>) -> int
    decreases s.len(),
{
    if s.len() == 0 {
        0
    } else {
        seq_sum(s.drop_last()) + s.last() as int
    }
}

/// Every running total of `s`, from the first element to the last, fits in an `i32`.
pub open spec fn prefix_sums_fit(s: Seq<i32>) -> bool {
    forall|k: int| 0 <= k <= s.len() ==> #[trigger] fits_i32(seq_sum(s.take(k)))
}

/// Sum of two integers.
pub fn add(a: i32, b: i32) -> (r: i32)
    requires
        fits_i32(a + b),
    ensures
        r == a + b,
{
    a + b
}

/// Product of two integers.
pub fn multiply(a: i32, b: i32) -> (r: i32)
    requires
        fits_i32(a * b),
    ensures
        r == a * b,
{
    a * b
}

/// `a * b + c`.
pub fn calculate(a: i32, b: i32, c: i32) -> (r: i32)
    requires
        fits_i32(a * b),
        fits_i32(a * b + c),
    ensures
        r == a * b + c,
{
    a * b + c
}

/// `Some(n)` when `n` is not negative, `None` otherwise.
pub fn check_positive(n: i32) -> (r: Option<i32>)
    ensures
        n < 0 ==> r.is_none(),
        n >= 0 ==> r == Some(n),
{
    if n < 0 {
        return None;
    }
    Some(n)
}

/// Quotient and remainder of integer division, rounded toward zero.
pub fn divide(dividend: i32, divisor: i32) -> (r: (i32, i32))
    requires
        divisor != 0,
        !(dividend == i32::MIN && divisor == -1),
    ensures
        r.0 == trunc_quot(dividend as int, divisor as int),
        r.1 == trunc_rem(dividend as int, divisor as int),
{
    // Divide the magnitudes, where rounding toward zero and floor division
    // agree, then give each part its sign; i64 holds the magnitude of i32::MIN.
    let a: i64 = if dividend < 0 { -(dividend as i64) } else { dividend as i64 };
    let b: i64 = if divisor < 0 { -(divisor as i64) } else { divisor as i64 };
    let size: i64 = a / b;
    proof {
        vstd::arithmetic::div_mod::lemma_div_is_ordered_by_denominator(a as int, 1, b as int);
        if b >= 2 {
            vstd::arithmetic::div_mod::lemma_div_is_ordered_by_denominator(a as int, 2, b as int);
        }
    }
    let quotient: i64 = if (dividend < 0) == (divisor < 0) { size } else { -size };
    let leftover: i64 = a % b;
    let remainder: i64 = if dividend < 0 { -leftover } else { leftover };
    proof {
        vstd::arithmetic::div_mod::lemma_fundamental_div_mod(a as int, b as int);
        assert(remainder == dividend - divisor * quotient) by (nonlinear_arith)
            requires
                a == if dividend < 0 { -dividend } else { dividend as int },
                b == if divisor < 0 { -divisor } else { divisor as int },
                a == b * size + leftover,
                quotient == if (dividend < 0) == (divisor < 0) { size as int } else { -size },
                remainder == if dividend < 0 { -leftover } else { leftover as int },
        ;
    }
    (quotient as i32, remainder as i32)
}

/// Adds one to the integer behind `x`.
pub fn increment(x: &mut i32)
    requires
        *old(x) < i32::MAX,
    ensures
        *final(x) == *old(x) + 1,
{
    *x += 1;
}

/// The greeting line built around `name`.
pub open spec fn greeting_text(name: Seq<char>) -> Seq<char> {
    "   Greeting: Hello, "@ + name + "! Welcome to Rust!"@
}

/// A welcome message addressed to `name`.
pub fn create_greeting(name: &str) -> (r: String)
    ensures
        r@ == greeting_text(name@),
{
    let mut message = String::from_str("   Greeting: Hello, ");
    message.append(name);
    message.append("! Welcome to Rust!");
    message
}

/// The larger of two integers; `b` when they are equal.
pub fn max(a: i32, b: i32) -> (r: i32)
    ensures
        r == if a > b { a } else { b },
{
    if a > b {
        a
    } else {
        b
    }
}

/// Sum of the elements of `arr`.
pub fn array_sum(arr: &[i32]) -> (r: i32)
    requires
        prefix_sums_fit(arr@),
    ensures
        r == seq_sum(arr@),
{
    let mut sum: i32 = 0;
    let mut i: usize = 0;
    while i < arr.len()
        invariant
            i <= arr@.len(),
            prefix_sums_fit(arr@),
            sum == seq_sum(arr@.take(i as int)),
        decreases arr@.len() - i,
    {
        proof {
            assert(arr@.take(i as int + 1).drop_last() == arr@.take(i as int));
            assert(fits_i32(seq_sum(arr@.take(i as int + 1))));
        }
        sum = sum + arr[i];
        i = i + 1;
    }
    assert(arr@.take(arr@.len() as int) == arr@);
    sum
}

} // verus!
