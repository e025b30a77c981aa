//! Decimal digits: how many a number has, and which.

use vstd::prelude::*;

verus! {

/// How many decimal digits `n` has. Zero has none.
pub open spec fn digit_count(n: nat) -> nat
    decreases n,
{
    if n == 0 {
        0
    } else {
        1 + digit_count(n / 10)
    }
}

/// Ten to the power `k`.
pub open spec fn pow10(k: nat) -> nat
    decreases k,
{
    if k == 0 {
        1
    } else {
        10 * pow10((k - 1) as nat)
    }
}

/// A number has no more digits than its own value.
pub proof fn lemma_digit_count_at_most_value(n: nat)
    ensures
        digit_count(n) <= n,
    decreases n,
{
    if n > 0 {
        lemma_digit_count_at_most_value(n / 10);
    }
}

/// The digit count places a positive number between two powers of ten:
/// `d` digits mean `10^(d-1) <= n < 10^d`.
pub proof fn lemma_digit_count_brackets(n: nat)
    requires
        n > 0,
    ensures
        digit_count(n) >= 1,
        pow10((digit_count(n) - 1) as nat) <= n < pow10(digit_count(n)),
    decreases n,
{
    if n >= 10 {
        lemma_digit_count_brackets(n / 10);
    } else {
        assert(digit_count(n / 10) == 0);
    }
}

/// A larger number has no fewer digits.
pub proof fn lemma_digit_count_monotonic(m: nat, n: nat)
    requires
        m <= n,
    ensures
        digit_count(m) <= digit_count(n),
    decreases n,
{
    if m > 0 {
        lemma_digit_count_monotonic(m / 10, n / 10);
    }
}

/// A number below `10^k` has at most `k` digits.
pub proof fn lemma_digit_count_below_power(n: nat, k: nat)
    requires
        n < pow10(k),
    ensures
        digit_count(n) <= k,
    decreases k,
{
    if n > 0 && k > 0 {
        lemma_digit_count_below_power(n / 10, (k - 1) as nat);
    }
}

/// Every `usize` has at most twenty digits.
pub proof fn lemma_digit_count_usize(n: usize)
    ensures
        digit_count(n as nat) <= 20,
{
    assert(pow10(20) == 100_000_000_000_000_000_000) by {
        reveal_with_fuel(pow10, 21);
    }
    lemma_digit_count_below_power(n as nat, 20);
}

/// The char of the digit `d`, for `d` below ten.
pub open spec fn digit_char(d: nat) -> char {
    ('0' as nat + d) as char
}

/// `n` in decimal, most significant digit first. Zero is written `0`.
pub open spec fn decimal(n: nat) -> Seq<char>
    decreases n,
{
    if n < 10 {
        seq![digit_char(n)]
    } else {
        decimal(n / 10).push(digit_char(n % 10))
    }
}

/// A positive number is written with as many chars as it has digits, and
/// zero with one.
pub proof fn lemma_decimal_len(n: nat)
    ensures
        decimal(n).len() == if n == 0 {
            1
        } else {
            digit_count(n)
        },
    decreases n,
{
    if n >= 10 {
        lemma_decimal_len(n / 10);
    } else if n > 0 {
        assert(digit_count(n / 10) == 0);
    }
}

/// Counts the decimal digits of `num`: none for zero, and otherwise the `d`
/// with `10^(d-1) <= num < 10^d`.
pub fn num_digits(num: usize) -> (digits: usize)
    ensures
        digits == digit_count(num as nat),
        num == 0 ==> digits == 0,
        num > 0 ==> 1 <= digits <= 20 && pow10((digits - 1) as nat) <= num < pow10(digits as nat),
{
    proof {
        lemma_digit_count_usize(num);
        if num > 0 {
            lemma_digit_count_brackets(num as nat);
        }
    }
    let mut digits: usize = 0;
    let mut n: usize = num;
    while n > 0
        invariant
            digits + digit_count(n as nat) == digit_count(num as nat),
        decreases n,
    {
        proof {
            lemma_digit_count_at_most_value(num as nat);
        }
        n /= 10;
        digits += 1;
    }
    digits
}

/// Appends `n` in decimal to `text`.
pub fn push_decimal(text: &mut String, n: usize)
    ensures
        final(text)@ == old(text)@ + decimal(n as nat),
    decreases n,
{
    if n >= 10 {
        push_decimal(text, n / 10);
    }
    let digit: u8 = (n % 10) as u8;
    // 48 is the code of '0'.
    text.push((48u8 + digit) as char);
}

} // verus!
