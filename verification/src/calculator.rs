//! A handful of small functions to offer as tools.

use vstd::prelude::*;
use vstd::arithmetic::power::pow;

verus! {

/// Whether a number can be held in a `u64`.
pub open spec fn fits_u64(x: int) -> bool {
    0 <= x <= u64::MAX
}

/// Whether a number can be held in an `i64`.
pub open spec fn fits_i64(x: int) -> bool {
    i64::MIN <= x <= i64::MAX
}

/// Whether an outcome is the failure with the given text.
pub open spec fn fails_with<T>(r: Result<T, String>, text: Seq<char>) -> bool {
    r is Err && r->Err_0@ == text
}

/// The failure with the given text.
fn failure<T>(text: &str) -> (r: Result<T, String>)
    ensures
        fails_with(r, text@),
{
    Err(String::from_str(text))
}

/// Adds two numbers. Fails where the sum cannot be held.
pub fn add(a: u64, b: u64) -> (r: Result<u64, String>)
    ensures
        fits_u64(a + b) ==> r == Ok::<u64, String>((a + b) as u64),
        !fits_u64(a + b) ==> fails_with(r, "attempt to add with overflow"@),
{
    match a.checked_add(b) {
        Some(sum) => Ok(sum),
        None => failure("attempt to add with overflow"),
    }
}

/// Subtracts `b` from `a`. Fails where the difference cannot be held.
pub fn subtract(a: i64, b: i64) -> (r: Result<i64, String>)
    ensures
        fits_i64(a - b) ==> r == Ok::<i64, String>((a - b) as i64),
        !fits_i64(a - b) ==> fails_with(r, "attempt to subtract with overflow"@),
{
    match a.checked_sub(b) {
        Some(difference) => Ok(difference),
        None => failure("attempt to subtract with overflow"),
    }
}

/// Multiplies two numbers. Fails where the product cannot be held.
pub fn multiply(a: i64, b: i64) -> (r: Result<i64, String>)
    ensures
        fits_i64(a * b) ==> r == Ok::<i64, String>((a * b) as i64),
        !fits_i64(a * b) ==> fails_with(r, "attempt to multiply with overflow"@),
{
    match a.checked_mul(b) {
        Some(product) => Ok(product),
        None => failure("attempt to multiply with overflow"),
    }
}

/// The quotient of `a` by `b`, rounded toward zero.
pub open spec fn truncated_quotient(a: int, b: int) -> int
    recommends
        b != 0,
{
    if a >= 0 && b > 0 {
        a / b
    } else if a < 0 && b < 0 {
        (-a) / (-b)
    } else if a < 0 {
        -((-a) / b)
    } else {
        -(a / (-b))
    }
}

/// Divides `a` by `b`, rounding toward zero. Fails where `b` is zero, and
/// where the quotient cannot be held.
pub fn divide(a: i64, b: i64) -> (r: Result<i64, String>)
    ensures
        b == 0 ==> fails_with(r, "attempt to divide by zero"@),
        b != 0 && !fits_i64(truncated_quotient(a as int, b as int)) ==> fails_with(r, "attempt to divide with overflow"@),
        b != 0 && fits_i64(truncated_quotient(a as int, b as int)) ==> r == Ok::<i64, String>(
            truncated_quotient(a as int, b as int) as i64,
        ),
{
    if b == 0 {
        return failure("attempt to divide by zero");
    }
    match a.checked_div(b) {
        Some(quotient) => Ok(quotient),
        None => failure("attempt to divide with overflow"),
    }
}

/// The sum of a list of numbers.
pub open spec fn sum_of(s: Seq<i64>) -> int
    decreases s.len(),
{
    if s.len() == 0 {
        0
    } else {
        sum_of(s.drop_last()) + s.last()
    }
}

/// Whether the numbers can be summed from the first to the last with
/// every sum on the way held in an `i64`.
pub open spec fn sums_fit(s: Seq<i64>) -> bool {
    forall|k: int| 0 <= k <= s.len() ==> fits_i64(#[trigger] sum_of(s.take(k)))
}

/// Sums a list of numbers from the first to the last. Fails where a sum
/// on the way cannot be held.
pub fn sum_numbers(numbers: Vec<i64>) -> (r: Result<i64, String>)
    ensures
        sums_fit(numbers@) ==> r == Ok::<i64, String>(sum_of(numbers@) as i64),
        !sums_fit(numbers@) ==> fails_with(r, "attempt to add with overflow"@),
{
    let mut total: i64 = 0;
    let mut i: usize = 0;
    while i < numbers.len()
        invariant
            i <= numbers.len(),
            total == sum_of(numbers@.take(i as int)),
            forall|k: int| 0 <= k <= i ==> fits_i64(#[trigger] sum_of(numbers@.take(k))),
        decreases numbers.len() - i,
    {
        proof {
            assert(numbers@.take(i + 1).drop_last() =~= numbers@.take(i as int));
        }
        match total.checked_add(numbers[i]) {
            Some(next) => {
                total = next;
            },
            None => {
                assert(!fits_i64(sum_of(numbers@.take(i + 1))));
                return failure("attempt to add with overflow");
            },
        }
        i = i + 1;
    }
    proof {
        assert(numbers@.take(numbers.len() as int) =~= numbers@);
    }
    Ok(total)
}

/// Answers the secret question.
pub fn answer_secret_question() -> (r: Result<(bool, bool, bool, bool, bool), String>)
    ensures
        r == Ok::<(bool, bool, bool, bool, bool), String>((false, false, true, false, false)),
{
    Ok((false, false, true, false, false))
}

/// Whether a character is the letter R, in either case.
pub open spec fn is_r(c: char) -> bool {
    c == 'r' || c == 'R'
}

/// How many of the characters are the letter R, in either case.
pub open spec fn count_rs(s: Seq<char>) -> nat {
    s.filter(|c: char| is_r(c)).len()
}

/// Counts the letter R, in either case, in a text.
pub fn how_many_rs(s: String) -> (r: Result<usize, String>)
    ensures
        r matches Ok(n) && n == count_rs(s@),
{
    let len: usize = s.as_str().unicode_len();
    let mut n: usize = 0;
    for c in it: s.as_str().chars()
        invariant
            it.seq() == s@,
            len == s@.len(),
            n == count_rs(s@.take(it.index() as int)),
            n <= it.index(),
    {
        proof {
            let before = s@.take(it.index() as int);
            assert(s@.take(it.index() + 1) =~= before.push(c));
            before.lemma_filter_push(c, |c: char| is_r(c));
        }
        if c == 'r' || c == 'R' {
            n = n + 1;
        }
    }
    proof {
        assert(s@.take(s@.len() as int) =~= s@);
    }
    Ok(n)
}

/// A base and an exponent.
#[derive(Debug, Clone, Copy, PartialEq, Eq)]
pub struct PowInput {
    pub a: i64,
    pub b: i64,
}

/// A power, with the base and the exponent that it was computed from.
#[derive(Debug, Clone, Copy, PartialEq, Eq)]
pub struct PowResult {
    pub input: (i64, i64),
    pub result: i64,
}

/// The exponent that `b` stands for: its lowest 32 bits, read as a number
/// without sign.
pub open spec fn exponent_of(b: i64) -> nat {
    (b as u32) as nat
}

/// The absolute value of a number.
pub open spec fn magnitude(x: int) -> int {
    if x < 0 {
        -x
    } else {
        x
    }
}

/// The powers of a base of magnitude two or more at least double with
/// every step of the exponent.
proof fn lemma_power_grows(a: int, m: nat, n: nat)
    requires
        magnitude(a) >= 2,
        m <= n,
    ensures
        magnitude(pow(a, m)) >= 1,
        m < n ==> magnitude(pow(a, n)) >= 2 * magnitude(pow(a, m)),
        m == n ==> pow(a, n) == pow(a, m),
    decreases n,
{
    reveal(pow);
    if m > 0 {
        lemma_power_grows(a, (m - 1) as nat, (m - 1) as nat);
        assert(magnitude(a * pow(a, (m - 1) as nat)) >= 1) by (nonlinear_arith)
            requires
                magnitude(a) >= 2,
                magnitude(pow(a, (m - 1) as nat)) >= 1,
        ;
    }
    if m < n {
        lemma_power_grows(a, m, (n - 1) as nat);
        let p = pow(a, (n - 1) as nat);
        assert(magnitude(a * p) >= 2 * magnitude(p)) by (nonlinear_arith)
            requires
                magnitude(a) >= 2,
        ;
    }
}

/// The powers of minus one are one and minus one in turn.
proof fn lemma_power_of_minus_one(n: nat)
    ensures
        pow(-1, n) == if n % 2 == 0 {
            1int
        } else {
            -1int
        },
    decreases n,
{
    reveal(pow);
    if n > 0 {
        lemma_power_of_minus_one((n - 1) as nat);
    }
}

/// Raises `a` to the power that `b` stands for. Fails where the power
/// cannot be held.
pub fn power(pow_input: PowInput) -> (r: Result<PowResult, String>)
    ensures
        fits_i64(pow(pow_input.a as int, exponent_of(pow_input.b))) ==> r == Ok::<
            PowResult,
            String,
        >(
            PowResult {
                input: (pow_input.a, pow_input.b),
                result: pow(pow_input.a as int, exponent_of(pow_input.b)) as i64,
            },
        ),
        !fits_i64(pow(pow_input.a as int, exponent_of(pow_input.b))) ==> fails_with(
            r,
            "attempt to multiply with overflow"@,
        ),
{
    let a: i64 = pow_input.a;
    let e: u32 = #[verifier::truncate]
    (pow_input.b as u32);
    let mut result: i64 = 1;
    if a == 0 || a == 1 {
        proof {
            if e > 0 {
                vstd::arithmetic::power::lemma0_pow(e as nat);
            }
            vstd::arithmetic::power::lemma1_pow(e as nat);
            vstd::arithmetic::power::lemma_pow0(a as int);
        }
        if a == 0 && e > 0 {
            result = 0;
        }
    } else if a == -1 {
        proof {
            lemma_power_of_minus_one(e as nat);
        }
        if e % 2 == 1 {
            result = -1;
        }
    } else {
        let mut k: u32 = 0;
        proof {
            vstd::arithmetic::power::lemma_pow0(a as int);
        }
        while k < e
            invariant
                k <= e,
                a == pow_input.a,
                e as nat == exponent_of(pow_input.b),
                magnitude(a as int) >= 2,
                result == pow(a as int, k as nat),
            decreases e - k,
        {
            proof {
                reveal(pow);
                assert(pow(a as int, (k + 1) as nat) == a * pow(a as int, k as nat));
                assert(a * result == result * a) by (nonlinear_arith);
            }
            match result.checked_mul(a) {
                Some(next) => {
                    result = next;
                },
                None => {
                    proof {
                        let next = pow(a as int, (k + 1) as nat);
                        assert(next == result * a);
                        assert(!fits_i64(next));
                        lemma_power_grows(a as int, (k + 1) as nat, e as nat);
                        assert(!fits_i64(pow(a as int, e as nat)));
                    }
                    return failure("attempt to multiply with overflow");
                },
            }
            k = k + 1;
        }
    }
    Ok(PowResult { input: (pow_input.a, pow_input.b), result })
}

} // verus!
