//! Overflow-checked integer arithmetic and decimal scaling.

use crate::error::PerpetualsError;
use vstd::arithmetic::div_mod::*;
use vstd::arithmetic::power::*;
use vstd::prelude::*;

verus! {

/// `Ok(v)` when `v` is a `u64`, `MathOverflow` otherwise.
pub open spec fn checked_u64(v: int) -> Result<u64, PerpetualsError> {
    if 0 <= v <= u64::MAX {
        Ok(v as u64)
    } else {
        Err(PerpetualsError::MathOverflow)
    }
}

/// `Ok(v)` when `v` is a `u128`, `MathOverflow` otherwise.
pub open spec fn checked_u128(v: int) -> Result<u128, PerpetualsError> {
    if 0 <= v <= u128::MAX {
        Ok(v as u128)
    } else {
        Err(PerpetualsError::MathOverflow)
    }
}

/// `Ok(v)` when `v` is an `i32`, `MathOverflow` otherwise.
pub open spec fn checked_i32(v: int) -> Result<i32, PerpetualsError> {
    if i32::MIN <= v <= i32::MAX {
        Ok(v as i32)
    } else {
        Err(PerpetualsError::MathOverflow)
    }
}

/// `Ok(v)` when `v` is an `i64`, `MathOverflow` otherwise.
pub open spec fn checked_i64(v: int) -> Result<i64, PerpetualsError> {
    if i64::MIN <= v <= i64::MAX {
        Ok(v as i64)
    } else {
        Err(PerpetualsError::MathOverflow)
    }
}

pub fn checked_add(a: u64, b: u64) -> (r: Result<u64, PerpetualsError>)
    ensures
        r == checked_u64(a + b),
{
    match a.checked_add(b) {
        Some(v) => Ok(v),
        None => Err(PerpetualsError::MathOverflow),
    }
}

pub fn checked_sub(a: u64, b: u64) -> (r: Result<u64, PerpetualsError>)
    ensures
        r == checked_u64(a - b),
{
    match a.checked_sub(b) {
        Some(v) => Ok(v),
        None => Err(PerpetualsError::MathOverflow),
    }
}

pub fn checked_mul(a: u64, b: u64) -> (r: Result<u64, PerpetualsError>)
    ensures
        r == checked_u64(a * b),
{
    match a.checked_mul(b) {
        Some(v) => Ok(v),
        None => Err(PerpetualsError::MathOverflow),
    }
}

/// Quotient rounded toward zero; a zero divisor is an overflow.
pub fn checked_div(a: u64, b: u64) -> (r: Result<u64, PerpetualsError>)
    ensures
        b != 0 ==> r == Ok::<u64, PerpetualsError>((a / b) as u64),
        b == 0 ==> r == Err::<u64, PerpetualsError>(PerpetualsError::MathOverflow),
{
    if b == 0 {
        Err(PerpetualsError::MathOverflow)
    } else {
        Ok(a / b)
    }
}

pub fn checked_add_u128(a: u128, b: u128) -> (r: Result<u128, PerpetualsError>)
    ensures
        r == checked_u128(a + b),
{
    match a.checked_add(b) {
        Some(v) => Ok(v),
        None => Err(PerpetualsError::MathOverflow),
    }
}

pub fn checked_sub_u128(a: u128, b: u128) -> (r: Result<u128, PerpetualsError>)
    ensures
        r == checked_u128(a - b),
{
    match a.checked_sub(b) {
        Some(v) => Ok(v),
        None => Err(PerpetualsError::MathOverflow),
    }
}

pub fn checked_mul_u128(a: u128, b: u128) -> (r: Result<u128, PerpetualsError>)
    ensures
        r == checked_u128(a * b),
{
    match a.checked_mul(b) {
        Some(v) => Ok(v),
        None => Err(PerpetualsError::MathOverflow),
    }
}

/// Quotient rounded toward zero; a zero divisor is an overflow.
pub fn checked_div_u128(a: u128, b: u128) -> (r: Result<u128, PerpetualsError>)
    ensures
        b != 0 ==> r == Ok::<u128, PerpetualsError>((a / b) as u128),
        b == 0 ==> r == Err::<u128, PerpetualsError>(PerpetualsError::MathOverflow),
{
    if b == 0 {
        Err(PerpetualsError::MathOverflow)
    } else {
        Ok(a / b)
    }
}

pub fn checked_add_i32(a: i32, b: i32) -> (r: Result<i32, PerpetualsError>)
    ensures
        r == checked_i32(a + b),
{
    match a.checked_add(b) {
        Some(v) => Ok(v),
        None => Err(PerpetualsError::MathOverflow),
    }
}

pub fn checked_sub_i32(a: i32, b: i32) -> (r: Result<i32, PerpetualsError>)
    ensures
        r == checked_i32(a - b),
{
    match a.checked_sub(b) {
        Some(v) => Ok(v),
        None => Err(PerpetualsError::MathOverflow),
    }
}

pub fn checked_sub_i64(a: i64, b: i64) -> (r: Result<i64, PerpetualsError>)
    ensures
        r == checked_i64(a - b),
{
    match a.checked_sub(b) {
        Some(v) => Ok(v),
        None => Err(PerpetualsError::MathOverflow),
    }
}

/// Narrows without truncation: a value above `u64::MAX` is an overflow.
pub fn checked_as_u64(v: u128) -> (r: Result<u64, PerpetualsError>)
    ensures
        r == checked_u64(v as int),
{
    if v <= 0xffff_ffff_ffff_ffff {
        Ok(v as u64)
    } else {
        Err(PerpetualsError::MathOverflow)
    }
}

/// The powers of ten next to the limits of `u64` and `u128`.
pub proof fn lemma_pow10_limits()
    ensures
        pow(10, 19) == 10_000_000_000_000_000_000int,
        pow(10, 20) == 100_000_000_000_000_000_000int,
        pow(10, 38) == 100_000_000_000_000_000_000_000_000_000_000_000_000int,
        pow(10, 39) == 1_000_000_000_000_000_000_000_000_000_000_000_000_000int,
        pow(10, 19) <= u64::MAX < pow(10, 20),
        pow(10, 38) <= u128::MAX < pow(10, 39),
{
    reveal_with_fuel(pow, 21);
    assert(pow(10, 20) == 100_000_000_000_000_000_000int);
    assert(pow(10, 19) == 10_000_000_000_000_000_000int);
    lemma_pow_adds(10, 19, 19);
    lemma_pow_adds(10, 19, 20);
}

/// `base` raised to `exp`, or `MathOverflow` when the power is not a `u64`.
pub fn checked_pow(base: u64, exp: usize) -> (r: Result<u64, PerpetualsError>)
    ensures
        r == checked_u64(pow(base as int, exp as nat)),
{
    if exp == 0 {
        proof {
            lemma_pow0(base as int);
        }
        return Ok(1);
    }
    if base <= 1 {
        proof {
            if base == 0 {
                lemma0_pow(exp as nat);
            } else {
                lemma1_pow(exp as nat);
            }
        }
        return Ok(base);
    }
    let mut acc: u64 = 1;
    let mut i: usize = 0;
    proof {
        lemma_pow0(base as int);
    }
    while i < exp
        invariant
            i <= exp,
            base >= 2,
            acc == pow(base as int, i as nat),
        decreases exp - i,
    {
        proof {
            assert(pow(base as int, (i + 1) as nat) == base * pow(base as int, i as nat)) by {
                reveal(pow);
            }
            assert(base * pow(base as int, i as nat) == acc * base) by (nonlinear_arith)
                requires
                    acc == pow(base as int, i as nat),
            ;
        }
        match acc.checked_mul(base) {
            Some(v) => {
                acc = v;
            },
            None => {
                proof {
                    lemma_pow_increases(base as nat, (i + 1) as nat, exp as nat);
                }
                return Err(PerpetualsError::MathOverflow);
            },
        }
        i += 1;
    }
    Ok(acc)
}

/// `base` raised to `exp`, or `MathOverflow` when the power is not a `u128`.
pub fn checked_pow_u128(base: u128, exp: usize) -> (r: Result<u128, PerpetualsError>)
    ensures
        r == checked_u128(pow(base as int, exp as nat)),
{
    if exp == 0 {
        proof {
            lemma_pow0(base as int);
        }
        return Ok(1);
    }
    if base <= 1 {
        proof {
            if base == 0 {
                lemma0_pow(exp as nat);
            } else {
                lemma1_pow(exp as nat);
            }
        }
        return Ok(base);
    }
    let mut acc: u128 = 1;
    let mut i: usize = 0;
    proof {
        lemma_pow0(base as int);
    }
    while i < exp
        invariant
            i <= exp,
            base >= 2,
            acc == pow(base as int, i as nat),
        decreases exp - i,
    {
        proof {
            assert(pow(base as int, (i + 1) as nat) == base * pow(base as int, i as nat)) by {
                reveal(pow);
            }
            assert(base * pow(base as int, i as nat) == acc * base) by (nonlinear_arith)
                requires
                    acc == pow(base as int, i as nat),
            ;
        }
        match acc.checked_mul(base) {
            Some(v) => {
                acc = v;
            },
            None => {
                proof {
                    lemma_pow_increases(base as nat, (i + 1) as nat, exp as nat);
                }
                return Err(PerpetualsError::MathOverflow);
            },
        }
        i += 1;
    }
    Ok(acc)
}

/// The exact value of `c1 * 10^e1 * c2 * 10^e2` counted in units of
/// `10^target`, rounded toward zero.
pub open spec fn decimal_mul_value(c1: u64, e1: i32, c2: u64, e2: i32, target: i32) -> int {
    let p = e1 + e2 - target;
    if p >= 0 {
        c1 * c2 * pow(10, p as nat)
    } else {
        (c1 * c2) / pow(10, (-p) as nat)
    }
}

/// The exact value of `(c1 * 10^e1) / (c2 * 10^e2)` counted in units of
/// `10^target`, rounded toward zero; `c2` is not zero.
pub open spec fn decimal_div_value(c1: u64, e1: i32, c2: u64, e2: i32, target: i32) -> int {
    let p = e1 - e2 - target;
    if p >= 0 {
        (c1 * pow(10, p as nat)) / (c2 as int)
    } else {
        (c1 as int) / (c2 * pow(10, (-p) as nat))
    }
}

/// What `checked_decimal_div` returns: a zero divisor is an overflow.
pub open spec fn decimal_div_result(c1: u64, e1: i32, c2: u64, e2: i32, target: i32) -> Result<
    u64,
    PerpetualsError,
> {
    if c2 == 0 {
        Err(PerpetualsError::MathOverflow)
    } else {
        checked_u64(decimal_div_value(c1, e1, c2, e2, target))
    }
}

/// Multiplies two decimals and expresses the product at `target`. Succeeds
/// exactly when the rounded product is a `u64`: no intermediate step can
/// overflow on its own.
pub fn checked_decimal_mul(c1: u64, e1: i32, c2: u64, e2: i32, target: i32) -> (r: Result<
    u64,
    PerpetualsError,
>)
    ensures
        r == checked_u64(decimal_mul_value(c1, e1, c2, e2, target)),
{
    let p: i64 = e1 as i64 + e2 as i64 - target as i64;
    proof {
        lemma_pow10_limits();
        assert(0 <= c1 * c2 <= 0xffff_ffff_ffff_ffff * 0xffff_ffff_ffff_ffff) by (nonlinear_arith)
            requires
                0 <= c1 <= 0xffff_ffff_ffff_ffff,
                0 <= c2 <= 0xffff_ffff_ffff_ffff,
        ;
    }
    let prod: u128 = (c1 as u128) * (c2 as u128);
    if p >= 0 {
        if prod == 0 {
            proof {
                assert(prod * pow(10, p as nat) == 0) by (nonlinear_arith)
                    requires
                        prod == 0,
                ;
            }
            return Ok(0);
        }
        if p > 19 {
            proof {
                lemma_pow_increases(10, 20, p as nat);
                assert(prod * pow(10, p as nat) > u64::MAX) by (nonlinear_arith)
                    requires
                        prod >= 1,
                        pow(10, p as nat) > u64::MAX,
                ;
            }
            return Err(PerpetualsError::MathOverflow);
        }
        let scale = pow10_u128(p as u32);
        match prod.checked_mul(scale) {
            Some(v) => checked_as_u64(v),
            None => Err(PerpetualsError::MathOverflow),
        }
    } else {
        if p < -38 {
            proof {
                lemma_pow_increases(10, 39, (-p) as nat);
                lemma_basic_div(prod as int, pow(10, (-p) as nat));
            }
            return Ok(0);
        }
        let scale = pow10_u128((-p) as u32);
        proof {
            lemma_pow_positive(10, (-p) as nat);
            lemma_div_nonincreasing(prod as int, scale as int);
            lemma_div_pos_is_pos(prod as int, scale as int);
        }
        checked_as_u64(prod / scale)
    }
}

/// Divides one decimal by another and expresses the quotient at `target`.
/// A zero divisor fails; otherwise it succeeds exactly when the rounded
/// quotient is a `u64`.
pub fn checked_decimal_div(c1: u64, e1: i32, c2: u64, e2: i32, target: i32) -> (r: Result<
    u64,
    PerpetualsError,
>)
    ensures
        r == decimal_div_result(c1, e1, c2, e2, target),
{
    if c2 == 0 {
        return Err(PerpetualsError::MathOverflow);
    }
    let p: i64 = e1 as i64 - e2 as i64 - target as i64;
    proof {
        lemma_pow10_limits();
    }
    if p >= 0 {
        if c1 == 0 {
            proof {
                assert(c1 * pow(10, p as nat) == 0) by (nonlinear_arith)
                    requires
                        c1 == 0,
                ;
            }
            return Ok(0);
        }
        if p > 38 {
            proof {
                lemma_pow_increases(10, 39, p as nat);
                assert(c1 * pow(10, p as nat) > u128::MAX) by (nonlinear_arith)
                    requires
                        c1 >= 1,
                        pow(10, p as nat) > u128::MAX,
                ;
                lemma_large_quotient(c1 * pow(10, p as nat), c2 as int);
            }
            return Err(PerpetualsError::MathOverflow);
        }
        let scale = pow10_u128(p as u32);
        match (c1 as u128).checked_mul(scale) {
            Some(v) => {
                proof {
                    lemma_div_nonincreasing(v as int, c2 as int);
                    lemma_div_pos_is_pos(v as int, c2 as int);
                }
                checked_as_u64(v / (c2 as u128))
            },
            None => {
                proof {
                    lemma_large_quotient(c1 * pow(10, p as nat), c2 as int);
                }
                Err(PerpetualsError::MathOverflow)
            },
        }
    } else {
        if p < -19 {
            proof {
                lemma_pow_increases(10, 20, (-p) as nat);
                assert(c2 * pow(10, (-p) as nat) > u64::MAX) by (nonlinear_arith)
                    requires
                        c2 >= 1,
                        pow(10, (-p) as nat) > u64::MAX,
                ;
                lemma_basic_div(c1 as int, c2 * pow(10, (-p) as nat));
            }
            return Ok(0);
        }
        let scale = pow10_u128((-p) as u32);
        proof {
            lemma_pow_increases(10, (-p) as nat, 19);
            assert(0 < c2 * scale <= 0xffff_ffff_ffff_ffff * 10_000_000_000_000_000_000)
                by (nonlinear_arith)
                requires
                    1 <= c2 <= 0xffff_ffff_ffff_ffff,
                    1 <= scale <= 10_000_000_000_000_000_000,
            ;
        }
        let divisor: u128 = (c2 as u128) * scale;
        proof {
            lemma_div_nonincreasing(c1 as int, divisor as int);
            lemma_div_pos_is_pos(c1 as int, divisor as int);
        }
        checked_as_u64((c1 as u128) / divisor)
    }
}

/// A dividend above `u128::MAX` over a `u64` divisor gives a quotient above
/// `u64::MAX`.
pub proof fn lemma_large_quotient(x: int, d: int)
    requires
        x > u128::MAX,
        0 < d <= u64::MAX,
    ensures
        x / d > u64::MAX,
{
    lemma_fundamental_div_mod(x, d);
    lemma_mod_bound(x, d);
    assert(x / d > u64::MAX) by (nonlinear_arith)
        requires
            x == d * (x / d) + x % d,
            0 <= x % d < d,
            x > 0xffff_ffff_ffff_ffff_ffff_ffff_ffff_ffff,
            0 < d <= 0xffff_ffff_ffff_ffff,
    ;
}

/// Ten raised to `n`, for the exponents whose power is a `u128`.
fn pow10_u128(n: u32) -> (r: u128)
    requires
        n <= 38,
    ensures
        r == pow(10, n as nat),
        r >= 1,
{
    let mut acc: u128 = 1;
    let mut i: u32 = 0;
    proof {
        lemma_pow0(10);
        lemma_pow10_limits();
    }
    while i < n
        invariant
            i <= n <= 38,
            acc == pow(10, i as nat),
            acc >= 1,
            pow(10, 38) <= u128::MAX,
        decreases n - i,
    {
        proof {
            assert(pow(10, (i + 1) as nat) == 10 * pow(10, i as nat)) by {
                reveal(pow);
            }
            lemma_pow_increases(10, (i + 1) as nat, 38);
        }
        acc = acc * 10;
        i += 1;
    }
    acc
}

} // verus!
