//! Oracle prices: a mantissa with a signed decimal exponent.

use crate::error::PerpetualsError;
use crate::math;
use vstd::arithmetic::div_mod::*;
use vstd::arithmetic::mul::*;
use vstd::arithmetic::power::*;
use vstd::prelude::*;

verus! {

/// Exponent that `OraclePrice::checked_div` folds into its quotient.
pub const ORACLE_EXPONENT_SCALE: i32 = -9;

/// `10^9`, the mantissa factor that goes with `ORACLE_EXPONENT_SCALE`.
pub const ORACLE_PRICE_SCALE: u64 = 1_000_000_000;

/// Largest mantissa of a normalized price, `2^28 - 1`.
pub const ORACLE_MAX_PRICE: u64 = 268_435_455;

/// Fractional digits of every USD amount.
pub const USD_DECIMALS: u8 = 6;

/// Fractional digits of a stored position price.
pub const PRICE_DECIMALS: u8 = 9;

/// One, in basis points.
pub const BPS_POWER: u64 = 10_000;

/// `mantissa * 10^exponent`.
#[derive(Copy, Clone, Eq, PartialEq, Default, Debug)]
pub struct OraclePrice {
    pub price: u64,
    pub exponent: i32,
}

/// How many times the mantissa `p` is divided by ten before it is at most
/// `ORACLE_MAX_PRICE`.
pub open spec fn normalize_steps(p: nat) -> nat
    decreases p,
{
    if p <= ORACLE_MAX_PRICE {
        0
    } else {
        1 + normalize_steps(p / 10)
    }
}

/// Dividing `steps` times by ten is dividing once by `10^steps`.
proof fn lemma_div_ten_steps(p: nat, k: nat)
    ensures
        (p / (pow(10, k) as nat)) / 10 == p / (pow(10, k + 1) as nat),
        pow(10, k) > 0,
{
    lemma_pow_positive(10, k);
    lemma_pow_positive(10, k + 1);
    assert(pow(10, k + 1) == 10 * pow(10, k)) by {
        reveal(pow);
    }
    lemma_div_denominator(p as int, pow(10, k), 10);
    lemma_mul_is_commutative(pow(10, k), 10);
}

impl OraclePrice {
    pub fn new(price: u64, exponent: i32) -> (r: Self)
        ensures
            r.price == price,
            r.exponent == exponent,
    {
        Self { price, exponent }
    }

    /// A token amount read as a price: `amount * 10^(-decimals)`.
    pub fn new_from_token(amount_and_decimals: (u64, u8)) -> (r: Self)
        ensures
            r.price == amount_and_decimals.0,
            r.exponent == -(amount_and_decimals.1 as int),
    {
        let decimals: i32 = amount_and_decimals.1 as i32;
        Self { price: amount_and_decimals.0, exponent: -decimals }
    }

    /// USD value of `token_amount`, rounded toward zero, or `MathOverflow`
    /// when that value is not a `u64`.
    pub open spec fn asset_amount_usd(self, token_amount: u64, token_decimals: u8) -> Result<
        u64,
        PerpetualsError,
    > {
        math::checked_u64(
            math::decimal_mul_value(
                token_amount,
                (-(token_decimals as int)) as i32,
                self.price,
                self.exponent,
                (-(USD_DECIMALS as int)) as i32,
            ),
        )
    }

    /// Token amount worth `asset_amount_usd`, rounded toward zero. Nothing is
    /// worth nothing, also at price zero; otherwise a zero price fails.
    pub open spec fn token_amount(self, asset_amount_usd: u64, token_decimals: u8) -> Result<
        u64,
        PerpetualsError,
    > {
        if asset_amount_usd == 0 || self.price == 0 {
            Ok(0)
        } else {
            math::decimal_div_result(
                asset_amount_usd,
                (-(USD_DECIMALS as int)) as i32,
                self.price,
                self.exponent,
                (-(token_decimals as int)) as i32,
            )
        }
    }

    /// Converts a token amount to USD with `USD_DECIMALS` fractional digits.
    pub fn get_asset_amount_usd(&self, token_amount: u64, token_decimals: u8) -> (r: Result<
        u64,
        PerpetualsError,
    >)
        ensures
            r == self.asset_amount_usd(token_amount, token_decimals),
    {
        let decimals: i32 = token_decimals as i32;
        let usd: i32 = USD_DECIMALS as i32;
        math::checked_decimal_mul(token_amount, -decimals, self.price, self.exponent, -usd)
    }

    /// Converts a USD amount with `USD_DECIMALS` fractional digits to tokens.
    pub fn get_token_amount(&self, asset_amount_usd: u64, token_decimals: u8) -> (r: Result<
        u64,
        PerpetualsError,
    >)
        ensures
            r == self.token_amount(asset_amount_usd, token_decimals),
    {
        if asset_amount_usd == 0 || self.price == 0 {
            return Ok(0);
        }
        let decimals: i32 = token_decimals as i32;
        let usd: i32 = USD_DECIMALS as i32;
        math::checked_decimal_div(asset_amount_usd, -usd, self.price, self.exponent, -decimals)
    }

    /// The price with its mantissa divided by ten until it is at most
    /// `ORACLE_MAX_PRICE`, the exponent raised once per division.
    pub open spec fn normalized(self) -> Result<OraclePrice, PerpetualsError> {
        let steps = normalize_steps(self.price as nat);
        if self.exponent + steps > i32::MAX {
            Err(PerpetualsError::MathOverflow)
        } else {
            Ok(
                OraclePrice {
                    price: (self.price as nat / (pow(10, steps) as nat)) as u64,
                    exponent: (self.exponent + steps) as i32,
                },
            )
        }
    }

    /// Returns the price with a mantissa of at most `ORACLE_MAX_PRICE`.
    pub fn normalize(&self) -> (r: Result<OraclePrice, PerpetualsError>)
        ensures
            r == self.normalized(),
            r matches Ok(n) ==> n.price <= ORACLE_MAX_PRICE,
    {
        let mut p: u64 = self.price;
        let mut e: i32 = self.exponent;
        let ghost mut k: nat = 0;
        proof {
            lemma_pow0(10);
            assert(pow(10, k) as nat == 1nat);
            assert(self.price as nat / 1nat == self.price as nat);
        }
        while p > ORACLE_MAX_PRICE
            invariant
                normalize_steps(self.price as nat) == k + normalize_steps(p as nat),
                p as nat == self.price as nat / (pow(10, k) as nat),
                e == self.exponent + k,
            decreases p,
        {
            proof {
                lemma_div_ten_steps(self.price as nat, k);
                k = k + 1;
            }
            p = p / 10;
            if e == i32::MAX {
                return Err(PerpetualsError::MathOverflow);
            }
            e = e + 1;
        }
        Ok(OraclePrice { price: p, exponent: e })
    }

    /// Quotient of two normalized prices, the dividend's mantissa widened by
    /// `ORACLE_PRICE_SCALE`.
    pub open spec fn quotient(self, other: OraclePrice) -> Result<OraclePrice, PerpetualsError> {
        match (self.normalized(), other.normalized()) {
            (Ok(base), Ok(divisor)) => {
                let exponent = base.exponent + ORACLE_EXPONENT_SCALE - divisor.exponent;
                if divisor.price == 0 || base.exponent + ORACLE_EXPONENT_SCALE < i32::MIN
                    || exponent < i32::MIN || exponent > i32::MAX {
                    Err(PerpetualsError::MathOverflow)
                } else {
                    Ok(
                        OraclePrice {
                            price: ((base.price * ORACLE_PRICE_SCALE) / (divisor.price as int)) as u64,
                            exponent: exponent as i32,
                        },
                    )
                }
            },
            _ => Err(PerpetualsError::MathOverflow),
        }
    }

    pub fn checked_div(&self, other: &OraclePrice) -> (r: Result<OraclePrice, PerpetualsError>)
        ensures
            r == self.quotient(*other),
    {
        let base = match self.normalize() {
            Ok(b) => b,
            Err(e) => {
                return Err(e);
            },
        };
        let divisor = match other.normalize() {
            Ok(d) => d,
            Err(e) => {
                return Err(e);
            },
        };
        assert(base.price * ORACLE_PRICE_SCALE <= 268_435_455 * 1_000_000_000) by (nonlinear_arith)
            requires
                base.price <= 268_435_455,
                ORACLE_PRICE_SCALE == 1_000_000_000,
        ;
        let scaled = match math::checked_mul(base.price, ORACLE_PRICE_SCALE) {
            Ok(s) => s,
            Err(e) => {
                return Err(e);
            },
        };
        let price = match math::checked_div(scaled, divisor.price) {
            Ok(p) => p,
            Err(e) => {
                return Err(e);
            },
        };
        let shifted = match math::checked_add_i32(base.exponent, ORACLE_EXPONENT_SCALE) {
            Ok(s) => s,
            Err(e) => {
                return Err(e);
            },
        };
        let exponent = match math::checked_sub_i32(shifted, divisor.exponent) {
            Ok(x) => x,
            Err(e) => {
                return Err(e);
            },
        };
        Ok(OraclePrice { price, exponent })
    }

    /// Product of the mantissas at the sum of the exponents.
    pub open spec fn product(self, other: OraclePrice) -> Result<OraclePrice, PerpetualsError> {
        let price = self.price * other.price;
        let exponent = self.exponent + other.exponent;
        if price > u64::MAX || exponent < i32::MIN || exponent > i32::MAX {
            Err(PerpetualsError::MathOverflow)
        } else {
            Ok(OraclePrice { price: price as u64, exponent: exponent as i32 })
        }
    }

    pub fn checked_mul(&self, other: &OraclePrice) -> (r: Result<OraclePrice, PerpetualsError>)
        ensures
            r == self.product(*other),
    {
        let price = match math::checked_mul(self.price, other.price) {
            Ok(p) => p,
            Err(e) => {
                return Err(e);
            },
        };
        let exponent = match math::checked_add_i32(self.exponent, other.exponent) {
            Ok(x) => x,
            Err(e) => {
                return Err(e);
            },
        };
        Ok(OraclePrice { price, exponent })
    }

    /// The same price at `target`: the mantissa multiplied by a power of ten
    /// when the exponent falls, divided and rounded toward zero when it
    /// rises. The power of ten must be a `u64`, so the exponents differ by at
    /// most 19, and so must the new mantissa.
    pub open spec fn scaled(self, target: i32) -> Result<OraclePrice, PerpetualsError> {
        let delta = target - self.exponent;
        if delta == 0 {
            Ok(self)
        } else if delta > 19 || delta < -19 {
            Err(PerpetualsError::MathOverflow)
        } else if delta > 0 {
            Ok(OraclePrice { price: (self.price / (pow(10, delta as nat) as u64)) as u64, exponent: target })
        } else if self.price * pow(10, (-delta) as nat) > u64::MAX {
            Err(PerpetualsError::MathOverflow)
        } else {
            Ok(
                OraclePrice {
                    price: (self.price * pow(10, (-delta) as nat)) as u64,
                    exponent: target,
                },
            )
        }
    }

    pub fn scale_to_exponent(&self, target_exponent: i32) -> (r: Result<
        OraclePrice,
        PerpetualsError,
    >)
        ensures
            r == self.scaled(target_exponent),
    {
        if target_exponent == self.exponent {
            return Ok(*self);
        }
        let delta: i64 = target_exponent as i64 - self.exponent as i64;
        proof {
            math::lemma_pow10_limits();
        }
        if delta > 0 {
            proof {
                if delta > 19 {
                    lemma_pow_increases(10, 20, delta as nat);
                } else {
                    lemma_pow_increases(10, delta as nat, 19);
                }
                lemma_pow_positive(10, delta as nat);
            }
            let scale = match math::checked_pow(10, delta as usize) {
                Ok(s) => s,
                Err(e) => {
                    return Err(e);
                },
            };
            Ok(OraclePrice { price: self.price / scale, exponent: target_exponent })
        } else {
            let up: i64 = -delta;
            proof {
                if up > 19 {
                    lemma_pow_increases(10, 20, up as nat);
                } else {
                    lemma_pow_increases(10, up as nat, 19);
                }
                lemma_pow_positive(10, up as nat);
            }
            let scale = match math::checked_pow(10, up as usize) {
                Ok(s) => s,
                Err(e) => {
                    return Err(e);
                },
            };
            match math::checked_mul(self.price, scale) {
                Ok(price) => Ok(OraclePrice { price, exponent: target_exponent }),
                Err(e) => Err(e),
            }
        }
    }

    /// The two mantissas at the lower of the two exponents, or `None` when
    /// bringing the other price there overflows.
    pub open spec fn aligned(self, other: OraclePrice) -> Option<(u64, u64)> {
        if self.exponent == other.exponent {
            Some((self.price, other.price))
        } else if self.exponent < other.exponent {
            match other.scaled(self.exponent) {
                Ok(s) => Some((self.price, s.price)),
                Err(_) => None,
            }
        } else {
            match self.scaled(other.exponent) {
                Ok(s) => Some((s.price, other.price)),
                Err(_) => None,
            }
        }
    }

    /// `self < other`, which is false of incomparable prices.
    pub open spec fn less_than(self, other: OraclePrice) -> bool {
        match self.aligned(other) {
            Some(m) => m.0 < m.1,
            None => false,
        }
    }

    /// `self > other`, which is false of incomparable prices.
    pub open spec fn greater_than(self, other: OraclePrice) -> bool {
        match self.aligned(other) {
            Some(m) => m.0 > m.1,
            None => false,
        }
    }

    /// Brings both mantissas to the lower exponent.
    pub fn align(&self, other: &OraclePrice) -> (r: Option<(u64, u64)>)
        ensures
            r == self.aligned(*other),
    {
        if self.exponent == other.exponent {
            Some((self.price, other.price))
        } else if self.exponent < other.exponent {
            match other.scale_to_exponent(self.exponent) {
                Ok(s) => Some((self.price, s.price)),
                Err(_) => None,
            }
        } else {
            match self.scale_to_exponent(other.exponent) {
                Ok(s) => Some((s.price, other.price)),
                Err(_) => None,
            }
        }
    }

    /// The lower of two comparable prices, `other` when they are equal.
    pub open spec fn lower_of(self, other: OraclePrice) -> Result<OraclePrice, PerpetualsError> {
        match self.aligned(other) {
            Some(m) => Ok(
                if m.0 < m.1 {
                    self
                } else {
                    other
                },
            ),
            None => Err(PerpetualsError::MathOverflow),
        }
    }

    /// The higher of two comparable prices, `other` when they are equal.
    pub open spec fn higher_of(self, other: OraclePrice) -> Result<OraclePrice, PerpetualsError> {
        match self.aligned(other) {
            Some(m) => Ok(
                if m.0 > m.1 {
                    self
                } else {
                    other
                },
            ),
            None => Err(PerpetualsError::MathOverflow),
        }
    }

    /// The lower of the two prices; incomparable prices fail.
    pub fn min_with(&self, other: &OraclePrice) -> (r: Result<OraclePrice, PerpetualsError>)
        ensures
            r == self.lower_of(*other),
    {
        match self.align(other) {
            Some((lhs, rhs)) => Ok(
                if lhs < rhs {
                    *self
                } else {
                    *other
                },
            ),
            None => Err(PerpetualsError::MathOverflow),
        }
    }

    /// The higher of the two prices; incomparable prices fail.
    pub fn max_with(&self, other: &OraclePrice) -> (r: Result<OraclePrice, PerpetualsError>)
        ensures
            r == self.higher_of(*other),
    {
        match self.align(other) {
            Some((lhs, rhs)) => Ok(
                if lhs > rhs {
                    *self
                } else {
                    *other
                },
            ),
            None => Err(PerpetualsError::MathOverflow),
        }
    }

    /// True when the price is at most one unit of the quote currency: a zero
    /// mantissa, or a non-positive exponent `e` with a mantissa of at most
    /// `10^(-e)`.
    pub open spec fn at_most_one(self) -> bool {
        self.price == 0 || (self.exponent <= 0 && self.price <= pow(10, (-self.exponent) as nat))
    }

    /// A price capped at one unit of the quote currency, at its own
    /// exponent. A non-zero price with a positive exponent is above one at
    /// any mantissa and becomes one at six decimals.
    pub open spec fn capped_at_one(self) -> Result<OraclePrice, PerpetualsError> {
        if self.exponent > 0 {
            if self.price == 0 {
                Ok(self)
            } else {
                Ok(OraclePrice { price: 1_000_000, exponent: -6i32 })
            }
        } else if -self.exponent > 19 {
            Err(PerpetualsError::MathOverflow)
        } else if self.price > pow(10, (-self.exponent) as nat) {
            Ok(OraclePrice { price: pow(10, (-self.exponent) as nat) as u64, exponent: self.exponent })
        } else {
            Ok(self)
        }
    }

    /// What `get_min_price` returns.
    pub open spec fn min_price(self, other: OraclePrice, is_stable: bool) -> Result<
        OraclePrice,
        PerpetualsError,
    > {
        match self.lower_of(other) {
            Ok(m) => if is_stable {
                m.capped_at_one()
            } else {
                Ok(m)
            },
            Err(e) => Err(e),
        }
    }

    /// The lower of the two prices; for a stable asset, capped at one unit of
    /// the quote currency.
    pub fn get_min_price(&self, other: &OraclePrice, is_stable: bool) -> (r: Result<
        OraclePrice,
        PerpetualsError,
    >)
        ensures
            r == self.min_price(*other, is_stable),
            is_stable ==> (r matches Ok(p) ==> p.at_most_one()),
    {
        let min_price = match self.min_with(other) {
            Ok(m) => m,
            Err(e) => {
                return Err(e);
            },
        };
        if !is_stable {
            return Ok(min_price);
        }
        if min_price.exponent > 0 {
            if min_price.price == 0 {
                return Ok(min_price);
            } else {
                proof {
                    reveal_with_fuel(pow, 7);
                    assert(pow(10, 6) == 1_000_000);
                }
                return Ok(OraclePrice { price: 1_000_000, exponent: -6 });
            }
        }
        let digits: i64 = -(min_price.exponent as i64);
        proof {
            math::lemma_pow10_limits();
            if digits > 19 {
                lemma_pow_increases(10, 20, digits as nat);
            } else {
                lemma_pow_increases(10, digits as nat, 19);
            }
            lemma_pow_positive(10, digits as nat);
        }
        let one_usd = match math::checked_pow(10, digits as usize) {
            Ok(v) => v,
            Err(e) => {
                return Err(e);
            },
        };
        if min_price.price > one_usd {
            Ok(OraclePrice { price: one_usd, exponent: min_price.exponent })
        } else {
            Ok(min_price)
        }
    }

    /// A stable asset is never priced above one unit of the quote currency,
    /// whichever two prices are offered.
    pub proof fn lemma_stable_price_at_most_one(self, other: OraclePrice)
        ensures
            self.min_price(other, true) matches Ok(p) ==> p.at_most_one(),
    {
        if let Ok(m) = self.lower_of(other) {
            if m.exponent > 0 {
                reveal_with_fuel(pow, 7);
                assert(pow(10, 6) == 1_000_000);
            } else if -m.exponent <= 19 {
                math::lemma_pow10_limits();
                lemma_pow_increases(10, (-m.exponent) as nat, 19);
                lemma_pow_positive(10, (-m.exponent) as nat);
            }
        }
    }
}

} // verus!
