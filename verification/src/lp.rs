//! Pricing of the pool's share token against the pool's value.

use crate::error::PerpetualsError;
use crate::math;
use crate::oracle::OraclePrice;
use crate::pool::{checked_proportion, proportion};
use vstd::arithmetic::div_mod::*;
use vstd::arithmetic::mul::*;
use vstd::arithmetic::power::*;
use vstd::prelude::*;

verus! {

/// Shares minted for a deposit worth `token_amount_usd`: the deposit's part
/// of the pool's value, in shares; one share per USD unit while the pool is
/// worth nothing.
pub open spec fn lp_minted(token_amount_usd: u64, lp_supply: u64, pool_amount_usd: u128) -> Result<
    u64,
    PerpetualsError,
> {
    if pool_amount_usd == 0 {
        Ok(token_amount_usd)
    } else {
        math::checked_u64((token_amount_usd * lp_supply) / (pool_amount_usd as int))
    }
}

/// USD value that `lp_amount_in` shares redeem: their part of the pool's
/// value. Without shares in supply there is nothing to redeem against.
pub open spec fn lp_redeemed(pool_amount_usd: u128, lp_amount_in: u64, lp_supply: u64) -> Result<
    u64,
    PerpetualsError,
> {
    proportion(pool_amount_usd as int, lp_amount_in as int, lp_supply as int)
}

pub fn get_lp_mint_amount(token_amount_usd: u64, lp_supply: u64, pool_amount_usd: u128) -> (r: Result<
    u64,
    PerpetualsError,
>)
    ensures
        r == lp_minted(token_amount_usd, lp_supply, pool_amount_usd),
{
    if pool_amount_usd == 0 {
        return Ok(token_amount_usd);
    }
    proof {
        crate::pool::lemma_product_bound(token_amount_usd, lp_supply);
        lemma_div_pos_is_pos(token_amount_usd * lp_supply, pool_amount_usd as int);
    }
    math::checked_as_u64((token_amount_usd as u128 * lp_supply as u128) / pool_amount_usd)
}

pub fn get_lp_redeem_value(pool_amount_usd: u128, lp_amount_in: u64, lp_supply: u64) -> (r: Result<
    u64,
    PerpetualsError,
>)
    ensures
        r == lp_redeemed(pool_amount_usd, lp_amount_in, lp_supply),
{
    checked_proportion(pool_amount_usd, lp_amount_in, lp_supply)
}

/// Rounding may value the pool one unit higher once the deposit has joined
/// the reserves. While shares are in supply that unit is shared with them
/// and gains the depositor nothing.
pub open spec fn rounding_allowance(lp_supply: u64) -> int {
    if lp_supply > 0 {
        1
    } else {
        0
    }
}

/// Adding liquidity and redeeming the shares at once returns no more value
/// than was added: if the pool, valued for the redemption, is worth at most
/// its value at the deposit plus the deposit, up to rounding, the shares
/// minted for `deposit_usd` redeem at most `deposit_usd`.
pub proof fn lemma_round_trip_value(
    deposit_usd: u64,
    lp_supply: u64,
    aum_at_deposit: u128,
    aum_at_redemption: u128,
    minted: u64,
    redeemed: u64,
)
    requires
        aum_at_redemption <= aum_at_deposit + deposit_usd + rounding_allowance(lp_supply),
        lp_supply + minted <= u64::MAX,
        lp_minted(deposit_usd, lp_supply, aum_at_deposit) == Ok::<u64, PerpetualsError>(minted),
        lp_redeemed(aum_at_redemption, minted, (lp_supply + minted) as u64) == Ok::<
            u64,
            PerpetualsError,
        >(redeemed),
    ensures
        redeemed <= deposit_usd,
{
    let supply = lp_supply + minted;
    let v = deposit_usd as int;
    let a = aum_at_deposit as int;
    let b = aum_at_redemption as int;
    let l = minted as int;
    let extra = rounding_allowance(lp_supply);
    assert(supply > 0);
    assert(redeemed == (b * l) / supply);
    assert(l * a <= v * lp_supply) by {
        if a == 0 {
            assert(l * a == 0) by (nonlinear_arith)
                requires
                    a == 0,
            ;
            lemma_mul_nonnegative(v, lp_supply as int);
        } else {
            lemma_mul_nonnegative(v, lp_supply as int);
            lemma_fundamental_div_mod(v * lp_supply, a);
            lemma_mod_bound(v * lp_supply, a);
            assert(l == (v * lp_supply) / a);
            lemma_mul_is_commutative(l, a);
        }
    }
    assert(b * l < (v + 1) * supply) by (nonlinear_arith)
        requires
            l * a <= v * lp_supply,
            0 <= b <= a + v + extra,
            0 <= extra <= 1,
            extra == 1 ==> lp_supply > 0,
            l >= 0,
            v >= 0,
            lp_supply >= 0,
            supply == lp_supply + l,
            supply > 0,
            a == 0 ==> l == v,
    ;
    lemma_multiply_divide_lt(b * l, supply, v + 1);
}

/// What `usd`, at most the value of `token_amount`, buys at the price at
/// which the tokens were valued is at most `token_amount`, before any
/// narrowing to `u64`.
pub proof fn lemma_tokens_bought_bound(
    price: OraclePrice,
    token_amount: u64,
    token_decimals: u8,
    value: u64,
    usd: u64,
)
    requires
        price.price > 0,
        price.asset_amount_usd(token_amount, token_decimals) == Ok::<u64, PerpetualsError>(value),
        usd <= value,
    ensures
        math::decimal_div_value(
            usd,
            (-(crate::oracle::USD_DECIMALS as int)) as i32,
            price.price,
            price.exponent,
            (-(token_decimals as int)) as i32,
        ) <= token_amount,
{
    let p = -(token_decimals as int) + price.exponent + 6;
    let m = price.price as int;
    let x = token_amount as int;
    if p >= 0 {
        let scale = pow(10, p as nat);
        lemma_pow_positive(10, p as nat);
        assert(value == x * m * scale);
        if p == 0 {
            lemma_pow0(10);
            assert(usd * scale == usd) by (nonlinear_arith)
                requires
                    scale == 1,
            ;
            assert(m * scale == m) by (nonlinear_arith)
                requires
                    scale == 1,
            ;
        }
        lemma_mul_strictly_positive(m, scale);
        lemma_div_is_ordered(usd as int, value as int, m * scale);
        lemma_mul_is_associative(x, m, scale);
        lemma_div_multiples_vanish(x, m * scale);
        lemma_mul_is_commutative(x, m * scale);
    } else {
        let scale = pow(10, (-p) as nat);
        lemma_pow_positive(10, (-p) as nat);
        assert(value == (x * m) / scale);
        lemma_mul_nonnegative(x, m);
        lemma_fundamental_div_mod(x * m, scale);
        lemma_mod_bound(x * m, scale);
        assert(usd * scale <= x * m) by (nonlinear_arith)
            requires
                usd <= value,
                x * m == scale * value + (x * m) % scale,
                0 <= (x * m) % scale,
                scale > 0,
        ;
        lemma_mul_nonnegative(usd as int, scale);
        lemma_div_is_ordered(usd * scale, x * m, m);
        lemma_div_multiples_vanish(x, m);
        lemma_mul_is_commutative(x, m);
    }
}

/// Valuing tokens and buying tokens back at the same price returns no more
/// tokens than were valued: what `usd`, at most the value of
/// `token_amount`, buys at `price` is at most `token_amount`.
pub proof fn lemma_round_trip_tokens(
    price: OraclePrice,
    token_amount: u64,
    token_decimals: u8,
    value: u64,
    usd: u64,
    bought: u64,
)
    requires
        price.asset_amount_usd(token_amount, token_decimals) == Ok::<u64, PerpetualsError>(value),
        usd <= value,
        price.token_amount(usd, token_decimals) == Ok::<u64, PerpetualsError>(bought),
    ensures
        bought <= token_amount,
{
    if usd > 0 && price.price > 0 {
        lemma_tokens_bought_bound(price, token_amount, token_decimals, value, usd);
    }
}

/// Buying tokens and valuing them at the same price gives no more value
/// than was spent: the tokens that `usd` buys at `price` are worth at most
/// `usd`.
pub proof fn lemma_round_trip_usd(
    price: OraclePrice,
    usd: u64,
    token_decimals: u8,
    bought: u64,
    value: u64,
)
    requires
        price.token_amount(usd, token_decimals) == Ok::<u64, PerpetualsError>(bought),
        price.asset_amount_usd(bought, token_decimals) == Ok::<u64, PerpetualsError>(value),
    ensures
        value <= usd,
{
    let p = -(token_decimals as int) + price.exponent + 6;
    let m = price.price as int;
    let t = bought as int;
    if usd == 0 || m == 0 {
        assert(t == 0);
        assert(t * m == 0) by (nonlinear_arith)
            requires
                t == 0,
        ;
        if p >= 0 {
            assert(t * m * pow(10, p as nat) == 0) by (nonlinear_arith)
                requires
                    t * m == 0,
            ;
        } else {
            lemma_pow_positive(10, (-p) as nat);
            lemma_div_basics(pow(10, (-p) as nat));
        }
    } else if p > 0 {
        let scale = pow(10, p as nat);
        lemma_pow_positive(10, p as nat);
        lemma_mul_strictly_positive(m, scale);
        assert(bought == (usd as int) / (m * scale));
        assert(value == t * m * scale);
        lemma_fundamental_div_mod(usd as int, m * scale);
        lemma_mod_bound(usd as int, m * scale);
        lemma_mul_is_associative(t, m, scale);
        lemma_mul_is_commutative(t, m * scale);
    } else {
        let scale = pow(10, (-p) as nat);
        lemma_pow_positive(10, (-p) as nat);
        if p == 0 {
            lemma_pow0(10);
        }
        assert(bought == (usd * scale) / m);
        lemma_mul_nonnegative(usd as int, scale);
        lemma_fundamental_div_mod(usd * scale, m);
        lemma_mod_bound(usd * scale, m);
        assert(t * m <= usd * scale) by (nonlinear_arith)
            requires
                usd * scale == m * t + (usd * scale) % m,
                0 <= (usd * scale) % m,
        ;
        if p == 0 {
            assert(t * m * scale == t * m) by (nonlinear_arith)
                requires
                    scale == 1,
            ;
            assert(usd * scale == usd) by (nonlinear_arith)
                requires
                    scale == 1,
            ;
        } else {
            assert(value == (t * m) / scale);
            lemma_mul_nonnegative(t, m);
            lemma_div_is_ordered(t * m, usd * scale, scale);
            lemma_div_multiples_vanish(usd as int, scale);
            lemma_mul_is_commutative(usd as int, scale);
        }
    }
}

/// The quotient that `token_amount` rounds, before any narrowing to `u64`.
pub open spec fn tokens_bought(price: OraclePrice, usd: u64, token_decimals: u8) -> int {
    math::decimal_div_value(
        usd,
        (-(crate::oracle::USD_DECIMALS as int)) as i32,
        price.price,
        price.exponent,
        (-(token_decimals as int)) as i32,
    )
}

/// A price written at a lower exponent, its mantissa multiplied to match,
/// buys the same.
pub proof fn lemma_rescaled_price_buys_the_same(
    price: OraclePrice,
    rescaled: OraclePrice,
    usd: u64,
    token_decimals: u8,
)
    requires
        price.price > 0,
        rescaled.exponent <= price.exponent,
        rescaled.price == price.price * pow(10, (price.exponent - rescaled.exponent) as nat),
    ensures
        tokens_bought(rescaled, usd, token_decimals) == tokens_bought(price, usd, token_decimals),
{
    let k = (price.exponent - rescaled.exponent) as nat;
    let m = price.price as int;
    let u = usd as int;
    let p = -6 - price.exponent + token_decimals;
    let q = p + k;
    let scale = pow(10, k);
    lemma_pow_positive(10, k);
    if k == 0 {
        lemma_pow0(10);
        assert(m * scale == m) by (nonlinear_arith)
            requires
                scale == 1,
        ;
    } else if p >= 0 {
        // (u * 10^p * 10^k) / (m * 10^k) == (u * 10^p) / m
        let up = pow(10, p as nat);
        lemma_pow_positive(10, p as nat);
        lemma_pow_adds(10, p as nat, k);
        lemma_mul_nonnegative(u, up);
        lemma_div_multiples_vanish_quotient(scale, u * up, m);
        assert(u * pow(10, q as nat) == scale * (u * up)) by (nonlinear_arith)
            requires
                pow(10, q as nat) == up * scale,
        ;
        lemma_mul_is_commutative(scale, m);
    } else if q >= 0 {
        // (u * 10^q) / (m * 10^q * 10^(-p)) == u / (m * 10^(-p))
        let down = pow(10, (-p) as nat);
        let up = pow(10, q as nat);
        lemma_pow_positive(10, (-p) as nat);
        lemma_pow_positive(10, q as nat);
        lemma_pow_adds(10, q as nat, (-p) as nat);
        lemma_mul_strictly_positive(m, down);
        lemma_div_multiples_vanish_quotient(up, u, m * down);
        assert(m * scale == up * (m * down)) by (nonlinear_arith)
            requires
                scale == up * down,
        ;
        lemma_mul_is_commutative(up, u);
    } else {
        // m * 10^k * 10^(-q) == m * 10^(-p)
        lemma_pow_adds(10, k, (-q) as nat);
        assert(m * scale * pow(10, (-q) as nat) == m * pow(10, (-p) as nat)) by (nonlinear_arith)
            requires
                pow(10, (-p) as nat) == scale * pow(10, (-q) as nat),
        ;
    }
}

/// The higher price buys no more tokens: of two comparable prices, the one
/// that is not below the other gives the smaller quotient for
/// `token_amount` to round.
pub proof fn lemma_higher_price_buys_less(
    low: OraclePrice,
    high: OraclePrice,
    usd: u64,
    token_decimals: u8,
)
    requires
        low.price > 0,
        high.price > 0,
        low.aligned(high) matches Some(m) && m.0 <= m.1,
    ensures
        tokens_bought(high, usd, token_decimals) <= tokens_bought(low, usd, token_decimals),
{
    let m = low.aligned(high)->Some_0;
    let exponent = if low.exponent < high.exponent {
        low.exponent
    } else {
        high.exponent
    };
    let low_aligned = OraclePrice { price: m.0, exponent };
    let high_aligned = OraclePrice { price: m.1, exponent };
    if low.exponent < high.exponent {
        let k = (high.exponent - low.exponent) as nat;
        lemma_pow_positive(10, k);
        lemma_mul_nonnegative(high.price as int, pow(10, k));
        assert(high.scaled(low.exponent) is Ok);
        assert(m.1 == high.price * pow(10, k));
        assert(low_aligned == low);
        lemma_rescaled_price_buys_the_same(high, high_aligned, usd, token_decimals);
    } else if low.exponent > high.exponent {
        let k = (low.exponent - high.exponent) as nat;
        lemma_pow_positive(10, k);
        lemma_mul_strictly_positive(low.price as int, pow(10, k));
        assert(low.scaled(high.exponent) is Ok);
        assert(m.0 == low.price * pow(10, k));
        assert(high_aligned == high);
        lemma_rescaled_price_buys_the_same(low, low_aligned, usd, token_decimals);
    }
    lemma_same_exponent_buys_less(low_aligned, high_aligned, usd, token_decimals);
}

/// At one exponent, the higher mantissa buys no more tokens.
proof fn lemma_same_exponent_buys_less(
    low: OraclePrice,
    high: OraclePrice,
    usd: u64,
    token_decimals: u8,
)
    requires
        low.exponent == high.exponent,
        0 < low.price <= high.price,
    ensures
        tokens_bought(high, usd, token_decimals) <= tokens_bought(low, usd, token_decimals),
{
    let p = -6 - low.exponent + token_decimals;
    if p >= 0 {
        let scale = pow(10, p as nat);
        lemma_pow_positive(10, p as nat);
        lemma_mul_nonnegative(usd as int, scale);
        lemma_div_is_ordered_by_denominator(usd * scale, low.price as int, high.price as int);
    } else {
        let scale = pow(10, (-p) as nat);
        lemma_pow_positive(10, (-p) as nat);
        lemma_mul_strictly_positive(low.price as int, scale);
        lemma_mul_inequality(low.price as int, high.price as int, scale);
        lemma_div_is_ordered_by_denominator(usd as int, low.price * scale, high.price * scale);
    }
}

/// Adding liquidity and redeeming the shares at once returns no more
/// tokens than were added. The deposit is valued at the lower price and the
/// redemption paid at the higher; no fee is taken; and the pool, valued for
/// the redemption, is worth at most its value at the deposit plus the
/// deposit, up to rounding.
pub proof fn lemma_liquidity_round_trip(
    min_price: OraclePrice,
    max_price: OraclePrice,
    token_decimals: u8,
    amount_in: u64,
    lp_supply: u64,
    aum_at_deposit: u128,
    aum_at_redemption: u128,
)
    requires
        min_price.price > 0,
        max_price.price > 0,
        min_price.aligned(max_price) matches Some(m) && m.0 <= m.1,
        min_price.asset_amount_usd(amount_in, token_decimals) is Ok,
        ({
            let deposit_usd = min_price.asset_amount_usd(amount_in, token_decimals)->Ok_0;
            &&& aum_at_redemption <= aum_at_deposit + deposit_usd + rounding_allowance(lp_supply)
            &&& lp_minted(deposit_usd, lp_supply, aum_at_deposit) is Ok
            &&& lp_supply + lp_minted(deposit_usd, lp_supply, aum_at_deposit)->Ok_0 <= u64::MAX
        }),
    ensures
        ({
            let deposit_usd = min_price.asset_amount_usd(amount_in, token_decimals)->Ok_0;
            let minted = lp_minted(deposit_usd, lp_supply, aum_at_deposit)->Ok_0;
            lp_redeemed(aum_at_redemption, minted, (lp_supply + minted) as u64) matches Ok(
                redeemed,
            ) ==> (max_price.token_amount(redeemed, token_decimals) matches Ok(amount_out)
                ==> amount_out <= amount_in)
        }),
{
    let deposit_usd = min_price.asset_amount_usd(amount_in, token_decimals)->Ok_0;
    let minted = lp_minted(deposit_usd, lp_supply, aum_at_deposit)->Ok_0;
    if let Ok(redeemed) = lp_redeemed(aum_at_redemption, minted, (lp_supply + minted) as u64) {
        lemma_round_trip_value(
            deposit_usd,
            lp_supply,
            aum_at_deposit,
            aum_at_redemption,
            minted,
            redeemed,
        );
        if let Ok(amount_out) = max_price.token_amount(redeemed, token_decimals) {
            if redeemed > 0 {
                lemma_higher_price_buys_less(min_price, max_price, redeemed, token_decimals);
                lemma_tokens_bought_bound(
                    min_price,
                    amount_in,
                    token_decimals,
                    deposit_usd,
                    redeemed,
                );
            }
        }
    }
}

} // verus!
