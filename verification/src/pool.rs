//! The pool: its custodies in canonical order, their target weights, and
//! the prices and fees of every action.

use crate::custody::Custody;
use crate::error::PerpetualsError;
use crate::gateway::{resolved_price, OracleAccount, TwapFeed};
use crate::keys::{find_key, key_position, same_key};
use crate::math;
use crate::oracle::{OraclePrice, BPS_POWER, PRICE_DECIMALS};
use crate::position::{Position, Side};
use vstd::arithmetic::div_mod::*;
use vstd::arithmetic::mul::*;
use vstd::prelude::*;

verus! {

/// Which of a custody's two prices values the pool.
#[derive(Copy, Clone, PartialEq, Eq, Debug, Structural)]
pub enum AumCalcMode {
    Min,
    Max,
    EMA,
}

/// A custody's weight in the pool, in basis points of the pool's value.
#[derive(Copy, Clone, PartialEq, Eq, Default, Debug, Structural)]
pub struct TokenRatios {
    pub target: u64,
    pub min: u64,
    pub max: u64,
}

#[derive(Clone, PartialEq, Default, Debug)]
pub struct Pool {
    pub name: String,
    /// Keys of the custodies; a custody's token id is its index here.
    pub custodies: Vec<[u8; 32]>,
    pub ratios: Vec<TokenRatios>,
    pub aum_usd: u128,
    pub bump: u8,
    pub lp_token_bump: u8,
    pub inception_time: i64,
}

/// `amount * fee / 10_000`, rounded toward zero.
pub open spec fn fee_amount(fee: u64, amount: u64) -> Result<u64, PerpetualsError> {
    math::checked_u64((amount * fee) / (BPS_POWER as int))
}

/// `amount * numerator / denominator` in exact arithmetic, rounded toward
/// zero; a zero denominator and a quotient that is no `u64` fail.
pub open spec fn proportion(amount: int, numerator: int, denominator: int) -> Result<
    u64,
    PerpetualsError,
> {
    if denominator == 0 {
        Err(PerpetualsError::MathOverflow)
    } else {
        math::checked_u64((amount * numerator) / denominator)
    }
}

/// Computes `amount * numerator / denominator` without losing the product.
pub fn checked_proportion(amount: u128, numerator: u64, denominator: u64) -> (r: Result<
    u64,
    PerpetualsError,
>)
    ensures
        r == proportion(amount as int, numerator as int, denominator as int),
{
    if denominator == 0 {
        return Err(PerpetualsError::MathOverflow);
    }
    proof {
        lemma_mul_nonnegative(amount as int, numerator as int);
    }
    match amount.checked_mul(numerator as u128) {
        Some(product) => {
            proof {
                lemma_div_pos_is_pos(product as int, denominator as int);
            }
            math::checked_as_u64(product / (denominator as u128))
        },
        None => {
            proof {
                math::lemma_large_quotient(amount * numerator, denominator as int);
            }
            Err(PerpetualsError::MathOverflow)
        },
    }
}

/// The part of one whole that a position must keep as margin, in basis
/// points: what the loss limit leaves.
pub open spec fn margin_bps(custody: Custody) -> int {
    if custody.pricing.max_loss < BPS_POWER {
        BPS_POWER - custody.pricing.max_loss
    } else {
        0
    }
}

/// Margin below which a position of `size_usd` is liquidated.
pub open spec fn required_margin(size_usd: u64, custody: Custody) -> int {
    (size_usd * margin_bps(custody)) / (BPS_POWER as int)
}

/// Interest that a position owes at `now`: its size times the growth of the
/// collateral custody's borrow index since the position's snapshot, in
/// basis points.
pub open spec fn interest_usd(position: Position, collateral_custody: Custody, now: i64) -> Result<
    u64,
    PerpetualsError,
> {
    let index = collateral_custody.cumulative_interest(now);
    if index > u128::MAX || index < position.cumulative_interest_snapshot {
        Err(PerpetualsError::MathOverflow)
    } else {
        proportion(
            index - position.cumulative_interest_snapshot,
            position.size_usd as int,
            BPS_POWER as int,
        )
    }
}

/// A price moved by `spread` basis points, up or down, at
/// `PRICE_DECIMALS` fractional digits.
pub open spec fn spread_price(reference: OraclePrice, spread: u64, upward: bool) -> Result<
    u64,
    PerpetualsError,
> {
    let shift = (reference.price * spread) / (BPS_POWER as int);
    let moved = if upward {
        reference.price + shift
    } else {
        reference.price - shift
    };
    if moved < 0 || moved > u64::MAX {
        Err(PerpetualsError::MathOverflow)
    } else {
        match (OraclePrice { price: moved as u64, exponent: reference.exponent }).scaled(
            (-(PRICE_DECIMALS as int)) as i32,
        ) {
            Ok(p) => Ok(p.price),
            Err(e) => Err(e),
        }
    }
}

/// Price at which a position is opened: the spot price, moved against the
/// trader by the custody's spread for that side.
pub open spec fn entry_price(spot: OraclePrice, side: Side, custody: Custody) -> Result<
    u64,
    PerpetualsError,
> {
    match side {
        Side::Long => spread_price(spot, custody.pricing.trade_spread_long, true),
        Side::Short => spread_price(spot, custody.pricing.trade_spread_short, false),
        Side::Unset => Err(PerpetualsError::InvalidArgument),
    }
}

/// Price at which a position is closed: the worse for the trader of spot
/// and average, moved against the trader by the custody's spread.
pub open spec fn exit_price(spot: OraclePrice, ema: OraclePrice, side: Side, custody: Custody) -> Result<
    u64,
    PerpetualsError,
> {
    match side {
        Side::Long => match spot.lower_of(ema) {
            Ok(reference) => spread_price(reference, custody.pricing.trade_spread_long, false),
            Err(e) => Err(e),
        },
        Side::Short => match spot.higher_of(ema) {
            Ok(reference) => spread_price(reference, custody.pricing.trade_spread_short, true),
            Err(e) => Err(e),
        },
        Side::Unset => Err(PerpetualsError::InvalidArgument),
    }
}

/// Moves `reference` by `spread` basis points and brings it to
/// `PRICE_DECIMALS` fractional digits.
pub fn get_spread_price(reference: &OraclePrice, spread: u64, upward: bool) -> (r: Result<
    u64,
    PerpetualsError,
>)
    ensures
        r == spread_price(*reference, spread, upward),
{
    proof {
        lemma_mul_nonnegative(reference.price as int, spread as int);
        lemma_div_pos_is_pos(reference.price * spread, BPS_POWER as int);
        assert(reference.price * spread <= 0xffff_ffff_ffff_ffff * 0xffff_ffff_ffff_ffff)
            by (nonlinear_arith)
            requires
                reference.price <= 0xffff_ffff_ffff_ffff,
                spread <= 0xffff_ffff_ffff_ffff,
        ;
    }
    let shift: u128 = (reference.price as u128 * spread as u128) / (BPS_POWER as u128);
    let moved: u128 = if upward {
        reference.price as u128 + shift
    } else {
        if shift > reference.price as u128 {
            return Err(PerpetualsError::MathOverflow);
        }
        reference.price as u128 - shift
    };
    let price = math::checked_as_u64(moved)?;
    let decimals: i32 = PRICE_DECIMALS as i32;
    let scaled = OraclePrice::new(price, reference.exponent).scale_to_exponent(-decimals)?;
    Ok(scaled.price)
}

/// How far `exit` lies above the entry price for a long, below it for a
/// short: the favourable move, zero when the price moved against the
/// position.
pub open spec fn price_gain(position: Position, exit: u64) -> int {
    match position.side {
        Side::Long => if exit > position.price {
            exit - position.price
        } else {
            0
        },
        Side::Short => if exit < position.price {
            position.price - exit
        } else {
            0
        },
        Side::Unset => 0,
    }
}

/// The unfavourable move of the price, zero when it moved in favour.
pub open spec fn price_drop(position: Position, exit: u64) -> int {
    match position.side {
        Side::Long => if exit < position.price {
            position.price - exit
        } else {
            0
        },
        Side::Short => if exit > position.price {
            exit - position.price
        } else {
            0
        },
        Side::Unset => 0,
    }
}

/// What closing at `exit` would pay the trader beyond the collateral, in
/// USD: the size times the relative price move, with the profit carried,
/// less the loss carried, the interest and the fee. Negative when it is a
/// loss. The entry price is not zero.
pub open spec fn net_pnl(position: Position, exit: u64, interest: u64, fee_usd: u64) -> int {
    (position.size_usd * price_gain(position, exit)) / (position.price as int)
        + position.unrealized_profit_usd - ((position.size_usd * price_drop(position, exit)) / (
    position.price as int) + fee_usd + interest + position.unrealized_loss_usd)
}

/// Profit and loss at `exit`, one of them zero: the net result where it
/// is positive, its magnitude as a loss where it is negative.
pub open spec fn settled(position: Position, exit: u64, interest: u64, fee_usd: u64) -> Result<
    (u64, u64),
    PerpetualsError,
> {
    if position.side == Side::Unset {
        Err(PerpetualsError::InvalidArgument)
    } else if position.price == 0 {
        Err(PerpetualsError::MathOverflow)
    } else {
        let net = net_pnl(position, exit, interest, fee_usd);
        if net > u64::MAX || -net > u64::MAX {
            Err(PerpetualsError::MathOverflow)
        } else if net >= 0 {
            Ok((net as u64, 0u64))
        } else {
            Ok((0u64, (-net) as u64))
        }
    }
}

/// The fee rate of a close: the liquidation rate when the position is
/// liquidated.
pub open spec fn close_fee_rate(custody: Custody, liquidation: bool) -> u64 {
    if liquidation {
        custody.fees.liquidation
    } else {
        custody.fees.close_position
    }
}

/// Profit, loss and the close fee in collateral tokens.
pub open spec fn pnl_usd(
    position: Position,
    token_price: OraclePrice,
    token_ema_price: OraclePrice,
    custody: Custody,
    collateral_token_price: OraclePrice,
    collateral_token_ema_price: OraclePrice,
    collateral_custody: Custody,
    curtime: i64,
    liquidation: bool,
) -> Result<(u64, u64, u64), PerpetualsError> {
    match exit_price(token_price, token_ema_price, position.side, custody) {
        Err(e) => Err(e),
        Ok(exit) => match interest_usd(position, collateral_custody, curtime) {
            Err(e) => Err(e),
            Ok(interest) => match fee_amount(
                close_fee_rate(custody, liquidation),
                position.size_usd,
            ) {
                Err(e) => Err(e),
                Ok(fee_usd) => match settled(position, exit, interest, fee_usd) {
                    Err(e) => Err(e),
                    Ok(pnl) => match collateral_token_price.min_price(
                        collateral_token_ema_price,
                        collateral_custody.is_stable,
                    ) {
                        Err(e) => Err(e),
                        Ok(price) => match price.token_amount(fee_usd, collateral_custody.decimals) {
                            Err(e) => Err(e),
                            Ok(fee) => Ok((pnl.0, pnl.1, fee)),
                        },
                    },
                },
            },
        },
    }
}

/// The leverage bound that applies: the stricter one when a position is
/// opened.
pub open spec fn leverage_bound(custody: Custody, initial: bool) -> u64 {
    if initial {
        custody.pricing.max_initial_leverage
    } else {
        custody.pricing.max_leverage
    }
}

/// A position with `margin` USD left is within its limits: the margin is
/// above what the loss limit requires, and the size is at most the margin
/// times the leverage bound.
pub open spec fn margin_suffices(position: Position, margin: int, custody: Custody, initial: bool) -> bool {
    margin > required_margin(position.size_usd, custody) && position.size_usd * BPS_POWER <= margin
        * leverage_bound(custody, initial)
}

/// Whether the position is within its limits at the given prices.
pub open spec fn leverage_checked(
    position: Position,
    token_price: OraclePrice,
    token_ema_price: OraclePrice,
    custody: Custody,
    collateral_token_price: OraclePrice,
    collateral_token_ema_price: OraclePrice,
    collateral_custody: Custody,
    curtime: i64,
    initial: bool,
) -> Result<bool, PerpetualsError> {
    match pnl_usd(
        position,
        token_price,
        token_ema_price,
        custody,
        collateral_token_price,
        collateral_token_ema_price,
        collateral_custody,
        curtime,
        false,
    ) {
        Err(e) => Err(e),
        Ok(pnl) => Ok(
            margin_suffices(position, position.collateral_usd + pnl.0 - pnl.1, custody, initial),
        ),
    }
}

/// What the position holds and what it owes before the price moves: the
/// collateral with the profit carried, against the required margin, the
/// interest, the close fee and the loss carried.
pub open spec fn liquidation_buffer(position: Position, custody: Custody, interest: u64, fee_usd: u64) -> int {
    position.collateral_usd + position.unrealized_profit_usd - (required_margin(
        position.size_usd,
        custody,
    ) + interest + fee_usd + position.unrealized_loss_usd)
}

/// The price at which the position's margin falls to what is required. A
/// buffer lets the price move against the position by the buffer's share
/// of the size; a shortfall puts the price on the favourable side of the
/// entry. A long that no price liquidates has price zero.
pub open spec fn liquidation_price_at(position: Position, buffer: int) -> Result<
    u64,
    PerpetualsError,
> {
    let distance = if buffer >= 0 {
        (buffer * position.price) / (position.size_usd as int)
    } else {
        ((-buffer) * position.price) / (position.size_usd as int)
    };
    let toward_zero = (position.side == Side::Long) == (buffer >= 0);
    if toward_zero {
        if distance >= position.price {
            Ok(0u64)
        } else {
            Ok((position.price - distance) as u64)
        }
    } else {
        math::checked_u64(position.price + distance)
    }
}

/// The liquidation price of a position at `curtime`; a position without
/// size has none and gets zero.
pub open spec fn liquidation_price(
    position: Position,
    custody: Custody,
    collateral_custody: Custody,
    curtime: i64,
) -> Result<u64, PerpetualsError> {
    if position.side == Side::Unset {
        Err(PerpetualsError::InvalidArgument)
    } else if position.size_usd == 0 || position.price == 0 {
        Ok(0u64)
    } else {
        match interest_usd(position, collateral_custody, curtime) {
            Err(e) => Err(e),
            Ok(interest) => match fee_amount(custody.fees.close_position, position.size_usd) {
                Err(e) => Err(e),
                Ok(fee_usd) => liquidation_price_at(
                    position,
                    liquidation_buffer(position, custody, interest, fee_usd),
                ),
            },
        }
    }
}

/// Settles a position at `exit` into a profit or a loss.
pub fn settle_position(position: &Position, exit: u64, interest: u64, fee_usd: u64) -> (r: Result<
    (u64, u64),
    PerpetualsError,
>)
    ensures
        r == settled(*position, exit, interest, fee_usd),
        r matches Ok(pnl) ==> pnl.0 == 0 || pnl.1 == 0,
{
    let entry = position.price;
    let (gain, drop): (u64, u64) = match position.side {
        Side::Long => if exit > entry {
            (exit - entry, 0)
        } else {
            (0, entry - exit)
        },
        Side::Short => if exit < entry {
            (entry - exit, 0)
        } else {
            (0, exit - entry)
        },
        Side::Unset => {
            return Err(PerpetualsError::InvalidArgument);
        },
    };
    if entry == 0 {
        return Err(PerpetualsError::MathOverflow);
    }
    assert(gain == price_gain(*position, exit) && drop == price_drop(*position, exit));
    proof {
        lemma_product_bound(position.size_usd, gain);
        lemma_product_bound(position.size_usd, drop);
        lemma_div_nonincreasing(position.size_usd * gain, entry as int);
        lemma_div_nonincreasing(position.size_usd * drop, entry as int);
        lemma_div_pos_is_pos(position.size_usd * gain, entry as int);
        lemma_div_pos_is_pos(position.size_usd * drop, entry as int);
    }
    let gained: u128 = (position.size_usd as u128 * gain as u128) / (entry as u128);
    let dropped: u128 = (position.size_usd as u128 * drop as u128) / (entry as u128);
    let carried: u128 = fee_usd as u128 + interest as u128 + position.unrealized_loss_usd as u128;
    assert(gain == 0 ==> gained == 0) by {
        assert(position.size_usd * 0 == 0);
    }
    assert(drop == 0 ==> dropped == 0) by {
        assert(position.size_usd * 0 == 0);
    }
    let profit_total: u128 = if drop == 0 {
        gained + position.unrealized_profit_usd as u128
    } else {
        position.unrealized_profit_usd as u128
    };
    let loss_total: u128 = match dropped.checked_add(carried) {
        Some(v) => v,
        None => {
            return Err(PerpetualsError::MathOverflow);
        },
    };
    if profit_total >= loss_total {
        let profit = math::checked_as_u64(profit_total - loss_total)?;
        Ok((profit, 0))
    } else {
        let loss = math::checked_as_u64(loss_total - profit_total)?;
        Ok((0, loss))
    }
}

/// The product of two `u64` fits a `u128` with room to add a `u64`.
pub proof fn lemma_product_bound(a: u64, b: u64)
    ensures
        0 <= a * b <= 0xffff_ffff_ffff_ffff * 0xffff_ffff_ffff_ffff,
{
    assert(0 <= a * b <= 0xffff_ffff_ffff_ffff * 0xffff_ffff_ffff_ffff) by (nonlinear_arith)
        requires
            0 <= a <= 0xffff_ffff_ffff_ffff,
            0 <= b <= 0xffff_ffff_ffff_ffff,
    ;
}

/// Tests a margin against the loss limit and the leverage bound.
pub fn check_margin(position: &Position, profit: u64, loss: u64, custody: &Custody, initial: bool) -> (r:
    bool)
    ensures
        r == margin_suffices(
            *position,
            position.collateral_usd + profit - loss,
            *custody,
            initial,
        ),
{
    let bound: u64 = if initial {
        custody.pricing.max_initial_leverage
    } else {
        custody.pricing.max_leverage
    };
    let kept: u64 = if custody.pricing.max_loss < BPS_POWER {
        BPS_POWER - custody.pricing.max_loss
    } else {
        0
    };
    proof {
        lemma_product_bound(position.size_usd, kept);
        lemma_product_bound(position.size_usd, BPS_POWER);
        lemma_div_pos_is_pos(position.size_usd * kept, BPS_POWER as int);
    }
    let required: u128 = (position.size_usd as u128 * kept as u128) / (BPS_POWER as u128);
    let held: u128 = position.collateral_usd as u128 + profit as u128;
    if held <= loss as u128 {
        return false;
    }
    let margin: u128 = held - loss as u128;
    if margin <= required {
        return false;
    }
    let size: u128 = position.size_usd as u128 * BPS_POWER as u128;
    proof {
        lemma_mul_nonnegative(margin as int, bound as int);
    }
    match margin.checked_mul(bound as u128) {
        Some(reach) => size <= reach,
        None => true,
    }
}

/// A custody as an action offers it for valuing the pool: its key, its
/// record, and its oracle account with the paired average.
#[derive(Copy, Clone, PartialEq, Debug)]
pub struct CustodyAccount {
    pub key: [u8; 32],
    pub custody: Custody,
    pub oracle_account: OracleAccount,
    pub twap_account: Option<TwapFeed>,
}

/// How far a weight lies outside the band between `min` and `max`.
pub open spec fn band_distance(weight: int, ratios: TokenRatios) -> int {
    if weight < ratios.min {
        ratios.min - weight
    } else if weight > ratios.max {
        weight - ratios.max
    } else {
        0
    }
}

/// Share of `value` in `total`, in basis points, at most one whole; no
/// share of nothing.
pub open spec fn weight_bps(value: int, total: int) -> int {
    if total <= 0 {
        0
    } else if (value * BPS_POWER) / total > BPS_POWER {
        BPS_POWER as int
    } else {
        (value * BPS_POWER) / total
    }
}

/// The fee rate of an action that takes a custody's weight from `before`
/// to `after`: the base rate, raised by what the weight's distance from
/// its band grows, lowered by what it shrinks, by at most `max_deviation`
/// either way and never below zero.
pub open spec fn adjusted_fee_rate(
    base: u64,
    before: int,
    after: int,
    ratios: TokenRatios,
    max_deviation: u64,
) -> int {
    let change = band_distance(after, ratios) - band_distance(before, ratios);
    let bounded = if change > max_deviation {
        max_deviation as int
    } else if change < -max_deviation {
        -max_deviation
    } else {
        change
    };
    if base + bounded < 0 {
        0
    } else {
        base + bounded
    }
}

/// The price that values a custody's reserves: for a stable custody the
/// lower of spot and average, capped at one; otherwise the lower, the
/// higher or the average, as the mode says.
pub open spec fn aum_price(mode: AumCalcMode, spot: OraclePrice, ema: OraclePrice, is_stable: bool) -> Result<
    OraclePrice,
    PerpetualsError,
> {
    if is_stable {
        spot.min_price(ema, true)
    } else {
        match mode {
            AumCalcMode::Min => spot.lower_of(ema),
            AumCalcMode::Max => spot.higher_of(ema),
            AumCalcMode::EMA => Ok(ema),
        }
    }
}

/// What one custody adds to the pool's value: its reserves at the mode's
/// price; nothing for a virtual custody, which holds none.
pub open spec fn custody_value(mode: AumCalcMode, account: CustodyAccount, curtime: i64) -> Result<
    u64,
    PerpetualsError,
> {
    let custody = account.custody;
    if custody.is_virtual {
        Ok(0u64)
    } else {
        match resolved_price(
            account.oracle_account,
            account.twap_account,
            custody.oracle,
            curtime,
            false,
            custody.oracle.feed_id,
        ) {
            Err(e) => Err(e),
            Ok(spot) => match resolved_price(
                account.oracle_account,
                account.twap_account,
                custody.oracle,
                curtime,
                custody.pricing.use_ema,
                custody.oracle.feed_id,
            ) {
                Err(e) => Err(e),
                Ok(ema) => match aum_price(mode, spot, ema, custody.is_stable) {
                    Err(e) => Err(e),
                    Ok(price) => price.asset_amount_usd(custody.assets.owned, custody.decimals),
                },
            },
        }
    }
}

/// Value of the first `n` custodies offered; the first that fails decides
/// the error.
pub open spec fn aum_sum(mode: AumCalcMode, accounts: Seq<CustodyAccount>, curtime: i64, n: nat) -> Result<
    u128,
    PerpetualsError,
>
    decreases n,
{
    if n == 0 {
        Ok(0u128)
    } else {
        match aum_sum(mode, accounts, curtime, (n - 1) as nat) {
            Err(e) => Err(e),
            Ok(sum) => match custody_value(mode, accounts[n - 1], curtime) {
                Err(e) => Err(e),
                Ok(value) => math::checked_u128(sum + value),
            },
        }
    }
}

/// Tokens of the dispensing custody that `amount_in` buys: the input valued
/// at the higher of its spot and average, the output at the lower of its
/// own, capped at one when that custody is stable.
pub open spec fn swap_amount(
    token_in_price: OraclePrice,
    token_in_ema_price: OraclePrice,
    token_out_price: OraclePrice,
    token_out_ema_price: OraclePrice,
    custody_in: Custody,
    custody_out: Custody,
    amount_in: u64,
) -> Result<u64, PerpetualsError> {
    match token_in_price.higher_of(token_in_ema_price) {
        Err(e) => Err(e),
        Ok(price_in) => match token_out_price.min_price(token_out_ema_price, custody_out.is_stable) {
            Err(e) => Err(e),
            Ok(price_out) => match price_in.asset_amount_usd(amount_in, custody_in.decimals) {
                Err(e) => Err(e),
                Ok(usd) => price_out.token_amount(usd, custody_out.decimals),
            },
        },
    }
}

/// The base rate of a swap's input side, and of its output side: the
/// stable tier where that side's custody is stable.
pub open spec fn swap_in_rate(custody: Custody) -> u64 {
    if custody.is_stable {
        custody.fees.stable_swap_in
    } else {
        custody.fees.swap_in
    }
}

pub open spec fn swap_out_rate(custody: Custody) -> u64 {
    if custody.is_stable {
        custody.fees.stable_swap_out
    } else {
        custody.fees.swap_out
    }
}

/// Computes a share in basis points, at most one whole.
pub fn get_weight_bps(value: u128, total: u128) -> (r: u64)
    requires
        value <= 0x3_ffff_ffff_ffff_ffff,
    ensures
        r == weight_bps(value as int, total as int),
{
    if total == 0 {
        return 0;
    }
    assert(0 <= value * BPS_POWER <= 0x3_ffff_ffff_ffff_ffff * 10_000) by (nonlinear_arith)
        requires
            0 <= value <= 0x3_ffff_ffff_ffff_ffff,
            BPS_POWER == 10_000,
    ;
    let scaled: u128 = value * (BPS_POWER as u128);
    let weight: u128 = scaled / total;
    if weight > BPS_POWER as u128 {
        BPS_POWER
    } else {
        weight as u64
    }
}

/// How far `weight` lies outside its band.
pub fn get_band_distance(weight: u64, ratios: &TokenRatios) -> (r: u64)
    ensures
        r == band_distance(weight as int, *ratios),
{
    if weight < ratios.min {
        ratios.min - weight
    } else if weight > ratios.max {
        weight - ratios.max
    } else {
        0
    }
}

impl Pool {
    /// Every custody has its ratios, and each band holds its target.
    pub open spec fn valid(self) -> bool {
        &&& self.custodies@.len() == self.ratios@.len()
        &&& forall|i: int|
            0 <= i < self.ratios@.len() ==> {
                let r = #[trigger] self.ratios@[i];
                r.min <= r.target <= r.max <= BPS_POWER
            }
    }

    /// Checks that every custody has its ratios and each band holds its
    /// target.
    pub fn validate(&self) -> (r: bool)
        ensures
            r == self.valid(),
    {
        if self.custodies.len() != self.ratios.len() {
            return false;
        }
        let mut i: usize = 0;
        while i < self.ratios.len()
            invariant
                i <= self.ratios@.len(),
                self.custodies@.len() == self.ratios@.len(),
                forall|j: int|
                    0 <= j < i ==> {
                        let r = #[trigger] self.ratios@[j];
                        r.min <= r.target <= r.max <= BPS_POWER
                    },
            decreases self.ratios@.len() - i,
        {
            let r = &self.ratios[i];
            if !(r.min <= r.target && r.target <= r.max && r.max <= BPS_POWER) {
                return false;
            }
            i += 1;
        }
        true
    }

    /// Index of the custody with key `custody` in the pool's canonical
    /// order.
    pub open spec fn token_id(self, custody: [u8; 32]) -> Result<usize, PerpetualsError> {
        match key_position(self.custodies@, custody) {
            Some(id) => Ok(id),
            None => Err(PerpetualsError::UnknownToken),
        }
    }

    /// The token id of a custody: its index in the pool's canonical order,
    /// the first if the key occurs twice. A key that is no custody of the
    /// pool's is an unknown token.
    pub fn get_token_id(&self, custody: &[u8; 32]) -> (r: Result<usize, PerpetualsError>)
        ensures
            r == self.token_id(*custody),
            match r {
                Ok(id) => id < self.custodies@.len() && self.custodies@[id as int]@ == custody@
                    && forall|j: int| 0 <= j < id ==> self.custodies@[j]@ != custody@,
                Err(e) => e == PerpetualsError::UnknownToken && forall|j: int|
                    0 <= j < self.custodies@.len() ==> self.custodies@[j]@ != custody@,
            },
    {
        match find_key(&self.custodies, custody) {
            Some(id) => Ok(id),
            None => Err(PerpetualsError::UnknownToken),
        }
    }

    /// The fee on `amount` at `fee` basis points.
    pub fn get_fee_amount(fee: u64, amount: u64) -> (r: Result<u64, PerpetualsError>)
        ensures
            r == fee_amount(fee, amount),
    {
        checked_proportion(amount as u128, fee, BPS_POWER)
    }

    pub fn get_entry_price(
        &self,
        token_price: &OraclePrice,
        _token_ema_price: &OraclePrice,
        side: Side,
        custody: &Custody,
    ) -> (r: Result<u64, PerpetualsError>)
        ensures
            r == entry_price(*token_price, side, *custody),
    {
        match side {
            Side::Long => get_spread_price(token_price, custody.pricing.trade_spread_long, true),
            Side::Short => get_spread_price(token_price, custody.pricing.trade_spread_short, false),
            Side::Unset => Err(PerpetualsError::InvalidArgument),
        }
    }

    pub fn get_exit_price(
        &self,
        token_price: &OraclePrice,
        token_ema_price: &OraclePrice,
        side: Side,
        custody: &Custody,
    ) -> (r: Result<u64, PerpetualsError>)
        ensures
            r == exit_price(*token_price, *token_ema_price, side, *custody),
    {
        match side {
            Side::Long => {
                let reference = token_price.min_with(token_ema_price)?;
                get_spread_price(&reference, custody.pricing.trade_spread_long, false)
            },
            Side::Short => {
                let reference = token_price.max_with(token_ema_price)?;
                get_spread_price(&reference, custody.pricing.trade_spread_short, true)
            },
            Side::Unset => Err(PerpetualsError::InvalidArgument),
        }
    }

    /// Fee for opening a position of `size` units, in units of the traded
    /// custody: the base rate times the size.
    pub fn get_entry_fee(
        &self,
        base_fee: u64,
        size: u64,
        _locked_amount: u64,
        _collateral_custody: &Custody,
    ) -> (r: Result<u64, PerpetualsError>)
        ensures
            r == fee_amount(base_fee, size),
    {
        Self::get_fee_amount(base_fee, size)
    }

    /// Fee for closing a position of `size` units.
    pub fn get_exit_fee(&self, size: u64, custody: &Custody) -> (r: Result<u64, PerpetualsError>)
        ensures
            r == fee_amount(custody.fees.close_position, size),
    {
        Self::get_fee_amount(custody.fees.close_position, size)
    }

    /// Interest that `position` owes at `curtime`.
    pub fn get_interest_amount_usd(
        &self,
        position: &Position,
        collateral_custody: &Custody,
        curtime: i64,
    ) -> (r: Result<u64, PerpetualsError>)
        ensures
            r == interest_usd(*position, *collateral_custody, curtime),
    {
        let index = collateral_custody.get_cumulative_interest(curtime)?;
        if index < position.cumulative_interest_snapshot {
            return Err(PerpetualsError::MathOverflow);
        }
        checked_proportion(
            index - position.cumulative_interest_snapshot,
            position.size_usd,
            BPS_POWER,
        )
    }
    /// Unrealized profit and loss of `position`, one of them zero, and the
    /// close fee in collateral tokens. The position is valued at its exit
    /// price, less the interest accrued and the close fee, which is the
    /// liquidation fee when `liquidation` is set.
    pub fn get_pnl_usd(
        &self,
        position: &Position,
        token_price: &OraclePrice,
        token_ema_price: &OraclePrice,
        custody: &Custody,
        collateral_token_price: &OraclePrice,
        collateral_token_ema_price: &OraclePrice,
        collateral_custody: &Custody,
        curtime: i64,
        liquidation: bool,
    ) -> (r: Result<(u64, u64, u64), PerpetualsError>)
        ensures
            r == pnl_usd(
                *position,
                *token_price,
                *token_ema_price,
                *custody,
                *collateral_token_price,
                *collateral_token_ema_price,
                *collateral_custody,
                curtime,
                liquidation,
            ),
            r matches Ok(pnl) ==> pnl.0 == 0 || pnl.1 == 0,
    {
        let exit = self.get_exit_price(token_price, token_ema_price, position.side, custody)?;
        let interest = self.get_interest_amount_usd(position, collateral_custody, curtime)?;
        let rate = if liquidation {
            custody.fees.liquidation
        } else {
            custody.fees.close_position
        };
        let fee_usd = Self::get_fee_amount(rate, position.size_usd)?;
        let (profit, loss) = settle_position(position, exit, interest, fee_usd)?;
        let price = collateral_token_price.get_min_price(
            collateral_token_ema_price,
            collateral_custody.is_stable,
        )?;
        let fee = price.get_token_amount(fee_usd, collateral_custody.decimals)?;
        Ok((profit, loss, fee))
    }

    /// True iff the position, valued at the given prices, keeps more margin
    /// than the loss limit requires and stays within the leverage bound;
    /// `initial` applies the bound for opening.
    pub fn check_leverage(
        &self,
        position: &Position,
        token_price: &OraclePrice,
        token_ema_price: &OraclePrice,
        custody: &Custody,
        collateral_token_price: &OraclePrice,
        collateral_token_ema_price: &OraclePrice,
        collateral_custody: &Custody,
        curtime: i64,
        initial: bool,
    ) -> (r: Result<bool, PerpetualsError>)
        ensures
            r == leverage_checked(
                *position,
                *token_price,
                *token_ema_price,
                *custody,
                *collateral_token_price,
                *collateral_token_ema_price,
                *collateral_custody,
                curtime,
                initial,
            ),
    {
        let (profit, loss, _) = self.get_pnl_usd(
            position,
            token_price,
            token_ema_price,
            custody,
            collateral_token_price,
            collateral_token_ema_price,
            collateral_custody,
            curtime,
            false,
        )?;
        Ok(check_margin(position, profit, loss, custody, initial))
    }

    /// The price at which `position` becomes liquidatable.
    pub fn get_liquidation_price(
        &self,
        position: &Position,
        _token_ema_price: &OraclePrice,
        custody: &Custody,
        collateral_custody: &Custody,
        curtime: i64,
    ) -> (r: Result<u64, PerpetualsError>)
        ensures
            r == liquidation_price(*position, *custody, *collateral_custody, curtime),
    {
        let long = match position.side {
            Side::Long => true,
            Side::Short => false,
            Side::Unset => {
                return Err(PerpetualsError::InvalidArgument);
            },
        };
        if position.size_usd == 0 || position.price == 0 {
            return Ok(0);
        }
        let interest = self.get_interest_amount_usd(position, collateral_custody, curtime)?;
        let fee_usd = Self::get_fee_amount(custody.fees.close_position, position.size_usd)?;
        let kept: u64 = if custody.pricing.max_loss < BPS_POWER {
            BPS_POWER - custody.pricing.max_loss
        } else {
            0
        };
        proof {
            lemma_product_bound(position.size_usd, kept);
            lemma_div_pos_is_pos(position.size_usd * kept, BPS_POWER as int);
            lemma_div_nonincreasing(position.size_usd * kept, BPS_POWER as int);
        }
        let required: u128 = (position.size_usd as u128 * kept as u128) / (BPS_POWER as u128);
        let owed: u128 = required + interest as u128 + fee_usd as u128
            + position.unrealized_loss_usd as u128;
        let held: u128 = position.collateral_usd as u128 + position.unrealized_profit_usd as u128;
        let ghost buffer = liquidation_buffer(*position, *custody, interest, fee_usd);
        assert(buffer == held - owed);
        let (gap, toward_zero): (u128, bool) = if held >= owed {
            (held - owed, long)
        } else {
            (owed - held, !long)
        };
        proof {
            lemma_mul_nonnegative(gap as int, position.price as int);
        }
        let ghost distance = (gap * position.price) / (position.size_usd as int);
        match gap.checked_mul(position.price as u128) {
            Some(product) => {
                proof {
                    lemma_div_pos_is_pos(product as int, position.size_usd as int);
                }
                let distance: u128 = product / (position.size_usd as u128);
                if toward_zero {
                    if distance >= position.price as u128 {
                        Ok(0)
                    } else {
                        Ok((position.price as u128 - distance) as u64)
                    }
                } else {
                    match distance.checked_add(position.price as u128) {
                        Some(v) => math::checked_as_u64(v),
                        None => Err(PerpetualsError::MathOverflow),
                    }
                }
            },
            None => {
                proof {
                    math::lemma_large_quotient(gap * position.price, position.size_usd as int);
                }
                if toward_zero {
                    Ok(0)
                } else {
                    Err(PerpetualsError::MathOverflow)
                }
            },
        }
    }
    /// The weights of a custody in the pool before and after `amount_add`
    /// comes in and `amount_remove` goes out, all valued at `token_price`.
    /// Taking out more than the custody holds fails.
    pub open spec fn custody_weights(
        self,
        amount_add: u64,
        amount_remove: u64,
        custody: Custody,
        token_price: OraclePrice,
    ) -> Result<(int, int), PerpetualsError> {
        match token_price.asset_amount_usd(custody.assets.owned, custody.decimals) {
            Err(e) => Err(e),
            Ok(held) => match token_price.asset_amount_usd(amount_add, custody.decimals) {
                Err(e) => Err(e),
                Ok(added) => match token_price.asset_amount_usd(amount_remove, custody.decimals) {
                    Err(e) => Err(e),
                    Ok(removed) => if removed > held + added {
                        Err(PerpetualsError::InsufficientPoolLiquidity)
                    } else {
                        Ok(
                            (
                                weight_bps(held as int, self.aum_usd as int),
                                weight_bps(
                                    held + added - removed,
                                    self.aum_usd + added - removed,
                                ),
                            ),
                        )
                    },
                },
            },
        }
    }

    /// The fee of an action on a custody, aware of the custody's weight:
    /// the adjusted rate on the larger of the two amounts.
    pub open spec fn ratio_fee(
        self,
        token_id: usize,
        base_fee: u64,
        amount_add: u64,
        amount_remove: u64,
        custody: Custody,
        token_price: OraclePrice,
    ) -> Result<u64, PerpetualsError> {
        if token_id >= self.ratios@.len() {
            Err(PerpetualsError::UnknownToken)
        } else {
            match self.custody_weights(amount_add, amount_remove, custody, token_price) {
                Err(e) => Err(e),
                Ok(w) => {
                    let rate = adjusted_fee_rate(
                        base_fee,
                        w.0,
                        w.1,
                        self.ratios@[token_id as int],
                        custody.fees.max_deviation,
                    );
                    if rate > u64::MAX {
                        Err(PerpetualsError::MathOverflow)
                    } else {
                        fee_amount(
                            rate as u64,
                            if amount_add > amount_remove {
                                amount_add
                            } else {
                                amount_remove
                            },
                        )
                    }
                },
            }
        }
    }

    /// Charges `base_fee`, adjusted by how the action moves the custody's
    /// weight against its band.
    pub fn get_fee(
        &self,
        token_id: usize,
        base_fee: u64,
        amount_add: u64,
        amount_remove: u64,
        custody: &Custody,
        token_price: &OraclePrice,
    ) -> (r: Result<u64, PerpetualsError>)
        ensures
            r == self.ratio_fee(
                token_id,
                base_fee,
                amount_add,
                amount_remove,
                *custody,
                *token_price,
            ),
    {
        if token_id >= self.ratios.len() {
            return Err(PerpetualsError::UnknownToken);
        }
        let held = token_price.get_asset_amount_usd(custody.assets.owned, custody.decimals)?;
        let added = token_price.get_asset_amount_usd(amount_add, custody.decimals)?;
        let removed = token_price.get_asset_amount_usd(amount_remove, custody.decimals)?;
        let gross: u128 = held as u128 + added as u128;
        if removed as u128 > gross {
            return Err(PerpetualsError::InsufficientPoolLiquidity);
        }
        let before = get_weight_bps(held as u128, self.aum_usd);
        let after = match self.aum_usd.checked_add(added as u128) {
            Some(total) => if total >= removed as u128 {
                get_weight_bps(gross - removed as u128, total - removed as u128)
            } else {
                0
            },
            None => {
                // The pool is worth more than any custody can weigh in.
                proof {
                    let total = self.aum_usd + added - removed;
                    let value = held + added - removed;
                    assert(total > 0x7fff_ffff_ffff_ffff_ffff_ffff_ffff_ffff);
                    assert(value * BPS_POWER < total) by (nonlinear_arith)
                        requires
                            0 <= value <= 0x1_ffff_ffff_ffff_fffe,
                            BPS_POWER == 10_000,
                            total > 0x7fff_ffff_ffff_ffff_ffff_ffff_ffff_ffff,
                    ;
                    lemma_mul_nonnegative(value, BPS_POWER as int);
                    lemma_basic_div(value * BPS_POWER, total);
                }
                0
            },
        };
        let ratios = &self.ratios[token_id];
        let from = get_band_distance(before, ratios);
        let to = get_band_distance(after, ratios);
        let cap = custody.fees.max_deviation;
        let rate: u64 = if to >= from {
            let rise = if to - from > cap {
                cap
            } else {
                to - from
            };
            match base_fee.checked_add(rise) {
                Some(v) => v,
                None => {
                    return Err(PerpetualsError::MathOverflow);
                },
            }
        } else {
            let fall = if from - to > cap {
                cap
            } else {
                from - to
            };
            if fall > base_fee {
                0
            } else {
                base_fee - fall
            }
        };
        Self::get_fee_amount(
            rate,
            if amount_add > amount_remove {
                amount_add
            } else {
                amount_remove
            },
        )
    }

    /// Fee for adding `amount_in` tokens to `custody`.
    pub fn get_add_liquidity_fee(
        &self,
        token_id: usize,
        amount_in: u64,
        custody: &Custody,
        token_price: &OraclePrice,
    ) -> (r: Result<u64, PerpetualsError>)
        ensures
            r == self.ratio_fee(
                token_id,
                custody.fees.add_liquidity,
                amount_in,
                0,
                *custody,
                *token_price,
            ),
    {
        self.get_fee(token_id, custody.fees.add_liquidity, amount_in, 0, custody, token_price)
    }

    /// Fee for taking `amount_out` tokens out of `custody`.
    pub fn get_remove_liquidity_fee(
        &self,
        token_id: usize,
        amount_out: u64,
        custody: &Custody,
        token_price: &OraclePrice,
    ) -> (r: Result<u64, PerpetualsError>)
        ensures
            r == self.ratio_fee(
                token_id,
                custody.fees.remove_liquidity,
                0,
                amount_out,
                *custody,
                *token_price,
            ),
    {
        self.get_fee(token_id, custody.fees.remove_liquidity, 0, amount_out, custody, token_price)
    }

    /// Gross amount of the dispensing custody's token for `amount_in`.
    pub fn get_swap_amount(
        &self,
        token_in_price: &OraclePrice,
        token_in_ema_price: &OraclePrice,
        token_out_price: &OraclePrice,
        token_out_ema_price: &OraclePrice,
        custody_in: &Custody,
        custody_out: &Custody,
        amount_in: u64,
    ) -> (r: Result<u64, PerpetualsError>)
        ensures
            r == swap_amount(
                *token_in_price,
                *token_in_ema_price,
                *token_out_price,
                *token_out_ema_price,
                *custody_in,
                *custody_out,
                amount_in,
            ),
    {
        let price_in = token_in_price.max_with(token_in_ema_price)?;
        let price_out = token_out_price.get_min_price(token_out_ema_price, custody_out.is_stable)?;
        let usd = price_in.get_asset_amount_usd(amount_in, custody_in.decimals)?;
        price_out.get_token_amount(usd, custody_out.decimals)
    }

    /// What `get_swap_fees` returns: the input side's fee, then the output
    /// side's.
    pub open spec fn swap_fees(
        self,
        token_id_in: usize,
        token_id_out: usize,
        amount_in: u64,
        amount_out: u64,
        custody_in: Custody,
        token_price_in: OraclePrice,
        custody_out: Custody,
        token_price_out: OraclePrice,
    ) -> Result<(u64, u64), PerpetualsError> {
        match self.ratio_fee(
            token_id_in,
            swap_in_rate(custody_in),
            amount_in,
            0,
            custody_in,
            token_price_in,
        ) {
            Err(e) => Err(e),
            Ok(fee_in) => match self.ratio_fee(
                token_id_out,
                swap_out_rate(custody_out),
                0,
                amount_out,
                custody_out,
                token_price_out,
            ) {
                Err(e) => Err(e),
                Ok(fee_out) => Ok((fee_in, fee_out)),
            },
        }
    }

    /// The two fees of a swap: on the input, by how it raises the receiving
    /// custody's weight; on the output, by how it lowers the dispensing
    /// custody's.
    pub fn get_swap_fees(
        &self,
        token_id_in: usize,
        token_id_out: usize,
        amount_in: u64,
        amount_out: u64,
        custody_in: &Custody,
        token_price_in: &OraclePrice,
        custody_out: &Custody,
        token_price_out: &OraclePrice,
    ) -> (r: Result<(u64, u64), PerpetualsError>)
        ensures
            r == self.swap_fees(
                token_id_in,
                token_id_out,
                amount_in,
                amount_out,
                *custody_in,
                *token_price_in,
                *custody_out,
                *token_price_out,
            ),
    {
        let rate_in = if custody_in.is_stable {
            custody_in.fees.stable_swap_in
        } else {
            custody_in.fees.swap_in
        };
        let rate_out = if custody_out.is_stable {
            custody_out.fees.stable_swap_out
        } else {
            custody_out.fees.swap_out
        };
        let fee_in = self.get_fee(token_id_in, rate_in, amount_in, 0, custody_in, token_price_in)?;
        let fee_out = self.get_fee(
            token_id_out,
            rate_out,
            0,
            amount_out,
            custody_out,
            token_price_out,
        )?;
        Ok((fee_in, fee_out))
    }

    /// The custodies offered are the pool's own, in the pool's order.
    pub open spec fn accounts_match(self, accounts: Seq<CustodyAccount>) -> bool {
        &&& accounts.len() == self.custodies@.len()
        &&& forall|i: int| 0 <= i < accounts.len() ==> accounts[i].key@ == self.custodies@[i]@
    }

    /// The pool's value under `mode`; custodies offered in another order
    /// than the pool's are refused.
    pub open spec fn assets_under_management_usd(
        self,
        mode: AumCalcMode,
        accounts: Seq<CustodyAccount>,
        curtime: i64,
    ) -> Result<u128, PerpetualsError> {
        if !self.accounts_match(accounts) {
            Err(PerpetualsError::InvalidArgument)
        } else {
            aum_sum(mode, accounts, curtime, accounts.len())
        }
    }

    /// Values one custody's reserves under `mode`.
    pub fn get_custody_value(mode: AumCalcMode, account: &CustodyAccount, curtime: i64) -> (r: Result<
        u64,
        PerpetualsError,
    >)
        ensures
            r == custody_value(mode, *account, curtime),
    {
        let custody = &account.custody;
        if custody.is_virtual {
            return Ok(0);
        }
        let twap = match &account.twap_account {
            Some(t) => Some(t),
            None => None,
        };
        let spot = OraclePrice::new_from_oracle(
            &account.oracle_account,
            twap,
            &custody.oracle,
            curtime,
            false,
            custody.oracle.feed_id,
        )?;
        let ema = OraclePrice::new_from_oracle(
            &account.oracle_account,
            twap,
            &custody.oracle,
            curtime,
            custody.pricing.use_ema,
            custody.oracle.feed_id,
        )?;
        let price = if custody.is_stable {
            spot.get_min_price(&ema, true)?
        } else {
            match mode {
                AumCalcMode::Min => spot.min_with(&ema)?,
                AumCalcMode::Max => spot.max_with(&ema)?,
                AumCalcMode::EMA => ema,
            }
        };
        price.get_asset_amount_usd(custody.assets.owned, custody.decimals)
    }

    /// Walks the custodies in the pool's order and sums their values in
    /// USD.
    pub fn get_assets_under_management_usd(
        &self,
        mode: AumCalcMode,
        accounts: &Vec<CustodyAccount>,
        curtime: i64,
    ) -> (r: Result<u128, PerpetualsError>)
        ensures
            r == self.assets_under_management_usd(mode, accounts@, curtime),
    {
        if accounts.len() != self.custodies.len() {
            return Err(PerpetualsError::InvalidArgument);
        }
        let mut i: usize = 0;
        while i < accounts.len()
            invariant
                i <= accounts@.len(),
                accounts@.len() == self.custodies@.len(),
                forall|j: int| 0 <= j < i ==> accounts@[j].key@ == self.custodies@[j]@,
            decreases accounts@.len() - i,
        {
            if !same_key(&accounts[i].key, &self.custodies[i]) {
                return Err(PerpetualsError::InvalidArgument);
            }
            i += 1;
        }
        assert(self.accounts_match(accounts@));
        let mut sum: u128 = 0;
        let mut k: usize = 0;
        while k < accounts.len()
            invariant
                k <= accounts@.len(),
                self.accounts_match(accounts@),
                aum_sum(mode, accounts@, curtime, k as nat) == Ok::<u128, PerpetualsError>(sum),
            decreases accounts@.len() - k,
        {
            proof {
                reveal_with_fuel(aum_sum, 2);
            }
            let value = match Self::get_custody_value(mode, &accounts[k], curtime) {
                Ok(v) => v,
                Err(e) => {
                    proof {
                        lemma_aum_sum_fails(mode, accounts@, curtime, (k + 1) as nat, accounts@.len());
                    }
                    return Err(e);
                },
            };
            sum = match sum.checked_add(value as u128) {
                Some(v) => v,
                None => {
                    proof {
                        lemma_aum_sum_fails(mode, accounts@, curtime, (k + 1) as nat, accounts@.len());
                    }
                    return Err(PerpetualsError::MathOverflow);
                },
            };
            k += 1;
        }
        Ok(sum)
    }
}

/// Once the sum over a prefix has failed, the sum over every longer prefix
/// fails in the same way.
pub proof fn lemma_aum_sum_fails(
    mode: AumCalcMode,
    accounts: Seq<CustodyAccount>,
    curtime: i64,
    n: nat,
    m: nat,
)
    requires
        n <= m,
        aum_sum(mode, accounts, curtime, n) is Err,
    ensures
        aum_sum(mode, accounts, curtime, m) == aum_sum(mode, accounts, curtime, n),
    decreases m - n,
{
    if n < m {
        lemma_aum_sum_fails(mode, accounts, curtime, n, (m - 1) as nat);
    }
}

/// A swap creates no value: what comes out, valued at the price at which
/// it was bought, is worth at most what went in, valued at the price at
/// which it was sold.
pub proof fn lemma_swap_conserves_value(
    token_in_price: OraclePrice,
    token_in_ema_price: OraclePrice,
    token_out_price: OraclePrice,
    token_out_ema_price: OraclePrice,
    custody_in: Custody,
    custody_out: Custody,
    amount_in: u64,
)
    requires
        swap_amount(
            token_in_price,
            token_in_ema_price,
            token_out_price,
            token_out_ema_price,
            custody_in,
            custody_out,
            amount_in,
        ) is Ok,
    ensures
        ({
            let amount_out = swap_amount(
                token_in_price,
                token_in_ema_price,
                token_out_price,
                token_out_ema_price,
                custody_in,
                custody_out,
                amount_in,
            )->Ok_0;
            let price_in = token_in_price.higher_of(token_in_ema_price)->Ok_0;
            let price_out = token_out_price.min_price(token_out_ema_price, custody_out.is_stable)->Ok_0;
            let input_usd = price_in.asset_amount_usd(amount_in, custody_in.decimals)->Ok_0;
            price_out.asset_amount_usd(amount_out, custody_out.decimals) matches Ok(output_usd)
                ==> output_usd <= input_usd
        }),
{
    let amount_out = swap_amount(
        token_in_price,
        token_in_ema_price,
        token_out_price,
        token_out_ema_price,
        custody_in,
        custody_out,
        amount_in,
    )->Ok_0;
    let price_in = token_in_price.higher_of(token_in_ema_price)->Ok_0;
    let price_out = token_out_price.min_price(token_out_ema_price, custody_out.is_stable)->Ok_0;
    let input_usd = price_in.asset_amount_usd(amount_in, custody_in.decimals)->Ok_0;
    if let Ok(output_usd) = price_out.asset_amount_usd(amount_out, custody_out.decimals) {
        crate::lp::lemma_round_trip_usd(
            price_out,
            input_usd,
            custody_out.decimals,
            amount_out,
            output_usd,
        );
    }
}

/// `to` is at least as good for the position as `from`: not lower for a
/// long, not higher for a short.
pub open spec fn no_worse(position: Position, from: u64, to: u64) -> bool {
    match position.side {
        Side::Long => from <= to,
        Side::Short => from >= to,
        Side::Unset => from == to,
    }
}

/// A better exit price never pays less.
pub proof fn lemma_net_pnl_monotonic(position: Position, from: u64, to: u64, interest: u64, fee_usd: u64)
    requires
        position.price > 0,
        no_worse(position, from, to),
    ensures
        net_pnl(position, from, interest, fee_usd) <= net_pnl(position, to, interest, fee_usd),
{
    let size = position.size_usd as int;
    let entry = position.price as int;
    lemma_mul_inequality(price_gain(position, from), price_gain(position, to), size);
    lemma_mul_inequality(price_drop(position, to), price_drop(position, from), size);
    lemma_mul_is_commutative(size, price_gain(position, from));
    lemma_mul_is_commutative(size, price_gain(position, to));
    lemma_mul_is_commutative(size, price_drop(position, from));
    lemma_mul_is_commutative(size, price_drop(position, to));
    lemma_div_is_ordered(size * price_gain(position, from), size * price_gain(position, to), entry);
    lemma_div_is_ordered(size * price_drop(position, to), size * price_drop(position, from), entry);
}

/// As the price moves against a position, the leverage check passes up to
/// some price and fails from there on: a position that is within its limits
/// at one exit price is within them at every price that is no worse.
pub proof fn lemma_leverage_monotonic(
    position: Position,
    from: u64,
    to: u64,
    interest: u64,
    fee_usd: u64,
    custody: Custody,
    initial: bool,
)
    requires
        no_worse(position, from, to),
        settled(position, from, interest, fee_usd) is Ok,
        settled(position, to, interest, fee_usd) is Ok,
        ({
            let pnl = settled(position, from, interest, fee_usd)->Ok_0;
            margin_suffices(position, position.collateral_usd + pnl.0 - pnl.1, custody, initial)
        }),
    ensures
        ({
            let pnl = settled(position, to, interest, fee_usd)->Ok_0;
            margin_suffices(position, position.collateral_usd + pnl.0 - pnl.1, custody, initial)
        }),
{
    lemma_net_pnl_monotonic(position, from, to, interest, fee_usd);
    let before = position.collateral_usd + net_pnl(position, from, interest, fee_usd);
    let after = position.collateral_usd + net_pnl(position, to, interest, fee_usd);
    let bound = leverage_bound(custody, initial) as int;
    lemma_mul_inequality(before, after, bound);
}

/// A price moved by a spread of at most one whole keeps its order: of two
/// prices at one exponent, the higher stays the higher.
pub proof fn lemma_spread_price_monotonic(
    low: OraclePrice,
    high: OraclePrice,
    spread: u64,
    upward: bool,
)
    requires
        low.exponent == high.exponent,
        low.price <= high.price,
        spread <= BPS_POWER,
        spread_price(low, spread, upward) is Ok,
        spread_price(high, spread, upward) is Ok,
    ensures
        spread_price(low, spread, upward)->Ok_0 <= spread_price(high, spread, upward)->Ok_0,
{
    let a = low.price as int;
    let b = high.price as int;
    let s = spread as int;
    let d = BPS_POWER as int;
    lemma_mul_inequality(a, b, s);
    lemma_mul_nonnegative(a, s);
    lemma_div_is_ordered(a * s, b * s, d);
    let moved_low = if upward {
        a + (a * s) / d
    } else {
        a - (a * s) / d
    };
    let moved_high = if upward {
        b + (b * s) / d
    } else {
        b - (b * s) / d
    };
    if !upward {
        // b * s <= a * s + (b - a) * d, so the shift grows by at most b - a
        assert(b * s <= a * s + (b - a) * d) by (nonlinear_arith)
            requires
                a <= b,
                0 <= s <= d,
        ;
        lemma_div_is_ordered(b * s, a * s + (b - a) * d, d);
        lemma_hoist_over_denominator(a * s, b - a, d as nat);
    }
    assert(moved_low <= moved_high);
    let delta = -(PRICE_DECIMALS as int) - low.exponent;
    if delta > 0 {
        vstd::arithmetic::power::lemma_pow_positive(10, delta as nat);
        crate::math::lemma_pow10_limits();
        if delta <= 19 {
            vstd::arithmetic::power::lemma_pow_increases(10, delta as nat, 19);
            lemma_div_is_ordered(
                moved_low,
                moved_high,
                vstd::arithmetic::power::pow(10, delta as nat),
            );
        }
    } else if delta < 0 {
        vstd::arithmetic::power::lemma_pow_positive(10, (-delta) as nat);
        lemma_mul_inequality(
            moved_low,
            moved_high,
            vstd::arithmetic::power::pow(10, (-delta) as nat),
        );
    }
}

/// As the oracle price moves against a position, the leverage check turns
/// from true to false once and stays false: if it passes at one price, it
/// passes at every price of the same exponent that is no worse for the
/// position, where it can be made at all.
pub proof fn lemma_leverage_check_turns_once(
    position: Position,
    from: OraclePrice,
    to: OraclePrice,
    custody: Custody,
    collateral_token_price: OraclePrice,
    collateral_token_ema_price: OraclePrice,
    collateral_custody: Custody,
    curtime: i64,
    initial: bool,
)
    requires
        custody.pricing.valid(),
        from.exponent == to.exponent,
        no_worse(position, from.price, to.price),
        leverage_checked(
            position,
            from,
            from,
            custody,
            collateral_token_price,
            collateral_token_ema_price,
            collateral_custody,
            curtime,
            initial,
        ) == Ok::<bool, PerpetualsError>(true),
        leverage_checked(
            position,
            to,
            to,
            custody,
            collateral_token_price,
            collateral_token_ema_price,
            collateral_custody,
            curtime,
            initial,
        ) is Ok,
    ensures
        leverage_checked(
            position,
            to,
            to,
            custody,
            collateral_token_price,
            collateral_token_ema_price,
            collateral_custody,
            curtime,
            initial,
        ) == Ok::<bool, PerpetualsError>(true),
{
    let exit_from = exit_price(from, from, position.side, custody);
    let exit_to = exit_price(to, to, position.side, custody);
    assert(exit_from is Ok && exit_to is Ok);
    assert(from.lower_of(from) == Ok::<OraclePrice, PerpetualsError>(from));
    assert(from.higher_of(from) == Ok::<OraclePrice, PerpetualsError>(from));
    assert(to.lower_of(to) == Ok::<OraclePrice, PerpetualsError>(to));
    assert(to.higher_of(to) == Ok::<OraclePrice, PerpetualsError>(to));
    match position.side {
        Side::Long => {
            lemma_spread_price_monotonic(from, to, custody.pricing.trade_spread_long, false);
        },
        Side::Short => {
            lemma_spread_price_monotonic(to, from, custody.pricing.trade_spread_short, true);
        },
        Side::Unset => {},
    }
    let interest = interest_usd(position, collateral_custody, curtime)->Ok_0;
    let fee_usd = fee_amount(close_fee_rate(custody, false), position.size_usd)->Ok_0;
    assert(no_worse(position, exit_from->Ok_0, exit_to->Ok_0));
    lemma_leverage_monotonic(
        position,
        exit_from->Ok_0,
        exit_to->Ok_0,
        interest,
        fee_usd,
        custody,
        initial,
    );
}

/// The adjusted fee rate follows the weight's distance from its band: it is
/// never negative, stays within `max_deviation` of the base rate, is at
/// least the base rate where the distance grows and at most the base rate
/// where it shrinks, and of two outcomes the one further from the band pays
/// no less.
pub proof fn lemma_fee_rate_follows_distance(
    base: u64,
    before: int,
    after: int,
    further: int,
    ratios: TokenRatios,
    max_deviation: u64,
)
    requires
        band_distance(after, ratios) <= band_distance(further, ratios),
    ensures
        0 <= adjusted_fee_rate(base, before, after, ratios, max_deviation) <= base + max_deviation,
        adjusted_fee_rate(base, before, after, ratios, max_deviation) >= base - max_deviation,
        band_distance(after, ratios) >= band_distance(before, ratios) ==> adjusted_fee_rate(
            base,
            before,
            after,
            ratios,
            max_deviation,
        ) >= base,
        band_distance(after, ratios) <= band_distance(before, ratios) ==> adjusted_fee_rate(
            base,
            before,
            after,
            ratios,
            max_deviation,
        ) <= base,
        adjusted_fee_rate(base, before, after, ratios, max_deviation) <= adjusted_fee_rate(
            base,
            before,
            further,
            ratios,
            max_deviation,
        ),
{
}

} // verus!
