//! The actions of the exchange, each on the records it names and the time at
//! which it runs: what they share, and every action by its name.

pub use crate::admin::{
    add_custody_init, initialized_custody, set_custom_oracle_price, upgrade_custody,
    AddCustodyInit, AddCustodyInitParams, SetCustomOraclePrice, SetCustomOraclePriceParams,
    UpgradeCustody, UpgradeCustodyParams,
};
pub use crate::liquidity::{
    add_liquidity, get_liquidity_quote, get_redemption_quote, get_swap_quote, liquidity_added,
    liquidity_quote, liquidity_removed, redemption_quote, relisted, remove_liquidity, swap,
    swap_done, swap_quote, update_pool_aum, AddLiquidity, AddLiquidityParams, LiquidityAdded,
    LiquidityRemoved, RemoveLiquidity, RemoveLiquidityParams, Swap, SwapParams, Swapped,
    UpdatePoolAum, UpdatePoolAumParams,
};
pub use crate::queries::{
    add_liquidity_amount_and_fee, entry_price_and_fee, exit_price_and_fee,
    get_add_liquidity_amount_and_fee, get_assets_under_management, get_entry_price_and_fee,
    get_exit_price_and_fee, get_liquidation_price, get_liquidation_state, get_lp_token_price,
    get_oracle_price, get_pnl, get_remove_liquidity_amount_and_fee, get_swap_amount_and_fees,
    liquidation_state, lp_token_price, oracle_price, profit_and_loss, quoted_liquidation_price,
    remove_liquidity_amount_and_fee, swap_amount_and_fees, GetAddLiquidityAmountAndFee,
    GetAddLiquidityAmountAndFeeParams, GetAssetsUnderManagement, GetAssetsUnderManagementParams,
    GetEntryPriceAndFee, GetEntryPriceAndFeeParams, GetExitPriceAndFee,
    GetExitPriceAndFeeParams, GetLiquidationPrice, GetLiquidationPriceParams,
    GetLiquidationState, GetLiquidationStateParams, GetLpTokenPrice, GetLpTokenPriceParams,
    GetOraclePrice, GetOraclePriceParams, GetPnl, GetPnlParams, GetRemoveLiquidityAmountAndFee,
    GetRemoveLiquidityAmountAndFeeParams, GetSwapAmountAndFees, GetSwapAmountAndFeesParams,
};
pub use crate::trading::{
    add_collateral, backing_custody, change_collateral, close_position, collateral_changed,
    liquidate, liquidation_settled, open_position, opened_position, position_closed,
    position_to_open, remove_collateral, AddCollateralParams, ChangeCollateral, ClosePosition,
    ClosePositionParams, Liquidate, LiquidateParams, OpenPosition, OpenPositionParams,
    RemoveCollateralParams, Settlement,
};
use crate::custody::Custody;
use crate::error::PerpetualsError;
use crate::gateway::{resolved_price, OracleAccount, TwapFeed};
use crate::math;
use crate::oracle::{OraclePrice, PRICE_DECIMALS};
use crate::pool::{entry_price, Pool};
use crate::position::{Position, Side};
use vstd::prelude::*;

verus! {

#[derive(Copy, Clone, PartialEq, Eq, Default, Debug, Structural)]
pub struct AmountAndFee {
    pub amount: u64,
    pub fee: u64,
}

#[derive(Copy, Clone, PartialEq, Eq, Default, Debug, Structural)]
pub struct NewPositionPricesAndFee {
    pub entry_price: u64,
    pub liquidation_price: u64,
    pub fee: u64,
}

#[derive(Copy, Clone, PartialEq, Eq, Default, Debug, Structural)]
pub struct PriceAndFee {
    pub price: u64,
    pub fee: u64,
}

#[derive(Copy, Clone, PartialEq, Eq, Default, Debug, Structural)]
pub struct ProfitAndLoss {
    pub profit: u64,
    pub loss: u64,
}

#[derive(Copy, Clone, PartialEq, Eq, Default, Debug, Structural)]
pub struct SwapAmountAndFees {
    pub amount_out: u64,
    pub fee_in: u64,
    pub fee_out: u64,
}

/// A custody with the accounts that price it.
#[derive(Copy, Clone, PartialEq, Debug)]
pub struct PricedCustody {
    pub key: [u8; 32],
    pub custody: Custody,
    pub oracle_account: OracleAccount,
    pub twap_account: Option<TwapFeed>,
}

/// The price of a position, as an oracle price.
pub open spec fn position_price(price: u64) -> OraclePrice {
    OraclePrice { price, exponent: (-(PRICE_DECIMALS as int)) as i32 }
}

impl PricedCustody {
    /// The custody's spot price and its average, which is the spot price
    /// again unless the custody prices by average.
    pub open spec fn prices(self, curtime: i64) -> Result<
        (OraclePrice, OraclePrice),
        PerpetualsError,
    > {
        match resolved_price(
            self.oracle_account,
            self.twap_account,
            self.custody.oracle,
            curtime,
            false,
            self.custody.oracle.feed_id,
        ) {
            Err(e) => Err(e),
            Ok(spot) => {
                match self.ema_price(curtime) {
                    Err(e) => Err(e),
                    Ok(ema) => {
                        Ok((spot, ema))
                    },
                }
            },
        }
    }

    /// The price that the custody's configuration asks for.
    pub open spec fn ema_price(self, curtime: i64) -> Result<OraclePrice, PerpetualsError> {
        resolved_price(
            self.oracle_account,
            self.twap_account,
            self.custody.oracle,
            curtime,
            self.custody.pricing.use_ema,
            self.custody.oracle.feed_id,
        )
    }

    /// The paired average account, if one was offered.
    pub fn twap(&self) -> (r: Option<&TwapFeed>)
        ensures
            match r {
                Some(t) => self.twap_account == Some(*t),
                None => self.twap_account is None,
            },
    {
        match &self.twap_account {
            Some(t) => Some(t),
            None => None,
        }
    }

    /// Resolves the custody's oracle by the custody's configuration.
    pub fn get_ema_price(&self, curtime: i64) -> (r: Result<OraclePrice, PerpetualsError>)
        ensures
            r == self.ema_price(curtime),
    {
        OraclePrice::new_from_oracle(
            &self.oracle_account,
            self.twap(),
            &self.custody.oracle,
            curtime,
            self.custody.pricing.use_ema,
            self.custody.oracle.feed_id,
        )
    }

    /// Resolves the custody's oracle twice: spot, then average.
    pub fn get_prices(&self, curtime: i64) -> (r: Result<
        (OraclePrice, OraclePrice),
        PerpetualsError,
    >)
        ensures
            r == self.prices(curtime),
    {
        let spot = OraclePrice::new_from_oracle(
            &self.oracle_account,
            self.twap(),
            &self.custody.oracle,
            curtime,
            false,
            self.custody.oracle.feed_id,
        )?;
        let ema = self.get_ema_price(curtime)?;
        Ok((spot, ema))
    }
}

/// A position as it would stand right after opening.
pub open spec fn quoted_position(
    side: Side,
    price: u64,
    size_usd: u64,
    collateral_usd: u64,
    snapshot: u128,
) -> Position {
    Position {
        owner: arbitrary(),
        pool: arbitrary(),
        custody: arbitrary(),
        collateral_custody: arbitrary(),
        open_time: 0,
        update_time: 0,
        side,
        price,
        size_usd,
        collateral_usd,
        unrealized_profit_usd: 0,
        unrealized_loss_usd: 0,
        cumulative_interest_snapshot: snapshot,
        locked_amount: 0,
        collateral_amount: 0,
    }
}

/// True when the position settles in the collateral custody's token: a
/// short, or any position in a virtual custody.
pub open spec fn settles_in_collateral(side: Side, custody: Custody) -> bool {
    side == Side::Short || custody.is_virtual
}

/// The reserve that a new position locks: for a position that settles in
/// collateral, counted on its size in collateral tokens.
pub open spec fn quoted_locked_amount(
    side: Side,
    size: u64,
    size_usd: u64,
    custody: Custody,
    collateral_custody: Custody,
    min_collateral_price: OraclePrice,
) -> Result<u64, PerpetualsError> {
    if settles_in_collateral(side, custody) {
        match min_collateral_price.token_amount(size_usd, collateral_custody.decimals) {
            Err(e) => Err(e),
            Ok(tokens) => custody.locked_amount(tokens, side),
        }
    } else {
        custody.locked_amount(size, side)
    }
}

/// A fee in the token in which the position settles: converted through USD
/// at the two averages for a position that settles in collateral.
pub open spec fn settled_fee(
    side: Side,
    fee: u64,
    custody: Custody,
    token_ema_price: OraclePrice,
    collateral_custody: Custody,
    collateral_token_ema_price: OraclePrice,
) -> Result<u64, PerpetualsError> {
    if settles_in_collateral(side, custody) {
        match token_ema_price.asset_amount_usd(fee, custody.decimals) {
            Err(e) => Err(e),
            Ok(usd) => collateral_token_ema_price.token_amount(usd, collateral_custody.decimals),
        }
    } else {
        Ok(fee)
    }
}

/// Converts a fee into the token in which the position settles.
pub fn get_settled_fee(
    side: Side,
    fee: u64,
    custody: &Custody,
    token_ema_price: &OraclePrice,
    collateral_custody: &Custody,
    collateral_token_ema_price: &OraclePrice,
) -> (r: Result<u64, PerpetualsError>)
    ensures
        r == settled_fee(
            side,
            fee,
            *custody,
            *token_ema_price,
            *collateral_custody,
            *collateral_token_ema_price,
        ),
{
    let short = match side {
        Side::Short => true,
        _ => false,
    };
    if short || custody.is_virtual {
        let usd = token_ema_price.get_asset_amount_usd(fee, custody.decimals)?;
        collateral_token_ema_price.get_token_amount(usd, collateral_custody.decimals)
    } else {
        Ok(fee)
    }
}

/// The position after `add` tokens of collateral come in and `remove` go
/// out, both valued at `price`, at `curtime`. Taking out all the collateral
/// or more, in tokens or in value, fails.
pub open spec fn collateral_adjusted(
    position: Position,
    price: OraclePrice,
    decimals: u8,
    add: u64,
    remove: u64,
    curtime: i64,
) -> Result<Position, PerpetualsError> {
    match price.asset_amount_usd(add, decimals) {
        Err(e) => Err(e),
        Ok(added) => {
            match math::checked_u64(position.collateral_usd + added) {
                Err(e) => Err(e),
                Ok(collateral_usd) => {
                    match math::checked_u64(position.collateral_amount + add) {
                        Err(e) => Err(e),
                        Ok(collateral_amount) => {
                            if remove == 0 {
                                Ok(
                                    Position { update_time: curtime, collateral_usd, collateral_amount, ..position },
                                )
                            } else {
                                match price.asset_amount_usd(remove, decimals) {
                                    Err(e) => Err(e),
                                    Ok(removed) => if removed >= collateral_usd || remove >= collateral_amount {
                                        Err(PerpetualsError::InsufficientFunds)
                                    } else {
                                        Ok(
                                            Position {
                                                update_time: curtime,
                                                collateral_usd: (collateral_usd - removed) as u64,
                                                collateral_amount: (collateral_amount - remove) as u64,
                                                ..position
                                            },
                                        )
                                    },
                                }
                            }
                        },
                    }
                },
            }
        },
    }
}

/// Applies a change of collateral to a copy of the position.
pub fn adjust_collateral(
    position: &Position,
    price: &OraclePrice,
    decimals: u8,
    add: u64,
    remove: u64,
    curtime: i64,
) -> (r: Result<Position, PerpetualsError>)
    ensures
        r == collateral_adjusted(*position, *price, decimals, add, remove, curtime),
{
    let mut adjusted = *position;
    adjusted.update_time = curtime;
    let added = price.get_asset_amount_usd(add, decimals)?;
    adjusted.collateral_usd = math::checked_add(adjusted.collateral_usd, added)?;
    adjusted.collateral_amount = math::checked_add(adjusted.collateral_amount, add)?;
    if remove > 0 {
        let removed = price.get_asset_amount_usd(remove, decimals)?;
        if removed >= adjusted.collateral_usd || remove >= adjusted.collateral_amount {
            return Err(PerpetualsError::InsufficientFunds);
        }
        adjusted.collateral_usd = adjusted.collateral_usd - removed;
        adjusted.collateral_amount = adjusted.collateral_amount - remove;
    }
    Ok(adjusted)
}

/// The prices that pricing a position reads.
#[derive(Copy, Clone, PartialEq, Eq, Debug)]
pub struct QuotePrices {
    pub token: OraclePrice,
    pub token_ema: OraclePrice,
    pub collateral: OraclePrice,
    pub collateral_ema: OraclePrice,
    /// The lower of the collateral's two prices, capped at one for a stable
    /// collateral.
    pub min_collateral: OraclePrice,
}

/// What a new position amounts to.
#[derive(Copy, Clone, PartialEq, Eq, Debug, Structural)]
pub struct PositionTerms {
    pub entry_price: u64,
    pub size_usd: u64,
    pub collateral_usd: u64,
    pub locked_amount: u64,
    pub cumulative_interest_snapshot: u128,
}

/// The prices of the traded custody and of the collateral custody, each
/// read from its own oracle.
pub open spec fn quote_prices(
    custody: PricedCustody,
    collateral_custody: PricedCustody,
    curtime: i64,
) -> Result<QuotePrices, PerpetualsError> {
    match custody.prices(curtime) {
        Err(e) => Err(e),
        Ok(prices) => {
            match collateral_custody.prices(curtime) {
                Err(e) => Err(e),
                Ok(collateral_prices) => {
                    match collateral_prices.0.min_price(
                        collateral_prices.1,
                        collateral_custody.custody.is_stable,
                    ) {
                        Err(e) => Err(e),
                        Ok(min_collateral) => {
                            Ok(
                                QuotePrices {
                                    token: prices.0,
                                    token_ema: prices.1,
                                    collateral: collateral_prices.0,
                                    collateral_ema: collateral_prices.1,
                                    min_collateral,
                                },
                            )
                        },
                    }
                },
            }
        },
    }
}

/// Resolves the oracles of both custodies.
pub fn get_quote_prices(custody: &PricedCustody, collateral_custody: &PricedCustody, curtime: i64) -> (r:
    Result<QuotePrices, PerpetualsError>)
    ensures
        r == quote_prices(*custody, *collateral_custody, curtime),
{
    let (token, token_ema) = custody.get_prices(curtime)?;
    let (collateral, collateral_ema) = collateral_custody.get_prices(curtime)?;
    let min_collateral = collateral.get_min_price(
        &collateral_ema,
        collateral_custody.custody.is_stable,
    )?;
    Ok(QuotePrices { token, token_ema, collateral, collateral_ema, min_collateral })
}

/// What a position of `size` tokens on `collateral` tokens amounts to: its
/// entry price, its size at that price, its collateral at the lower
/// collateral price, the reserve that it locks, and the borrow index from
/// which its interest will count.
pub open spec fn position_terms(
    custody: Custody,
    collateral_custody: Custody,
    prices: QuotePrices,
    collateral: u64,
    size: u64,
    side: Side,
    curtime: i64,
) -> Result<PositionTerms, PerpetualsError> {
    match entry_price(prices.token, side, custody) {
        Err(e) => Err(e),
        Ok(entry) => {
            match position_price(entry).asset_amount_usd(size, custody.decimals) {
                Err(e) => Err(e),
                Ok(size_usd) => {
                    match prices.min_collateral.asset_amount_usd(
                        collateral,
                        collateral_custody.decimals,
                    ) {
                        Err(e) => Err(e),
                        Ok(collateral_usd) => {
                            match quoted_locked_amount(
                                side,
                                size,
                                size_usd,
                                custody,
                                collateral_custody,
                                prices.min_collateral,
                            ) {
                                Err(e) => Err(e),
                                Ok(locked_amount) => {
                                    match math::checked_u128(
                                        collateral_custody.cumulative_interest(curtime),
                                    ) {
                                        Err(e) => Err(e),
                                        Ok(snapshot) => {
                                            Ok(
                                                PositionTerms {
                                                    entry_price: entry,
                                                    size_usd,
                                                    collateral_usd,
                                                    locked_amount,
                                                    cumulative_interest_snapshot: snapshot,
                                                },
                                            )
                                        },
                                    }
                                },
                            }
                        },
                    }
                },
            }
        },
    }
}

/// Prices a new position.
pub fn get_position_terms(
    pool: &Pool,
    custody: &Custody,
    collateral_custody: &Custody,
    prices: &QuotePrices,
    collateral: u64,
    size: u64,
    side: Side,
    curtime: i64,
) -> (r: Result<PositionTerms, PerpetualsError>)
    ensures
        r == position_terms(*custody, *collateral_custody, *prices, collateral, size, side, curtime),
{
    let entry_price = pool.get_entry_price(&prices.token, &prices.token_ema, side, custody)?;
    let decimals: i32 = PRICE_DECIMALS as i32;
    let position_oracle_price = OraclePrice::new(entry_price, -decimals);
    let size_usd = position_oracle_price.get_asset_amount_usd(size, custody.decimals)?;
    let collateral_usd = prices.min_collateral.get_asset_amount_usd(
        collateral,
        collateral_custody.decimals,
    )?;
    let short = match side {
        Side::Short => true,
        _ => false,
    };
    let locked_amount = if short || custody.is_virtual {
        let tokens = prices.min_collateral.get_token_amount(size_usd, collateral_custody.decimals)?;
        custody.get_locked_amount(tokens, side)?
    } else {
        custody.get_locked_amount(size, side)?
    };
    let cumulative_interest_snapshot = collateral_custody.get_cumulative_interest(curtime)?;
    Ok(
        PositionTerms {
            entry_price,
            size_usd,
            collateral_usd,
            locked_amount,
            cumulative_interest_snapshot,
        },
    )
}

} // verus!
