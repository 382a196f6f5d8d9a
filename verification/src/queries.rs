//! The queries: what an action would give, without changing any record.

use crate::error::PerpetualsError;
use crate::gateway::resolved_price;
use crate::instructions::{
    adjust_collateral, collateral_adjusted, get_position_terms, get_quote_prices,
    get_settled_fee, position_terms, quote_prices, quoted_position, settled_fee, AmountAndFee,
    NewPositionPricesAndFee, PriceAndFee, PricedCustody, ProfitAndLoss, SwapAmountAndFees,
};
use crate::liquidity::{
    get_liquidity_quote, get_redemption_quote, get_swap_quote, liquidity_quote,
    redemption_quote, swap_quote,
};
use crate::oracle::{OraclePrice, PRICE_DECIMALS};
use crate::pool::{
    checked_proportion, exit_price, fee_amount, leverage_checked, liquidation_price, pnl_usd,
    proportion, AumCalcMode, CustodyAccount, Pool,
};
use crate::position::{Position, Side};
use vstd::prelude::*;

verus! {

pub struct GetEntryPriceAndFee {
    pub pool: Pool,
    pub custody: PricedCustody,
    pub collateral_custody: PricedCustody,
}

#[derive(Copy, Clone, PartialEq, Eq, Debug, Structural)]
pub struct GetEntryPriceAndFeeParams {
    pub collateral: u64,
    pub size: u64,
    pub side: Side,
}

pub struct GetExitPriceAndFee {
    pub pool: Pool,
    pub position: Position,
    pub custody: PricedCustody,
    pub collateral_custody: PricedCustody,
}

#[derive(Copy, Clone, PartialEq, Eq, Default, Debug, Structural)]
pub struct GetExitPriceAndFeeParams {}

pub struct GetPnl {
    pub pool: Pool,
    pub position: Position,
    pub custody: PricedCustody,
    pub collateral_custody: PricedCustody,
}

#[derive(Copy, Clone, PartialEq, Eq, Default, Debug, Structural)]
pub struct GetPnlParams {}

pub struct GetLiquidationState {
    pub pool: Pool,
    pub position: Position,
    pub custody: PricedCustody,
    pub collateral_custody: PricedCustody,
}

#[derive(Copy, Clone, PartialEq, Eq, Default, Debug, Structural)]
pub struct GetLiquidationStateParams {}

pub struct GetLiquidationPrice {
    pub pool: Pool,
    pub position: Position,
    pub custody: PricedCustody,
    pub collateral_custody: PricedCustody,
}

#[derive(Copy, Clone, PartialEq, Eq, Default, Debug, Structural)]
pub struct GetLiquidationPriceParams {
    pub add_collateral: u64,
    pub remove_collateral: u64,
}

pub struct GetOraclePrice {
    pub pool: Pool,
    pub custody: PricedCustody,
}

#[derive(Copy, Clone, PartialEq, Debug)]
pub struct GetOraclePriceParams {
    pub ema: bool,
    pub feed_id: [u8; 32],
}

pub struct GetAddLiquidityAmountAndFee {
    pub pool: Pool,
    pub custody: PricedCustody,
    /// Supply of the pool's share token.
    pub lp_token_supply: u64,
    /// Every custody of the pool, in the pool's order.
    pub remaining_accounts: Vec<CustodyAccount>,
}

#[derive(Copy, Clone, PartialEq, Eq, Default, Debug, Structural)]
pub struct GetAddLiquidityAmountAndFeeParams {
    pub amount_in: u64,
}

pub struct GetRemoveLiquidityAmountAndFee {
    pub pool: Pool,
    pub custody: PricedCustody,
    /// Supply of the pool's share token.
    pub lp_token_supply: u64,
    /// Every custody of the pool, in the pool's order.
    pub remaining_accounts: Vec<CustodyAccount>,
}

#[derive(Copy, Clone, PartialEq, Eq, Default, Debug, Structural)]
pub struct GetRemoveLiquidityAmountAndFeeParams {
    pub lp_amount_in: u64,
}

pub struct GetSwapAmountAndFees {
    pub pool: Pool,
    pub receiving_custody: PricedCustody,
    pub dispensing_custody: PricedCustody,
}

#[derive(Copy, Clone, PartialEq, Eq, Default, Debug, Structural)]
pub struct GetSwapAmountAndFeesParams {
    pub amount_in: u64,
}

/// What opening a position of `size` tokens on `collateral` tokens would
/// cost: the entry price, the liquidation price of the position as it would
/// stand, and the fee in the token in which the position settles. A zero
/// size, zero collateral or a side that is not set is refused.
pub open spec fn entry_price_and_fee(
    accounts: GetEntryPriceAndFee,
    params: GetEntryPriceAndFeeParams,
    curtime: i64,
) -> Result<NewPositionPricesAndFee, PerpetualsError> {
    if params.collateral == 0 || params.size == 0 || params.side == Side::Unset {
        Err(PerpetualsError::InvalidArgument)
    } else {
        match quote_prices(accounts.custody, accounts.collateral_custody, curtime) {
            Err(e) => Err(e),
            Ok(prices) => {
                match position_terms(
                    accounts.custody.custody,
                    accounts.collateral_custody.custody,
                    prices,
                    params.collateral,
                    params.size,
                    params.side,
                    curtime,
                ) {
                    Err(e) => Err(e),
                    Ok(terms) => {
                        match liquidation_price(
                            quoted_position(
                                params.side,
                                terms.entry_price,
                                terms.size_usd,
                                terms.collateral_usd,
                                terms.cumulative_interest_snapshot,
                            ),
                            accounts.custody.custody,
                            accounts.collateral_custody.custody,
                            curtime,
                        ) {
                            Err(e) => Err(e),
                            Ok(liquidation) => {
                                match fee_amount(
                                    accounts.custody.custody.fees.open_position,
                                    params.size,
                                ) {
                                    Err(e) => Err(e),
                                    Ok(base_fee) => {
                                        match settled_fee(
                                            params.side,
                                            base_fee,
                                            accounts.custody.custody,
                                            prices.token_ema,
                                            accounts.collateral_custody.custody,
                                            prices.collateral_ema,
                                        ) {
                                            Err(e) => Err(e),
                                            Ok(fee) => {
                                                Ok(
                                                    NewPositionPricesAndFee { entry_price: terms.entry_price, liquidation_price: liquidation, fee },
                                                )
                                            },
                                        }
                                    },
                                }
                            },
                        }
                    },
                }
            },
        }
    }
}

pub fn get_entry_price_and_fee(
    accounts: &GetEntryPriceAndFee,
    params: &GetEntryPriceAndFeeParams,
    curtime: i64,
) -> (r: Result<NewPositionPricesAndFee, PerpetualsError>)
    ensures
        r == entry_price_and_fee(*accounts, *params, curtime),
{
    let unset = match params.side {
        Side::Unset => true,
        _ => false,
    };
    if params.collateral == 0 || params.size == 0 || unset {
        return Err(PerpetualsError::InvalidArgument);
    }
    let pool = &accounts.pool;
    let custody = &accounts.custody.custody;
    let collateral_custody = &accounts.collateral_custody.custody;
    let prices = get_quote_prices(&accounts.custody, &accounts.collateral_custody, curtime)?;
    let terms = get_position_terms(
        pool,
        custody,
        collateral_custody,
        &prices,
        params.collateral,
        params.size,
        params.side,
        curtime,
    )?;
    let mut position = Position::default();
    position.side = params.side;
    position.price = terms.entry_price;
    position.size_usd = terms.size_usd;
    position.collateral_usd = terms.collateral_usd;
    position.cumulative_interest_snapshot = terms.cumulative_interest_snapshot;
    let liquidation_price = pool.get_liquidation_price(
        &position,
        &prices.token_ema,
        custody,
        collateral_custody,
        curtime,
    )?;
    let base_fee = pool.get_entry_fee(
        custody.fees.open_position,
        params.size,
        terms.locked_amount,
        collateral_custody,
    )?;
    let fee = get_settled_fee(
        params.side,
        base_fee,
        custody,
        &prices.token_ema,
        collateral_custody,
        &prices.collateral_ema,
    )?;
    Ok(NewPositionPricesAndFee { entry_price: terms.entry_price, liquidation_price, fee })
}

/// What closing the position would give: the exit price, and the close fee
/// on the position's size in tokens, in the token in which it settles.
pub open spec fn exit_price_and_fee(
    accounts: GetExitPriceAndFee,
    curtime: i64,
) -> Result<PriceAndFee, PerpetualsError> {
    match accounts.custody.prices(curtime) {
        Err(e) => Err(e),
        Ok(prices) => {
            match accounts.collateral_custody.ema_price(curtime) {
                Err(e) => Err(e),
                Ok(collateral_ema) => {
                    match exit_price(
                        prices.0,
                        prices.1,
                        accounts.position.side,
                        accounts.custody.custody,
                    ) {
                        Err(e) => Err(e),
                        Ok(price) => {
                            match prices.1.token_amount(
                                accounts.position.size_usd,
                                accounts.custody.custody.decimals,
                            ) {
                                Err(e) => Err(e),
                                Ok(size) => {
                                    match fee_amount(
                                        accounts.custody.custody.fees.close_position,
                                        size,
                                    ) {
                                        Err(e) => Err(e),
                                        Ok(base_fee) => {
                                            match settled_fee(
                                                accounts.position.side,
                                                base_fee,
                                                accounts.custody.custody,
                                                prices.1,
                                                accounts.collateral_custody.custody,
                                                collateral_ema,
                                            ) {
                                                Err(e) => Err(e),
                                                Ok(fee) => {
                                                    Ok(PriceAndFee { price, fee })
                                                },
                                            }
                                        },
                                    }
                                },
                            }
                        },
                    }
                },
            }
        },
    }
}

pub fn get_exit_price_and_fee(
    accounts: &GetExitPriceAndFee,
    _params: &GetExitPriceAndFeeParams,
    curtime: i64,
) -> (r: Result<PriceAndFee, PerpetualsError>)
    ensures
        r == exit_price_and_fee(*accounts, curtime),
{
    let position = &accounts.position;
    let pool = &accounts.pool;
    let custody = &accounts.custody.custody;
    let collateral_custody = &accounts.collateral_custody.custody;
    let (token_price, token_ema_price) = accounts.custody.get_prices(curtime)?;
    let collateral_token_ema_price = accounts.collateral_custody.get_ema_price(curtime)?;
    let price = pool.get_exit_price(&token_price, &token_ema_price, position.side, custody)?;
    let size = token_ema_price.get_token_amount(position.size_usd, custody.decimals)?;
    let base_fee = pool.get_exit_fee(size, custody)?;
    let fee = get_settled_fee(
        position.side,
        base_fee,
        custody,
        &token_ema_price,
        collateral_custody,
        &collateral_token_ema_price,
    )?;
    Ok(PriceAndFee { price, fee })
}

/// The position's unrealized profit and loss at the current prices, one of
/// them zero.
pub open spec fn profit_and_loss(
    accounts: GetPnl,
    curtime: i64,
) -> Result<ProfitAndLoss, PerpetualsError> {
    match accounts.custody.prices(curtime) {
        Err(e) => Err(e),
        Ok(prices) => {
            match accounts.collateral_custody.prices(curtime) {
                Err(e) => Err(e),
                Ok(collateral_prices) => {
                    match pnl_usd(
                        accounts.position,
                        prices.0,
                        prices.1,
                        accounts.custody.custody,
                        collateral_prices.0,
                        collateral_prices.1,
                        accounts.collateral_custody.custody,
                        curtime,
                        false,
                    ) {
                        Err(e) => Err(e),
                        Ok(pnl) => {
                            Ok(ProfitAndLoss { profit: pnl.0, loss: pnl.1 })
                        },
                    }
                },
            }
        },
    }
}

pub fn get_pnl(accounts: &GetPnl, _params: &GetPnlParams, curtime: i64) -> (r: Result<
    ProfitAndLoss,
    PerpetualsError,
>)
    ensures
        r == profit_and_loss(*accounts, curtime),
        r matches Ok(pnl) ==> pnl.profit == 0 || pnl.loss == 0,
{
    let (token_price, token_ema_price) = accounts.custody.get_prices(curtime)?;
    let (collateral_token_price, collateral_token_ema_price) =
        accounts.collateral_custody.get_prices(curtime)?;
    let (profit, loss, _) = accounts.pool.get_pnl_usd(
        &accounts.position,
        &token_price,
        &token_ema_price,
        &accounts.custody.custody,
        &collateral_token_price,
        &collateral_token_ema_price,
        &accounts.collateral_custody.custody,
        curtime,
        false,
    )?;
    Ok(ProfitAndLoss { profit, loss })
}

/// Zero while the position is within its limits, one once it can be
/// liquidated.
pub open spec fn liquidation_state(
    accounts: GetLiquidationState,
    curtime: i64,
) -> Result<u8, PerpetualsError> {
    match accounts.custody.prices(curtime) {
        Err(e) => Err(e),
        Ok(prices) => {
            match accounts.collateral_custody.prices(curtime) {
                Err(e) => Err(e),
                Ok(collateral_prices) => {
                    match leverage_checked(
                        accounts.position,
                        prices.0,
                        prices.1,
                        accounts.custody.custody,
                        collateral_prices.0,
                        collateral_prices.1,
                        accounts.collateral_custody.custody,
                        curtime,
                        false,
                    ) {
                        Err(e) => Err(e),
                        Ok(within) => {
                            Ok(if within { 0u8 } else { 1u8 })
                        },
                    }
                },
            }
        },
    }
}

pub fn get_liquidation_state(
    accounts: &GetLiquidationState,
    _params: &GetLiquidationStateParams,
    curtime: i64,
) -> (r: Result<u8, PerpetualsError>)
    ensures
        r == liquidation_state(*accounts, curtime),
{
    let (token_price, token_ema_price) = accounts.custody.get_prices(curtime)?;
    let (collateral_token_price, collateral_token_ema_price) =
        accounts.collateral_custody.get_prices(curtime)?;
    if accounts.pool.check_leverage(
        &accounts.position,
        &token_price,
        &token_ema_price,
        &accounts.custody.custody,
        &collateral_token_price,
        &collateral_token_ema_price,
        &accounts.collateral_custody.custody,
        curtime,
        false,
    )? {
        Ok(0)
    } else {
        Ok(1)
    }
}

/// The liquidation price that the position would have after the given
/// change of collateral, valued at the lower of the collateral's prices.
pub open spec fn quoted_liquidation_price(
    accounts: GetLiquidationPrice,
    params: GetLiquidationPriceParams,
    curtime: i64,
) -> Result<u64, PerpetualsError> {
    match accounts.custody.ema_price(curtime) {
        Err(e) => Err(e),
        Ok(token_ema_price) => {
            match accounts.collateral_custody.prices(curtime) {
                Err(e) => Err(e),
                Ok(collateral_prices) => {
                    match collateral_prices.0.min_price(
                        collateral_prices.1,
                        accounts.collateral_custody.custody.is_stable,
                    ) {
                        Err(e) => Err(e),
                        Ok(min_collateral_price) => {
                            match collateral_adjusted(
                                accounts.position,
                                min_collateral_price,
                                accounts.collateral_custody.custody.decimals,
                                params.add_collateral,
                                params.remove_collateral,
                                curtime,
                            ) {
                                Err(e) => Err(e),
                                Ok(position) => {
                                    liquidation_price(
                                        position,
                                        accounts.custody.custody,
                                        accounts.collateral_custody.custody,
                                        curtime,
                                    )
                                },
                            }
                        },
                    }
                },
            }
        },
    }
}

pub fn get_liquidation_price(
    accounts: &GetLiquidationPrice,
    params: &GetLiquidationPriceParams,
    curtime: i64,
) -> (r: Result<u64, PerpetualsError>)
    ensures
        r == quoted_liquidation_price(*accounts, *params, curtime),
{
    let custody = &accounts.custody.custody;
    let collateral_custody = &accounts.collateral_custody.custody;
    let token_ema_price = accounts.custody.get_ema_price(curtime)?;
    let (collateral_token_price, collateral_token_ema_price) =
        accounts.collateral_custody.get_prices(curtime)?;
    let min_collateral_price = collateral_token_price.get_min_price(
        &collateral_token_ema_price,
        collateral_custody.is_stable,
    )?;
    let position = adjust_collateral(
        &accounts.position,
        &min_collateral_price,
        collateral_custody.decimals,
        params.add_collateral,
        params.remove_collateral,
        curtime,
    )?;
    accounts.pool.get_liquidation_price(
        &position,
        &token_ema_price,
        custody,
        collateral_custody,
        curtime,
    )
}

/// The custody's price with `PRICE_DECIMALS` fractional digits: spot, or
/// with `ema` the average, of the feed asked for.
pub open spec fn oracle_price(accounts: GetOraclePrice, params: GetOraclePriceParams, curtime: i64) -> Result<
    u64,
    PerpetualsError,
> {
    match resolved_price(
        accounts.custody.oracle_account,
        accounts.custody.twap_account,
        accounts.custody.custody.oracle,
        curtime,
        params.ema,
        params.feed_id,
    ) {
        Err(e) => Err(e),
        Ok(price) => match price.scaled((-(PRICE_DECIMALS as int)) as i32) {
            Err(e) => Err(e),
            Ok(scaled) => Ok(scaled.price),
        },
    }
}

pub fn get_oracle_price(accounts: &GetOraclePrice, params: &GetOraclePriceParams, curtime: i64) -> (r:
    Result<u64, PerpetualsError>)
    ensures
        r == oracle_price(*accounts, *params, curtime),
{
    let price = OraclePrice::new_from_oracle(
        &accounts.custody.oracle_account,
        accounts.custody.twap(),
        &accounts.custody.custody.oracle,
        curtime,
        params.ema,
        params.feed_id,
    )?;
    let decimals: i32 = PRICE_DECIMALS as i32;
    let scaled = price.scale_to_exponent(-decimals)?;
    Ok(scaled.price)
}

/// What the query for adding liquidity answers: the quote on the records
/// it names.
pub open spec fn add_liquidity_amount_and_fee(
    accounts: GetAddLiquidityAmountAndFee,
    params: GetAddLiquidityAmountAndFeeParams,
    curtime: i64,
) -> Result<AmountAndFee, PerpetualsError> {
    liquidity_quote(
        accounts.pool,
        accounts.custody,
        accounts.lp_token_supply,
        accounts.remaining_accounts@,
        params.amount_in,
        curtime,
    )
}

pub fn get_add_liquidity_amount_and_fee(
    accounts: &GetAddLiquidityAmountAndFee,
    params: &GetAddLiquidityAmountAndFeeParams,
    curtime: i64,
) -> (r: Result<AmountAndFee, PerpetualsError>)
    ensures
        r == add_liquidity_amount_and_fee(*accounts, *params, curtime),
{
    get_liquidity_quote(
        &accounts.pool,
        &accounts.custody,
        accounts.lp_token_supply,
        &accounts.remaining_accounts,
        params.amount_in,
        curtime,
    )
}

/// What the query for removing liquidity answers: the quote on the records
/// it names.
pub open spec fn remove_liquidity_amount_and_fee(
    accounts: GetRemoveLiquidityAmountAndFee,
    params: GetRemoveLiquidityAmountAndFeeParams,
    curtime: i64,
) -> Result<AmountAndFee, PerpetualsError> {
    redemption_quote(
        accounts.pool,
        accounts.custody,
        accounts.lp_token_supply,
        accounts.remaining_accounts@,
        params.lp_amount_in,
        curtime,
    )
}

pub fn get_remove_liquidity_amount_and_fee(
    accounts: &GetRemoveLiquidityAmountAndFee,
    params: &GetRemoveLiquidityAmountAndFeeParams,
    curtime: i64,
) -> (r: Result<AmountAndFee, PerpetualsError>)
    ensures
        r == remove_liquidity_amount_and_fee(*accounts, *params, curtime),
{
    get_redemption_quote(
        &accounts.pool,
        &accounts.custody,
        accounts.lp_token_supply,
        &accounts.remaining_accounts,
        params.lp_amount_in,
        curtime,
    )
}

/// What the query for a swap answers: the quote on the records it names.
pub open spec fn swap_amount_and_fees(
    accounts: GetSwapAmountAndFees,
    params: GetSwapAmountAndFeesParams,
    curtime: i64,
) -> Result<SwapAmountAndFees, PerpetualsError> {
    swap_quote(
        accounts.pool,
        accounts.receiving_custody,
        accounts.dispensing_custody,
        params.amount_in,
        curtime,
    )
}

pub fn get_swap_amount_and_fees(
    accounts: &GetSwapAmountAndFees,
    params: &GetSwapAmountAndFeesParams,
    curtime: i64,
) -> (r: Result<SwapAmountAndFees, PerpetualsError>)
    ensures
        r == swap_amount_and_fees(*accounts, *params, curtime),
{
    get_swap_quote(
        &accounts.pool,
        &accounts.receiving_custody,
        &accounts.dispensing_custody,
        params.amount_in,
        curtime,
    )
}

pub struct GetAssetsUnderManagement {
    pub pool: Pool,
    /// Every custody of the pool, in the pool's order.
    pub remaining_accounts: Vec<CustodyAccount>,
}

#[derive(Copy, Clone, PartialEq, Eq, Default, Debug, Structural)]
pub struct GetAssetsUnderManagementParams {}

/// The pool's value at its average prices.
pub fn get_assets_under_management(
    accounts: &GetAssetsUnderManagement,
    _params: &GetAssetsUnderManagementParams,
    curtime: i64,
) -> (r: Result<u128, PerpetualsError>)
    ensures
        r == accounts.pool.assets_under_management_usd(
            AumCalcMode::EMA,
            accounts.remaining_accounts@,
            curtime,
        ),
{
    accounts.pool.get_assets_under_management_usd(
        AumCalcMode::EMA,
        &accounts.remaining_accounts,
        curtime,
    )
}

pub struct GetLpTokenPrice {
    pub pool: Pool,
    /// Supply of the pool's share token.
    pub lp_token_supply: u64,
    /// Every custody of the pool, in the pool's order.
    pub remaining_accounts: Vec<CustodyAccount>,
}

#[derive(Copy, Clone, PartialEq, Eq, Default, Debug, Structural)]
pub struct GetLpTokenPriceParams {}

/// Value of one whole share, which has `USD_DECIMALS` fractional digits as
/// USD amounts have: the pool's value at its average prices over the supply.
/// Nothing while no share is in supply.
pub open spec fn lp_token_price(accounts: GetLpTokenPrice, curtime: i64) -> Result<
    u64,
    PerpetualsError,
> {
    match accounts.pool.assets_under_management_usd(
        AumCalcMode::EMA,
        accounts.remaining_accounts@,
        curtime,
    ) {
        Err(e) => Err(e),
        Ok(aum) => if accounts.lp_token_supply == 0 {
            Ok(0u64)
        } else {
            proportion(aum as int, 1_000_000, accounts.lp_token_supply as int)
        },
    }
}

pub fn get_lp_token_price(accounts: &GetLpTokenPrice, _params: &GetLpTokenPriceParams, curtime: i64) -> (r:
    Result<u64, PerpetualsError>)
    ensures
        r == lp_token_price(*accounts, curtime),
{
    let aum = accounts.pool.get_assets_under_management_usd(
        AumCalcMode::EMA,
        &accounts.remaining_accounts,
        curtime,
    )?;
    if accounts.lp_token_supply == 0 {
        return Ok(0);
    }
    checked_proportion(aum, 1_000_000, accounts.lp_token_supply)
}

} // verus!
