//! Opening, changing, closing and liquidating positions.

use crate::custody::Custody;
use crate::error::PerpetualsError;
use crate::instructions::{
    adjust_collateral, collateral_adjusted, get_position_terms, get_quote_prices,
    position_terms, quote_prices, settles_in_collateral, PositionTerms, PricedCustody,
};
use crate::pool::{leverage_checked, pnl_usd, Pool};
use crate::position::{Position, Side};
use vstd::prelude::*;

verus! {

pub struct OpenPosition {
    pub owner: [u8; 32],
    pub pool_key: [u8; 32],
    pub pool: Pool,
    pub custody: PricedCustody,
    pub collateral_custody: PricedCustody,
}

#[derive(Copy, Clone, PartialEq, Eq, Debug, Structural)]
pub struct OpenPositionParams {
    pub collateral: u64,
    pub size: u64,
    pub side: Side,
}

pub struct Liquidate {
    pub pool: Pool,
    pub position: Position,
    pub custody: PricedCustody,
    pub collateral_custody: PricedCustody,
}

#[derive(Copy, Clone, PartialEq, Eq, Default, Debug, Structural)]
pub struct LiquidateParams {}

/// What a liquidation settles: the position's profit or loss after the
/// liquidation fee, and that fee in collateral tokens.
#[derive(Copy, Clone, PartialEq, Eq, Default, Debug, Structural)]
pub struct Settlement {
    pub profit: u64,
    pub loss: u64,
    pub fee: u64,
}

/// The record of a position opened at `curtime`.
pub open spec fn opened_position(
    accounts: OpenPosition,
    params: OpenPositionParams,
    curtime: i64,
    terms: PositionTerms,
) -> Position {
    Position {
        owner: accounts.owner,
        pool: accounts.pool_key,
        custody: accounts.custody.key,
        collateral_custody: accounts.collateral_custody.key,
        open_time: curtime,
        update_time: curtime,
        side: params.side,
        price: terms.entry_price,
        size_usd: terms.size_usd,
        collateral_usd: terms.collateral_usd,
        unrealized_profit_usd: 0,
        unrealized_loss_usd: 0,
        cumulative_interest_snapshot: terms.cumulative_interest_snapshot,
        locked_amount: terms.locked_amount,
        collateral_amount: params.collateral,
    }
}

/// The custody whose reserves back a position: the collateral custody for
/// a position that settles in collateral, else the traded custody.
pub open spec fn backing_custody(accounts: OpenPosition, side: Side) -> Custody {
    if settles_in_collateral(side, accounts.custody.custody) {
        accounts.collateral_custody.custody
    } else {
        accounts.custody.custody
    }
}

/// The position that `open_position` records, or why none is opened. The
/// position is priced as its entry quote is. It needs collateral of some
/// value, must be within the leverage bound for opening at once, and the
/// reserve that it locks must be free in the custody that backs it.
pub open spec fn position_to_open(
    accounts: OpenPosition,
    params: OpenPositionParams,
    curtime: i64,
) -> Result<Position, PerpetualsError> {
    if params.collateral == 0 || params.size == 0 || params.side == Side::Unset {
        Err(PerpetualsError::InvalidArgument)
    } else {
        match quote_prices(accounts.custody, accounts.collateral_custody, curtime) {
            Err(e) => Err(e),
            Ok(prices) => {
                match position_terms(
                    accounts.custody.custody,
                    accounts.collateral_custody.custody,
                    prices,
                    params.collateral,
                    params.size,
                    params.side,
                    curtime,
                ) {
                    Err(e) => Err(e),
                    Ok(terms) => {
                        match leverage_checked(
                            opened_position(accounts, params, curtime, terms),
                            prices.token,
                            prices.token_ema,
                            accounts.custody.custody,
                            prices.collateral,
                            prices.collateral_ema,
                            accounts.collateral_custody.custody,
                            curtime,
                            true,
                        ) {
                            Err(e) => Err(e),
                            Ok(within) => {
                                if terms.collateral_usd == 0 {
                                    Err(PerpetualsError::InsufficientCollateral)
                                } else if !within {
                                    Err(PerpetualsError::MaxLeverageExceeded)
                                } else if backing_custody(accounts, params.side).assets.locked + terms.locked_amount
                                    > backing_custody(accounts, params.side).assets.owned {
                                    Err(PerpetualsError::InsufficientPoolLiquidity)
                                } else {
                                    Ok(opened_position(accounts, params, curtime, terms))
                                }
                            },
                        }
                    },
                }
            },
        }
    }
}

/// Decides whether a position may be opened and returns its record.
pub fn open_position(accounts: &OpenPosition, params: &OpenPositionParams, curtime: i64) -> (r: Result<
    Position,
    PerpetualsError,
>)
    ensures
        r == position_to_open(*accounts, *params, curtime),
        r matches Ok(p) ==> p.collateral_usd > 0,
{
    let unset = match params.side {
        Side::Unset => true,
        _ => false,
    };
    if params.collateral == 0 || params.size == 0 || unset {
        return Err(PerpetualsError::InvalidArgument);
    }
    let pool = &accounts.pool;
    let custody = &accounts.custody.custody;
    let collateral_custody = &accounts.collateral_custody.custody;
    let prices = get_quote_prices(&accounts.custody, &accounts.collateral_custody, curtime)?;
    let terms = get_position_terms(
        pool,
        custody,
        collateral_custody,
        &prices,
        params.collateral,
        params.size,
        params.side,
        curtime,
    )?;
    let position = Position {
        owner: accounts.owner,
        pool: accounts.pool_key,
        custody: accounts.custody.key,
        collateral_custody: accounts.collateral_custody.key,
        open_time: curtime,
        update_time: curtime,
        side: params.side,
        price: terms.entry_price,
        size_usd: terms.size_usd,
        collateral_usd: terms.collateral_usd,
        unrealized_profit_usd: 0,
        unrealized_loss_usd: 0,
        cumulative_interest_snapshot: terms.cumulative_interest_snapshot,
        locked_amount: terms.locked_amount,
        collateral_amount: params.collateral,
    };
    let within = pool.check_leverage(
        &position,
        &prices.token,
        &prices.token_ema,
        custody,
        &prices.collateral,
        &prices.collateral_ema,
        collateral_custody,
        curtime,
        true,
    )?;
    if terms.collateral_usd == 0 {
        return Err(PerpetualsError::InsufficientCollateral);
    }
    if !within {
        return Err(PerpetualsError::MaxLeverageExceeded);
    }
    let short = match params.side {
        Side::Short => true,
        _ => false,
    };
    let backing = if short || custody.is_virtual {
        collateral_custody
    } else {
        custody
    };
    if backing.assets.locked as u128 + terms.locked_amount as u128 > backing.assets.owned as u128 {
        return Err(PerpetualsError::InsufficientPoolLiquidity);
    }
    Ok(position)
}

/// What liquidating the position settles. A position that is still within
/// its limits cannot be liquidated.
pub open spec fn liquidation_settled(
    accounts: Liquidate,
    curtime: i64,
) -> Result<Settlement, PerpetualsError> {
    match accounts.custody.prices(curtime) {
        Err(e) => Err(e),
        Ok(prices) => {
            match accounts.collateral_custody.prices(curtime) {
                Err(e) => Err(e),
                Ok(collateral_prices) => {
                    match leverage_checked(
                        accounts.position,
                        prices.0,
                        prices.1,
                        accounts.custody.custody,
                        collateral_prices.0,
                        collateral_prices.1,
                        accounts.collateral_custody.custody,
                        curtime,
                        false,
                    ) {
                        Err(e) => Err(e),
                        Ok(within) => {
                            if within {
                                Err(PerpetualsError::PositionNotLiquidatable)
                            } else {
                                match pnl_usd(accounts.position, prices.0, prices.1, accounts.custody.custody, collateral_prices.0, collateral_prices.1, accounts.collateral_custody.custody, curtime, true) {
                                    Err(e) => Err(e),
                                    Ok(pnl) => Ok(Settlement { profit: pnl.0, loss: pnl.1, fee: pnl.2 }),
                                }
                            }
                        },
                    }
                },
            }
        },
    }
}

/// Decides whether the position can be liquidated and what that settles.
pub fn liquidate(accounts: &Liquidate, _params: &LiquidateParams, curtime: i64) -> (r: Result<
    Settlement,
    PerpetualsError,
>)
    ensures
        r == liquidation_settled(*accounts, curtime),
        r matches Ok(s) ==> s.profit == 0 || s.loss == 0,
{
    let (token_price, token_ema_price) = accounts.custody.get_prices(curtime)?;
    let (collateral_token_price, collateral_token_ema_price) =
        accounts.collateral_custody.get_prices(curtime)?;
    if accounts.pool.check_leverage(
        &accounts.position,
        &token_price,
        &token_ema_price,
        &accounts.custody.custody,
        &collateral_token_price,
        &collateral_token_ema_price,
        &accounts.collateral_custody.custody,
        curtime,
        false,
    )? {
        return Err(PerpetualsError::PositionNotLiquidatable);
    }
    let (profit, loss, fee) = accounts.pool.get_pnl_usd(
        &accounts.position,
        &token_price,
        &token_ema_price,
        &accounts.custody.custody,
        &collateral_token_price,
        &collateral_token_ema_price,
        &accounts.collateral_custody.custody,
        curtime,
        true,
    )?;
    Ok(Settlement { profit, loss, fee })
}

pub struct ChangeCollateral {
    pub pool: Pool,
    pub position: Position,
    pub custody: PricedCustody,
    pub collateral_custody: PricedCustody,
}

#[derive(Copy, Clone, PartialEq, Eq, Default, Debug, Structural)]
pub struct AddCollateralParams {
    pub collateral: u64,
}

#[derive(Copy, Clone, PartialEq, Eq, Default, Debug, Structural)]
pub struct RemoveCollateralParams {
    pub collateral: u64,
}

/// The position after a change of collateral, valued at the lower of the
/// collateral's prices. A change of nothing is refused, and so is one that
/// leaves the position outside its limits.
pub open spec fn collateral_changed(
    accounts: ChangeCollateral,
    add: u64,
    remove: u64,
    curtime: i64,
) -> Result<Position, PerpetualsError> {
    if add == 0 && remove == 0 {
        Err(PerpetualsError::InvalidArgument)
    } else {
        match accounts.custody.prices(curtime) {
            Err(e) => Err(e),
            Ok(prices) => {
                match accounts.collateral_custody.prices(curtime) {
                    Err(e) => Err(e),
                    Ok(collateral_prices) => {
                        match collateral_prices.0.min_price(
                            collateral_prices.1,
                            accounts.collateral_custody.custody.is_stable,
                        ) {
                            Err(e) => Err(e),
                            Ok(min_collateral_price) => {
                                match collateral_adjusted(
                                    accounts.position,
                                    min_collateral_price,
                                    accounts.collateral_custody.custody.decimals,
                                    add,
                                    remove,
                                    curtime,
                                ) {
                                    Err(e) => Err(e),
                                    Ok(position) => {
                                        match leverage_checked(
                                            position,
                                            prices.0,
                                            prices.1,
                                            accounts.custody.custody,
                                            collateral_prices.0,
                                            collateral_prices.1,
                                            accounts.collateral_custody.custody,
                                            curtime,
                                            false,
                                        ) {
                                            Err(e) => Err(e),
                                            Ok(within) => {
                                                if within {
                                                    Ok(position)
                                                } else {
                                                    Err(PerpetualsError::MaxLeverageExceeded)
                                                }
                                            },
                                        }
                                    },
                                }
                            },
                        }
                    },
                }
            },
        }
    }
}

/// Applies a change of collateral to a copy of the position and holds the
/// result to the position's limits.
pub fn change_collateral(accounts: &ChangeCollateral, add: u64, remove: u64, curtime: i64) -> (r:
    Result<Position, PerpetualsError>)
    ensures
        r == collateral_changed(*accounts, add, remove, curtime),
        r matches Ok(p) ==> p.collateral_usd > 0 || remove == 0,
{
    if add == 0 && remove == 0 {
        return Err(PerpetualsError::InvalidArgument);
    }
    let (token_price, token_ema_price) = accounts.custody.get_prices(curtime)?;
    let (collateral_token_price, collateral_token_ema_price) =
        accounts.collateral_custody.get_prices(curtime)?;
    let min_collateral_price = collateral_token_price.get_min_price(
        &collateral_token_ema_price,
        accounts.collateral_custody.custody.is_stable,
    )?;
    let position = adjust_collateral(
        &accounts.position,
        &min_collateral_price,
        accounts.collateral_custody.custody.decimals,
        add,
        remove,
        curtime,
    )?;
    if accounts.pool.check_leverage(
        &position,
        &token_price,
        &token_ema_price,
        &accounts.custody.custody,
        &collateral_token_price,
        &collateral_token_ema_price,
        &accounts.collateral_custody.custody,
        curtime,
        false,
    )? {
        Ok(position)
    } else {
        Err(PerpetualsError::MaxLeverageExceeded)
    }
}

/// Adds collateral to a position.
pub fn add_collateral(accounts: &ChangeCollateral, params: &AddCollateralParams, curtime: i64) -> (r:
    Result<Position, PerpetualsError>)
    ensures
        r == collateral_changed(*accounts, params.collateral, 0, curtime),
{
    change_collateral(accounts, params.collateral, 0, curtime)
}

/// Takes collateral out of a position.
pub fn remove_collateral(accounts: &ChangeCollateral, params: &RemoveCollateralParams, curtime: i64) -> (r:
    Result<Position, PerpetualsError>)
    ensures
        r == collateral_changed(*accounts, 0, params.collateral, curtime),
        r matches Ok(p) ==> p.collateral_usd > 0,
{
    change_collateral(accounts, 0, params.collateral, curtime)
}

pub struct ClosePosition {
    pub pool: Pool,
    pub position: Position,
    pub custody: PricedCustody,
    pub collateral_custody: PricedCustody,
}

#[derive(Copy, Clone, PartialEq, Eq, Default, Debug, Structural)]
pub struct ClosePositionParams {}

/// What closing the position settles: its profit or loss after the close
/// fee, and that fee in collateral tokens.
pub open spec fn position_closed(
    accounts: ClosePosition,
    curtime: i64,
) -> Result<Settlement, PerpetualsError> {
    match accounts.custody.prices(curtime) {
        Err(e) => Err(e),
        Ok(prices) => {
            match accounts.collateral_custody.prices(curtime) {
                Err(e) => Err(e),
                Ok(collateral_prices) => {
                    match pnl_usd(
                        accounts.position,
                        prices.0,
                        prices.1,
                        accounts.custody.custody,
                        collateral_prices.0,
                        collateral_prices.1,
                        accounts.collateral_custody.custody,
                        curtime,
                        false,
                    ) {
                        Err(e) => Err(e),
                        Ok(pnl) => {
                            Ok(Settlement { profit: pnl.0, loss: pnl.1, fee: pnl.2 })
                        },
                    }
                },
            }
        },
    }
}

/// Settles a position at the current prices.
pub fn close_position(accounts: &ClosePosition, _params: &ClosePositionParams, curtime: i64) -> (r:
    Result<Settlement, PerpetualsError>)
    ensures
        r == position_closed(*accounts, curtime),
        r matches Ok(s) ==> s.profit == 0 || s.loss == 0,
{
    let (token_price, token_ema_price) = accounts.custody.get_prices(curtime)?;
    let (collateral_token_price, collateral_token_ema_price) =
        accounts.collateral_custody.get_prices(curtime)?;
    let (profit, loss, fee) = accounts.pool.get_pnl_usd(
        &accounts.position,
        &token_price,
        &token_ema_price,
        &accounts.custody.custody,
        &collateral_token_price,
        &collateral_token_ema_price,
        &accounts.collateral_custody.custody,
        curtime,
        false,
    )?;
    Ok(Settlement { profit, loss, fee })
}

} // verus!
