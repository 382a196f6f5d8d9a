//! Adding and removing liquidity, swaps, and the value of the pool.

use crate::custody::{Assets, Custody};
use crate::error::PerpetualsError;
use crate::instructions::{AmountAndFee, PricedCustody, SwapAmountAndFees};
use crate::keys::same_key;
use crate::lp::{get_lp_mint_amount, get_lp_redeem_value, lp_minted, lp_redeemed};
use crate::math;
use crate::pool::{swap_amount, AumCalcMode, CustodyAccount, Pool};
use vstd::prelude::*;

verus! {

pub struct UpdatePoolAum {
    pub pool: Pool,
    /// Every custody of the pool, in the pool's order.
    pub remaining_accounts: Vec<CustodyAccount>,
}

#[derive(Copy, Clone, PartialEq, Eq, Default, Debug, Structural)]
pub struct UpdatePoolAumParams {}

/// Shares minted for `amount_in` tokens, and the fee kept in tokens. The
/// deposit, less the fee, is valued at the lower of spot and average, and
/// the pool at the higher prices, so that adding and redeeming at once
/// cannot gain. A zero amount is refused.
pub open spec fn liquidity_quote(
    pool: Pool,
    custody: PricedCustody,
    lp_token_supply: u64,
    remaining_accounts: Seq<CustodyAccount>,
    amount_in: u64,
    curtime: i64,
) -> Result<AmountAndFee, PerpetualsError> {
    if amount_in == 0 {
        Err(PerpetualsError::InvalidArgument)
    } else {
        match pool.token_id(custody.key) {
            Err(e) => Err(e),
            Ok(token_id) => {
                match custody.prices(curtime) {
                    Err(e) => Err(e),
                    Ok(prices) => {
                        match pool.ratio_fee(
                            token_id,
                            custody.custody.fees.add_liquidity,
                            amount_in,
                            0,
                            custody.custody,
                            prices.0,
                        ) {
                            Err(e) => Err(e),
                            Ok(fee) => {
                                match math::checked_u64(amount_in - fee) {
                                    Err(e) => Err(e),
                                    Ok(no_fee_amount) => {
                                        match pool.assets_under_management_usd(
                                            AumCalcMode::Max,
                                            remaining_accounts,
                                            curtime,
                                        ) {
                                            Err(e) => Err(e),
                                            Ok(pool_amount_usd) => {
                                                match prices.0.lower_of(prices.1) {
                                                    Err(e) => Err(e),
                                                    Ok(min_price) => {
                                                        match min_price.asset_amount_usd(
                                                            no_fee_amount,
                                                            custody.custody.decimals,
                                                        ) {
                                                            Err(e) => Err(e),
                                                            Ok(token_amount_usd) => {
                                                                match lp_minted(
                                                                    token_amount_usd,
                                                                    lp_token_supply,
                                                                    pool_amount_usd,
                                                                ) {
                                                                    Err(e) => Err(e),
                                                                    Ok(amount) => {
                                                                        Ok(
                                                                            AmountAndFee { amount, fee },
                                                                        )
                                                                    },
                                                                }
                                                            },
                                                        }
                                                    },
                                                }
                                            },
                                        }
                                    },
                                }
                            },
                        }
                    },
                }
            },
        }
    }
}

/// Prices a deposit on the records given.
pub fn get_liquidity_quote(
    pool: &Pool,
    custody: &PricedCustody,
    lp_token_supply: u64,
    remaining_accounts: &Vec<CustodyAccount>,
    amount_in: u64,
    curtime: i64,
) -> (r: Result<AmountAndFee, PerpetualsError>)
    ensures
        r == liquidity_quote(
            *pool,
            *custody,
            lp_token_supply,
            remaining_accounts@,
            amount_in,
            curtime,
        ),
        r is Ok ==> pool.accounts_match(remaining_accounts@),
{
    if amount_in == 0 {
        return Err(PerpetualsError::InvalidArgument);
    }
    let token_id = pool.get_token_id(&custody.key)?;
    let (token_price, token_ema_price) = custody.get_prices(curtime)?;
    let fee = pool.get_add_liquidity_fee(token_id, amount_in, &custody.custody, &token_price)?;
    let no_fee_amount = math::checked_sub(amount_in, fee)?;
    let pool_amount_usd = pool.get_assets_under_management_usd(
        AumCalcMode::Max,
        remaining_accounts,
        curtime,
    )?;
    let min_price = token_price.min_with(&token_ema_price)?;
    let token_amount_usd = min_price.get_asset_amount_usd(no_fee_amount, custody.custody.decimals)?;
    let amount = get_lp_mint_amount(token_amount_usd, lp_token_supply, pool_amount_usd)?;
    Ok(AmountAndFee { amount, fee })
}

/// Tokens paid out for `lp_amount_in` shares, and the fee kept in tokens.
/// The pool is valued at the lower prices and the shares' part of it
/// converted at the higher of spot and average. A zero amount is refused.
pub open spec fn redemption_quote(
    pool: Pool,
    custody: PricedCustody,
    lp_token_supply: u64,
    remaining_accounts: Seq<CustodyAccount>,
    lp_amount_in: u64,
    curtime: i64,
) -> Result<AmountAndFee, PerpetualsError> {
    if lp_amount_in == 0 {
        Err(PerpetualsError::InvalidArgument)
    } else {
        match pool.token_id(custody.key) {
            Err(e) => Err(e),
            Ok(token_id) => {
                match custody.prices(curtime) {
                    Err(e) => Err(e),
                    Ok(prices) => {
                        match pool.assets_under_management_usd(
                            AumCalcMode::Min,
                            remaining_accounts,
                            curtime,
                        ) {
                            Err(e) => Err(e),
                            Ok(pool_amount_usd) => {
                                match lp_redeemed(pool_amount_usd, lp_amount_in, lp_token_supply) {
                                    Err(e) => Err(e),
                                    Ok(remove_amount_usd) => {
                                        match prices.0.higher_of(prices.1) {
                                            Err(e) => Err(e),
                                            Ok(max_price) => {
                                                match max_price.token_amount(
                                                    remove_amount_usd,
                                                    custody.custody.decimals,
                                                ) {
                                                    Err(e) => Err(e),
                                                    Ok(remove_amount) => {
                                                        match pool.ratio_fee(
                                                            token_id,
                                                            custody.custody.fees.remove_liquidity,
                                                            0,
                                                            remove_amount,
                                                            custody.custody,
                                                            prices.0,
                                                        ) {
                                                            Err(e) => Err(e),
                                                            Ok(fee) => {
                                                                match math::checked_u64(
                                                                    remove_amount - fee,
                                                                ) {
                                                                    Err(e) => Err(e),
                                                                    Ok(amount) => {
                                                                        Ok(
                                                                            AmountAndFee { amount, fee },
                                                                        )
                                                                    },
                                                                }
                                                            },
                                                        }
                                                    },
                                                }
                                            },
                                        }
                                    },
                                }
                            },
                        }
                    },
                }
            },
        }
    }
}

/// Prices a redemption on the records given.
pub fn get_redemption_quote(
    pool: &Pool,
    custody: &PricedCustody,
    lp_token_supply: u64,
    remaining_accounts: &Vec<CustodyAccount>,
    lp_amount_in: u64,
    curtime: i64,
) -> (r: Result<AmountAndFee, PerpetualsError>)
    ensures
        r == redemption_quote(
            *pool,
            *custody,
            lp_token_supply,
            remaining_accounts@,
            lp_amount_in,
            curtime,
        ),
        r is Ok ==> pool.accounts_match(remaining_accounts@),
{
    if lp_amount_in == 0 {
        return Err(PerpetualsError::InvalidArgument);
    }
    let token_id = pool.get_token_id(&custody.key)?;
    let (token_price, token_ema_price) = custody.get_prices(curtime)?;
    let pool_amount_usd = pool.get_assets_under_management_usd(
        AumCalcMode::Min,
        remaining_accounts,
        curtime,
    )?;
    let remove_amount_usd = get_lp_redeem_value(pool_amount_usd, lp_amount_in, lp_token_supply)?;
    let max_price = token_price.max_with(&token_ema_price)?;
    let remove_amount = max_price.get_token_amount(remove_amount_usd, custody.custody.decimals)?;
    let fee = pool.get_remove_liquidity_fee(
        token_id,
        remove_amount,
        &custody.custody,
        &token_price,
    )?;
    let amount = math::checked_sub(remove_amount, fee)?;
    Ok(AmountAndFee { amount, fee })
}

/// Gross tokens of the dispensing custody for `amount_in` of the receiving
/// custody's, and the fees of both sides. A zero amount and a swap of a
/// custody with itself are refused.
pub open spec fn swap_quote(
    pool: Pool,
    receiving_custody: PricedCustody,
    dispensing_custody: PricedCustody,
    amount_in: u64,
    curtime: i64,
) -> Result<SwapAmountAndFees, PerpetualsError> {
    if amount_in == 0 || receiving_custody.key@ == dispensing_custody.key@ {
        Err(PerpetualsError::InvalidArgument)
    } else {
        match pool.token_id(receiving_custody.key) {
            Err(e) => Err(e),
            Ok(token_id_in) => {
                match pool.token_id(dispensing_custody.key) {
                    Err(e) => Err(e),
                    Ok(token_id_out) => {
                        match receiving_custody.prices(curtime) {
                            Err(e) => Err(e),
                            Ok(received) => {
                                match dispensing_custody.prices(curtime) {
                                    Err(e) => Err(e),
                                    Ok(dispensed) => {
                                        match swap_amount(
                                            received.0,
                                            received.1,
                                            dispensed.0,
                                            dispensed.1,
                                            receiving_custody.custody,
                                            dispensing_custody.custody,
                                            amount_in,
                                        ) {
                                            Err(e) => Err(e),
                                            Ok(amount_out) => {
                                                match pool.swap_fees(
                                                    token_id_in,
                                                    token_id_out,
                                                    amount_in,
                                                    amount_out,
                                                    receiving_custody.custody,
                                                    received.0,
                                                    dispensing_custody.custody,
                                                    dispensed.0,
                                                ) {
                                                    Err(e) => Err(e),
                                                    Ok(fees) => {
                                                        Ok(
                                                            SwapAmountAndFees { amount_out, fee_in: fees.0, fee_out: fees.1 },
                                                        )
                                                    },
                                                }
                                            },
                                        }
                                    },
                                }
                            },
                        }
                    },
                }
            },
        }
    }
}

/// Prices a swap on the records given.
pub fn get_swap_quote(
    pool: &Pool,
    receiving_custody: &PricedCustody,
    dispensing_custody: &PricedCustody,
    amount_in: u64,
    curtime: i64,
) -> (r: Result<SwapAmountAndFees, PerpetualsError>)
    ensures
        r == swap_quote(*pool, *receiving_custody, *dispensing_custody, amount_in, curtime),
{
    if amount_in == 0 || same_key(&receiving_custody.key, &dispensing_custody.key) {
        return Err(PerpetualsError::InvalidArgument);
    }
    let token_id_in = pool.get_token_id(&receiving_custody.key)?;
    let token_id_out = pool.get_token_id(&dispensing_custody.key)?;
    let (received_token_price, received_token_ema_price) = receiving_custody.get_prices(curtime)?;
    let (dispensed_token_price, dispensed_token_ema_price) = dispensing_custody.get_prices(
        curtime,
    )?;
    let amount_out = pool.get_swap_amount(
        &received_token_price,
        &received_token_ema_price,
        &dispensed_token_price,
        &dispensed_token_ema_price,
        &receiving_custody.custody,
        &dispensing_custody.custody,
        amount_in,
    )?;
    let fees = pool.get_swap_fees(
        token_id_in,
        token_id_out,
        amount_in,
        amount_out,
        &receiving_custody.custody,
        &received_token_price,
        &dispensing_custody.custody,
        &dispensed_token_price,
    )?;
    Ok(SwapAmountAndFees { amount_out, fee_in: fees.0, fee_out: fees.1 })
}

/// Values the pool at its average prices and stores the value in the pool.
/// On an error the pool is unchanged.
pub fn update_pool_aum(accounts: &mut UpdatePoolAum, _params: &UpdatePoolAumParams, curtime: i64) -> (r:
    Result<u128, PerpetualsError>)
    ensures
        r == old(accounts).pool.assets_under_management_usd(
            AumCalcMode::EMA,
            old(accounts).remaining_accounts@,
            curtime,
        ),
        final(accounts).remaining_accounts == old(accounts).remaining_accounts,
        match r {
            Ok(aum) => final(accounts).pool == (Pool { aum_usd: aum, ..old(accounts).pool }),
            Err(_) => final(accounts).pool == old(accounts).pool,
        },
{
    let aum = accounts.pool.get_assets_under_management_usd(
        AumCalcMode::EMA,
        &accounts.remaining_accounts,
        curtime,
    )?;
    accounts.pool.aum_usd = aum;
    Ok(aum)
}

pub struct AddLiquidity {
    pub pool: Pool,
    pub custody: PricedCustody,
    /// Supply of the pool's share token.
    pub lp_token_supply: u64,
    /// Every custody of the pool, in the pool's order.
    pub remaining_accounts: Vec<CustodyAccount>,
}

#[derive(Copy, Clone, PartialEq, Eq, Default, Debug, Structural)]
pub struct AddLiquidityParams {
    pub amount_in: u64,
}

/// The records after liquidity was added, and the shares minted with the
/// fee kept.
pub struct LiquidityAdded {
    pub custody: Custody,
    pub lp_token_supply: u64,
    pub remaining_accounts: Seq<CustodyAccount>,
    pub aum_usd: u128,
    pub minted: AmountAndFee,
}

/// The custody as listed among the pool's custodies, with its record
/// replaced.
pub open spec fn relisted(listed: CustodyAccount, custody: Custody) -> CustodyAccount {
    CustodyAccount { custody, ..listed }
}

/// What adding `amount_in` tokens does. The shares are priced as the quote
/// prices them, on the records as they were. Then the custody's interest is
/// brought to `curtime`, the whole amount joins its reserves, the shares
/// join the supply, and the pool is valued anew at its average prices with
/// the custody as it now stands.
pub open spec fn liquidity_added(
    accounts: AddLiquidity,
    params: AddLiquidityParams,
    curtime: i64,
) -> Result<LiquidityAdded, PerpetualsError> {
    match liquidity_quote(
        accounts.pool,
        accounts.custody,
        accounts.lp_token_supply,
        accounts.remaining_accounts@,
        params.amount_in,
        curtime,
    ) {
        Err(e) => Err(e),
        Ok(minted) => {
            match accounts.pool.token_id(accounts.custody.key) {
                Err(e) => Err(e),
                Ok(token_id) => {
                    match accounts.custody.custody.interest_updated(curtime) {
                        Err(e) => Err(e),
                        Ok(accrued) => {
                            match math::checked_u64(accrued.assets.owned + params.amount_in) {
                                Err(e) => Err(e),
                                Ok(owned) => {
                                    match math::checked_u64(
                                        accounts.lp_token_supply + minted.amount,
                                    ) {
                                        Err(e) => Err(e),
                                        Ok(lp_token_supply) => {
                                            let custody = Custody { assets: Assets { owned, ..accrued.assets }, ..accrued };
                                            let remaining_accounts = accounts.remaining_accounts@.update(
                                                token_id as int,
                                                relisted(accounts.remaining_accounts@[token_id as int], custody),
                                            );
                                            match accounts.pool.assets_under_management_usd(AumCalcMode::EMA, remaining_accounts, curtime) {
                                                Err(e) => Err(e),
                                                Ok(aum_usd) => Ok(
                                                    LiquidityAdded { custody, lp_token_supply, remaining_accounts, aum_usd, minted },
                                                ),
                                            }
                                        },
                                    }
                                },
                            }
                        },
                    }
                },
            }
        },
    }
}

/// Adds liquidity to a custody and mints shares for it. On an error no
/// record changes.
pub fn add_liquidity(accounts: &mut AddLiquidity, params: &AddLiquidityParams, curtime: i64) -> (r:
    Result<AmountAndFee, PerpetualsError>)
    requires
        old(accounts).custody.custody.valid(),
    ensures
        match liquidity_added(*old(accounts), *params, curtime) {
            Ok(done) => {
                &&& r == Ok::<AmountAndFee, PerpetualsError>(done.minted)
                &&& final(accounts).custody == (PricedCustody {
                    custody: done.custody,
                    ..old(accounts).custody
                })
                &&& final(accounts).lp_token_supply == done.lp_token_supply
                &&& final(accounts).remaining_accounts@ == done.remaining_accounts
                &&& final(accounts).pool == (Pool { aum_usd: done.aum_usd, ..old(accounts).pool })
                &&& done.custody.valid()
            },
            Err(e) => {
                &&& r == Err::<AmountAndFee, PerpetualsError>(e)
                &&& final(accounts).custody == old(accounts).custody
                &&& final(accounts).lp_token_supply == old(accounts).lp_token_supply
                &&& final(accounts).remaining_accounts@ == old(accounts).remaining_accounts@
                &&& final(accounts).pool == old(accounts).pool
            },
        },
{
    let minted = get_liquidity_quote(
        &accounts.pool,
        &accounts.custody,
        accounts.lp_token_supply,
        &accounts.remaining_accounts,
        params.amount_in,
        curtime,
    )?;
    let token_id = accounts.pool.get_token_id(&accounts.custody.key)?;
    let mut custody = accounts.custody.custody;
    custody.update_interest(curtime)?;
    custody.assets.owned = math::checked_add(custody.assets.owned, params.amount_in)?;
    let lp_token_supply = math::checked_add(accounts.lp_token_supply, minted.amount)?;
    // the quote has valued the pool, so the custodies offered are the pool's
    assert(accounts.pool.accounts_match(accounts.remaining_accounts@));
    let listed = accounts.remaining_accounts[token_id];
    let ghost before = accounts.remaining_accounts@;
    accounts.remaining_accounts.set(
        token_id,
        CustodyAccount {
            key: listed.key,
            custody,
            oracle_account: listed.oracle_account,
            twap_account: listed.twap_account,
        },
    );
    match accounts.pool.get_assets_under_management_usd(
        AumCalcMode::EMA,
        &accounts.remaining_accounts,
        curtime,
    ) {
        Ok(aum_usd) => {
            accounts.pool.aum_usd = aum_usd;
            accounts.custody.custody = custody;
            accounts.lp_token_supply = lp_token_supply;
            Ok(minted)
        },
        Err(e) => {
            accounts.remaining_accounts.set(token_id, listed);
            assert(accounts.remaining_accounts@ =~= before);
            Err(e)
        },
    }
}

pub struct RemoveLiquidity {
    pub pool: Pool,
    pub custody: PricedCustody,
    /// Supply of the pool's share token.
    pub lp_token_supply: u64,
    /// Every custody of the pool, in the pool's order.
    pub remaining_accounts: Vec<CustodyAccount>,
}

#[derive(Copy, Clone, PartialEq, Eq, Default, Debug, Structural)]
pub struct RemoveLiquidityParams {
    pub lp_amount_in: u64,
}

/// The records after liquidity was removed, and the tokens paid with the
/// fee kept.
pub struct LiquidityRemoved {
    pub custody: Custody,
    pub lp_token_supply: u64,
    pub remaining_accounts: Seq<CustodyAccount>,
    pub aum_usd: u128,
    pub paid: AmountAndFee,
}

/// What redeeming `lp_amount_in` shares does. The payout is priced as the
/// quote prices it, on the records as they were. No more shares are
/// redeemed than are in supply. Then the custody's interest is brought to
/// `curtime`, the payout leaves the reserves, of which it may take only
/// what is not locked, the shares leave the supply, and the pool is valued
/// anew at its average prices with the custody as it now stands.
pub open spec fn liquidity_removed(
    accounts: RemoveLiquidity,
    params: RemoveLiquidityParams,
    curtime: i64,
) -> Result<LiquidityRemoved, PerpetualsError> {
    match redemption_quote(
        accounts.pool,
        accounts.custody,
        accounts.lp_token_supply,
        accounts.remaining_accounts@,
        params.lp_amount_in,
        curtime,
    ) {
        Err(e) => Err(e),
        Ok(paid) => {
            match accounts.pool.token_id(accounts.custody.key) {
                Err(e) => Err(e),
                Ok(token_id) => {
                    match accounts.custody.custody.interest_updated(curtime) {
                        Err(e) => Err(e),
                        Ok(accrued) => {
                            if params.lp_amount_in > accounts.lp_token_supply {
                                Err(PerpetualsError::InsufficientFunds)
                            } else if paid.amount + accrued.assets.locked > accrued.assets.owned {
                                Err(PerpetualsError::InsufficientPoolLiquidity)
                            } else {
                                let custody = Custody {
                                    assets: Assets { owned: (accrued.assets.owned - paid.amount) as u64, ..accrued.assets },
                                    ..accrued
                                };
                                let remaining_accounts = accounts.remaining_accounts@.update(
                                    token_id as int,
                                    relisted(accounts.remaining_accounts@[token_id as int], custody),
                                );
                                match accounts.pool.assets_under_management_usd(AumCalcMode::EMA, remaining_accounts, curtime) {
                                    Err(e) => Err(e),
                                    Ok(aum_usd) => Ok(
                                        LiquidityRemoved {
                                            custody,
                                            lp_token_supply: (accounts.lp_token_supply - params.lp_amount_in) as u64,
                                            remaining_accounts,
                                            aum_usd,
                                            paid,
                                        },
                                    ),
                                }
                            }
                        },
                    }
                },
            }
        },
    }
}

/// Redeems shares for tokens of a custody. On an error no record changes.
pub fn remove_liquidity(accounts: &mut RemoveLiquidity, params: &RemoveLiquidityParams, curtime: i64) -> (r:
    Result<AmountAndFee, PerpetualsError>)
    requires
        old(accounts).custody.custody.valid(),
    ensures
        match liquidity_removed(*old(accounts), *params, curtime) {
            Ok(done) => {
                &&& r == Ok::<AmountAndFee, PerpetualsError>(done.paid)
                &&& final(accounts).custody == (PricedCustody {
                    custody: done.custody,
                    ..old(accounts).custody
                })
                &&& final(accounts).lp_token_supply == done.lp_token_supply
                &&& final(accounts).remaining_accounts@ == done.remaining_accounts
                &&& final(accounts).pool == (Pool { aum_usd: done.aum_usd, ..old(accounts).pool })
                &&& done.custody.assets.owned >= done.custody.assets.locked
            },
            Err(e) => {
                &&& r == Err::<AmountAndFee, PerpetualsError>(e)
                &&& final(accounts).custody == old(accounts).custody
                &&& final(accounts).lp_token_supply == old(accounts).lp_token_supply
                &&& final(accounts).remaining_accounts@ == old(accounts).remaining_accounts@
                &&& final(accounts).pool == old(accounts).pool
            },
        },
{
    let paid = get_redemption_quote(
        &accounts.pool,
        &accounts.custody,
        accounts.lp_token_supply,
        &accounts.remaining_accounts,
        params.lp_amount_in,
        curtime,
    )?;
    let token_id = accounts.pool.get_token_id(&accounts.custody.key)?;
    let mut custody = accounts.custody.custody;
    custody.update_interest(curtime)?;
    if params.lp_amount_in > accounts.lp_token_supply {
        return Err(PerpetualsError::InsufficientFunds);
    }
    if paid.amount as u128 + custody.assets.locked as u128 > custody.assets.owned as u128 {
        return Err(PerpetualsError::InsufficientPoolLiquidity);
    }
    custody.assets.owned = custody.assets.owned - paid.amount;
    let lp_token_supply = accounts.lp_token_supply - params.lp_amount_in;
    // the quote has valued the pool, so the custodies offered are the pool's
    assert(accounts.pool.accounts_match(accounts.remaining_accounts@));
    let listed = accounts.remaining_accounts[token_id];
    let ghost before = accounts.remaining_accounts@;
    accounts.remaining_accounts.set(
        token_id,
        CustodyAccount {
            key: listed.key,
            custody,
            oracle_account: listed.oracle_account,
            twap_account: listed.twap_account,
        },
    );
    match accounts.pool.get_assets_under_management_usd(
        AumCalcMode::EMA,
        &accounts.remaining_accounts,
        curtime,
    ) {
        Ok(aum_usd) => {
            accounts.pool.aum_usd = aum_usd;
            accounts.custody.custody = custody;
            accounts.lp_token_supply = lp_token_supply;
            Ok(paid)
        },
        Err(e) => {
            accounts.remaining_accounts.set(token_id, listed);
            assert(accounts.remaining_accounts@ =~= before);
            Err(e)
        },
    }
}

pub struct Swap {
    pub pool: Pool,
    pub receiving_custody: PricedCustody,
    pub dispensing_custody: PricedCustody,
}

#[derive(Copy, Clone, PartialEq, Eq, Default, Debug, Structural)]
pub struct SwapParams {
    pub amount_in: u64,
}

/// The two custodies after a swap, and what it paid and charged.
pub struct Swapped {
    pub receiving_custody: Custody,
    pub dispensing_custody: Custody,
    pub swapped: SwapAmountAndFees,
}

/// What a swap does. It is priced as the quote prices it, on the records
/// as they were. Then the interest of both custodies is brought to
/// `curtime`, the whole input joins the receiving custody's reserves, and
/// the output, less its fee, leaves the dispensing custody's reserves, of
/// which it may take only what is not locked.
pub open spec fn swap_done(
    accounts: Swap,
    params: SwapParams,
    curtime: i64,
) -> Result<Swapped, PerpetualsError> {
    match swap_quote(
        accounts.pool,
        accounts.receiving_custody,
        accounts.dispensing_custody,
        params.amount_in,
        curtime,
    ) {
        Err(e) => Err(e),
        Ok(swapped) => {
            match accounts.receiving_custody.custody.interest_updated(curtime) {
                Err(e) => Err(e),
                Ok(received) => {
                    match accounts.dispensing_custody.custody.interest_updated(curtime) {
                        Err(e) => Err(e),
                        Ok(dispensed) => {
                            match math::checked_u64(swapped.amount_out - swapped.fee_out) {
                                Err(e) => Err(e),
                                Ok(paid) => {
                                    match math::checked_u64(
                                        received.assets.owned + params.amount_in,
                                    ) {
                                        Err(e) => Err(e),
                                        Ok(owned) => {
                                            if paid + dispensed.assets.locked > dispensed.assets.owned {
                                                Err(PerpetualsError::InsufficientPoolLiquidity)
                                            } else {
                                                Ok(
                                                    Swapped {
                                                        receiving_custody: Custody { assets: Assets { owned, ..received.assets }, ..received },
                                                        dispensing_custody: Custody {
                                                            assets: Assets {
                                                                owned: (dispensed.assets.owned - paid) as u64,
                                                                ..dispensed.assets
                                                            },
                                                            ..dispensed
                                                        },
                                                        swapped,
                                                    },
                                                )
                                            }
                                        },
                                    }
                                },
                            }
                        },
                    }
                },
            }
        },
    }
}

/// Swaps tokens of the receiving custody for tokens of the dispensing
/// custody. On an error no record changes.
pub fn swap(accounts: &mut Swap, params: &SwapParams, curtime: i64) -> (r: Result<
    SwapAmountAndFees,
    PerpetualsError,
>)
    requires
        old(accounts).receiving_custody.custody.valid(),
        old(accounts).dispensing_custody.custody.valid(),
    ensures
        final(accounts).pool == old(accounts).pool,
        match swap_done(*old(accounts), *params, curtime) {
            Ok(done) => {
                &&& r == Ok::<SwapAmountAndFees, PerpetualsError>(done.swapped)
                &&& final(accounts).receiving_custody == (PricedCustody {
                    custody: done.receiving_custody,
                    ..old(accounts).receiving_custody
                })
                &&& final(accounts).dispensing_custody == (PricedCustody {
                    custody: done.dispensing_custody,
                    ..old(accounts).dispensing_custody
                })
                &&& done.receiving_custody.valid()
                &&& done.dispensing_custody.valid()
            },
            Err(e) => {
                &&& r == Err::<SwapAmountAndFees, PerpetualsError>(e)
                &&& final(accounts).receiving_custody == old(accounts).receiving_custody
                &&& final(accounts).dispensing_custody == old(accounts).dispensing_custody
            },
        },
{
    let swapped = get_swap_quote(
        &accounts.pool,
        &accounts.receiving_custody,
        &accounts.dispensing_custody,
        params.amount_in,
        curtime,
    )?;
    let mut received = accounts.receiving_custody.custody;
    received.update_interest(curtime)?;
    let mut dispensed = accounts.dispensing_custody.custody;
    dispensed.update_interest(curtime)?;
    let paid = math::checked_sub(swapped.amount_out, swapped.fee_out)?;
    received.assets.owned = math::checked_add(received.assets.owned, params.amount_in)?;
    if paid as u128 + dispensed.assets.locked as u128 > dispensed.assets.owned as u128 {
        return Err(PerpetualsError::InsufficientPoolLiquidity);
    }
    dispensed.assets.owned = dispensed.assets.owned - paid;
    accounts.receiving_custody.custody = received;
    accounts.dispensing_custody.custody = dispensed;
    Ok(swapped)
}

} // verus!
