//! A leveraged position.

use vstd::prelude::*;

verus! {

/// Direction of a position.
#[derive(Copy, Clone, PartialEq, Eq, Debug, Structural)]
pub enum Side {
    /// No direction chosen; every action refuses it.
    Unset,
    Long,
    Short,
}

impl Default for Side {
    fn default() -> (r: Self)
        ensures
            r == Side::Unset,
    {
        Side::Unset
    }
}

/// One trader's position in one custody. `price` is the entry price with
/// `PRICE_DECIMALS` fractional digits, whatever exponent the oracle used.
#[derive(Copy, Clone, PartialEq, Debug)]
pub struct Position {
    pub owner: [u8; 32],
    pub pool: [u8; 32],
    pub custody: [u8; 32],
    pub collateral_custody: [u8; 32],
    pub open_time: i64,
    pub update_time: i64,
    pub side: Side,
    pub price: u64,
    pub size_usd: u64,
    pub collateral_usd: u64,
    pub unrealized_profit_usd: u64,
    pub unrealized_loss_usd: u64,
    pub cumulative_interest_snapshot: u128,
    pub locked_amount: u64,
    pub collateral_amount: u64,
}

impl Default for Position {
    fn default() -> (r: Self)
        ensures
            r.side == Side::Unset,
            r.open_time == 0,
            r.update_time == 0,
            r.price == 0,
            r.size_usd == 0,
            r.collateral_usd == 0,
            r.unrealized_profit_usd == 0,
            r.unrealized_loss_usd == 0,
            r.cumulative_interest_snapshot == 0,
            r.locked_amount == 0,
            r.collateral_amount == 0,
    {
        Position {
            owner: [0u8; 32],
            pool: [0u8; 32],
            custody: [0u8; 32],
            collateral_custody: [0u8; 32],
            open_time: 0,
            update_time: 0,
            side: Side::Unset,
            price: 0,
            size_usd: 0,
            collateral_usd: 0,
            unrealized_profit_usd: 0,
            unrealized_loss_usd: 0,
            cumulative_interest_snapshot: 0,
            locked_amount: 0,
            collateral_amount: 0,
        }
    }
}

} // verus!
