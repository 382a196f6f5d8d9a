//! Per-asset state of a pool: reserves, parameters and the borrow index.

use crate::error::PerpetualsError;
use crate::gateway::{OracleParams, OracleType};
use crate::math;
use crate::oracle::BPS_POWER;
use crate::position::Side;
use vstd::prelude::*;

verus! {

/// Fee rates, in basis points of the amount they are charged on.
#[derive(Copy, Clone, PartialEq, Eq, Default, Debug, Structural)]
pub struct Fees {
    pub open_position: u64,
    pub close_position: u64,
    pub liquidation: u64,
    pub protocol_share: u64,
    pub swap_in: u64,
    pub swap_out: u64,
    pub stable_swap_in: u64,
    pub stable_swap_out: u64,
    pub add_liquidity: u64,
    pub remove_liquidity: u64,
    /// Most that a custody's weight can add to or take from a base fee.
    pub max_deviation: u64,
}

/// Pricing and risk limits; spreads, leverage and losses in basis points.
#[derive(Copy, Clone, PartialEq, Eq, Default, Debug, Structural)]
pub struct PricingParams {
    pub use_ema: bool,
    pub trade_spread_long: u64,
    pub trade_spread_short: u64,
    /// Highest leverage at which a position may be opened.
    pub max_initial_leverage: u64,
    /// Highest leverage that a position may reach.
    pub max_leverage: u64,
    /// Share of its size that a position may lose before it is liquidated.
    pub max_loss: u64,
    /// Reserve locked per unit of size.
    pub max_payoff_mult: u64,
    pub max_global_long_sizes_usd: u64,
    pub max_global_short_sizes_usd: u64,
}

/// The borrow-rate curve, in basis points.
#[derive(Copy, Clone, PartialEq, Eq, Default, Debug, Structural)]
pub struct BorrowRateParams {
    pub base_rate: u64,
    pub slope1: u64,
    pub slope2: u64,
    pub optimal_utilization: u64,
}

#[derive(Copy, Clone, PartialEq, Eq, Default, Debug, Structural)]
pub struct BorrowRateState {
    pub current_rate: u64,
    pub cumulative_interest: u128,
    pub last_update: i64,
}

#[derive(Copy, Clone, PartialEq, Eq, Default, Debug, Structural)]
pub struct Assets {
    /// Collateral held for open positions.
    pub collateral: u64,
    /// Reserves that belong to the pool.
    pub owned: u64,
    /// Part of `owned` that backs open positions.
    pub locked: u64,
}

#[derive(Copy, Clone, PartialEq, Eq, Default, Debug, Structural)]
pub struct Permissions {
    pub allow_swap: bool,
    pub allow_add_liquidity: bool,
    pub allow_remove_liquidity: bool,
    pub allow_open_position: bool,
    pub allow_close_position: bool,
    pub allow_pnl_withdrawal: bool,
    pub allow_collateral_withdrawal: bool,
    pub allow_size_change: bool,
}

/// Amounts counted per kind of action.
#[derive(Copy, Clone, PartialEq, Eq, Default, Debug, Structural)]
pub struct ActionStats {
    pub swap_usd: u64,
    pub add_liquidity_usd: u64,
    pub remove_liquidity_usd: u64,
    pub open_position_usd: u64,
    pub close_position_usd: u64,
    pub liquidation_usd: u64,
}

#[derive(Copy, Clone, PartialEq, Eq, Default, Debug, Structural)]
pub struct TradeStats {
    pub profit_usd: u64,
    pub loss_usd: u64,
    pub oi_long_usd: u64,
    pub oi_short_usd: u64,
}

/// Open interest of one side, summed over its positions.
#[derive(Copy, Clone, PartialEq, Eq, Default, Debug, Structural)]
pub struct PositionStats {
    pub open_positions: u64,
    pub collateral_usd: u64,
    pub size_usd: u64,
    pub locked_amount: u64,
}

#[derive(Copy, Clone, PartialEq, Default, Debug)]
pub struct Custody {
    pub pool: [u8; 32],
    pub mint: [u8; 32],
    pub token_account: [u8; 32],
    pub decimals: u8,
    pub is_stable: bool,
    pub is_virtual: bool,
    pub oracle: OracleParams,
    pub pricing: PricingParams,
    pub permissions: Permissions,
    pub fees: Fees,
    pub borrow_rate: BorrowRateParams,
    pub assets: Assets,
    pub collected_fees: ActionStats,
    pub volume_stats: ActionStats,
    pub trade_stats: TradeStats,
    pub long_positions: PositionStats,
    pub short_positions: PositionStats,
    pub borrow_rate_state: BorrowRateState,
    pub bump: u8,
}

/// The layout that custodies had before virtual custodies existed.
#[derive(Copy, Clone, PartialEq, Default, Debug)]
pub struct DeprecatedCustody {
    pub pool: [u8; 32],
    pub mint: [u8; 32],
    pub token_account: [u8; 32],
    pub decimals: u8,
    pub is_stable: bool,
    pub oracle: OracleParams,
    pub pricing: PricingParams,
    pub permissions: Permissions,
    pub fees: Fees,
    pub borrow_rate: BorrowRateParams,
    pub assets: Assets,
    pub collected_fees: ActionStats,
    pub volume_stats: ActionStats,
    pub trade_stats: TradeStats,
    pub long_positions: PositionStats,
    pub short_positions: PositionStats,
    pub borrow_rate_state: BorrowRateState,
    pub bump: u8,
}

impl Fees {
    /// Every rate is at most one whole.
    pub open spec fn valid(self) -> bool {
        &&& self.open_position <= BPS_POWER
        &&& self.close_position <= BPS_POWER
        &&& self.liquidation <= BPS_POWER
        &&& self.protocol_share <= BPS_POWER
        &&& self.swap_in <= BPS_POWER
        &&& self.swap_out <= BPS_POWER
        &&& self.stable_swap_in <= BPS_POWER
        &&& self.stable_swap_out <= BPS_POWER
        &&& self.add_liquidity <= BPS_POWER
        &&& self.remove_liquidity <= BPS_POWER
        &&& self.max_deviation <= BPS_POWER
    }

    pub fn validate(&self) -> (r: bool)
        ensures
            r == self.valid(),
    {
        self.open_position <= BPS_POWER && self.close_position <= BPS_POWER && self.liquidation
            <= BPS_POWER && self.protocol_share <= BPS_POWER && self.swap_in <= BPS_POWER
            && self.swap_out <= BPS_POWER && self.stable_swap_in <= BPS_POWER
            && self.stable_swap_out <= BPS_POWER && self.add_liquidity <= BPS_POWER
            && self.remove_liquidity <= BPS_POWER && self.max_deviation <= BPS_POWER
    }
}

impl PricingParams {
    /// Spreads and the loss limit are below one whole, and a position may
    /// be opened at a leverage that it may keep.
    pub open spec fn valid(self) -> bool {
        &&& self.trade_spread_long < BPS_POWER
        &&& self.trade_spread_short < BPS_POWER
        &&& self.max_loss < BPS_POWER
        &&& 0 < self.max_initial_leverage <= self.max_leverage
    }

    pub fn validate(&self) -> (r: bool)
        ensures
            r == self.valid(),
    {
        self.trade_spread_long < BPS_POWER && self.trade_spread_short < BPS_POWER && self.max_loss
            < BPS_POWER && 0 < self.max_initial_leverage && self.max_initial_leverage
            <= self.max_leverage
    }
}

impl BorrowRateParams {
    /// The kink of the curve lies strictly between no and full utilization.
    pub open spec fn valid(self) -> bool {
        0 < self.optimal_utilization < BPS_POWER
    }

    pub fn validate(&self) -> (r: bool)
        ensures
            r == self.valid(),
    {
        0 < self.optimal_utilization && self.optimal_utilization < BPS_POWER
    }

    /// The rate at `utilization` (basis points of the reserves that are
    /// locked): the base rate, plus the first slope in proportion to the
    /// utilization up to the optimum, plus the second slope in proportion to
    /// what lies above it.
    pub open spec fn rate_at(self, utilization: u64) -> int {
        let u = if utilization < BPS_POWER {
            utilization as int
        } else {
            BPS_POWER as int
        };
        let below = if u < self.optimal_utilization {
            u
        } else {
            self.optimal_utilization as int
        };
        let above = u - below;
        self.base_rate + (self.slope1 * below) / (self.optimal_utilization as int) + (self.slope2
            * above) / (BPS_POWER - self.optimal_utilization)
    }

    /// The borrow rate at `utilization`, which counts as full above one
    /// whole.
    pub fn get_rate(&self, utilization: u64) -> (r: Result<u64, PerpetualsError>)
        requires
            self.valid(),
        ensures
            r == math::checked_u64(self.rate_at(utilization)),
    {
        let u: u64 = if utilization < BPS_POWER {
            utilization
        } else {
            BPS_POWER
        };
        let below: u64 = if u < self.optimal_utilization {
            u
        } else {
            self.optimal_utilization
        };
        let above: u64 = u - below;
        assert(self.slope1 * below <= 0xffff_ffff_ffff_ffff * 10_000) by (nonlinear_arith)
            requires
                self.slope1 <= 0xffff_ffff_ffff_ffff,
                below <= 10_000,
        ;
        assert(self.slope2 * above <= 0xffff_ffff_ffff_ffff * 10_000) by (nonlinear_arith)
            requires
                self.slope2 <= 0xffff_ffff_ffff_ffff,
                above <= 10_000,
        ;
        let first: u128 = (self.slope1 as u128 * below as u128) / (self.optimal_utilization as u128);
        let second: u128 = (self.slope2 as u128 * above as u128) / ((BPS_POWER
            - self.optimal_utilization) as u128);
        assert(first <= self.slope1 * below) by (nonlinear_arith)
            requires
                first == (self.slope1 * below) / (self.optimal_utilization as int),
                self.optimal_utilization >= 1,
                self.slope1 * below >= 0,
        ;
        assert(second <= self.slope2 * above) by (nonlinear_arith)
            requires
                second == (self.slope2 * above) / (BPS_POWER - self.optimal_utilization),
                BPS_POWER - self.optimal_utilization >= 1,
                self.slope2 * above >= 0,
        ;
        math::checked_as_u64(self.base_rate as u128 + first + second)
    }
}

impl Custody {
    /// The custody's own configuration is sound: an oracle is named, the
    /// decimals leave room for every power of ten in use, the rates are
    /// within bounds, and the reserves cover what is locked.
    pub open spec fn valid(self) -> bool {
        &&& self.oracle.oracle_type != OracleType::Unset
        &&& self.decimals <= 19
        &&& self.fees.valid()
        &&& self.pricing.valid()
        &&& self.borrow_rate.valid()
        &&& self.assets.owned >= self.assets.locked
    }

    pub fn validate(&self) -> (r: bool)
        ensures
            r == self.valid(),
    {
        let named = match self.oracle.oracle_type {
            OracleType::Unset => false,
            _ => true,
        };
        named && self.decimals <= 19 && self.fees.validate() && self.pricing.validate()
            && self.borrow_rate.validate() && self.assets.owned >= self.assets.locked
    }

    /// Reserve that a position of `size` units locks: `size` times the
    /// payoff multiple.
    pub open spec fn locked_amount(self, size: u64, side: Side) -> Result<u64, PerpetualsError> {
        if side == Side::Unset {
            Err(PerpetualsError::InvalidArgument)
        } else {
            math::checked_u64((size * self.pricing.max_payoff_mult) / (BPS_POWER as int))
        }
    }

    /// The amount that must be reserved against a position and is then
    /// unavailable for withdrawal.
    pub fn get_locked_amount(&self, size: u64, side: Side) -> (r: Result<u64, PerpetualsError>)
        ensures
            r == self.locked_amount(size, side),
    {
        match side {
            Side::Unset => Err(PerpetualsError::InvalidArgument),
            _ => {
                assert(size * self.pricing.max_payoff_mult <= 0xffff_ffff_ffff_ffff
                    * 0xffff_ffff_ffff_ffff) by (nonlinear_arith)
                    requires
                        size <= 0xffff_ffff_ffff_ffff,
                        self.pricing.max_payoff_mult <= 0xffff_ffff_ffff_ffff,
                ;
                math::checked_as_u64(
                    (size as u128 * self.pricing.max_payoff_mult as u128) / (BPS_POWER as u128),
                )
            },
        }
    }

    /// The borrow index at `now`: the stored index, advanced by the current
    /// rate for every second since the last update. Time that does not move
    /// forward leaves it as stored.
    pub open spec fn cumulative_interest(self, now: i64) -> int {
        if now > self.borrow_rate_state.last_update {
            self.borrow_rate_state.cumulative_interest + (now - self.borrow_rate_state.last_update)
                * self.borrow_rate_state.current_rate
        } else {
            self.borrow_rate_state.cumulative_interest as int
        }
    }

    pub fn get_cumulative_interest(&self, now: i64) -> (r: Result<u128, PerpetualsError>)
        ensures
            r == math::checked_u128(self.cumulative_interest(now)),
    {
        if now > self.borrow_rate_state.last_update {
            let elapsed: u128 = (now as i128 - self.borrow_rate_state.last_update as i128) as u128;
            assert(elapsed * self.borrow_rate_state.current_rate <= 0xffff_ffff_ffff_ffff
                * 0xffff_ffff_ffff_ffff) by (nonlinear_arith)
                requires
                    0 <= elapsed <= 0xffff_ffff_ffff_ffff,
                    self.borrow_rate_state.current_rate <= 0xffff_ffff_ffff_ffff,
            ;
            let accrued: u128 = elapsed * (self.borrow_rate_state.current_rate as u128);
            math::checked_add_u128(self.borrow_rate_state.cumulative_interest, accrued)
        } else {
            Ok(self.borrow_rate_state.cumulative_interest)
        }
    }

    /// Share of the reserves that is locked, in basis points; nothing is
    /// locked of empty reserves.
    pub open spec fn utilization(self) -> int {
        if self.assets.owned == 0 {
            0
        } else {
            (self.assets.locked * BPS_POWER) / (self.assets.owned as int)
        }
    }

    /// The state that `update_interest` leaves: the index brought to `now`,
    /// the clock moved forward to `now`, and the rate read off the curve at
    /// the current utilization.
    pub open spec fn interest_updated(self, now: i64) -> Result<Custody, PerpetualsError> {
        let index = self.cumulative_interest(now);
        let rate = self.borrow_rate.rate_at(self.utilization() as u64);
        if index > u128::MAX || rate > u64::MAX {
            Err(PerpetualsError::MathOverflow)
        } else {
            Ok(
                Custody {
                    borrow_rate_state: BorrowRateState {
                        current_rate: rate as u64,
                        cumulative_interest: index as u128,
                        last_update: if now > self.borrow_rate_state.last_update {
                            now
                        } else {
                            self.borrow_rate_state.last_update
                        },
                    },
                    ..self
                },
            )
        }
    }

    /// Brings the borrow index to `now` and sets the rate for the time that
    /// follows. On an error nothing changes.
    pub fn update_interest(&mut self, now: i64) -> (r: Result<(), PerpetualsError>)
        requires
            old(self).borrow_rate.valid(),
            old(self).assets.owned >= old(self).assets.locked,
        ensures
            match old(self).interest_updated(now) {
                Ok(c) => r is Ok && *final(self) == c,
                Err(e) => r == Err::<(), PerpetualsError>(e) && *final(self) == *old(self),
            },
    {
        let index = match self.get_cumulative_interest(now) {
            Ok(i) => i,
            Err(e) => {
                return Err(e);
            },
        };
        let utilization: u64 = if self.assets.owned == 0 {
            0
        } else {
            assert(self.assets.locked * BPS_POWER <= self.assets.owned * 10_000) by (nonlinear_arith)
                requires
                    self.assets.locked <= self.assets.owned,
                    BPS_POWER == 10_000,
            ;
            let u: u128 = (self.assets.locked as u128 * BPS_POWER as u128) / (
            self.assets.owned as u128);
            assert(u <= 10_000) by (nonlinear_arith)
                requires
                    u == (self.assets.locked * BPS_POWER) / (self.assets.owned as int),
                    self.assets.locked * BPS_POWER <= self.assets.owned * 10_000,
                    self.assets.owned >= 1,
            ;
            u as u64
        };
        let rate = match self.borrow_rate.get_rate(utilization) {
            Ok(v) => v,
            Err(e) => {
                return Err(e);
            },
        };
        self.borrow_rate_state.cumulative_interest = index;
        self.borrow_rate_state.current_rate = rate;
        if now > self.borrow_rate_state.last_update {
            self.borrow_rate_state.last_update = now;
        }
        Ok(())
    }

    /// The borrow index never falls as time moves on.
    pub proof fn lemma_cumulative_interest_monotonic(self, t1: i64, t2: i64)
        requires
            t1 <= t2,
        ensures
            self.cumulative_interest(t1) <= self.cumulative_interest(t2),
    {
        let s = self.borrow_rate_state;
        if t1 > s.last_update {
            assert((t1 - s.last_update) * s.current_rate <= (t2 - s.last_update) * s.current_rate)
                by (nonlinear_arith)
                requires
                    t1 - s.last_update <= t2 - s.last_update,
                    s.current_rate >= 0,
            ;
        } else if t2 > s.last_update {
            assert(0 <= (t2 - s.last_update) * s.current_rate) by (nonlinear_arith)
                requires
                    t2 - s.last_update >= 0,
                    s.current_rate >= 0,
            ;
        }
    }
}

impl DeprecatedCustody {
    /// The same custody in the current layout: every field kept, and not
    /// virtual.
    pub open spec fn upgraded(self) -> Custody {
        Custody {
            pool: self.pool,
            mint: self.mint,
            token_account: self.token_account,
            decimals: self.decimals,
            is_stable: self.is_stable,
            is_virtual: false,
            oracle: self.oracle,
            pricing: self.pricing,
            permissions: self.permissions,
            fees: self.fees,
            borrow_rate: self.borrow_rate,
            assets: self.assets,
            collected_fees: self.collected_fees,
            volume_stats: self.volume_stats,
            trade_stats: self.trade_stats,
            long_positions: self.long_positions,
            short_positions: self.short_positions,
            borrow_rate_state: self.borrow_rate_state,
            bump: self.bump,
        }
    }

    /// Copies the custody field by field into the current layout.
    pub fn upgrade(&self) -> (r: Custody)
        ensures
            r == self.upgraded(),
            r == (Custody {
                pool: self.pool,
                mint: self.mint,
                token_account: self.token_account,
                decimals: self.decimals,
                is_stable: self.is_stable,
                is_virtual: false,
                oracle: self.oracle,
                pricing: self.pricing,
                permissions: self.permissions,
                fees: self.fees,
                borrow_rate: self.borrow_rate,
                assets: self.assets,
                collected_fees: self.collected_fees,
                volume_stats: self.volume_stats,
                trade_stats: self.trade_stats,
                long_positions: self.long_positions,
                short_positions: self.short_positions,
                borrow_rate_state: self.borrow_rate_state,
                bump: self.bump,
            }),
    {
        Custody {
            pool: self.pool,
            mint: self.mint,
            token_account: self.token_account,
            decimals: self.decimals,
            is_stable: self.is_stable,
            is_virtual: false,
            oracle: self.oracle,
            pricing: self.pricing,
            permissions: self.permissions,
            fees: self.fees,
            borrow_rate: self.borrow_rate,
            assets: self.assets,
            collected_fees: self.collected_fees,
            volume_stats: self.volume_stats,
            trade_stats: self.trade_stats,
            long_positions: self.long_positions,
            short_positions: self.short_positions,
            borrow_rate_state: self.borrow_rate_state,
            bump: self.bump,
        }
    }
}

} // verus!
