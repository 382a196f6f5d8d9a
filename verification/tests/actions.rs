use perpetuals::custody::{Assets, BorrowRateParams, BorrowRateState, Custody, Fees, PricingParams};
use perpetuals::error::PerpetualsError;
use perpetuals::gateway::{CustomOracle, OracleAccount, OracleParams, OracleType};
use perpetuals::instructions::{
    add_collateral, add_liquidity, close_position, get_assets_under_management,
    get_lp_token_price, liquidate, open_position, remove_collateral, remove_liquidity,
    set_custom_oracle_price, swap, AddCollateralParams, AddLiquidity, AddLiquidityParams,
    AmountAndFee, ChangeCollateral, ClosePosition, ClosePositionParams, GetAssetsUnderManagement,
    GetAssetsUnderManagementParams, GetLpTokenPrice, GetLpTokenPriceParams, Liquidate,
    LiquidateParams, OpenPosition, OpenPositionParams, PricedCustody, RemoveCollateralParams,
    RemoveLiquidity, RemoveLiquidityParams, SetCustomOraclePrice, SetCustomOraclePriceParams,
    Settlement, Swap, SwapAmountAndFees, SwapParams,
};
use perpetuals::multisig::Multisig;
use perpetuals::pool::{CustodyAccount, Pool, TokenRatios};
use perpetuals::position::{Position, Side};

const NOW: i64 = 9_000;

fn usd(whole: u64) -> u64 {
    whole * 1_000_000
}

fn custody(decimals: u8, is_stable: bool) -> Custody {
    Custody {
        decimals,
        is_stable,
        oracle: OracleParams {
            oracle_type: OracleType::Custom,
            max_price_error: 100,
            max_price_age_sec: 300,
            ..OracleParams::default()
        },
        pricing: PricingParams {
            use_ema: true,
            max_initial_leverage: 100_000,
            max_leverage: 100_000,
            max_loss: 9_000,
            max_payoff_mult: 10_000,
            ..PricingParams::default()
        },
        borrow_rate: BorrowRateParams { base_rate: 1, slope1: 8, slope2: 12, optimal_utilization: 8_000 },
        ..Custody::default()
    }
}

fn priced(key: u8, custody: Custody, spot: u64, ema: u64) -> PricedCustody {
    PricedCustody {
        key: [key; 32],
        custody,
        oracle_account: OracleAccount::Custom(CustomOracle {
            price: spot,
            expo: -6,
            conf: 0,
            ema,
            publish_time: NOW,
        }),
        twap_account: None,
    }
}

fn listed(p: &PricedCustody) -> CustodyAccount {
    CustodyAccount {
        key: p.key,
        custody: p.custody,
        oracle_account: p.oracle_account,
        twap_account: p.twap_account,
    }
}

fn pool_of(n: u8) -> Pool {
    Pool {
        custodies: (1..=n).map(|k| [k; 32]).collect(),
        ratios: vec![TokenRatios { target: 5_000, min: 0, max: 10_000 }; n as usize],
        ..Pool::default()
    }
}

#[test]
fn first_deposit_fills_reserves_supply_and_pool_value() {
    let usdc = priced(1, custody(6, true), 1_000_000, 1_000_000);
    let mut accounts = AddLiquidity {
        pool: pool_of(1),
        custody: usdc,
        lp_token_supply: 0,
        remaining_accounts: vec![listed(&usdc)],
    };
    let minted = add_liquidity(&mut accounts, &AddLiquidityParams { amount_in: 1_000_000_000 }, NOW);
    assert_eq!(minted, Ok(AmountAndFee { amount: 1_000_000_000, fee: 0 }));
    assert_eq!(accounts.custody.custody.assets.owned, 1_000_000_000);
    assert_eq!(accounts.lp_token_supply, 1_000_000_000);
    assert_eq!(accounts.pool.aum_usd, 1_000_000_000);
    assert_eq!(accounts.remaining_accounts[0].custody.assets.owned, 1_000_000_000);
    assert_eq!(accounts.custody.custody.borrow_rate_state.last_update, NOW);
    assert_eq!(accounts.custody.custody.borrow_rate_state.current_rate, 1);
}

#[test]
fn later_deposit_accrues_interest_first_and_keeps_the_fee_in_reserves() {
    let mut c = custody(9, false);
    c.assets = Assets { collateral: 0, owned: 10_000_000_000, locked: 4_000_000_000 };
    c.fees = Fees { add_liquidity: 100, ..Fees::default() };
    c.borrow_rate_state = BorrowRateState { current_rate: 3, cumulative_interest: 50, last_update: NOW - 10 };
    let a = priced(1, c, 100_000_000, 101_000_000);
    let mut accounts = AddLiquidity {
        pool: pool_of(1),
        custody: a,
        lp_token_supply: 2_020_000_000,
        remaining_accounts: vec![listed(&a)],
    };
    let minted = add_liquidity(&mut accounts, &AddLiquidityParams { amount_in: 1_000_000_000 }, NOW);
    // 0.99 tokens at 100 are 99 USD of a pool worth 1010 at the higher price
    assert_eq!(minted, Ok(AmountAndFee { amount: 198_000_000, fee: 10_000_000 }));
    let after = accounts.custody.custody;
    assert_eq!(after.assets.owned, 11_000_000_000);
    assert_eq!(after.assets.locked, 4_000_000_000);
    // index 50 + 10 s at 3; utilization 4000 bps of the reserves before the deposit
    assert_eq!(
        after.borrow_rate_state,
        BorrowRateState { current_rate: 5, cumulative_interest: 80, last_update: NOW }
    );
    assert_eq!(accounts.lp_token_supply, 2_218_000_000);
    // 11 tokens at the average of 101
    assert_eq!(accounts.pool.aum_usd, 1_111_000_000);
}

#[test]
fn failed_deposit_changes_nothing() {
    let mut c = custody(9, false);
    c.assets.owned = u64::MAX - 5;
    let a = priced(1, c, 1, 1);
    let mut accounts = AddLiquidity {
        pool: pool_of(1),
        custody: a,
        lp_token_supply: 7,
        remaining_accounts: vec![listed(&a)],
    };
    let before_pool = accounts.pool.clone();
    let before_listed = accounts.remaining_accounts.clone();
    assert_eq!(
        add_liquidity(&mut accounts, &AddLiquidityParams { amount_in: 6 }, NOW),
        Err(PerpetualsError::MathOverflow)
    );
    assert_eq!(accounts.pool, before_pool);
    assert_eq!(accounts.custody, a);
    assert_eq!(accounts.lp_token_supply, 7);
    assert_eq!(accounts.remaining_accounts, before_listed);
    assert_eq!(
        add_liquidity(&mut accounts, &AddLiquidityParams { amount_in: 0 }, NOW),
        Err(PerpetualsError::InvalidArgument)
    );
    assert_eq!(
        add_liquidity(&mut accounts, &AddLiquidityParams { amount_in: 1 }, NOW + 301),
        Err(PerpetualsError::StaleOraclePrice)
    );
    assert_eq!(accounts.custody, a);
}

fn trading(owned: u64) -> Custody {
    let mut c = custody(9, false);
    c.pricing.trade_spread_long = 10;
    c.pricing.trade_spread_short = 10;
    c.assets.owned = owned;
    c
}

#[test]
fn opening_ten_times_over_the_collateral_exceeds_the_leverage_bound() {
    let a = priced(1, trading(100_000_000_000), 100_000_000, 99_000_000);
    let accounts = OpenPosition {
        owner: [7; 32],
        pool_key: [8; 32],
        pool: pool_of(1),
        custody: a,
        collateral_custody: a,
    };
    let params = OpenPositionParams { collateral: 1_000_000_000, size: 10_000_000_000, side: Side::Long };
    assert_eq!(open_position(&accounts, &params, NOW), Err(PerpetualsError::MaxLeverageExceeded));
}

#[test]
fn opening_within_the_bound_records_the_position() {
    let a = priced(1, trading(100_000_000_000), 100_000_000, 100_000_000);
    let accounts = OpenPosition {
        owner: [7; 32],
        pool_key: [8; 32],
        pool: pool_of(1),
        custody: a,
        collateral_custody: a,
    };
    let params = OpenPositionParams { collateral: 5_000_000_000, size: 10_000_000_000, side: Side::Long };
    let position = open_position(&accounts, &params, NOW).unwrap();
    assert_eq!(
        position,
        Position {
            owner: [7; 32],
            pool: [8; 32],
            custody: [1; 32],
            collateral_custody: [1; 32],
            open_time: NOW,
            update_time: NOW,
            side: Side::Long,
            price: 100_100_000_000,
            size_usd: 1_001_000_000,
            collateral_usd: 500_000_000,
            unrealized_profit_usd: 0,
            unrealized_loss_usd: 0,
            cumulative_interest_snapshot: 0,
            locked_amount: 10_000_000_000,
            collateral_amount: 5_000_000_000,
        }
    );
}

#[test]
fn opening_names_what_is_missing() {
    let a = priced(1, trading(9_999_999_999), 100_000_000, 100_000_000);
    let accounts = OpenPosition {
        owner: [7; 32],
        pool_key: [8; 32],
        pool: pool_of(1),
        custody: a,
        collateral_custody: a,
    };
    let good = OpenPositionParams { collateral: 5_000_000_000, size: 10_000_000_000, side: Side::Long };
    assert_eq!(open_position(&accounts, &good, NOW), Err(PerpetualsError::InsufficientPoolLiquidity));
    assert_eq!(
        open_position(&accounts, &OpenPositionParams { collateral: 9, ..good }, NOW),
        Err(PerpetualsError::InsufficientCollateral)
    );
    assert_eq!(
        open_position(&accounts, &OpenPositionParams { side: Side::Unset, ..good }, NOW),
        Err(PerpetualsError::InvalidArgument)
    );
    assert_eq!(
        open_position(&accounts, &OpenPositionParams { size: 0, ..good }, NOW),
        Err(PerpetualsError::InvalidArgument)
    );
    assert_eq!(open_position(&accounts, &good, NOW + 301), Err(PerpetualsError::StaleOraclePrice));
}

#[test]
fn only_a_position_beyond_its_limits_is_liquidated() {
    let mut c = custody(9, false);
    c.pricing.use_ema = false;
    c.fees.liquidation = 50;
    let position = Position {
        side: Side::Long,
        price: 100_000_000_000,
        size_usd: usd(1_000),
        collateral_usd: usd(200),
        ..Position::default()
    };
    let at = |spot: u64| {
        let a = priced(1, c, spot, spot);
        liquidate(
            &Liquidate { pool: pool_of(1), position, custody: a, collateral_custody: a },
            &LiquidateParams {},
            NOW,
        )
    };
    assert_eq!(at(95_000_000), Err(PerpetualsError::PositionNotLiquidatable));
    // at 90 the loss is 100 and the liquidation fee 5, which is 0.055555555 tokens
    assert_eq!(at(90_000_000), Ok(Settlement { profit: 0, loss: usd(105), fee: 55_555_555 }));
}

#[test]
fn pool_value_and_share_price() {
    let mut c = custody(9, false);
    c.assets.owned = 3_000_000_000;
    let a = priced(1, c, 100_000_000, 101_000_000);
    let value = get_assets_under_management(
        &GetAssetsUnderManagement { pool: pool_of(1), remaining_accounts: vec![listed(&a)] },
        &GetAssetsUnderManagementParams {},
        NOW,
    );
    assert_eq!(value, Ok(303_000_000));
    let price = |supply: u64| {
        get_lp_token_price(
            &GetLpTokenPrice {
                pool: pool_of(1),
                lp_token_supply: supply,
                remaining_accounts: vec![listed(&a)],
            },
            &GetLpTokenPriceParams {},
            NOW,
        )
    };
    assert_eq!(price(0), Ok(0));
    assert_eq!(price(303_000_000), Ok(1_000_000));
    assert_eq!(price(200_000_000), Ok(1_515_000));
    assert_eq!(price(1), Ok(303_000_000_000_000));
}

#[test]
fn custom_oracle_price_is_set_once_enough_have_signed() {
    let mut accounts = SetCustomOraclePrice {
        admin: [1; 32],
        multisig: Multisig::new(vec![[1; 32], [2; 32]], 2).unwrap(),
        oracle_account: CustomOracle::default(),
    };
    let params = SetCustomOraclePriceParams {
        price: 5,
        expo: -2,
        conf: 1,
        ema: 6,
        publish_time: NOW,
        params_hash: 99,
    };
    assert_eq!(set_custom_oracle_price(&mut accounts, &params), Ok(1));
    assert_eq!(accounts.oracle_account, CustomOracle::default());
    accounts.admin = [2; 32];
    assert_eq!(set_custom_oracle_price(&mut accounts, &params), Ok(0));
    assert_eq!(
        accounts.oracle_account,
        CustomOracle { price: 5, expo: -2, conf: 1, ema: 6, publish_time: NOW }
    );
    accounts.admin = [3; 32];
    assert_eq!(
        set_custom_oracle_price(&mut accounts, &params),
        Err(PerpetualsError::UnauthorizedSigner)
    );
}

#[test]
fn redemption_empties_reserves_supply_and_pool_value() {
    let mut c = custody(9, false);
    c.assets = Assets { collateral: 0, owned: 10_000_000_000, locked: 1_000_000_000 };
    c.fees = Fees { remove_liquidity: 100, ..Fees::default() };
    let a = priced(1, c, 100_000_000, 101_000_000);
    let mut accounts = RemoveLiquidity {
        pool: pool_of(1),
        custody: a,
        lp_token_supply: 2_000_000_000,
        remaining_accounts: vec![listed(&a)],
    };
    let paid = remove_liquidity(&mut accounts, &RemoveLiquidityParams { lp_amount_in: 200_000_000 }, NOW);
    assert_eq!(paid, Ok(AmountAndFee { amount: 980_198_019, fee: 9_900_990 }));
    assert_eq!(accounts.custody.custody.assets.owned, 9_019_801_981);
    assert_eq!(accounts.lp_token_supply, 1_800_000_000);
    // 9.019801981 tokens at the average of 101
    assert_eq!(accounts.pool.aum_usd, 911_000_000);
    assert_eq!(accounts.remaining_accounts[0].custody, accounts.custody.custody);
}

#[test]
fn redemption_takes_only_what_is_free_and_in_supply() {
    let mut c = custody(9, false);
    c.assets = Assets { collateral: 0, owned: 10_000_000_000, locked: 9_500_000_000 };
    let a = priced(1, c, 100_000_000, 100_000_000);
    let mut accounts = RemoveLiquidity {
        pool: pool_of(1),
        custody: a,
        lp_token_supply: 1_000,
        remaining_accounts: vec![listed(&a)],
    };
    let before = accounts.pool.clone();
    assert_eq!(
        remove_liquidity(&mut accounts, &RemoveLiquidityParams { lp_amount_in: 100 }, NOW),
        Err(PerpetualsError::InsufficientPoolLiquidity)
    );
    assert_eq!(
        remove_liquidity(&mut accounts, &RemoveLiquidityParams { lp_amount_in: 0 }, NOW),
        Err(PerpetualsError::InvalidArgument)
    );
    assert_eq!(accounts.pool, before);
    assert_eq!(accounts.custody, a);
    assert_eq!(accounts.lp_token_supply, 1_000);
    assert_eq!(
        remove_liquidity(&mut accounts, &RemoveLiquidityParams { lp_amount_in: 50 }, NOW),
        Ok(AmountAndFee { amount: 500_000_000, fee: 0 })
    );
    let mut all = RemoveLiquidity {
        pool: pool_of(1),
        custody: priced(1, custody(9, false), 100_000_000, 100_000_000),
        lp_token_supply: 10,
        remaining_accounts: vec![listed(&priced(1, custody(9, false), 100_000_000, 100_000_000))],
    };
    assert_eq!(
        remove_liquidity(&mut all, &RemoveLiquidityParams { lp_amount_in: 11 }, NOW),
        Err(PerpetualsError::InsufficientFunds)
    );
}

#[test]
fn deposit_then_redemption_returns_no_more_than_was_added() {
    let mut c = custody(9, false);
    c.assets.owned = 7_000_000_000;
    let a = priced(1, c, 100_000_000, 101_000_000);
    let amount_in = 1_234_567_891;
    let mut add = AddLiquidity {
        pool: pool_of(1),
        custody: a,
        lp_token_supply: 600_000_000,
        remaining_accounts: vec![listed(&a)],
    };
    let minted = add_liquidity(&mut add, &AddLiquidityParams { amount_in }, NOW).unwrap();
    let mut remove = RemoveLiquidity {
        pool: add.pool,
        custody: add.custody,
        lp_token_supply: add.lp_token_supply,
        remaining_accounts: add.remaining_accounts,
    };
    let paid = remove_liquidity(
        &mut remove,
        &RemoveLiquidityParams { lp_amount_in: minted.amount },
        NOW,
    )
    .unwrap();
    assert!(paid.amount <= amount_in);
    assert_eq!(remove.lp_token_supply, 600_000_000);
    assert!(remove.custody.custody.assets.owned >= 7_000_000_000);
}

fn swap_accounts() -> Swap {
    let mut a = custody(6, false);
    a.assets.owned = usd(10);
    a.fees.swap_in = 10;
    let mut b = custody(6, true);
    b.assets = Assets { collateral: 0, owned: usd(200_000), locked: usd(50_000) };
    b.fees.stable_swap_out = 5;
    Swap {
        pool: Pool { aum_usd: usd(2_000) as u128, ..pool_of(2) },
        receiving_custody: priced(1, a, 100_000_000, 101_000_000),
        dispensing_custody: priced(2, b, 1_000_000, 1_000_000),
    }
}

#[test]
fn swap_moves_reserves_between_the_custodies() {
    let mut accounts = swap_accounts();
    let done = swap(&mut accounts, &SwapParams { amount_in: 1_000_000_000 }, NOW);
    assert_eq!(
        done,
        Ok(SwapAmountAndFees { amount_out: 101_000_000_000, fee_in: 1_000_000, fee_out: 50_500_000 })
    );
    assert_eq!(accounts.receiving_custody.custody.assets.owned, usd(10) + 1_000_000_000);
    assert_eq!(
        accounts.dispensing_custody.custody.assets.owned,
        usd(200_000) - (101_000_000_000 - 50_500_000)
    );
    assert_eq!(accounts.dispensing_custody.custody.borrow_rate_state.last_update, NOW);
    // 50000 of 200000 locked: 2500 bps, a quarter of the way up the first slope
    assert_eq!(accounts.dispensing_custody.custody.borrow_rate_state.current_rate, 3);
}

#[test]
fn swap_fails_whole() {
    let mut accounts = swap_accounts();
    accounts.dispensing_custody.custody.assets.locked = usd(150_000);
    let before_in = accounts.receiving_custody;
    let before_out = accounts.dispensing_custody;
    assert_eq!(
        swap(&mut accounts, &SwapParams { amount_in: 1_000_000_000 }, NOW),
        Err(PerpetualsError::InsufficientPoolLiquidity)
    );
    assert_eq!(accounts.receiving_custody, before_in);
    assert_eq!(accounts.dispensing_custody, before_out);
    assert_eq!(
        swap(&mut accounts, &SwapParams { amount_in: 0 }, NOW),
        Err(PerpetualsError::InvalidArgument)
    );
}

fn held_long() -> ChangeCollateral {
    let mut c = custody(9, false);
    c.pricing.use_ema = false;
    let a = priced(1, c, 100_000_000, 100_000_000);
    ChangeCollateral {
        pool: pool_of(1),
        position: Position {
            side: Side::Long,
            price: 100_000_000_000,
            size_usd: usd(1_000),
            collateral_usd: usd(200),
            collateral_amount: 2_000_000_000,
            ..Position::default()
        },
        custody: a,
        collateral_custody: a,
    }
}

#[test]
fn collateral_moves_within_the_limits() {
    let accounts = held_long();
    let more = add_collateral(&accounts, &AddCollateralParams { collateral: 1_000_000_000 }, NOW).unwrap();
    assert_eq!(more.collateral_usd, usd(300));
    assert_eq!(more.collateral_amount, 3_000_000_000);
    assert_eq!(more.update_time, NOW);
    // leverage 10 is the bound, and the margin must stay above 100
    let less = remove_collateral(&accounts, &RemoveCollateralParams { collateral: 990_000_000 }, NOW).unwrap();
    assert_eq!(less.collateral_usd, usd(101));
    assert_eq!(
        remove_collateral(&accounts, &RemoveCollateralParams { collateral: 1_000_000_000 }, NOW),
        Err(PerpetualsError::MaxLeverageExceeded)
    );
    assert_eq!(
        remove_collateral(&accounts, &RemoveCollateralParams { collateral: 2_000_000_000 }, NOW),
        Err(PerpetualsError::InsufficientFunds)
    );
    assert_eq!(
        add_collateral(&accounts, &AddCollateralParams { collateral: 0 }, NOW),
        Err(PerpetualsError::InvalidArgument)
    );
}

#[test]
fn closing_settles_at_the_exit_price() {
    let held = held_long();
    let mut c = held.custody.custody;
    c.fees.close_position = 10;
    let at = |spot: u64| {
        let a = priced(1, c, spot, spot);
        close_position(
            &ClosePosition { pool: pool_of(1), position: held.position, custody: a, collateral_custody: a },
            &ClosePositionParams {},
            NOW,
        )
    };
    assert_eq!(at(110_000_000), Ok(Settlement { profit: usd(99), loss: 0, fee: 9_090_909 }));
    assert_eq!(at(100_000_000), Ok(Settlement { profit: 0, loss: usd(1), fee: 10_000_000 }));
    assert_eq!(at(80_000_000), Ok(Settlement { profit: 0, loss: usd(201), fee: 12_500_000 }));
}
