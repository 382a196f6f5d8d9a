use perpetuals::custody::{
    Assets, BorrowRateParams, Custody, DeprecatedCustody, Fees, PricingParams,
};
use perpetuals::error::PerpetualsError;
use perpetuals::gateway::{CustomOracle, OracleAccount, OracleParams, OracleType};
use perpetuals::instructions::{
    add_custody_init, adjust_collateral, get_add_liquidity_amount_and_fee, get_entry_price_and_fee,
    get_exit_price_and_fee, get_liquidation_price, get_liquidation_state, get_oracle_price,
    get_pnl, get_remove_liquidity_amount_and_fee, get_settled_fee, get_swap_amount_and_fees,
    update_pool_aum, upgrade_custody, AddCustodyInit, AddCustodyInitParams, AmountAndFee,
    GetAddLiquidityAmountAndFee, GetAddLiquidityAmountAndFeeParams, GetEntryPriceAndFee,
    GetEntryPriceAndFeeParams, GetExitPriceAndFee, GetExitPriceAndFeeParams, GetLiquidationPrice,
    GetLiquidationPriceParams, GetLiquidationState, GetLiquidationStateParams, GetOraclePrice,
    GetOraclePriceParams, GetPnl, GetPnlParams, GetRemoveLiquidityAmountAndFee,
    GetRemoveLiquidityAmountAndFeeParams, GetSwapAmountAndFees, GetSwapAmountAndFeesParams,
    NewPositionPricesAndFee, PriceAndFee, PricedCustody, ProfitAndLoss, SwapAmountAndFees,
    UpdatePoolAum, UpdatePoolAumParams, UpgradeCustody, UpgradeCustodyParams,
};
use perpetuals::multisig::Multisig;
use perpetuals::oracle::OraclePrice;
use perpetuals::pool::{CustodyAccount, Pool, TokenRatios};
use perpetuals::position::{Position, Side};

const NOW: i64 = 5_000;

fn usd(whole: u64) -> u64 {
    whole * 1_000_000
}

fn base_custody(decimals: u8, is_stable: bool) -> Custody {
    Custody {
        decimals,
        is_stable,
        oracle: OracleParams {
            oracle_type: OracleType::Custom,
            max_price_error: 100,
            max_price_age_sec: 300,
            ..OracleParams::default()
        },
        pricing: PricingParams {
            use_ema: true,
            max_initial_leverage: 100_000,
            max_leverage: 100_000,
            max_loss: 9_000,
            max_payoff_mult: 10_000,
            ..PricingParams::default()
        },
        borrow_rate: BorrowRateParams { optimal_utilization: 8_000, ..BorrowRateParams::default() },
        ..Custody::default()
    }
}

fn priced(key: u8, custody: Custody, spot: u64, ema: u64, publish_time: i64) -> PricedCustody {
    PricedCustody {
        key: [key; 32],
        custody,
        oracle_account: OracleAccount::Custom(CustomOracle {
            price: spot,
            expo: -6,
            conf: 0,
            ema,
            publish_time,
        }),
        twap_account: None,
    }
}

fn listed(p: &PricedCustody) -> CustodyAccount {
    CustodyAccount {
        key: p.key,
        custody: p.custody,
        oracle_account: p.oracle_account,
        twap_account: p.twap_account,
    }
}

fn one_custody_pool() -> Pool {
    Pool {
        custodies: vec![[1; 32]],
        ratios: vec![TokenRatios { target: 10_000, min: 0, max: 10_000 }],
        ..Pool::default()
    }
}

#[test]
fn bootstrap_deposit_mints_one_share_per_usd_unit() {
    let usdc = priced(1, base_custody(6, true), 1_000_000, 1_000_000, NOW);
    let accounts = GetAddLiquidityAmountAndFee {
        pool: one_custody_pool(),
        custody: usdc,
        lp_token_supply: 0,
        remaining_accounts: vec![listed(&usdc)],
    };
    let params = GetAddLiquidityAmountAndFeeParams { amount_in: 1_000_000_000 };
    assert_eq!(
        get_add_liquidity_amount_and_fee(&accounts, &params, NOW),
        Ok(AmountAndFee { amount: 1_000_000_000, fee: 0 })
    );
    // with the deposit in its reserves the pool is worth what was added
    let mut funded = usdc;
    funded.custody.assets.owned = 1_000_000_000;
    let mut update = UpdatePoolAum { pool: one_custody_pool(), remaining_accounts: vec![listed(&funded)] };
    assert_eq!(update_pool_aum(&mut update, &UpdatePoolAumParams {}, NOW), Ok(1_000_000_000));
    assert_eq!(update.pool.aum_usd, 1_000_000_000);
}

#[test]
fn deposit_is_valued_low_against_a_pool_valued_high() {
    let mut c = base_custody(9, false);
    c.assets = Assets { collateral: 0, owned: 10_000_000_000, locked: 0 };
    c.fees = Fees { add_liquidity: 100, ..Fees::default() };
    let a = priced(1, c, 100_000_000, 101_000_000, NOW);
    let mut pool = one_custody_pool();
    pool.aum_usd = usd(1_000) as u128;
    let accounts = GetAddLiquidityAmountAndFee {
        pool,
        custody: a,
        lp_token_supply: 2_020_000_000,
        remaining_accounts: vec![listed(&a)],
    };
    // fee 1% of 1 token; 0.99 tokens at 100 are 99 USD of a pool worth 1010 with 2020 shares
    let params = GetAddLiquidityAmountAndFeeParams { amount_in: 1_000_000_000 };
    assert_eq!(
        get_add_liquidity_amount_and_fee(&accounts, &params, NOW),
        Ok(AmountAndFee { amount: 198_000_000, fee: 10_000_000 })
    );
    assert_eq!(
        get_add_liquidity_amount_and_fee(&accounts, &GetAddLiquidityAmountAndFeeParams { amount_in: 0 }, NOW),
        Err(PerpetualsError::InvalidArgument)
    );
    let stranger = GetAddLiquidityAmountAndFee { custody: PricedCustody { key: [9; 32], ..a }, ..accounts };
    assert_eq!(
        get_add_liquidity_amount_and_fee(&stranger, &params, NOW),
        Err(PerpetualsError::UnknownToken)
    );
}

#[test]
fn redemption_is_valued_low_and_paid_at_the_high_price() {
    let mut c = base_custody(9, false);
    c.assets = Assets { collateral: 0, owned: 10_000_000_000, locked: 0 };
    c.fees = Fees { remove_liquidity: 100, ..Fees::default() };
    let a = priced(1, c, 100_000_000, 101_000_000, NOW);
    let mut pool = one_custody_pool();
    pool.aum_usd = usd(1_000) as u128;
    let accounts = GetRemoveLiquidityAmountAndFee {
        pool,
        custody: a,
        lp_token_supply: 2_000_000_000,
        remaining_accounts: vec![listed(&a)],
    };
    // 10% of the shares redeem 100 USD of 1000, which is 100/101 tokens, less 1%
    let params = GetRemoveLiquidityAmountAndFeeParams { lp_amount_in: 200_000_000 };
    assert_eq!(
        get_remove_liquidity_amount_and_fee(&accounts, &params, NOW),
        Ok(AmountAndFee { amount: 980_198_019, fee: 9_900_990 })
    );
    assert_eq!(
        get_remove_liquidity_amount_and_fee(
            &accounts,
            &GetRemoveLiquidityAmountAndFeeParams { lp_amount_in: 0 },
            NOW
        ),
        Err(PerpetualsError::InvalidArgument)
    );
    let unissued = GetRemoveLiquidityAmountAndFee { lp_token_supply: 0, ..accounts };
    assert_eq!(
        get_remove_liquidity_amount_and_fee(&unissued, &params, NOW),
        Err(PerpetualsError::MathOverflow)
    );
}

#[test]
fn adding_and_redeeming_at_once_returns_no_more() {
    let mut c = base_custody(9, false);
    c.assets = Assets { collateral: 0, owned: 7_000_000_000, locked: 0 };
    let before = priced(1, c, 100_000_000, 101_000_000, NOW);
    let supply = 600_000_000;
    let amount_in = 1_234_567_891;
    let add = GetAddLiquidityAmountAndFee {
        pool: one_custody_pool(),
        custody: before,
        lp_token_supply: supply,
        remaining_accounts: vec![listed(&before)],
    };
    let minted = get_add_liquidity_amount_and_fee(
        &add,
        &GetAddLiquidityAmountAndFeeParams { amount_in },
        NOW,
    )
    .unwrap();
    assert_eq!(minted.fee, 0);
    let mut after = before;
    after.custody.assets.owned += amount_in;
    let remove = GetRemoveLiquidityAmountAndFee {
        pool: one_custody_pool(),
        custody: after,
        lp_token_supply: supply + minted.amount,
        remaining_accounts: vec![listed(&after)],
    };
    let paid = get_remove_liquidity_amount_and_fee(
        &remove,
        &GetRemoveLiquidityAmountAndFeeParams { lp_amount_in: minted.amount },
        NOW,
    )
    .unwrap();
    assert!(paid.amount <= amount_in);
}

fn swap_accounts() -> GetSwapAmountAndFees {
    let mut a = base_custody(6, false);
    a.assets.owned = usd(10);
    let mut b = base_custody(6, true);
    b.assets.owned = usd(1_000_000);
    GetSwapAmountAndFees {
        pool: Pool {
            custodies: vec![[1; 32], [2; 32]],
            ratios: vec![TokenRatios { target: 5_000, min: 0, max: 10_000 }; 2],
            aum_usd: usd(2_000) as u128,
            ..Pool::default()
        },
        receiving_custody: priced(1, a, 100_000_000, 101_000_000, NOW),
        dispensing_custody: priced(2, b, 1_000_000, 1_000_000, NOW),
    }
}

#[test]
fn swap_without_fees_pays_the_gross_amount() {
    let accounts = swap_accounts();
    let params = GetSwapAmountAndFeesParams { amount_in: 1_000_000_000 };
    assert_eq!(
        get_swap_amount_and_fees(&accounts, &params, NOW),
        Ok(SwapAmountAndFees { amount_out: 101_000_000_000, fee_in: 0, fee_out: 0 })
    );
}

#[test]
fn swap_charges_both_sides_and_refuses_bad_requests() {
    let mut accounts = swap_accounts();
    accounts.receiving_custody.custody.fees.swap_in = 10;
    accounts.dispensing_custody.custody.fees.stable_swap_out = 5;
    let params = GetSwapAmountAndFeesParams { amount_in: 1_000_000_000 };
    assert_eq!(
        get_swap_amount_and_fees(&accounts, &params, NOW),
        Ok(SwapAmountAndFees { amount_out: 101_000_000_000, fee_in: 1_000_000, fee_out: 50_500_000 })
    );
    assert_eq!(
        get_swap_amount_and_fees(&accounts, &GetSwapAmountAndFeesParams { amount_in: 0 }, NOW),
        Err(PerpetualsError::InvalidArgument)
    );
    let same = GetSwapAmountAndFees {
        pool: accounts.pool.clone(),
        receiving_custody: accounts.receiving_custody,
        dispensing_custody: accounts.receiving_custody,
    };
    assert_eq!(get_swap_amount_and_fees(&same, &params, NOW), Err(PerpetualsError::InvalidArgument));
    let mut foreign = swap_accounts();
    foreign.dispensing_custody.key = [7; 32];
    assert_eq!(get_swap_amount_and_fees(&foreign, &params, NOW), Err(PerpetualsError::UnknownToken));
}

fn trading_custody() -> Custody {
    let mut c = base_custody(9, false);
    c.pricing.trade_spread_long = 10;
    c.pricing.trade_spread_short = 10;
    c.fees.open_position = 10;
    c.fees.close_position = 10;
    c
}

#[test]
fn entry_quote_for_a_long() {
    let a = priced(1, trading_custody(), 100_000_000, 99_000_000, NOW);
    let accounts = GetEntryPriceAndFee { pool: one_custody_pool(), custody: a, collateral_custody: a };
    let params = GetEntryPriceAndFeeParams {
        collateral: 1_000_000_000,
        size: 10_000_000_000,
        side: Side::Long,
    };
    assert_eq!(
        get_entry_price_and_fee(&accounts, &params, NOW),
        Ok(NewPositionPricesAndFee {
            entry_price: 100_100_000_000,
            liquidation_price: 100_310_100_000,
            fee: 10_000_000,
        })
    );
}

#[test]
fn entry_quote_for_a_short_settles_in_collateral() {
    let a = priced(1, trading_custody(), 100_000_000, 99_000_000, NOW);
    let usdc = priced(2, base_custody(6, true), 1_000_000, 1_000_000, NOW);
    let accounts = GetEntryPriceAndFee { pool: one_custody_pool(), custody: a, collateral_custody: usdc };
    let params = GetEntryPriceAndFeeParams {
        collateral: 100_000_000,
        size: 10_000_000_000,
        side: Side::Short,
    };
    assert_eq!(
        get_entry_price_and_fee(&accounts, &params, NOW),
        Ok(NewPositionPricesAndFee {
            entry_price: 99_900_000_000,
            liquidation_price: 99_810_100_000,
            fee: 990_000,
        })
    );
}

#[test]
fn entry_quote_refuses_empty_requests() {
    let a = priced(1, trading_custody(), 100_000_000, 99_000_000, NOW);
    let accounts = GetEntryPriceAndFee { pool: one_custody_pool(), custody: a, collateral_custody: a };
    let good = GetEntryPriceAndFeeParams { collateral: 1, size: 1, side: Side::Long };
    for bad in [
        GetEntryPriceAndFeeParams { collateral: 0, ..good },
        GetEntryPriceAndFeeParams { size: 0, ..good },
        GetEntryPriceAndFeeParams { side: Side::Unset, ..good },
    ] {
        assert_eq!(
            get_entry_price_and_fee(&accounts, &bad, NOW),
            Err(PerpetualsError::InvalidArgument)
        );
    }
}

fn open_long() -> Position {
    Position {
        side: Side::Long,
        price: 100_000_000_000,
        size_usd: usd(1_000),
        collateral_usd: usd(200),
        collateral_amount: 2_000_000_000,
        ..Position::default()
    }
}

#[test]
fn exit_quote() {
    let a = priced(1, trading_custody(), 100_000_000, 99_000_000, NOW);
    let accounts = GetExitPriceAndFee {
        pool: one_custody_pool(),
        position: open_long(),
        custody: a,
        collateral_custody: a,
    };
    // 1000 USD at the average of 99 are 10.101010101 tokens; 10 bps of them
    assert_eq!(
        get_exit_price_and_fee(&accounts, &GetExitPriceAndFeeParams {}, NOW),
        Ok(PriceAndFee { price: 98_901_000_000, fee: 10_101_010 })
    );
}

#[test]
fn settled_fee_converts_for_shorts_and_virtual_custodies() {
    let a = trading_custody();
    let usdc = base_custody(6, true);
    let pa = OraclePrice::new(99_000_000, -6);
    let pu = OraclePrice::new(1_000_000, -6);
    assert_eq!(get_settled_fee(Side::Long, 10_000_000, &a, &pa, &usdc, &pu), Ok(10_000_000));
    assert_eq!(get_settled_fee(Side::Short, 10_000_000, &a, &pa, &usdc, &pu), Ok(990_000));
    let mut v = a;
    v.is_virtual = true;
    assert_eq!(get_settled_fee(Side::Long, 10_000_000, &v, &pa, &usdc, &pu), Ok(990_000));
}

#[test]
fn pnl_query() {
    let mut c = trading_custody();
    c.pricing.trade_spread_long = 0;
    let a = priced(1, c, 110_000_000, 110_000_000, NOW);
    let accounts = GetPnl { pool: one_custody_pool(), position: open_long(), custody: a, collateral_custody: a };
    assert_eq!(
        get_pnl(&accounts, &GetPnlParams {}, NOW),
        Ok(ProfitAndLoss { profit: usd(99), loss: 0 })
    );
    let down = priced(1, c, 95_000_000, 95_000_000, NOW);
    let accounts = GetPnl { custody: down, collateral_custody: down, ..accounts };
    assert_eq!(
        get_pnl(&accounts, &GetPnlParams {}, NOW),
        Ok(ProfitAndLoss { profit: 0, loss: usd(51) })
    );
}

#[test]
fn liquidation_state_turns_at_ninety() {
    let mut c = base_custody(9, false);
    c.pricing.use_ema = false;
    let state = |spot: u64| {
        let a = priced(1, c, spot, spot, NOW);
        let accounts = GetLiquidationState {
            pool: one_custody_pool(),
            position: open_long(),
            custody: a,
            collateral_custody: a,
        };
        get_liquidation_state(&accounts, &GetLiquidationStateParams {}, NOW)
    };
    assert_eq!(state(90_010_000), Ok(0));
    assert_eq!(state(90_000_000), Ok(1));
    assert_eq!(state(50_000_000), Ok(1));
    assert_eq!(state(150_000_000), Ok(0));
}

#[test]
fn liquidation_price_after_a_change_of_collateral() {
    let c = base_custody(9, false);
    let a = priced(1, c, 100_000_000, 100_000_000, NOW);
    let accounts = GetLiquidationPrice {
        pool: one_custody_pool(),
        position: open_long(),
        custody: a,
        collateral_custody: a,
    };
    let quote = |add: u64, remove: u64| {
        get_liquidation_price(
            &accounts,
            &GetLiquidationPriceParams { add_collateral: add, remove_collateral: remove },
            NOW,
        )
    };
    assert_eq!(quote(0, 0), Ok(90_000_000_000));
    // one token more is 100 USD more buffer
    assert_eq!(quote(1_000_000_000, 0), Ok(80_000_000_000));
    assert_eq!(quote(0, 500_000_000), Ok(95_000_000_000));
    assert_eq!(quote(1_000_000_000, 500_000_000), Ok(85_000_000_000));
    assert_eq!(quote(0, 2_000_000_000), Err(PerpetualsError::InsufficientFunds));
    assert_eq!(quote(u64::MAX, 0), Err(PerpetualsError::MathOverflow));
}

#[test]
fn adjust_collateral_keeps_both_views_in_step() {
    let position = open_long();
    let p = OraclePrice::new(100_000_000, -6);
    let more = adjust_collateral(&position, &p, 9, 1_000_000_000, 0, 77).unwrap();
    assert_eq!(more.collateral_usd, usd(300));
    assert_eq!(more.collateral_amount, 3_000_000_000);
    assert_eq!(more.update_time, 77);
    assert_eq!(more.size_usd, position.size_usd);
    let less = adjust_collateral(&position, &p, 9, 0, 1_999_999_999, 78).unwrap();
    assert_eq!(less.collateral_usd, 1);
    assert_eq!(less.collateral_amount, 1);
    assert_eq!(
        adjust_collateral(&position, &p, 9, 0, 2_000_000_000, 78),
        Err(PerpetualsError::InsufficientFunds)
    );
}

#[test]
fn oracle_price_query_and_stale_feeds() {
    let a = priced(1, base_custody(9, false), 100_250_000, 99_000_000, NOW - 301);
    let accounts = GetOraclePrice { pool: one_custody_pool(), custody: a };
    let spot = GetOraclePriceParams { ema: false, feed_id: [0; 32] };
    let ema = GetOraclePriceParams { ema: true, feed_id: [0; 32] };
    assert_eq!(get_oracle_price(&accounts, &spot, NOW - 1), Ok(100_250_000_000));
    assert_eq!(get_oracle_price(&accounts, &ema, NOW - 1), Ok(99_000_000_000));
    assert_eq!(get_oracle_price(&accounts, &spot, NOW), Err(PerpetualsError::StaleOraclePrice));
    // every query that reads the feed fails in the same way
    let pnl = GetPnl { pool: one_custody_pool(), position: open_long(), custody: a, collateral_custody: a };
    assert_eq!(get_pnl(&pnl, &GetPnlParams {}, NOW), Err(PerpetualsError::StaleOraclePrice));
    let add = GetAddLiquidityAmountAndFee {
        pool: one_custody_pool(),
        custody: a,
        lp_token_supply: 0,
        remaining_accounts: vec![listed(&a)],
    };
    assert_eq!(
        get_add_liquidity_amount_and_fee(&add, &GetAddLiquidityAmountAndFeeParams { amount_in: 5 }, NOW),
        Err(PerpetualsError::StaleOraclePrice)
    );
    let mut update = UpdatePoolAum { pool: one_custody_pool(), remaining_accounts: vec![listed(&a)] };
    update.pool.aum_usd = 42;
    assert_eq!(
        update_pool_aum(&mut update, &UpdatePoolAumParams {}, NOW),
        Err(PerpetualsError::StaleOraclePrice)
    );
    assert_eq!(update.pool.aum_usd, 42);
}

fn guard() -> Multisig {
    Multisig::new(vec![[1; 32], [2; 32]], 2).unwrap()
}

#[test]
fn custody_is_bound_once_enough_have_signed() {
    let mut accounts = AddCustodyInit {
        admin: [1; 32],
        multisig: guard(),
        pool_key: [8; 32],
        custody: base_custody(9, false),
        custody_token_mint: [9; 32],
        custody_bump: 253,
    };
    let params = AddCustodyInitParams { params_hash: 1 };
    assert_eq!(add_custody_init(&mut accounts, &params), Ok(1));
    assert_eq!(accounts.custody.pool, [0; 32]);
    accounts.admin = [2; 32];
    assert_eq!(add_custody_init(&mut accounts, &params), Ok(0));
    assert_eq!(accounts.custody.pool, [8; 32]);
    assert_eq!(accounts.custody.mint, [9; 32]);
    assert_eq!(accounts.custody.bump, 253);
    accounts.admin = [3; 32];
    assert_eq!(add_custody_init(&mut accounts, &params), Err(PerpetualsError::UnauthorizedSigner));
    let mut unsound = AddCustodyInit {
        admin: [1; 32],
        multisig: Multisig::new(vec![[1; 32]], 1).unwrap(),
        pool_key: [8; 32],
        custody: Custody::default(),
        custody_token_mint: [9; 32],
        custody_bump: 253,
    };
    assert_eq!(add_custody_init(&mut unsound, &params), Err(PerpetualsError::InvalidCustodyConfig));
}

#[test]
fn custody_is_upgraded_once_enough_have_signed() {
    let sound = base_custody(9, true);
    let old = DeprecatedCustody {
        pool: [8; 32],
        decimals: sound.decimals,
        is_stable: true,
        oracle: sound.oracle,
        pricing: sound.pricing,
        borrow_rate: sound.borrow_rate,
        ..DeprecatedCustody::default()
    };
    let mut accounts = UpgradeCustody { admin: [2; 32], multisig: guard(), custody: old };
    let params = UpgradeCustodyParams { params_hash: 3 };
    assert_eq!(upgrade_custody(&mut accounts, &params), Ok((1, None)));
    accounts.admin = [1; 32];
    let done = upgrade_custody(&mut accounts, &params).unwrap();
    assert_eq!(done.0, 0);
    let new = done.1.unwrap();
    assert_eq!(new.pool, [8; 32]);
    assert!(new.is_stable);
    assert!(!new.is_virtual);
    assert_eq!(accounts.multisig.pending, None);
    let mut unsound = UpgradeCustody {
        admin: [1; 32],
        multisig: Multisig::new(vec![[1; 32]], 1).unwrap(),
        custody: DeprecatedCustody::default(),
    };
    assert_eq!(upgrade_custody(&mut unsound, &params), Err(PerpetualsError::InvalidCustodyConfig));
}
