use perpetuals::custody::{Assets, BorrowRateState, Custody, Fees, PricingParams};
use perpetuals::error::PerpetualsError;
use perpetuals::gateway::{CustomOracle, OracleAccount, OracleParams, OracleType};
use perpetuals::oracle::OraclePrice;
use perpetuals::pool::{
    check_margin, checked_proportion, get_band_distance, get_spread_price, get_weight_bps,
    settle_position, AumCalcMode, CustodyAccount, Pool, TokenRatios,
};
use perpetuals::position::{Position, Side};

const NOW: i64 = 1_000;

fn usd(whole: u64) -> u64 {
    whole * 1_000_000
}

fn price(whole: u64) -> OraclePrice {
    OraclePrice::new(whole * 1_000_000, -6)
}

fn custody(decimals: u8) -> Custody {
    Custody {
        decimals,
        oracle: OracleParams {
            oracle_type: OracleType::Custom,
            max_price_error: 100,
            max_price_age_sec: 300,
            ..OracleParams::default()
        },
        pricing: PricingParams {
            use_ema: true,
            max_initial_leverage: 100_000,
            max_leverage: 100_000,
            max_loss: 9_000,
            max_payoff_mult: 10_000,
            ..PricingParams::default()
        },
        ..Custody::default()
    }
}

fn account(key: u8, custody: Custody, spot: u64, ema: u64) -> CustodyAccount {
    CustodyAccount {
        key: [key; 32],
        custody,
        oracle_account: OracleAccount::Custom(CustomOracle {
            price: spot,
            expo: -6,
            conf: 0,
            ema,
            publish_time: NOW,
        }),
        twap_account: None,
    }
}

fn long(entry: u64, size_usd: u64, collateral_usd: u64) -> Position {
    Position {
        side: Side::Long,
        price: entry,
        size_usd,
        collateral_usd,
        ..Position::default()
    }
}

#[test]
fn token_id_is_the_place_in_the_pool() {
    let pool = Pool { custodies: vec![[1; 32], [2; 32], [1; 32]], ..Pool::default() };
    assert_eq!(pool.get_token_id(&[1; 32]), Ok(0));
    assert_eq!(pool.get_token_id(&[2; 32]), Ok(1));
    assert_eq!(pool.get_token_id(&[3; 32]), Err(PerpetualsError::UnknownToken));
}

#[test]
fn fee_amount_rounds_toward_zero() {
    assert_eq!(Pool::get_fee_amount(30, 1_000_000), Ok(3_000));
    assert_eq!(Pool::get_fee_amount(30, 333), Ok(0));
    assert_eq!(Pool::get_fee_amount(30, 334), Ok(1));
    assert_eq!(Pool::get_fee_amount(0, u64::MAX), Ok(0));
    assert_eq!(Pool::get_fee_amount(10_000, u64::MAX), Ok(u64::MAX));
    assert_eq!(Pool::get_fee_amount(10_001, u64::MAX), Err(PerpetualsError::MathOverflow));
    assert_eq!(checked_proportion(u128::MAX, 3, 0), Err(PerpetualsError::MathOverflow));
    assert_eq!(checked_proportion(u128::MAX, 2, u64::MAX), Err(PerpetualsError::MathOverflow));
    assert_eq!(checked_proportion(1 << 100, 1 << 20, 1 << 60), Ok(1 << 60));
}

#[test]
fn open_long_pays_the_spread_upward() {
    let pool = Pool::default();
    let mut c = custody(9);
    c.pricing.trade_spread_long = 10;
    c.pricing.trade_spread_short = 20;
    let spot = price(100);
    let ema = price(99);
    assert_eq!(pool.get_entry_price(&spot, &ema, Side::Long, &c), Ok(100_100_000_000));
    assert_eq!(pool.get_entry_price(&spot, &ema, Side::Short, &c), Ok(99_800_000_000));
    assert_eq!(
        pool.get_entry_price(&spot, &ema, Side::Unset, &c),
        Err(PerpetualsError::InvalidArgument)
    );
}

#[test]
fn exit_takes_the_worse_price_and_pays_the_spread() {
    let pool = Pool::default();
    let mut c = custody(9);
    c.pricing.trade_spread_long = 10;
    c.pricing.trade_spread_short = 20;
    let spot = price(100);
    let ema = price(99);
    assert_eq!(pool.get_exit_price(&spot, &ema, Side::Long, &c), Ok(98_901_000_000));
    assert_eq!(pool.get_exit_price(&spot, &ema, Side::Short, &c), Ok(100_200_000_000));
    assert_eq!(
        pool.get_exit_price(&spot, &ema, Side::Unset, &c),
        Err(PerpetualsError::InvalidArgument)
    );
    let far = OraclePrice::new(1, 20);
    assert_eq!(
        pool.get_exit_price(&spot, &far, Side::Long, &c),
        Err(PerpetualsError::MathOverflow)
    );
}

#[test]
fn spread_price_lands_on_nine_decimals() {
    assert_eq!(get_spread_price(&OraclePrice::new(5, 0), 0, true), Ok(5_000_000_000));
    assert_eq!(get_spread_price(&OraclePrice::new(123_456_789_012, -12), 0, true), Ok(123_456_789));
    assert_eq!(
        get_spread_price(&OraclePrice::new(1_000, -3), 10_010, false),
        Err(PerpetualsError::MathOverflow)
    );
    assert_eq!(get_spread_price(&OraclePrice::new(1_000, -3), 10_000, false), Ok(0));
}

#[test]
fn entry_and_exit_fees_are_rates_on_the_size() {
    let pool = Pool::default();
    let mut c = custody(9);
    c.fees.close_position = 25;
    assert_eq!(pool.get_entry_fee(10, 10_000_000_000, 0, &c), Ok(10_000_000));
    assert_eq!(pool.get_exit_fee(10_000_000_000, &c), Ok(25_000_000));
}

#[test]
fn liquidation_price_of_a_long_at_ninety() {
    let pool = Pool::default();
    let c = custody(9);
    let position = long(100_000_000_000, usd(1_000), usd(200));
    assert_eq!(pool.get_liquidation_price(&position, &price(100), &c, &c, NOW), Ok(90_000_000_000));
    let short = Position { side: Side::Short, ..position };
    assert_eq!(pool.get_liquidation_price(&short, &price(100), &c, &c, NOW), Ok(110_000_000_000));
    let empty = Position { size_usd: 0, ..position };
    assert_eq!(pool.get_liquidation_price(&empty, &price(100), &c, &c, NOW), Ok(0));
    let unset = Position { side: Side::Unset, ..position };
    assert_eq!(
        pool.get_liquidation_price(&unset, &price(100), &c, &c, NOW),
        Err(PerpetualsError::InvalidArgument)
    );
}

#[test]
fn liquidation_price_counts_fee_interest_and_shortfall() {
    let pool = Pool::default();
    let mut c = custody(9);
    c.fees.close_position = 10;
    c.borrow_rate_state = BorrowRateState { current_rate: 2, cumulative_interest: 0, last_update: NOW - 50 };
    // required 100, fee 1, interest 100 * 1000 / 10000 = 10: buffer 200 - 111 = 89
    let position = long(100_000_000_000, usd(1_000), usd(200));
    assert_eq!(pool.get_liquidation_price(&position, &price(100), &c, &c, NOW), Ok(91_100_000_000));
    // collateral 50 is 61 short: the price must first rise by 6.1
    let thin = long(100_000_000_000, usd(1_000), usd(50));
    assert_eq!(pool.get_liquidation_price(&thin, &price(100), &c, &c, NOW), Ok(106_100_000_000));
    // a long with more buffer than size is never liquidated
    let rich = long(100_000_000_000, usd(1_000), usd(2_000));
    assert_eq!(pool.get_liquidation_price(&rich, &price(100), &c, &c, NOW), Ok(0));
}

#[test]
fn leverage_check_fails_at_the_liquidation_price_and_passes_just_above() {
    let pool = Pool::default();
    let c = custody(9);
    let position = long(100_000_000_000, usd(1_000), usd(200));
    let at = OraclePrice::new(90_000_000, -6);
    let above = OraclePrice::new(90_010_000, -6);
    let one = price(1);
    assert_eq!(pool.check_leverage(&position, &at, &at, &c, &one, &one, &c, NOW, false), Ok(false));
    assert_eq!(pool.check_leverage(&position, &above, &above, &c, &one, &one, &c, NOW, false), Ok(true));
    let mut last = false;
    for p in [80_000_000u64, 89_990_000, 90_000_000, 90_010_000, 95_000_000, 120_000_000] {
        let at = OraclePrice::new(p, -6);
        let ok = pool.check_leverage(&position, &at, &at, &c, &one, &one, &c, NOW, false).unwrap();
        assert!(ok || !last);
        last = ok;
    }
    assert!(last);
}

#[test]
fn opening_above_ten_times_is_not_within_the_bound() {
    let c = custody(9);
    // size 1001 on collateral 99.9 is 10.02 times
    let position = long(100_100_000_000, 1_001_000_000, 99_900_000);
    assert!(!check_margin(&position, 0, 0, &c, true));
    let covered = long(100_100_000_000, 1_001_000_000, 100_100_001);
    assert!(check_margin(&covered, 0, 0, &c, true));
    let mut lenient = c;
    lenient.pricing.max_leverage = 200_000;
    assert!(!check_margin(&position, 0, 0, &lenient, true));
    assert!(!check_margin(&position, 0, 0, &lenient, false));
    let mut loose = lenient;
    loose.pricing.max_loss = 9_500;
    assert!(check_margin(&position, 0, 0, &loose, false));
    assert!(!check_margin(&position, 0, 99_900_000, &loose, false));
}

#[test]
fn pnl_is_price_move_less_interest_and_fee() {
    let pool = Pool::default();
    let mut c = custody(9);
    c.fees.close_position = 10;
    c.fees.liquidation = 100;
    c.borrow_rate_state = BorrowRateState { current_rate: 2, cumulative_interest: 0, last_update: NOW - 50 };
    let position = long(100_000_000_000, usd(1_000), usd(200));
    let up = price(110);
    let down = price(95);
    assert_eq!(
        pool.get_pnl_usd(&position, &up, &up, &c, &up, &up, &c, NOW, false),
        Ok((usd(89), 0, 9_090_909))
    );
    assert_eq!(
        pool.get_pnl_usd(&position, &up, &up, &c, &up, &up, &c, NOW, true),
        Ok((usd(80), 0, 90_909_090))
    );
    assert_eq!(
        pool.get_pnl_usd(&position, &down, &down, &c, &down, &down, &c, NOW, false),
        Ok((0, usd(61), 10_526_315))
    );
    let short = Position { side: Side::Short, ..position };
    assert_eq!(
        pool.get_pnl_usd(&short, &down, &down, &c, &down, &down, &c, NOW, false),
        Ok((usd(39), 0, 10_526_315))
    );
    // the worse of spot and average decides
    assert_eq!(
        pool.get_pnl_usd(&position, &up, &down, &c, &up, &up, &c, NOW, false),
        Ok((0, usd(61), 9_090_909))
    );
}

#[test]
fn settle_position_names_its_errors() {
    let position = long(100_000_000_000, usd(1_000), usd(200));
    assert_eq!(settle_position(&position, 100_000_000_000, 0, 0), Ok((0, 0)));
    assert_eq!(settle_position(&position, 0, 0, 0), Ok((0, usd(1_000))));
    let unset = Position { side: Side::Unset, ..position };
    assert_eq!(settle_position(&unset, 1, 0, 0), Err(PerpetualsError::InvalidArgument));
    let unpriced = Position { price: 0, ..position };
    assert_eq!(settle_position(&unpriced, 1, 0, 0), Err(PerpetualsError::MathOverflow));
    let huge = Position { side: Side::Short, price: 1, size_usd: u64::MAX, ..position };
    assert_eq!(settle_position(&huge, u64::MAX, 0, 0), Err(PerpetualsError::MathOverflow));
    let carried = Position { unrealized_profit_usd: 7, unrealized_loss_usd: 3, ..position };
    assert_eq!(settle_position(&carried, 100_000_000_000, 1, 1), Ok((2, 0)));
}

#[test]
fn interest_is_the_growth_of_the_index_on_the_size() {
    let pool = Pool::default();
    let mut c = custody(9);
    c.borrow_rate_state = BorrowRateState { current_rate: 3, cumulative_interest: 500, last_update: NOW - 100 };
    let mut position = long(100_000_000_000, usd(1_000), usd(200));
    position.cumulative_interest_snapshot = 200;
    // index 800, growth 600 bps of 1000
    assert_eq!(pool.get_interest_amount_usd(&position, &c, NOW), Ok(usd(60)));
    position.cumulative_interest_snapshot = 801;
    assert_eq!(pool.get_interest_amount_usd(&position, &c, NOW), Err(PerpetualsError::MathOverflow));
}

#[test]
fn swap_values_input_high_and_output_low() {
    let pool = Pool::default();
    let a = custody(6);
    let mut b = custody(6);
    b.is_stable = true;
    let out = pool.get_swap_amount(&price(100), &price(101), &price(1), &price(1), &a, &b, 1_000_000_000);
    assert_eq!(out, Ok(101_000_000_000));
    // a stable output above par is valued at par
    let rich = OraclePrice::new(1_050_000, -6);
    let out = pool.get_swap_amount(&price(100), &price(101), &rich, &rich, &a, &b, 1_000_000_000);
    assert_eq!(out, Ok(101_000_000_000));
    // the reverse direction values the stable input at its higher price
    let out = pool.get_swap_amount(&price(1), &rich, &price(100), &price(101), &b, &a, 1_000_000_000);
    assert_eq!(out, Ok(10_500_000));
}

#[test]
fn weights_and_band_distances() {
    assert_eq!(get_weight_bps(400, 1_000), 4_000);
    assert_eq!(get_weight_bps(400, 0), 0);
    assert_eq!(get_weight_bps(2_000, 1_000), 10_000);
    assert_eq!(get_weight_bps(410, 1_010), 4_059);
    let band = TokenRatios { target: 5_000, min: 4_500, max: 5_500 };
    assert_eq!(get_band_distance(4_000, &band), 500);
    assert_eq!(get_band_distance(4_500, &band), 0);
    assert_eq!(get_band_distance(5_500, &band), 0);
    assert_eq!(get_band_distance(7_000, &band), 1_500);
}

fn weighted_pool() -> (Pool, Custody) {
    let pool = Pool {
        custodies: vec![[1; 32]],
        ratios: vec![TokenRatios { target: 5_000, min: 4_500, max: 5_500 }],
        aum_usd: usd(1_000) as u128,
        ..Pool::default()
    };
    let mut c = custody(6);
    c.assets = Assets { collateral: 0, owned: usd(400), locked: 0 };
    c.fees = Fees { add_liquidity: 100, remove_liquidity: 100, max_deviation: 100, ..Fees::default() };
    (pool, c)
}

#[test]
fn fees_fall_toward_the_band_and_rise_away_from_it() {
    let (pool, c) = weighted_pool();
    let p = price(1);
    // 400/1000 -> 410/1010: the distance falls from 500 to 441
    assert_eq!(pool.get_add_liquidity_fee(0, usd(10), &c, &p), Ok(41_000));
    // 400/1000 -> 600/1200 reaches the band: the whole deviation comes off
    assert_eq!(pool.get_add_liquidity_fee(0, usd(200), &c, &p), Ok(0));
    // 400/1000 -> 1400/2000 overshoots to 7000: the whole deviation is added
    assert_eq!(pool.get_add_liquidity_fee(0, usd(1_000), &c, &p), Ok(usd(20)));
    // 400/1000 -> 300/900 moves further below
    assert_eq!(pool.get_remove_liquidity_fee(0, usd(100), &c, &p), Ok(usd(2)));
    assert_eq!(
        pool.get_remove_liquidity_fee(0, usd(401), &c, &p),
        Err(PerpetualsError::InsufficientPoolLiquidity)
    );
    assert_eq!(pool.get_add_liquidity_fee(1, usd(1), &c, &p), Err(PerpetualsError::UnknownToken));
    let mut flat = c;
    flat.fees.max_deviation = 0;
    assert_eq!(pool.get_add_liquidity_fee(0, usd(1_000), &flat, &p), Ok(usd(10)));
    assert_eq!(pool.get_fee(0, u64::MAX, usd(1_000), 0, &c, &p), Err(PerpetualsError::MathOverflow));
}

#[test]
fn swap_fees_use_the_stable_tiers() {
    let (mut pool, mut a) = weighted_pool();
    pool.custodies.push([2; 32]);
    pool.ratios.push(TokenRatios { target: 5_000, min: 0, max: 10_000 });
    pool.ratios[0] = TokenRatios { target: 5_000, min: 0, max: 10_000 };
    a.fees.swap_in = 10;
    a.fees.stable_swap_in = 1;
    a.fees.swap_out = 20;
    a.fees.stable_swap_out = 2;
    let mut b = a;
    b.is_stable = true;
    let p = price(1);
    assert_eq!(pool.get_swap_fees(0, 1, usd(100), usd(100), &a, &p, &b, &p), Ok((100_000, 20_000)));
    assert_eq!(pool.get_swap_fees(1, 0, usd(100), usd(100), &b, &p, &a, &p), Ok((10_000, 200_000)));
    assert_eq!(
        pool.get_swap_fees(0, 2, usd(100), usd(100), &a, &p, &b, &p),
        Err(PerpetualsError::UnknownToken)
    );
}

#[test]
fn pool_value_by_mode() {
    let mut a = custody(9);
    a.assets.owned = 2_000_000_000;
    let mut b = custody(6);
    b.is_stable = true;
    b.assets.owned = usd(500);
    let mut v = custody(9);
    v.is_virtual = true;
    v.assets.owned = 7_000_000_000;
    let pool = Pool { custodies: vec![[1; 32], [2; 32], [3; 32]], ..Pool::default() };
    let accounts = vec![
        account(1, a, 100_000_000, 101_000_000),
        account(2, b, 1_010_000, 1_020_000),
        CustodyAccount { oracle_account: OracleAccount::Empty, ..account(3, v, 1, 1) },
    ];
    assert_eq!(pool.get_assets_under_management_usd(AumCalcMode::Min, &accounts, NOW), Ok(700_000_000));
    assert_eq!(pool.get_assets_under_management_usd(AumCalcMode::Max, &accounts, NOW), Ok(702_000_000));
    assert_eq!(pool.get_assets_under_management_usd(AumCalcMode::EMA, &accounts, NOW), Ok(702_000_000));
    assert_eq!(Pool::get_custody_value(AumCalcMode::Min, &accounts[1], NOW), Ok(500_000_000));
    let below = account(2, b, 990_000, 1_020_000);
    assert_eq!(Pool::get_custody_value(AumCalcMode::Max, &below, NOW), Ok(495_000_000));
}

#[test]
fn pool_value_refuses_other_custodies_and_stale_prices() {
    let a = custody(9);
    let pool = Pool { custodies: vec![[1; 32], [2; 32]], ..Pool::default() };
    let swapped = vec![account(2, a, 1, 1), account(1, a, 1, 1)];
    assert_eq!(
        pool.get_assets_under_management_usd(AumCalcMode::Min, &swapped, NOW),
        Err(PerpetualsError::InvalidArgument)
    );
    let short = vec![account(1, a, 1, 1)];
    assert_eq!(
        pool.get_assets_under_management_usd(AumCalcMode::Min, &short, NOW),
        Err(PerpetualsError::InvalidArgument)
    );
    let fresh = vec![account(1, a, 1, 1), account(2, a, 1, 1)];
    assert_eq!(pool.get_assets_under_management_usd(AumCalcMode::Min, &fresh, NOW + 300), Ok(0));
    assert_eq!(
        pool.get_assets_under_management_usd(AumCalcMode::Min, &fresh, NOW + 301),
        Err(PerpetualsError::StaleOraclePrice)
    );
    assert_eq!(Pool::default().get_assets_under_management_usd(AumCalcMode::Max, &vec![], NOW), Ok(0));
}

#[test]
fn swap_output_is_worth_no_more_than_its_input() {
    let pool = Pool::default();
    let a = custody(9);
    let mut b = custody(6);
    b.is_stable = true;
    let cases = [
        (OraclePrice::new(33_333_333, -7), OraclePrice::new(34_000_000, -7), 1u64),
        (OraclePrice::new(101_000_000, -6), OraclePrice::new(100_000_000, -6), 999_999_999),
        (OraclePrice::new(7, 0), OraclePrice::new(7, 0), 123_456_789_012),
    ];
    for (spot, ema, amount_in) in cases {
        let out_price = OraclePrice::new(997_003, -6);
        let amount_out =
            pool.get_swap_amount(&spot, &ema, &out_price, &out_price, &a, &b, amount_in).unwrap();
        let price_in = spot.max_with(&ema).unwrap();
        let price_out = out_price.get_min_price(&out_price, true).unwrap();
        let input_usd = price_in.get_asset_amount_usd(amount_in, a.decimals).unwrap();
        let output_usd = price_out.get_asset_amount_usd(amount_out, b.decimals).unwrap();
        assert!(output_usd <= input_usd);
    }
}
