use perpetuals::error::PerpetualsError;
use perpetuals::oracle::OraclePrice;

#[test]
fn test_scale_to_exponent() {
    let price = OraclePrice::new(12300, -3);
    let scaled = price.scale_to_exponent(-6).unwrap();
    assert_eq!(12300000, scaled.price);
    assert_eq!(-6, scaled.exponent);

    let scaled = price.scale_to_exponent(-1).unwrap();
    assert_eq!(123, scaled.price);
    assert_eq!(-1, scaled.exponent);

    let scaled = price.scale_to_exponent(1).unwrap();
    assert_eq!(1, scaled.price);
    assert_eq!(1, scaled.exponent);
}

#[test]
fn scale_to_exponent_rejects_wide_gaps() {
    let price = OraclePrice::new(1, 0);
    assert_eq!(price.scale_to_exponent(20), Err(PerpetualsError::MathOverflow));
    assert_eq!(price.scale_to_exponent(-20), Err(PerpetualsError::MathOverflow));
    assert_eq!(price.scale_to_exponent(-19).unwrap().price, 10_000_000_000_000_000_000);
    assert_eq!(OraclePrice::new(2, 0).scale_to_exponent(-19), Err(PerpetualsError::MathOverflow));
}

#[test]
fn new_from_token_negates_the_decimals() {
    let p = OraclePrice::new_from_token((1_500, 6));
    assert_eq!(p, OraclePrice::new(1_500, -6));
}

#[test]
fn normalize_divides_until_the_mantissa_fits() {
    assert_eq!(OraclePrice::new(268_435_455, -8).normalize(), Ok(OraclePrice::new(268_435_455, -8)));
    assert_eq!(OraclePrice::new(268_435_456, -8).normalize(), Ok(OraclePrice::new(26_843_545, -7)));
    assert_eq!(
        OraclePrice::new(u64::MAX, 0).normalize(),
        Ok(OraclePrice::new(184_467_440, 11))
    );
    assert_eq!(
        OraclePrice::new(268_435_456, i32::MAX).normalize(),
        Err(PerpetualsError::MathOverflow)
    );
}

#[test]
fn checked_div_keeps_nine_digits() {
    let a = OraclePrice::new(3, 0);
    let b = OraclePrice::new(2, 0);
    assert_eq!(a.checked_div(&b), Ok(OraclePrice::new(1_500_000_000, -9)));
    let c = OraclePrice::new(1_000_000_000_000, -6);
    // c normalizes to 100_000_000 * 10^-2
    assert_eq!(c.checked_div(&b), Ok(OraclePrice::new(50_000_000_000_000_000, -11)));
    assert_eq!(a.checked_div(&OraclePrice::new(0, 0)), Err(PerpetualsError::MathOverflow));
    assert_eq!(
        OraclePrice::new(1, i32::MIN).checked_div(&b),
        Err(PerpetualsError::MathOverflow)
    );
}

#[test]
fn checked_mul_multiplies_mantissas_and_adds_exponents() {
    let a = OraclePrice::new(12, -2);
    let b = OraclePrice::new(5, 3);
    assert_eq!(a.checked_mul(&b), Ok(OraclePrice::new(60, 1)));
    assert_eq!(
        OraclePrice::new(u64::MAX, 0).checked_mul(&OraclePrice::new(2, 0)),
        Err(PerpetualsError::MathOverflow)
    );
    assert_eq!(
        OraclePrice::new(1, i32::MAX).checked_mul(&OraclePrice::new(1, 1)),
        Err(PerpetualsError::MathOverflow)
    );
}

#[test]
fn prices_compare_by_value() {
    let a = OraclePrice::new(1_000, -3);
    let b = OraclePrice::new(1, 0);
    let c = OraclePrice::new(1_001, -3);
    assert!(!(a < b));
    assert!(!(a > b));
    assert!(b < c);
    assert!(c > a);
    assert_eq!(a.partial_cmp(&b), Some(std::cmp::Ordering::Equal));
    assert_eq!(a.align(&b), Some((1_000, 1_000)));
    assert_eq!(b.align(&c), Some((1_000, 1_001)));
}

#[test]
fn prices_too_far_apart_are_incomparable() {
    let a = OraclePrice::new(1, 0);
    let b = OraclePrice::new(1, 20);
    assert_eq!(a.partial_cmp(&b), None);
    assert!(!(a < b));
    assert!(!(a > b));
    assert_eq!(a.min_with(&b), Err(PerpetualsError::MathOverflow));
    assert_eq!(a.max_with(&b), Err(PerpetualsError::MathOverflow));
    assert_eq!(a.get_min_price(&b, false), Err(PerpetualsError::MathOverflow));
    let c = OraclePrice::new(u64::MAX, 1);
    assert_eq!(a.partial_cmp(&c), None);
}

#[test]
fn min_and_max_pick_by_value() {
    let spot = OraclePrice::new(100_000, -3);
    let ema = OraclePrice::new(101, 0);
    assert_eq!(spot.min_with(&ema), Ok(spot));
    assert_eq!(spot.max_with(&ema), Ok(ema));
    assert_eq!(ema.min_with(&spot), Ok(spot));
    assert_eq!(spot.get_min_price(&ema, false), Ok(spot));
}

#[test]
fn stable_price_is_capped_at_one() {
    let above = OraclePrice::new(1_010_000, -6);
    let higher = OraclePrice::new(1_020_000, -6);
    assert_eq!(above.get_min_price(&higher, true), Ok(OraclePrice::new(1_000_000, -6)));
    let below = OraclePrice::new(990_000, -6);
    assert_eq!(above.get_min_price(&below, true), Ok(below));
    assert_eq!(above.get_min_price(&higher, false), Ok(above));
    let whole = OraclePrice::new(3, 0);
    assert_eq!(whole.get_min_price(&whole, true), Ok(OraclePrice::new(1, 0)));
    let tens = OraclePrice::new(3, 1);
    assert_eq!(tens.get_min_price(&tens, true), Ok(OraclePrice::new(1_000_000, -6)));
    let nothing = OraclePrice::new(0, 1);
    assert_eq!(nothing.get_min_price(&nothing, true), Ok(nothing));
    let fine = OraclePrice::new(5, -20);
    assert_eq!(fine.get_min_price(&fine, true), Err(PerpetualsError::MathOverflow));
}

#[test]
fn asset_amount_usd_has_six_decimals() {
    // 2.5 tokens of 9 decimals at 100.25
    let price = OraclePrice::new(100_250_000, -6);
    assert_eq!(price.get_asset_amount_usd(2_500_000_000, 9), Ok(250_625_000));
    assert_eq!(price.get_asset_amount_usd(0, 9), Ok(0));
    assert_eq!(OraclePrice::new(0, -6).get_asset_amount_usd(5, 9), Ok(0));
    // rounds toward zero: 1 unit of 9 decimals at 100.25 is 0.00000010025 USD
    assert_eq!(price.get_asset_amount_usd(1, 9), Ok(0));
    assert_eq!(price.get_asset_amount_usd(u64::MAX, 0), Err(PerpetualsError::MathOverflow));
}

#[test]
fn token_amount_inverts_asset_amount() {
    let price = OraclePrice::new(100_250_000, -6);
    assert_eq!(price.get_token_amount(250_625_000, 9), Ok(2_500_000_000));
    assert_eq!(price.get_token_amount(0, 9), Ok(0));
    assert_eq!(OraclePrice::new(0, -6).get_token_amount(5, 9), Ok(0));
    assert_eq!(OraclePrice::new(3, 0).get_token_amount(1_000_000, 0), Ok(0));
    assert_eq!(OraclePrice::new(3, 0).get_token_amount(10_000_000, 0), Ok(3));
    assert_eq!(
        OraclePrice::new(1, -19).get_token_amount(u64::MAX, 19),
        Err(PerpetualsError::MathOverflow)
    );
}

#[test]
fn buying_back_never_returns_more_tokens() {
    let price = OraclePrice::new(33_333_333, -7);
    let cases: [u64; 5] = [1, 7, 1_000, 123_456_789, 999_999_999_999];
    for tokens in cases {
        let usd = price.get_asset_amount_usd(tokens, 8).unwrap();
        let back = price.get_token_amount(usd, 8).unwrap();
        assert!(back <= tokens);
        let worth = price.get_asset_amount_usd(back, 8).unwrap();
        assert!(worth <= usd);
    }
}
