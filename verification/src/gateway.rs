//! Resolving an oracle account to a price, with its staleness and
//! confidence bounds.

use crate::error::PerpetualsError;
use crate::oracle::{OraclePrice, BPS_POWER};
use anchor_lang::prelude::{Clock, Pubkey};
use pyth_solana_receiver_sdk::price_update::{
    PriceFeedMessage, PriceUpdateV2, TwapPrice, TwapUpdate, VerificationLevel,
};
use vstd::prelude::*;

verus! {

/// Longest age, in seconds, at which an external feed hands out a reading.
pub const MAX_FEED_AGE_SEC: u64 = 300;

#[derive(Copy, Clone, PartialEq, Eq, Debug, Structural)]
pub enum OracleType {
    /// No oracle configured; resolving through it fails.
    Unset,
    Custom,
    Pyth,
}

impl Default for OracleType {
    fn default() -> (r: Self)
        ensures
            r == OracleType::Pyth,
    {
        OracleType::Pyth
    }
}

/// How a custody's price is read and bounded.
#[derive(Copy, Clone, PartialEq, Default, Debug)]
pub struct OracleParams {
    pub oracle_account: [u8; 32],
    pub oracle_type: OracleType,
    /// May sign price updates of a custom oracle.
    pub oracle_authority: [u8; 32],
    /// Largest accepted confidence interval, in basis points of the price.
    pub max_price_error: u64,
    pub max_price_age_sec: u32,
    pub feed_id: [u8; 32],
}

/// A price record kept by the exchange itself.
#[derive(Copy, Clone, PartialEq, Eq, Default, Debug, Structural)]
pub struct CustomOracle {
    pub price: u64,
    pub expo: i32,
    pub conf: u64,
    pub ema: u64,
    pub publish_time: i64,
}

impl CustomOracle {
    pub fn set(&mut self, price: u64, expo: i32, conf: u64, ema: u64, publish_time: i64)
        ensures
            *final(self) == (CustomOracle { price, expo, conf, ema, publish_time }),
    {
        self.price = price;
        self.expo = expo;
        self.conf = conf;
        self.ema = ema;
        self.publish_time = publish_time;
    }
}

/// How far the signatures under an external price update were checked.
#[derive(Copy, Clone, PartialEq, Eq, Debug)]
pub enum Verification {
    /// Only `num_signatures` guardian signatures were checked.
    Partial { num_signatures: u8 },
    /// Two thirds of the guardians' signatures were checked.
    Full,
}

/// What an external price update account holds.
#[derive(Copy, Clone, PartialEq, Debug)]
pub struct PriceFeed {
    pub verification_level: Verification,
    pub feed_id: [u8; 32],
    pub price: i64,
    pub conf: u64,
    pub exponent: i32,
    pub publish_time: i64,
}

/// What an external time-weighted average account holds.
#[derive(Copy, Clone, PartialEq, Debug)]
pub struct TwapFeed {
    pub feed_id: [u8; 32],
    pub start_time: i64,
    pub end_time: i64,
    pub price: i64,
    pub conf: u64,
    pub exponent: i32,
}

/// One reading of an external feed.
#[derive(Copy, Clone, PartialEq, Eq, Debug, Structural)]
pub struct FeedPrice {
    pub price: i64,
    pub conf: u64,
    pub exponent: i32,
    pub publish_time: i64,
}

/// Code under which an external feed refuses an update that is too old.
pub const FEED_PRICE_TOO_OLD: u32 = 10_000;

/// Code under which an external feed refuses an average over another window.
pub const FEED_INVALID_WINDOW_SIZE: u32 = 10_001;

/// Code under which an external feed refuses an update of another feed.
pub const FEED_MISMATCHED_FEED_ID: u32 = 10_002;

/// Code under which an external feed refuses an update that is not fully
/// verified.
pub const FEED_INSUFFICIENT_VERIFICATION_LEVEL: u32 = 10_003;

/// The account offered as a custody's oracle.
#[derive(Copy, Clone, PartialEq, Debug)]
pub enum OracleAccount {
    /// No data: the account was never written.
    Empty,
    Custom(CustomOracle),
    Pyth(PriceFeed),
}

/// `time + age`, held at `i64::MAX`.
pub open spec fn saturating_deadline(time: i64, age: u64) -> int {
    if time + age > i64::MAX {
        i64::MAX as int
    } else {
        time + age
    }
}

/// The reading of a fully verified update of the asked feed that is no
/// older than `maximum_age`.
pub open spec fn recent_price(feed: PriceFeed, now: i64, maximum_age: u64, feed_id: [u8; 32]) -> Result<
    FeedPrice,
    u32,
> {
    if !(feed.verification_level is Full) {
        Err(FEED_INSUFFICIENT_VERIFICATION_LEVEL)
    } else if feed.feed_id@ != feed_id@ {
        Err(FEED_MISMATCHED_FEED_ID)
    } else if saturating_deadline(feed.publish_time, maximum_age) < now {
        Err(FEED_PRICE_TOO_OLD)
    } else {
        Ok(
            FeedPrice {
                price: feed.price,
                conf: feed.conf,
                exponent: feed.exponent,
                publish_time: feed.publish_time,
            },
        )
    }
}

/// The average of the asked feed over a window of `window_seconds` that
/// ended no longer than `maximum_age` ago, published at the window's end.
pub open spec fn recent_twap(
    twap: TwapFeed,
    now: i64,
    maximum_age: u64,
    window_seconds: u64,
    feed_id: [u8; 32],
) -> Result<FeedPrice, u32> {
    let window = twap.end_time - twap.start_time;
    let held = if window > i64::MAX {
        i64::MAX as int
    } else if window < i64::MIN {
        i64::MIN as int
    } else {
        window
    };
    if twap.feed_id@ != feed_id@ {
        Err(FEED_MISMATCHED_FEED_ID)
    } else if saturating_deadline(twap.end_time, maximum_age) < now {
        Err(FEED_PRICE_TOO_OLD)
    } else if held != window_seconds {
        Err(FEED_INVALID_WINDOW_SIZE)
    } else {
        Ok(
            FeedPrice {
                price: twap.price,
                conf: twap.conf,
                exponent: twap.exponent,
                publish_time: twap.end_time,
            },
        )
    }
}

/// Asks the external price-update account, rebuilt from `feed`, for its
/// price through `PriceUpdateV2::get_price_no_older_than`, with a clock that
/// reads `now`. That method refuses, in this order, an update that is not
/// fully verified, one of another feed, and one whose publish time plus
/// `maximum_age` (held at `i64::MAX`) lies before the clock; otherwise it
/// hands out the update's price, confidence, exponent and publish time. A
/// refusal comes back as the number of the feed's error variant.
#[verifier::external_body]
fn feed_price_no_older_than(feed: &PriceFeed, now: i64, maximum_age: u64, feed_id: &[u8; 32]) -> (r:
    Result<FeedPrice, u32>)
    requires
        maximum_age <= i64::MAX,
    ensures
        r == recent_price(*feed, now, maximum_age, *feed_id),
{
    let PriceFeed { verification_level: v, feed_id: id, price, conf, exponent, publish_time } = *feed;
    let verification_level = match v {
        Verification::Partial { num_signatures } => VerificationLevel::Partial { num_signatures },
        Verification::Full => VerificationLevel::Full,
    };
    let price_message = PriceFeedMessage { feed_id: id, price, conf, exponent, publish_time, prev_publish_time: publish_time, ema_price: price, ema_conf: conf };
    let account = PriceUpdateV2 { write_authority: Pubkey::default(), verification_level, price_message, posted_slot: 0 };
    let clock = Clock { unix_timestamp: now, ..Clock::default() };
    match account.get_price_no_older_than(&clock, maximum_age, feed_id) {
        Ok(p) => Ok(FeedPrice { price: p.price, conf: p.conf, exponent: p.exponent, publish_time: p.publish_time }),
        Err(e) => Err(e as u32),
    }
}

/// Asks the external average account, rebuilt from `twap`, for its average
/// through `TwapUpdate::get_twap_no_older_than`, with a clock that reads
/// `now`. That method refuses, in this order, an average of another feed, one
/// whose end time plus `maximum_age` (held at `i64::MAX`) lies before the
/// clock, and one whose window (end minus start, held within `i64`) is not
/// `window_seconds`; otherwise it hands out the average. A refusal comes
/// back as the number of the feed's error variant.
#[verifier::external_body]
fn feed_twap_no_older_than(
    twap: &TwapFeed,
    now: i64,
    maximum_age: u64,
    window_seconds: u64,
    feed_id: &[u8; 32],
) -> (r: Result<FeedPrice, u32>)
    requires
        maximum_age <= i64::MAX,
        window_seconds <= i64::MAX,
    ensures
        r == recent_twap(*twap, now, maximum_age, window_seconds, *feed_id),
{
    let TwapFeed { feed_id: id, start_time, end_time, price, conf, exponent } = *twap;
    let twap = TwapPrice { feed_id: id, start_time, end_time, price, conf, exponent, down_slots_ratio: 0 };
    let account = TwapUpdate { write_authority: Pubkey::default(), twap };
    let clock = Clock { unix_timestamp: now, ..Clock::default() };
    match account.get_twap_no_older_than(&clock, maximum_age, window_seconds, feed_id) {
        Ok(p) => Ok(FeedPrice { price: p.price, conf: p.conf, exponent: p.exponent, publish_time: p.end_time }),
        Err(e) => Err(e as u32),
    }
}

/// The confidence interval is acceptable: the price is not zero and the
/// interval, in basis points of the price, is at most `max_price_error`.
pub open spec fn confidence_ok(price: u64, conf: u64, max_price_error: u64) -> bool {
    price != 0 && (conf * BPS_POWER) / (price as int) <= max_price_error
}

/// The error under which a feed's refusal surfaces: an old update is stale,
/// any other refusal means the account is not the oracle asked for.
pub open spec fn feed_failure(code: u32) -> PerpetualsError {
    if code == FEED_PRICE_TOO_OLD {
        PerpetualsError::StaleOraclePrice
    } else {
        PerpetualsError::InvalidOracleAccount
    }
}

/// The price that a reading gives under the custody's bounds: stale when
/// older than `max_price_age_sec`, invalid when not positive or when its
/// confidence interval is too wide.
pub open spec fn bounded_price(
    price: int,
    conf: u64,
    exponent: i32,
    publish_time: i64,
    max_price_error: u64,
    max_price_age_sec: u32,
    now: i64,
) -> Result<OraclePrice, PerpetualsError> {
    if now - publish_time > max_price_age_sec {
        Err(PerpetualsError::StaleOraclePrice)
    } else if price <= 0 || price > u64::MAX || !confidence_ok(price as u64, conf, max_price_error) {
        Err(PerpetualsError::InvalidOraclePrice)
    } else {
        Ok(OraclePrice { price: price as u64, exponent })
    }
}

/// The price of a custom oracle account.
pub open spec fn custom_price(
    account: OracleAccount,
    max_price_error: u64,
    max_price_age_sec: u32,
    now: i64,
    use_ema: bool,
) -> Result<OraclePrice, PerpetualsError> {
    match account {
        OracleAccount::Custom(c) => bounded_price(
            if use_ema {
                c.ema as int
            } else {
                c.price as int
            },
            c.conf,
            c.expo,
            c.publish_time,
            max_price_error,
            max_price_age_sec,
            now,
        ),
        _ => Err(PerpetualsError::InvalidOracleAccount),
    }
}

/// The price of an external feed: the spot reading, or with `use_ema` the
/// paired average over a window of `max_price_age_sec`, under the custody's
/// bounds.
pub open spec fn pyth_price(
    account: OracleAccount,
    twap: Option<TwapFeed>,
    max_price_error: u64,
    max_price_age_sec: u32,
    now: i64,
    use_ema: bool,
    feed_id: [u8; 32],
) -> Result<OraclePrice, PerpetualsError> {
    match account {
        OracleAccount::Pyth(feed) => {
            let reading = if use_ema {
                match twap {
                    Some(t) => match recent_twap(
                        t,
                        now,
                        MAX_FEED_AGE_SEC,
                        max_price_age_sec as u64,
                        feed_id,
                    ) {
                        Ok(p) => Ok(p),
                        Err(code) => Err(feed_failure(code)),
                    },
                    None => Err(PerpetualsError::MissingTwap),
                }
            } else {
                match recent_price(feed, now, MAX_FEED_AGE_SEC, feed_id) {
                    Ok(p) => Ok(p),
                    Err(code) => Err(feed_failure(code)),
                }
            };
            match reading {
                Ok(p) => bounded_price(
                    p.price as int,
                    p.conf,
                    p.exponent,
                    p.publish_time,
                    max_price_error,
                    max_price_age_sec,
                    now,
                ),
                Err(e) => Err(e),
            }
        },
        _ => Err(PerpetualsError::InvalidOracleAccount),
    }
}

/// The price that resolving `account` under `params` gives.
pub open spec fn resolved_price(
    account: OracleAccount,
    twap: Option<TwapFeed>,
    params: OracleParams,
    now: i64,
    use_ema: bool,
    feed_id: [u8; 32],
) -> Result<OraclePrice, PerpetualsError> {
    match params.oracle_type {
        OracleType::Custom => custom_price(
            account,
            params.max_price_error,
            params.max_price_age_sec,
            now,
            use_ema,
        ),
        OracleType::Pyth => pyth_price(
            account,
            twap,
            params.max_price_error,
            params.max_price_age_sec,
            now,
            use_ema,
            feed_id,
        ),
        OracleType::Unset => Err(PerpetualsError::UnsupportedOracle),
    }
}

/// Holds a reading to the custody's bounds.
pub fn check_reading(
    price: u64,
    conf: u64,
    exponent: i32,
    publish_time: i64,
    max_price_error: u64,
    max_price_age_sec: u32,
    now: i64,
) -> (r: Result<OraclePrice, PerpetualsError>)
    ensures
        r == bounded_price(
            price as int,
            conf,
            exponent,
            publish_time,
            max_price_error,
            max_price_age_sec,
            now,
        ),
{
    let age: i128 = now as i128 - publish_time as i128;
    if age > max_price_age_sec as i128 {
        return Err(PerpetualsError::StaleOraclePrice);
    }
    if price == 0 {
        return Err(PerpetualsError::InvalidOraclePrice);
    }
    assert(conf * BPS_POWER <= 0xffff_ffff_ffff_ffff * 10_000) by (nonlinear_arith)
        requires
            conf <= 0xffff_ffff_ffff_ffff,
            BPS_POWER == 10_000,
    ;
    let error_bps: u128 = (conf as u128 * BPS_POWER as u128) / (price as u128);
    if error_bps > max_price_error as u128 {
        return Err(PerpetualsError::InvalidOraclePrice);
    }
    Ok(OraclePrice { price, exponent })
}

impl OraclePrice {
    /// Resolves a custody's oracle account to a price at `current_time`.
    pub fn new_from_oracle(
        account: &OracleAccount,
        twap: Option<&TwapFeed>,
        oracle_params: &OracleParams,
        current_time: i64,
        use_ema: bool,
        feed_id: [u8; 32],
    ) -> (r: Result<OraclePrice, PerpetualsError>)
        ensures
            r == resolved_price(
                *account,
                match twap {
                    Some(t) => Some(*t),
                    None => None,
                },
                *oracle_params,
                current_time,
                use_ema,
                feed_id,
            ),
    {
        match oracle_params.oracle_type {
            OracleType::Custom => Self::get_custom_price(
                account,
                oracle_params.max_price_error,
                oracle_params.max_price_age_sec,
                current_time,
                use_ema,
            ),
            OracleType::Pyth => Self::get_pyth_price(
                account,
                twap,
                oracle_params.max_price_error,
                oracle_params.max_price_age_sec,
                current_time,
                use_ema,
                feed_id,
            ),
            OracleType::Unset => Err(PerpetualsError::UnsupportedOracle),
        }
    }

    /// Reads a custom oracle account.
    pub fn get_custom_price(
        account: &OracleAccount,
        max_price_error: u64,
        max_price_age_sec: u32,
        current_time: i64,
        use_ema: bool,
    ) -> (r: Result<OraclePrice, PerpetualsError>)
        ensures
            r == custom_price(*account, max_price_error, max_price_age_sec, current_time, use_ema),
    {
        match account {
            OracleAccount::Custom(c) => {
                let price = if use_ema {
                    c.ema
                } else {
                    c.price
                };
                check_reading(
                    price,
                    c.conf,
                    c.expo,
                    c.publish_time,
                    max_price_error,
                    max_price_age_sec,
                    current_time,
                )
            },
            _ => Err(PerpetualsError::InvalidOracleAccount),
        }
    }

    /// Reads an external feed account, and with `use_ema` its paired average.
    pub fn get_pyth_price(
        account: &OracleAccount,
        twap: Option<&TwapFeed>,
        max_price_error: u64,
        max_price_age_sec: u32,
        current_time: i64,
        use_ema: bool,
        feed_id: [u8; 32],
    ) -> (r: Result<OraclePrice, PerpetualsError>)
        ensures
            r == pyth_price(
                *account,
                match twap {
                    Some(t) => Some(*t),
                    None => None,
                },
                max_price_error,
                max_price_age_sec,
                current_time,
                use_ema,
                feed_id,
            ),
    {
        let feed = match account {
            OracleAccount::Pyth(feed) => feed,
            _ => {
                return Err(PerpetualsError::InvalidOracleAccount);
            },
        };
        let answer = if use_ema {
            match twap {
                Some(t) => feed_twap_no_older_than(
                    t,
                    current_time,
                    MAX_FEED_AGE_SEC,
                    max_price_age_sec as u64,
                    &feed_id,
                ),
                None => {
                    return Err(PerpetualsError::MissingTwap);
                },
            }
        } else {
            feed_price_no_older_than(feed, current_time, MAX_FEED_AGE_SEC, &feed_id)
        };
        match answer {
            Ok(p) => {
                if p.price <= 0 {
                    let age: i128 = current_time as i128 - p.publish_time as i128;
                    if age > max_price_age_sec as i128 {
                        Err(PerpetualsError::StaleOraclePrice)
                    } else {
                        Err(PerpetualsError::InvalidOraclePrice)
                    }
                } else {
                    check_reading(
                        p.price as u64,
                        p.conf,
                        p.exponent,
                        p.publish_time,
                        max_price_error,
                        max_price_age_sec,
                        current_time,
                    )
                }
            },
            Err(code) => Err(
                if code == FEED_PRICE_TOO_OLD {
                    PerpetualsError::StaleOraclePrice
                } else {
                    PerpetualsError::InvalidOracleAccount
                },
            ),
        }
    }
}

/// A reading older than the custody's bound never yields a price: whatever
/// the confidence, resolving it fails as stale.
pub proof fn lemma_stale_reading_rejected(
    price: int,
    conf: u64,
    exponent: i32,
    publish_time: i64,
    max_price_error: u64,
    max_price_age_sec: u32,
    now: i64,
)
    requires
        now - publish_time > max_price_age_sec,
    ensures
        bounded_price(price, conf, exponent, publish_time, max_price_error, max_price_age_sec, now)
            == Err::<OraclePrice, PerpetualsError>(PerpetualsError::StaleOraclePrice),
{
}

/// A reading that is not stale and whose confidence interval, in basis
/// points of its price, exceeds the custody's bound fails as invalid.
pub proof fn lemma_wide_confidence_rejected(
    price: u64,
    conf: u64,
    exponent: i32,
    publish_time: i64,
    max_price_error: u64,
    max_price_age_sec: u32,
    now: i64,
)
    requires
        now - publish_time <= max_price_age_sec,
        price == 0 || (conf * BPS_POWER) / (price as int) > max_price_error,
    ensures
        bounded_price(
            price as int,
            conf,
            exponent,
            publish_time,
            max_price_error,
            max_price_age_sec,
            now,
        ) == Err::<OraclePrice, PerpetualsError>(PerpetualsError::InvalidOraclePrice),
{
}

/// No account whose price is older than the custody's bound resolves to a
/// spot price: a custom oracle, or a fully verified external update of the
/// feed asked for, fails as stale.
pub proof fn lemma_stale_feed_rejected(
    account: OracleAccount,
    twap: Option<TwapFeed>,
    params: OracleParams,
    now: i64,
    feed_id: [u8; 32],
)
    requires
        match account {
            OracleAccount::Custom(c) => params.oracle_type == OracleType::Custom && now
                - c.publish_time > params.max_price_age_sec,
            OracleAccount::Pyth(f) => params.oracle_type == OracleType::Pyth
                && f.verification_level is Full && f.feed_id@ == feed_id@ && now - f.publish_time
                > params.max_price_age_sec,
            OracleAccount::Empty => false,
        },
    ensures
        resolved_price(account, twap, params, now, false, feed_id) == Err::<
            OraclePrice,
            PerpetualsError,
        >(PerpetualsError::StaleOraclePrice),
{
}

/// No account whose confidence interval is wider than the custody's bound
/// resolves to a spot price: where the price is not stale, a custom oracle,
/// or a fully verified external update of the feed asked for, fails as
/// invalid.
pub proof fn lemma_wide_feed_rejected(
    account: OracleAccount,
    twap: Option<TwapFeed>,
    params: OracleParams,
    now: i64,
    feed_id: [u8; 32],
)
    requires
        match account {
            OracleAccount::Custom(c) => params.oracle_type == OracleType::Custom && now
                - c.publish_time <= params.max_price_age_sec && c.price > 0 && (c.conf * BPS_POWER)
                / (c.price as int) > params.max_price_error,
            OracleAccount::Pyth(f) => params.oracle_type == OracleType::Pyth
                && f.verification_level is Full && f.feed_id@ == feed_id@ && now - f.publish_time
                <= params.max_price_age_sec && params.max_price_age_sec <= MAX_FEED_AGE_SEC
                && f.price > 0 && (f.conf * BPS_POWER) / (f.price as int) > params.max_price_error,
            OracleAccount::Empty => false,
        },
    ensures
        resolved_price(account, twap, params, now, false, feed_id) == Err::<
            OraclePrice,
            PerpetualsError,
        >(PerpetualsError::InvalidOraclePrice),
{
}

} // verus!
