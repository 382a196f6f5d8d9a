//! The administrative actions, each behind the signature guard.

use crate::custody::{Custody, DeprecatedCustody};
use crate::error::PerpetualsError;
use crate::gateway::CustomOracle;
use crate::multisig::{AdminInstruction, Multisig, PendingInstruction};
use vstd::prelude::*;

verus! {

pub struct AddCustodyInit {
    pub admin: [u8; 32],
    pub multisig: Multisig,
    pub pool_key: [u8; 32],
    pub custody: Custody,
    pub custody_token_mint: [u8; 32],
    pub custody_bump: u8,
}

#[derive(Copy, Clone, PartialEq, Eq, Default, Debug, Structural)]
pub struct AddCustodyInitParams {
    /// Hash of the parameters in their canonical encoding.
    pub params_hash: u64,
}

pub struct UpgradeCustody {
    pub admin: [u8; 32],
    pub multisig: Multisig,
    /// The custody as it is stored, in the layout to be replaced.
    pub custody: DeprecatedCustody,
}

#[derive(Copy, Clone, PartialEq, Eq, Default, Debug, Structural)]
pub struct UpgradeCustodyParams {
    /// Hash of the parameters in their canonical encoding.
    pub params_hash: u64,
}

/// The custody that `add_custody_init` records: bound to its pool, its mint
/// and its bump.
pub open spec fn initialized_custody(accounts: AddCustodyInit) -> Custody {
    Custody {
        pool: accounts.pool_key,
        mint: accounts.custody_token_mint,
        bump: accounts.custody_bump,
        ..accounts.custody
    }
}

/// Signs the addition of a custody and, once enough have signed, binds the
/// custody to its pool and mint. Returns the signatures still missing;
/// while that is not zero the custody is untouched. A custody whose
/// configuration is not sound is refused after it was bound.
pub fn add_custody_init(accounts: &mut AddCustodyInit, params: &AddCustodyInitParams) -> (r: Result<
    u8,
    PerpetualsError,
>)
    requires
        old(accounts).multisig.wf(),
    ensures
        final(accounts).multisig.wf(),
        final(accounts).multisig.signers@ == old(accounts).multisig.signers@,
        match old(accounts).multisig.find_signer_spec(old(accounts).admin) {
            None => r == Err::<u8, PerpetualsError>(PerpetualsError::UnauthorizedSigner)
                && final(accounts).multisig == old(accounts).multisig && final(accounts).custody
                == old(accounts).custody,
            Some(i) => {
                let signed = old(accounts).multisig@.sign(
                    i as int,
                    PendingInstruction {
                        instruction: AdminInstruction::AddCustody,
                        params_hash: params.params_hash,
                    },
                );
                &&& final(accounts).multisig@ == signed.0
                &&& if signed.1 > 0 {
                    r == Ok::<u8, PerpetualsError>(signed.1 as u8) && final(accounts).custody
                        == old(accounts).custody
                } else {
                    &&& final(accounts).custody == initialized_custody(*old(accounts))
                    &&& r == if initialized_custody(*old(accounts)).valid() {
                        Ok::<u8, PerpetualsError>(0u8)
                    } else {
                        Err::<u8, PerpetualsError>(PerpetualsError::InvalidCustodyConfig)
                    }
                }
            },
        },
{
    let signatures_left = accounts.multisig.sign_multisig(
        &accounts.admin,
        AdminInstruction::AddCustody,
        params.params_hash,
    )?;
    if signatures_left > 0 {
        return Ok(signatures_left);
    }
    accounts.custody.pool = accounts.pool_key;
    accounts.custody.mint = accounts.custody_token_mint;
    accounts.custody.bump = accounts.custody_bump;
    if !accounts.custody.validate() {
        Err(PerpetualsError::InvalidCustodyConfig)
    } else {
        Ok(0)
    }
}

/// Signs the upgrade of a custody to the current layout and, once enough
/// have signed, returns the upgraded custody beside a zero. Until then it
/// returns the signatures still missing and no custody. An upgraded custody
/// whose configuration is not sound is refused.
pub fn upgrade_custody(accounts: &mut UpgradeCustody, params: &UpgradeCustodyParams) -> (r: Result<
    (u8, Option<Custody>),
    PerpetualsError,
>)
    requires
        old(accounts).multisig.wf(),
    ensures
        final(accounts).multisig.wf(),
        final(accounts).multisig.signers@ == old(accounts).multisig.signers@,
        final(accounts).custody == old(accounts).custody,
        match old(accounts).multisig.find_signer_spec(old(accounts).admin) {
            None => r == Err::<(u8, Option<Custody>), PerpetualsError>(
                PerpetualsError::UnauthorizedSigner,
            ) && final(accounts).multisig == old(accounts).multisig,
            Some(i) => {
                let signed = old(accounts).multisig@.sign(
                    i as int,
                    PendingInstruction {
                        instruction: AdminInstruction::UpgradeCustody,
                        params_hash: params.params_hash,
                    },
                );
                &&& final(accounts).multisig@ == signed.0
                &&& r == if signed.1 > 0 {
                    Ok::<(u8, Option<Custody>), PerpetualsError>((signed.1 as u8, None))
                } else if old(accounts).custody.upgraded().valid() {
                    Ok::<(u8, Option<Custody>), PerpetualsError>(
                        (0u8, Some(old(accounts).custody.upgraded())),
                    )
                } else {
                    Err::<(u8, Option<Custody>), PerpetualsError>(
                        PerpetualsError::InvalidCustodyConfig,
                    )
                }
            },
        },
{
    let signatures_left = accounts.multisig.sign_multisig(
        &accounts.admin,
        AdminInstruction::UpgradeCustody,
        params.params_hash,
    )?;
    if signatures_left > 0 {
        return Ok((signatures_left, None));
    }
    let custody_data = accounts.custody.upgrade();
    if !custody_data.validate() {
        return Err(PerpetualsError::InvalidCustodyConfig);
    }
    Ok((0, Some(custody_data)))
}

pub struct SetCustomOraclePrice {
    pub admin: [u8; 32],
    pub multisig: Multisig,
    pub oracle_account: CustomOracle,
}

#[derive(Copy, Clone, PartialEq, Eq, Default, Debug, Structural)]
pub struct SetCustomOraclePriceParams {
    pub price: u64,
    pub expo: i32,
    pub conf: u64,
    pub ema: u64,
    pub publish_time: i64,
    /// Hash of the parameters above in their canonical encoding.
    pub params_hash: u64,
}

/// Signs the setting of a custom oracle's price and, once enough have
/// signed, sets it. Returns the signatures still missing; while that is not
/// zero the oracle is untouched.
pub fn set_custom_oracle_price(
    accounts: &mut SetCustomOraclePrice,
    params: &SetCustomOraclePriceParams,
) -> (r: Result<u8, PerpetualsError>)
    requires
        old(accounts).multisig.wf(),
    ensures
        final(accounts).multisig.wf(),
        final(accounts).multisig.signers@ == old(accounts).multisig.signers@,
        match old(accounts).multisig.find_signer_spec(old(accounts).admin) {
            None => r == Err::<u8, PerpetualsError>(PerpetualsError::UnauthorizedSigner)
                && final(accounts).multisig == old(accounts).multisig
                && final(accounts).oracle_account == old(accounts).oracle_account,
            Some(i) => {
                let signed = old(accounts).multisig@.sign(
                    i as int,
                    PendingInstruction {
                        instruction: AdminInstruction::SetCustomOraclePrice,
                        params_hash: params.params_hash,
                    },
                );
                &&& final(accounts).multisig@ == signed.0
                &&& r == Ok::<u8, PerpetualsError>(signed.1 as u8)
                &&& final(accounts).oracle_account == if signed.1 > 0 {
                    old(accounts).oracle_account
                } else {
                    CustomOracle {
                        price: params.price,
                        expo: params.expo,
                        conf: params.conf,
                        ema: params.ema,
                        publish_time: params.publish_time,
                    }
                }
            },
        },
{
    let signatures_left = accounts.multisig.sign_multisig(
        &accounts.admin,
        AdminInstruction::SetCustomOraclePrice,
        params.params_hash,
    )?;
    if signatures_left > 0 {
        return Ok(signatures_left);
    }
    accounts.oracle_account.set(
        params.price,
        params.expo,
        params.conf,
        params.ema,
        params.publish_time,
    );
    Ok(0)
}

} // verus!
