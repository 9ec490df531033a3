//! Writing the fee schedule.

use vstd::prelude::*;
use crate::constants::MAX_BASIS_POINTS;
use crate::errors::PaywallError;
use crate::pubkey::Pubkey;
use crate::state::fees_within_bounds;
use crate::state::FeeConfig;

verus! {

/// The signer and the record that writing the fee schedule touches.
#[derive(Clone, Copy, Debug, PartialEq, Eq)]
pub struct SetFeeConfig {
    /// The administrator, who signs for the change.
    pub admin: Pubkey,
    /// The fee schedule: blank when it is written for the first time.
    pub fee_config: FeeConfig,
}

/// Announces a new fee schedule.
#[derive(Clone, Copy, Debug, PartialEq, Eq)]
pub struct FeeUpdated {
    pub protocol_fee_bps: u16,
    pub referrer_fee_bps: u16,
    pub treasury: Pubkey,
}

/// Writes the fee schedule. Shares that together exceed one hundred percent
/// are refused and change nothing; otherwise the schedule holds exactly the
/// values given, whatever it held before.
pub fn handler(
    ctx: &mut SetFeeConfig,
    protocol_fee_bps: u16,
    referrer_fee_bps: u16,
    treasury: Pubkey,
) -> (result: Result<FeeUpdated, PaywallError>)
    ensures
        protocol_fee_bps + referrer_fee_bps > MAX_BASIS_POINTS ==> result == Err::<
            FeeUpdated,
            PaywallError,
        >(PaywallError::FeesTooHigh) && *final(ctx) == *old(ctx),
        protocol_fee_bps + referrer_fee_bps <= MAX_BASIS_POINTS ==> result == Ok::<
            FeeUpdated,
            PaywallError,
        >(FeeUpdated { protocol_fee_bps, referrer_fee_bps, treasury }) && *final(ctx)
            == (SetFeeConfig {
            admin: old(ctx).admin,
            fee_config: FeeConfig { protocol_fee_bps, referrer_fee_bps, treasury },
        }) && final(ctx).fee_config.valid(),
{
    if !fees_within_bounds(protocol_fee_bps, referrer_fee_bps) {
        return Err(PaywallError::FeesTooHigh);
    }
    ctx.fee_config.protocol_fee_bps = protocol_fee_bps;
    ctx.fee_config.referrer_fee_bps = referrer_fee_bps;
    ctx.fee_config.treasury = treasury;

    Ok(FeeUpdated { protocol_fee_bps, referrer_fee_bps, treasury })
}

} // verus!
