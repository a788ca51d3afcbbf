//! The read-only query surface: pure compositions of the ledger, the
//! valuation engine and the configuration. The host-facing layer loads
//! the stored records, fetches the live external balances, and hands both
//! to these functions; nothing here mutates the ledger.

use vstd::prelude::*;

use crate::config::{spec_config_unchecked, Config, ConfigUnchecked};
use crate::error::{VaultError, VaultResult};
use crate::health::{
    compute_value_per_lp_token, lp_token_value_fits, spec_share_value, spec_value_per_lp_token,
};
use crate::state::{Position, State};
use crate::wide::{checked_mul, mul_ratio};

verus! {

/// A user's stake: their units and the bonded LP amount those units
/// redeem.
#[derive(Clone, Copy, Debug, PartialEq, Eq, Structural)]
pub struct UserInfoResponse {
    /// The user's bond units.
    pub shares: u128,
    /// The user's proportional share of the total bonded amount.
    pub base_token_balance: u128,
}

/// The vault's aggregate stake.
#[derive(Clone, Copy, Debug, PartialEq, Eq, Structural)]
pub struct StrategyInfoResponse {
    /// Total LP amount bonded with the staking generator.
    pub total_bond_amount: u128,
    /// Total bond units outstanding.
    pub total_shares: u128,
}

/// The vault's total value locked.
#[derive(Clone, Copy, Debug, PartialEq, Eq, Structural)]
pub struct TvlResponse {
    /// Value of the total bonded amount at the fair LP price.
    pub tvl: u128,
}

/// The raw projection of the configuration, as the config query reports
/// it.
pub fn query_config(config: &Config) -> (r: ConfigUnchecked)
    ensures
        r == spec_config_unchecked(*config),
{
    config.to_unchecked()
}

/// The ledger totals, verbatim.
pub fn query_state(state: &State) -> (r: State)
    ensures
        r == *state,
{
    *state
}

/// The stored position, or the all-zero position for a user who never
/// deposited.
pub fn query_position(position: Option<Position>) -> (r: Position)
    ensures
        r == (match position {
            Some(p) => p,
            None => Position { bond_units: 0, debt_units: 0 },
        }),
{
    match position {
        Some(p) => p,
        None => Position { bond_units: 0, debt_units: 0 },
    }
}

/// A user's units and the share of the live bonded amount they redeem,
/// rounded down. With no units outstanding the share is zero, never an
/// error.
pub fn query_user_info(state: &State, position: &Position, total_bonded_amount: u128) -> (r:
    UserInfoResponse)
    requires
        state.covers(*position),
    ensures
        r.shares == position.bond_units,
        r.base_token_balance as int == spec_share_value(
            total_bonded_amount as int,
            position.bond_units as int,
            state.total_bond_units as int,
        ),
{
    let user_bonds: u128 = if state.total_bond_units == 0 {
        0
    } else {
        mul_ratio(total_bonded_amount, position.bond_units, state.total_bond_units)
    };
    UserInfoResponse { shares: position.bond_units, base_token_balance: user_bonds }
}

/// The vault's aggregate stake: the live bonded amount and the unit total
/// standing against it.
pub fn query_strategy_info(state: &State, total_bonded_amount: u128) -> (r: StrategyInfoResponse)
    ensures
        r.total_bond_amount == total_bonded_amount,
        r.total_shares == state.total_bond_units,
{
    StrategyInfoResponse {
        total_bond_amount: total_bonded_amount,
        total_shares: state.total_bond_units,
    }
}

/// The vault's total value locked: the live bonded amount at the fair LP
/// price. Fails on overflow rather than wrapping.
pub fn query_tvl(
    total_bonded_amount: u128,
    primary_depth: u128,
    secondary_depth: u128,
    total_shares: u128,
    primary_price: u128,
    secondary_price: u128,
) -> (r: VaultResult<TvlResponse>)
    ensures
        ({
            let pv = (primary_depth as int) * (primary_price as int);
            let sv = (secondary_depth as int) * (secondary_price as int);
            let lp_value = spec_value_per_lp_token(pv, sv, total_shares as int);
            &&& r is Ok <==> (lp_token_value_fits(pv, sv, total_shares as int) && (
            total_bonded_amount as int) * lp_value <= u128::MAX)
            &&& r matches Ok(t) ==> t.tvl as int == (total_bonded_amount as int) * lp_value
            &&& r is Err ==> r == Err::<TvlResponse, VaultError>(VaultError::Arithmetic)
        }),
{
    let lp_value = match compute_value_per_lp_token(
        primary_depth,
        secondary_depth,
        total_shares,
        primary_price,
        secondary_price,
    ) {
        Ok(v) => v,
        Err(e) => {
            return Err(e);
        },
    };
    match checked_mul(total_bonded_amount, lp_value) {
        Ok(v) => Ok(TvlResponse { tvl: v }),
        Err(e) => Err(e),
    }
}

} // verus!
