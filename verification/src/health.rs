//! Valuation and health engine.
//!
//! The fair value of one LP token is computed with a geometric-mean
//! formula over the pool reserves and external prices. Because the
//! geometric mean of the two reserve values is invariant under trades
//! that only skew the reserve ratio, the result cannot be distorted by a
//! single-block price manipulation. All multiplications that combine an
//! amount and a price are overflow-checked: on overflow the whole query
//! fails instead of wrapping.

use vstd::arithmetic::div_mod::lemma_div_of0;
use vstd::prelude::*;

use crate::error::{VaultError, VaultResult};
use crate::state::{Health, Position, Ratio, State};
use crate::wide::{checked_mul, isqrt_wide, mul_ratio, sqrt_of, twice_div, wide_mul};

verus! {

/// Fair value of one LP token: zero when no shares exist, otherwise twice
/// the square root of the product of the two reserve values, split over
/// the share supply, rounded down.
pub open spec fn spec_value_per_lp_token(
    primary_value: int,
    secondary_value: int,
    total_shares: int,
) -> int {
    if total_shares == 0 {
        0
    } else {
        2 * sqrt_of(primary_value * secondary_value) / total_shares
    }
}

/// The valuation stays inside 128 bits: each reserve value and the final
/// per-share value fit. With no shares outstanding nothing is computed,
/// so nothing can overflow.
pub open spec fn lp_token_value_fits(
    primary_value: int,
    secondary_value: int,
    total_shares: int,
) -> bool {
    total_shares == 0 || (primary_value <= u128::MAX && secondary_value <= u128::MAX
        && spec_value_per_lp_token(primary_value, secondary_value, total_shares) <= u128::MAX)
}

/// Computes the fair value of one LP token from the pool reserves
/// (`primary_depth`, `secondary_depth`), the share supply, and the two
/// asset prices in a common numeraire.
pub fn compute_value_per_lp_token(
    primary_depth: u128,
    secondary_depth: u128,
    total_shares: u128,
    primary_price: u128,
    secondary_price: u128,
) -> (r: VaultResult<u128>)
    ensures
        total_shares == 0 ==> r == Ok::<u128, VaultError>(0),
        r is Ok <==> lp_token_value_fits(
            (primary_depth as int) * (primary_price as int),
            (secondary_depth as int) * (secondary_price as int),
            total_shares as int,
        ),
        r matches Ok(v) ==> v as int == spec_value_per_lp_token(
            (primary_depth as int) * (primary_price as int),
            (secondary_depth as int) * (secondary_price as int),
            total_shares as int,
        ),
        r is Err ==> r == Err::<u128, VaultError>(VaultError::Arithmetic),
{
    if total_shares == 0 {
        return Ok(0);
    }
    let primary_value = match checked_mul(primary_depth, primary_price) {
        Ok(v) => v,
        Err(e) => {
            return Err(e);
        },
    };
    let secondary_value = match checked_mul(secondary_depth, secondary_price) {
        Ok(v) => v,
        Err(e) => {
            return Err(e);
        },
    };
    let (nh, nl) = wide_mul(primary_value, secondary_value);
    let root = isqrt_wide(nh, nl);
    twice_div(root, total_shares)
}

/// The share of `total_value` that `units` of `total_units` stand for,
/// rounded down; zero when no units are outstanding.
pub open spec fn spec_share_value(total_value: int, units: int, total_units: int) -> int {
    if total_units == 0 {
        0
    } else {
        total_value * units / total_units
    }
}

/// What [`compute_health`] returns: the position's bond value, debt value
/// and loan-to-value ratio, or the first overflow in the valuation path.
pub open spec fn spec_compute_health(
    state: State,
    position: Position,
    total_bonded_amount: int,
    total_debt_amount: int,
    primary_value: int,
    secondary_value: int,
    total_shares: int,
    secondary_price: int,
) -> VaultResult<Health> {
    if !lp_token_value_fits(primary_value, secondary_value, total_shares) {
        Err(VaultError::Arithmetic)
    } else {
        let lp_value = spec_value_per_lp_token(primary_value, secondary_value, total_shares);
        if total_bonded_amount * lp_value > u128::MAX {
            Err(VaultError::Arithmetic)
        } else if total_debt_amount * secondary_price > u128::MAX {
            Err(VaultError::Arithmetic)
        } else {
            let bond_value = spec_share_value(
                total_bonded_amount * lp_value,
                position.bond_units as int,
                state.total_bond_units as int,
            );
            let debt_value = spec_share_value(
                total_debt_amount * secondary_price,
                position.debt_units as int,
                state.total_debt_units as int,
            );
            Ok(
                Health {
                    bond_value: bond_value as u128,
                    debt_value: debt_value as u128,
                    ltv: if bond_value == 0 {
                        None
                    } else {
                        Some(
                            Ratio {
                                numerator: debt_value as u128,
                                denominator: bond_value as u128,
                            },
                        )
                    },
                },
            )
        }
    }
}

/// Computes a position's health from the ledger state, the live external
/// balances (`total_bonded_amount` from the staking generator,
/// `total_debt_amount` from the lending market), the pool reserves and
/// share supply, and the two asset prices.
///
/// The loan-to-value ratio is `None` exactly when the bond value is zero:
/// a closed position has no defined leverage, which is not an error.
pub fn compute_health(
    state: &State,
    position: &Position,
    total_bonded_amount: u128,
    total_debt_amount: u128,
    primary_depth: u128,
    secondary_depth: u128,
    total_shares: u128,
    primary_price: u128,
    secondary_price: u128,
) -> (r: VaultResult<Health>)
    requires
        state.covers(*position),
    ensures
        r == spec_compute_health(
            *state,
            *position,
            total_bonded_amount as int,
            total_debt_amount as int,
            (primary_depth as int) * (primary_price as int),
            (secondary_depth as int) * (secondary_price as int),
            total_shares as int,
            secondary_price as int,
        ),
        r matches Ok(h) ==> (h.ltv is None <==> h.bond_value == 0),
        r is Ok && position.bond_units == 0 ==> r->Ok_0.bond_value == 0 && r->Ok_0.ltv is None,
        r is Err ==> r == Err::<Health, VaultError>(VaultError::Arithmetic),
{
    let lp_value = match compute_value_per_lp_token(
        primary_depth,
        secondary_depth,
        total_shares,
        primary_price,
        secondary_price,
    ) {
        Ok(v) => v,
        Err(e) => {
            return Err(e);
        },
    };
    let total_bonded_value = match checked_mul(total_bonded_amount, lp_value) {
        Ok(v) => v,
        Err(e) => {
            return Err(e);
        },
    };
    let total_debt_value = match checked_mul(total_debt_amount, secondary_price) {
        Ok(v) => v,
        Err(e) => {
            return Err(e);
        },
    };
    let bond_value: u128 = if state.total_bond_units == 0 {
        0
    } else {
        proof {
            if position.bond_units == 0 {
                lemma_div_of0(state.total_bond_units as int);
            }
        }
        mul_ratio(total_bonded_value, position.bond_units, state.total_bond_units)
    };
    let debt_value: u128 = if state.total_debt_units == 0 {
        0
    } else {
        mul_ratio(total_debt_value, position.debt_units, state.total_debt_units)
    };
    let ltv: Option<Ratio> = if bond_value == 0 {
        None
    } else {
        Some(Ratio { numerator: debt_value, denominator: bond_value })
    };
    Ok(Health { bond_value, debt_value, ltv })
}

} // verus!

