//! The unit-accounting ledger.
//!
//! Two independent unit spaces, bond and debt, follow the same
//! share-accounting pattern: units are minted when underlying value is
//! added and burned when it is removed, at the unit/value exchange rate
//! given by the live external balance. Every ratio rounds down, so the
//! ledger never promises more underlying value than the external balance
//! holds. A failed operation leaves the state and the position exactly as
//! they were.

use vstd::arithmetic::div_mod::{lemma_fundamental_div_mod, lemma_multiply_divide_le};
use vstd::arithmetic::mul::lemma_mul_inequality;
use vstd::prelude::*;

use crate::error::{VaultError, VaultResult};
use crate::state::{Position, State};
use crate::wide::{mul_ratio, mul_ratio_checked};

verus! {

/// Units minted for adding `amount` of underlying value while `total`
/// units stand against `balance` of underlying value: the first mint is
/// one-to-one, later mints keep the going unit price, rounding down.
pub open spec fn units_to_mint(total: int, balance: int, amount: int) -> int {
    if total == 0 {
        amount
    } else {
        amount * total / balance
    }
}

/// Underlying value released for burning `units` units while `total`
/// units stand against `balance` of underlying value, rounding down.
pub open spec fn units_to_amount(units: int, balance: int, total: int) -> int {
    if units == 0 {
        0
    } else {
        balance * units / total
    }
}

/// The mint succeeds: the minted units and the grown total both fit in
/// 128 bits.
pub open spec fn mint_fits(total: int, balance: int, amount: int) -> bool {
    &&& units_to_mint(total, balance, amount) <= u128::MAX
    &&& total + units_to_mint(total, balance, amount) <= u128::MAX
}

/// Mints units in one unit space: `total` is the ledger-wide total,
/// `user` the position's balance in the same space, `balance` the live
/// external balance backing the space, and `amount` the underlying value
/// being added. Units exist only against value, so with units outstanding
/// the backing balance is positive. On failure nothing changes.
pub fn mint_units(total: &mut u128, user: &mut u128, balance: u128, amount: u128) -> (r:
    VaultResult<u128>)
    requires
        *old(user) <= *old(total),
        *old(total) > 0 ==> balance > 0,
    ensures
        r is Ok <==> mint_fits(*old(total) as int, balance as int, amount as int),
        r matches Ok(minted) ==> {
            &&& minted == units_to_mint(*old(total) as int, balance as int, amount as int)
            &&& *final(total) == *old(total) + minted
            &&& *final(user) == *old(user) + minted
        },
        r is Err ==> {
            &&& r == Err::<u128, VaultError>(VaultError::Arithmetic)
            &&& *final(total) == *old(total)
            &&& *final(user) == *old(user)
        },
        *final(user) <= *final(total),
{
    let minted: u128;
    if *total == 0 {
        minted = amount;
    } else {
        match mul_ratio_checked(amount, *total, balance) {
            Ok(m) => {
                minted = m;
            },
            Err(e) => {
                return Err(e);
            },
        }
    }
    if minted > u128::MAX - *total {
        return Err(VaultError::Arithmetic);
    }
    *total = *total + minted;
    *user = *user + minted;
    Ok(minted)
}

/// Burns `units` units in one unit space and reports the underlying value
/// released. Rejects a request beyond the position's balance and then
/// changes nothing.
pub fn burn_units(total: &mut u128, user: &mut u128, balance: u128, units: u128) -> (r:
    VaultResult<u128>)
    requires
        *old(user) <= *old(total),
    ensures
        r is Ok <==> units <= *old(user),
        r matches Ok(released) ==> {
            &&& released == units_to_amount(units as int, balance as int, *old(total) as int)
            &&& *final(total) == *old(total) - units
            &&& *final(user) == *old(user) - units
        },
        r is Err ==> {
            &&& r == Err::<u128, VaultError>(VaultError::InsufficientUnits)
            &&& *final(total) == *old(total)
            &&& *final(user) == *old(user)
        },
        *final(user) <= *final(total),
{
    if units > *user {
        return Err(VaultError::InsufficientUnits);
    }
    let released: u128 = if units == 0 {
        0
    } else {
        mul_ratio(balance, units, *total)
    };
    *total = *total - units;
    *user = *user - units;
    Ok(released)
}

impl State {
    /// Mints bond units for `amount` of LP tokens newly bonded, against
    /// the live total bonded amount `bonded_amount`.
    pub fn mint_bond_units(&mut self, position: &mut Position, bonded_amount: u128, amount: u128)
        -> (r: VaultResult<u128>)
        requires
            old(self).covers(*old(position)),
            old(self).total_bond_units > 0 ==> bonded_amount > 0,
        ensures
            r is Ok <==> mint_fits(
                old(self).total_bond_units as int,
                bonded_amount as int,
                amount as int,
            ),
            r matches Ok(minted) ==> {
                &&& minted == units_to_mint(
                    old(self).total_bond_units as int,
                    bonded_amount as int,
                    amount as int,
                )
                &&& final(self).total_bond_units == old(self).total_bond_units + minted
                &&& final(position).bond_units == old(position).bond_units + minted
            },
            r is Err ==> r == Err::<u128, VaultError>(VaultError::Arithmetic) && *final(self)
                == *old(self) && *final(position) == *old(position),
            final(self).total_debt_units == old(self).total_debt_units,
            final(position).debt_units == old(position).debt_units,
            final(self).covers(*final(position)),
    {
        mint_units(&mut self.total_bond_units, &mut position.bond_units, bonded_amount, amount)
    }

    /// Burns bond units and reports the bonded LP amount they redeem,
    /// against the live total bonded amount `bonded_amount`.
    pub fn burn_bond_units(&mut self, position: &mut Position, bonded_amount: u128, units: u128)
        -> (r: VaultResult<u128>)
        requires
            old(self).covers(*old(position)),
        ensures
            r is Ok <==> units <= old(position).bond_units,
            r matches Ok(released) ==> {
                &&& released == units_to_amount(
                    units as int,
                    bonded_amount as int,
                    old(self).total_bond_units as int,
                )
                &&& final(self).total_bond_units == old(self).total_bond_units - units
                &&& final(position).bond_units == old(position).bond_units - units
            },
            r is Err ==> r == Err::<u128, VaultError>(VaultError::InsufficientUnits)
                && *final(self) == *old(self) && *final(position) == *old(position),
            final(self).total_debt_units == old(self).total_debt_units,
            final(position).debt_units == old(position).debt_units,
            final(self).covers(*final(position)),
    {
        burn_units(&mut self.total_bond_units, &mut position.bond_units, bonded_amount, units)
    }

    /// Mints debt units for `amount` of secondary asset newly borrowed,
    /// against the live total debt `debt_amount`.
    pub fn mint_debt_units(&mut self, position: &mut Position, debt_amount: u128, amount: u128)
        -> (r: VaultResult<u128>)
        requires
            old(self).covers(*old(position)),
            old(self).total_debt_units > 0 ==> debt_amount > 0,
        ensures
            r is Ok <==> mint_fits(
                old(self).total_debt_units as int,
                debt_amount as int,
                amount as int,
            ),
            r matches Ok(minted) ==> {
                &&& minted == units_to_mint(
                    old(self).total_debt_units as int,
                    debt_amount as int,
                    amount as int,
                )
                &&& final(self).total_debt_units == old(self).total_debt_units + minted
                &&& final(position).debt_units == old(position).debt_units + minted
            },
            r is Err ==> r == Err::<u128, VaultError>(VaultError::Arithmetic) && *final(self)
                == *old(self) && *final(position) == *old(position),
            final(self).total_bond_units == old(self).total_bond_units,
            final(position).bond_units == old(position).bond_units,
            final(self).covers(*final(position)),
    {
        mint_units(&mut self.total_debt_units, &mut position.debt_units, debt_amount, amount)
    }

    /// Burns debt units and reports the debt amount they stand for,
    /// against the live total debt `debt_amount`.
    pub fn burn_debt_units(&mut self, position: &mut Position, debt_amount: u128, units: u128)
        -> (r: VaultResult<u128>)
        requires
            old(self).covers(*old(position)),
        ensures
            r is Ok <==> units <= old(position).debt_units,
            r matches Ok(released) ==> {
                &&& released == units_to_amount(
                    units as int,
                    debt_amount as int,
                    old(self).total_debt_units as int,
                )
                &&& final(self).total_debt_units == old(self).total_debt_units - units
                &&& final(position).debt_units == old(position).debt_units - units
            },
            r is Err ==> r == Err::<u128, VaultError>(VaultError::InsufficientUnits)
                && *final(self) == *old(self) && *final(position) == *old(position),
            final(self).total_bond_units == old(self).total_bond_units,
            final(position).bond_units == old(position).bond_units,
            final(self).covers(*final(position)),
    {
        burn_units(&mut self.total_debt_units, &mut position.debt_units, debt_amount, units)
    }
}

/// First-mint identity: with no units outstanding, a deposit of `amount`
/// of underlying value mints exactly `amount` units, whatever the
/// external balance reads.
pub proof fn lemma_first_mint(balance: int, amount: int)
    ensures
        units_to_mint(0, balance, amount) == amount,
{
}

/// Sum of a sequence of unit balances.
pub open spec fn units_sum(s: Seq<u128>) -> int
    decreases s.len(),
{
    if s.len() == 0 {
        0
    } else {
        units_sum(s.drop_last()) + s.last()
    }
}

/// Changing one balance changes the sum by the same delta.
pub proof fn lemma_units_sum_update(s: Seq<u128>, i: int, v: u128)
    requires
        0 <= i < s.len(),
    ensures
        units_sum(s.update(i, v)) == units_sum(s) - s[i] + v,
    decreases s.len(),
{
    if i == s.len() - 1 {
        assert(s.update(i, v).drop_last() =~= s.drop_last());
    } else {
        lemma_units_sum_update(s.drop_last(), i, v);
        assert(s.update(i, v).drop_last() =~= s.drop_last().update(i, v));
    }
}

/// Ledger-total consistency across any sequence of mints and burns: when
/// the unit total equals the sum of all positions' balances, an operation
/// that moves one position's balance and the total by the same delta (as
/// every mint and burn here does) keeps them equal.
pub proof fn lemma_total_tracks_positions(s: Seq<u128>, i: int, v: u128, total: int, new_total: int)
    requires
        0 <= i < s.len(),
        units_sum(s) == total,
        new_total - total == v - s[i],
    ensures
        units_sum(s.update(i, v)) == new_total,
{
    lemma_units_sum_update(s, i, v);
}

/// The balances after a sequence of single-position updates, each given
/// as the touched index and the balance it leaves there.
pub open spec fn apply_steps(balances: Seq<u128>, steps: Seq<(int, u128)>) -> Seq<u128>
    decreases steps.len(),
{
    if steps.len() == 0 {
        balances
    } else {
        apply_steps(balances.update(steps[0].0, steps[0].1), steps.drop_first())
    }
}

/// The running unit total after the same sequence of updates, each moving
/// the total by the same delta as the balance it touches — the shape of
/// every mint and burn here.
pub open spec fn apply_steps_total(balances: Seq<u128>, total: int, steps: Seq<(int, u128)>) -> int
    decreases steps.len(),
{
    if steps.len() == 0 {
        total
    } else {
        apply_steps_total(
            balances.update(steps[0].0, steps[0].1),
            total + steps[0].1 - balances[steps[0].0],
            steps.drop_first(),
        )
    }
}

/// Every step touches an existing position.
pub open spec fn steps_in_bounds(balances: Seq<u128>, steps: Seq<(int, u128)>) -> bool
    decreases steps.len(),
{
    steps.len() == 0 || (0 <= steps[0].0 < balances.len() && steps_in_bounds(
        balances.update(steps[0].0, steps[0].1),
        steps.drop_first(),
    ))
}

/// Ledger-total consistency over any sequence of mints and burns: when
/// the unit total starts as the sum of all positions' balances, it still
/// equals that sum after arbitrarily many operations that each move one
/// position's balance and the total by the same delta, as the mint and
/// burn contracts state of every call.
pub proof fn lemma_total_tracks_positions_sequence(
    balances: Seq<u128>,
    total: int,
    steps: Seq<(int, u128)>,
)
    requires
        units_sum(balances) == total,
        steps_in_bounds(balances, steps),
    ensures
        units_sum(apply_steps(balances, steps)) == apply_steps_total(balances, total, steps),
    decreases steps.len(),
{
    if steps.len() > 0 {
        lemma_units_sum_update(balances, steps[0].0, steps[0].1);
        lemma_total_tracks_positions_sequence(
            balances.update(steps[0].0, steps[0].1),
            total + steps[0].1 - balances[steps[0].0],
            steps.drop_first(),
        );
    }
}

/// No position can redeem more than its fair share: the amount released
/// for `units` of `total` is at most the external balance, and scaled
/// back up by the total it never exceeds the exact proportional claim.
pub proof fn lemma_redeemable_bounded(units: int, balance: int, total: int)
    requires
        0 < total,
        0 <= units <= total,
        0 <= balance,
    ensures
        units_to_amount(units, balance, total) <= balance,
        units_to_amount(units, balance, total) * total <= units * balance,
{
    if units != 0 {
        let q = balance * units / total;
        lemma_fundamental_div_mod(balance * units, total);
        lemma_mul_inequality(units, total, balance);
        assert(balance * units <= total * balance) by (nonlinear_arith)
            requires
                units * balance <= total * balance,
        ;
        lemma_multiply_divide_le(balance * units, total, balance);
        assert(q * total <= units * balance) by (nonlinear_arith)
            requires
                balance * units == total * q + balance * units % total,
                0 <= balance * units % total,
        ;
    }
}

/// Rounding down favors the pool: two positions together can never
/// redeem more than their combined units would, so splitting a claim
/// never extracts extra value, and the sum of all redeemable amounts
/// stays within the external balance.
pub proof fn lemma_redeemable_subadditive(u1: int, u2: int, balance: int, total: int)
    requires
        0 < total,
        0 <= u1,
        0 <= u2,
        u1 + u2 <= total,
        0 <= balance,
    ensures
        units_to_amount(u1, balance, total) + units_to_amount(u2, balance, total)
            <= units_to_amount(u1 + u2, balance, total),
        units_to_amount(u1 + u2, balance, total) <= balance,
{
    lemma_redeemable_bounded(u1 + u2, balance, total);
    if u1 != 0 && u2 != 0 {
        let q1 = balance * u1 / total;
        let r1 = balance * u1 % total;
        let q2 = balance * u2 / total;
        let r2 = balance * u2 % total;
        let q = balance * (u1 + u2) / total;
        let rr = balance * (u1 + u2) % total;
        lemma_fundamental_div_mod(balance * u1, total);
        lemma_fundamental_div_mod(balance * u2, total);
        lemma_fundamental_div_mod(balance * (u1 + u2), total);
        assert(total * q + rr == total * (q1 + q2) + r1 + r2) by (nonlinear_arith)
            requires
                balance * u1 == total * q1 + r1,
                balance * u2 == total * q2 + r2,
                balance * (u1 + u2) == total * q + rr,
        ;
        assert(q >= q1 + q2) by (nonlinear_arith)
            requires
                total * q + rr == total * (q1 + q2) + r1 + r2,
                0 <= rr < total,
                0 <= r1,
                0 <= r2,
                0 < total,
        ;
    }
}

} // verus!
