//! Ledger state, positions, and derived health.

use vstd::prelude::*;

verus! {

/// Global unit totals of the two accounting ledgers. A singleton per
/// deployed vault, mutated only by the ledger operations.
#[derive(Clone, Copy, Debug, PartialEq, Eq, Structural)]
pub struct State {
    /// Total bond units across all live positions.
    pub total_bond_units: u128,
    /// Total debt units across all live positions.
    pub total_debt_units: u128,
}

/// One user's unit balances. A user with no stored position reads as
/// all-zero; a position whose `bond_units` is zero is closed.
#[derive(Clone, Copy, Debug, PartialEq, Eq, Structural)]
pub struct Position {
    /// The user's share of the pooled bonded LP amount, in bond units.
    pub bond_units: u128,
    /// The user's share of the pooled debt, in debt units.
    pub debt_units: u128,
}

impl State {
    /// The position's units do not exceed the corresponding totals; holds
    /// of every live position because the totals track their sum.
    pub open spec fn covers(&self, p: Position) -> bool {
        &&& p.bond_units <= self.total_bond_units
        &&& p.debt_units <= self.total_debt_units
    }
}

impl Default for State {
    /// The state at instantiation: no units outstanding.
    fn default() -> (r: Self)
        ensures
            r == (State { total_bond_units: 0, total_debt_units: 0 }),
    {
        State { total_bond_units: 0, total_debt_units: 0 }
    }
}

impl Default for Position {
    /// The position of a user who never deposited: all zero.
    fn default() -> (r: Self)
        ensures
            r == (Position { bond_units: 0, debt_units: 0 }),
    {
        Position { bond_units: 0, debt_units: 0 }
    }
}

/// An exact ratio of two 128-bit values. The denominator is never zero
/// where this core produces one.
#[derive(Clone, Copy, Debug, PartialEq, Eq, Structural)]
pub struct Ratio {
    pub numerator: u128,
    pub denominator: u128,
}

/// A position's collateralization, derived from live external state and
/// never stored. `ltv` is `None` exactly when `bond_value` is zero: that
/// marks a closed or unleveraged position, not an error.
#[derive(Clone, Copy, Debug, PartialEq, Eq)]
pub struct Health {
    /// Value of the position's share of the bonded LP tokens.
    pub bond_value: u128,
    /// Value of the position's share of the pooled debt.
    pub debt_value: u128,
    /// Loan-to-value ratio: debt value over bond value.
    pub ltv: Option<Ratio>,
}

} // verus!
