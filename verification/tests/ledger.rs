use martian_field::error::VaultError;
use martian_field::state::{Position, State};

fn empty() -> (State, Position) {
    (
        State { total_bond_units: 0, total_debt_units: 0 },
        Position { bond_units: 0, debt_units: 0 },
    )
}

#[test]
fn first_mint_is_one_to_one() {
    let (mut state, mut position) = empty();
    let minted = state.mint_bond_units(&mut position, 0, 1000).unwrap();
    assert_eq!(minted, 1000);
    assert_eq!(state.total_bond_units, 1000);
    assert_eq!(position.bond_units, 1000);
}

#[test]
fn later_mint_keeps_unit_price() {
    let (mut state, mut position) = empty();
    state.mint_bond_units(&mut position, 0, 1000).unwrap();
    // The external balance grew from 1000 to 2000 through rewards; a new
    // deposit of 500 is a quarter of the pool and mints 250 units.
    let minted = state.mint_bond_units(&mut position, 2000, 500).unwrap();
    assert_eq!(minted, 250);
    assert_eq!(state.total_bond_units, 1250);
    assert_eq!(position.bond_units, 1250);
}

#[test]
fn burn_releases_proportionally() {
    let (mut state, mut position) = empty();
    state.mint_bond_units(&mut position, 0, 1250).unwrap();
    // 2500 of underlying now backs 1250 units: 500 units redeem 1000.
    let released = state.burn_bond_units(&mut position, 2500, 500).unwrap();
    assert_eq!(released, 1000);
    assert_eq!(state.total_bond_units, 750);
    assert_eq!(position.bond_units, 750);
}

#[test]
fn burn_rounds_down() {
    let (mut state, mut position) = empty();
    state.mint_bond_units(&mut position, 0, 3).unwrap();
    // 100 of underlying across 3 units: one unit redeems 33, not 33.33.
    let released = state.burn_bond_units(&mut position, 100, 1).unwrap();
    assert_eq!(released, 33);
}

#[test]
fn insufficient_units_rejected_without_change() {
    let (mut state, mut position) = empty();
    state.mint_bond_units(&mut position, 0, 1000).unwrap();
    let before_state = state;
    let before_position = position;
    let r = state.burn_bond_units(&mut position, 1000, 2000);
    assert_eq!(r, Err(VaultError::InsufficientUnits));
    assert_eq!(state, before_state);
    assert_eq!(position, before_position);
}

#[test]
fn mint_overflow_rejected_without_change() {
    let (mut state, mut position) = empty();
    state.mint_bond_units(&mut position, 0, u128::MAX).unwrap();
    let before_state = state;
    let before_position = position;
    // One more unit would push the total past the 128-bit range.
    let r = state.mint_bond_units(&mut position, u128::MAX, 1);
    assert_eq!(r, Err(VaultError::Arithmetic));
    assert_eq!(state, before_state);
    assert_eq!(position, before_position);
}

#[test]
fn debt_units_track_the_same_pattern() {
    let (mut state, mut position) = empty();
    let minted = state.mint_debt_units(&mut position, 0, 400).unwrap();
    assert_eq!(minted, 400);
    // Interest grew the debt to 800; borrowing 200 more mints 100 units.
    let minted = state.mint_debt_units(&mut position, 800, 200).unwrap();
    assert_eq!(minted, 100);
    assert_eq!(state.total_debt_units, 500);
    // Repaying 100 units extinguishes 200 of the (now 1000) debt.
    let released = state.burn_debt_units(&mut position, 1000, 100).unwrap();
    assert_eq!(released, 200);
    assert_eq!(state.total_debt_units, 400);
    assert_eq!(position.debt_units, 400);
    // Bond units were never touched.
    assert_eq!(state.total_bond_units, 0);
    assert_eq!(position.bond_units, 0);
}

#[test]
fn mixed_mints_and_burns_keep_totals_consistent() {
    // Two users minting and burning against a non-decreasing balance: the
    // total always equals the sum of the positions' units, and the sum of
    // the redeemable amounts never exceeds the external balance.
    let mut state = State { total_bond_units: 0, total_debt_units: 0 };
    let mut alice = Position { bond_units: 0, debt_units: 0 };
    let mut bob = Position { bond_units: 0, debt_units: 0 };

    state.mint_bond_units(&mut alice, 0, 1000).unwrap();
    state.mint_bond_units(&mut bob, 1200, 600).unwrap();
    assert_eq!(state.total_bond_units, alice.bond_units + bob.bond_units);

    let balance = 2000u128;
    let redeem_alice = (balance * alice.bond_units) / state.total_bond_units;
    let redeem_bob = (balance * bob.bond_units) / state.total_bond_units;
    assert!(redeem_alice + redeem_bob <= balance);

    state.burn_bond_units(&mut alice, balance, 300).unwrap();
    assert_eq!(state.total_bond_units, alice.bond_units + bob.bond_units);
}
