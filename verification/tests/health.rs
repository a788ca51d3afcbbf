use martian_field::error::VaultError;
use martian_field::health::compute_health;
use martian_field::state::{Health, Position, Ratio, State};

// Pool of 1000 primary at price 2 and 500 secondary at price 4, 100 LP
// shares: each share is worth exactly 40.
const PD: u128 = 1000;
const SD: u128 = 500;
const SHARES: u128 = 100;
const PP: u128 = 2;
const SP: u128 = 4;

#[test]
fn health_of_open_position() {
    let state = State { total_bond_units: 100, total_debt_units: 100 };
    let position = Position { bond_units: 50, debt_units: 50 };
    // 1000 LP bonded at 40 each: 40000 total; the position holds half.
    // 400 of debt at price 4: 1600 total; the position owes half.
    let h = compute_health(&state, &position, 1000, 400, PD, SD, SHARES, PP, SP).unwrap();
    assert_eq!(
        h,
        Health {
            bond_value: 20000,
            debt_value: 800,
            ltv: Some(Ratio { numerator: 800, denominator: 20000 }),
        }
    );
}

#[test]
fn closed_position_has_no_ltv() {
    // A position without bond units yields ltv = None whatever its debt.
    let state = State { total_bond_units: 100, total_debt_units: 100 };
    let position = Position { bond_units: 0, debt_units: 100 };
    let h = compute_health(&state, &position, 1000, 400, PD, SD, SHARES, PP, SP).unwrap();
    assert_eq!(h.bond_value, 0);
    assert_eq!(h.debt_value, 1600);
    assert_eq!(h.ltv, None);
}

#[test]
fn empty_ledgers_value_at_zero() {
    let state = State { total_bond_units: 0, total_debt_units: 0 };
    let position = Position { bond_units: 0, debt_units: 0 };
    let h = compute_health(&state, &position, 1000, 400, PD, SD, SHARES, PP, SP).unwrap();
    assert_eq!(h, Health { bond_value: 0, debt_value: 0, ltv: None });
}

#[test]
fn bonded_value_overflow_fails() {
    let state = State { total_bond_units: 100, total_debt_units: 100 };
    let position = Position { bond_units: 50, debt_units: 50 };
    // The total bonded amount times the LP value of 40 leaves 128 bits.
    let r = compute_health(&state, &position, u128::MAX, 400, PD, SD, SHARES, PP, SP);
    assert_eq!(r, Err(VaultError::Arithmetic));
}

#[test]
fn debt_value_overflow_fails() {
    let state = State { total_bond_units: 100, total_debt_units: 100 };
    let position = Position { bond_units: 50, debt_units: 50 };
    let r = compute_health(&state, &position, 1000, u128::MAX, PD, SD, SHARES, PP, SP);
    assert_eq!(r, Err(VaultError::Arithmetic));
}
