use martian_field::adapters::apollo_factory::ApolloFactoryBase;
use martian_field::adapters::astro_generator::GeneratorBase;
use martian_field::adapters::astro_router::RouterBase;
use martian_field::adapters::oracle::OracleBase;
use martian_field::adapters::red_bank::RedBankBase;
use martian_field::asset::AssetInfoBase;
use martian_field::config::ConfigBase;
use martian_field::error::VaultError;
use martian_field::pool::PoolBase;
use martian_field::queries::{
    query_config, query_position, query_state, query_strategy_info, query_tvl, query_user_info,
};
use martian_field::state::{Position, State};

fn unchecked_config() -> ConfigBase<String> {
    ConfigBase {
        primary_asset_info: AssetInfoBase::Token { contract_addr: "tokenaaa".to_string() },
        secondary_asset_info: AssetInfoBase::NativeToken { denom: "uusd".to_string() },
        primary_pair: PoolBase { pair: "pair0000".to_string(), share_token: "lptoken0".to_string() },
        astro_generator: GeneratorBase { contract_addr: "generator0".to_string() },
        red_bank: RedBankBase { contract_addr: "redbank00".to_string() },
        oracle: OracleBase { contract_addr: "oracle000".to_string() },
        router: RouterBase { contract_addr: "router0000".to_string() },
        apollo_factory: ApolloFactoryBase { contract_addr: "factory00".to_string() },
        apr_query_adapter: "aprquery0".to_string(),
    }
}

#[test]
fn config_projects_back_to_its_raw_form() {
    let unchecked = unchecked_config();
    let checked = unchecked.check().unwrap();
    assert_eq!(query_config(&checked), unchecked_config());
}

#[test]
fn config_check_rejects_bad_embedded_address() {
    let mut unchecked = unchecked_config();
    unchecked.red_bank = RedBankBase { contract_addr: "NOT VALID".to_string() };
    assert_eq!(unchecked.check(), Err(VaultError::Validation));
}

#[test]
fn state_query_is_verbatim() {
    let state = State { total_bond_units: 7, total_debt_units: 9 };
    assert_eq!(query_state(&state), state);
}

#[test]
fn absent_position_reads_as_zero() {
    let stored = Position { bond_units: 3, debt_units: 4 };
    assert_eq!(query_position(Some(stored)), stored);
    assert_eq!(query_position(None), Position { bond_units: 0, debt_units: 0 });
}

#[test]
fn user_info_reports_proportional_share() {
    let state = State { total_bond_units: 1250, total_debt_units: 0 };
    let position = Position { bond_units: 500, debt_units: 0 };
    let info = query_user_info(&state, &position, 2500);
    assert_eq!(info.shares, 500);
    assert_eq!(info.base_token_balance, 1000);
}

#[test]
fn strategy_info_reports_totals() {
    let state = State { total_bond_units: 1250, total_debt_units: 0 };
    let info = query_strategy_info(&state, 2500);
    assert_eq!(info.total_bond_amount, 2500);
    assert_eq!(info.total_shares, 1250);
}

#[test]
fn tvl_is_bonded_amount_at_lp_value() {
    // Each of the 100 LP tokens is worth 40; 1000 are bonded.
    let r = query_tvl(1000, 1000, 500, 100, 2, 4).unwrap();
    assert_eq!(r.tvl, 40000);
    // No shares outstanding: the vault holds nothing of value.
    let r = query_tvl(1000, 1000, 500, 0, 2, 4).unwrap();
    assert_eq!(r.tvl, 0);
    // Overflow fails loudly.
    assert_eq!(query_tvl(u128::MAX, 1000, 500, 100, 2, 4), Err(VaultError::Arithmetic));
}

#[test]
fn user_info_with_no_units_is_zero() {
    // With no units outstanding the share reads as zero, never an error.
    let state = State { total_bond_units: 0, total_debt_units: 0 };
    let position = Position { bond_units: 0, debt_units: 0 };
    let info = query_user_info(&state, &position, 2500);
    assert_eq!(info.shares, 0);
    assert_eq!(info.base_token_balance, 0);
}
