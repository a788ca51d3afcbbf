use martian_field::adapters::apollo_factory::{ApolloFactoryBase, ApolloFactoryExecuteMsg};
use martian_field::adapters::astro_generator::GeneratorBase;
use martian_field::adapters::astro_router::{
    Router, RouterBase, RouterCw20HookMsg, SwapOperation,
};
use martian_field::adapters::oracle::OracleBase;
use martian_field::adapters::red_bank::{
    ExecuteMsg as MarsExecuteMsg, MarsAsset, ReceiveMsg as MarsReceiveMsg, RedBankBase,
};
use martian_field::addr::{validate, Addr};
use martian_field::asset::{AssetBase, AssetInfoBase};
use martian_field::error::VaultError;
use martian_field::pool::{Pool, PoolBase};
use martian_field::red_bank::{
    DebtInfo, DebtResponse, ExecuteMsg, ReceiveMsg, RedBank, RedBankAsset,
};
use martian_field::wire::{Coin, Cw20ExecuteMsg, ExecutePayload, HookMsg, WasmExecute};

fn addr(s: &str) -> Addr {
    validate(&s.to_string()).unwrap()
}

fn token(contract: &str, amount: u128) -> AssetBase<Addr> {
    AssetBase { info: AssetInfoBase::Token { contract_addr: addr(contract) }, amount }
}

fn native(denom: &str, amount: u128) -> AssetBase<Addr> {
    AssetBase { info: AssetInfoBase::NativeToken { denom: denom.to_string() }, amount }
}

#[test]
fn validate_accepts_and_rejects() {
    assert!(validate(&"pair0000".to_string()).is_ok());
    assert_eq!(validate(&"ab".to_string()), Err(VaultError::Validation));
    assert_eq!(validate(&"UpperCase".to_string()), Err(VaultError::Validation));
    assert_eq!(validate(&"with space".to_string()), Err(VaultError::Validation));
    assert_eq!(validate(&"a".repeat(91)), Err(VaultError::Validation));
    let a = validate(&"terra1abcd".to_string()).unwrap();
    assert_eq!(a.as_string(), "terra1abcd".to_string());
}

#[test]
fn router_roundtrip() {
    let unchecked = RouterBase { contract_addr: "router0000".to_string() };
    let checked = unchecked.check().unwrap();
    let back: RouterBase<String> = checked.into();
    assert_eq!(back, RouterBase { contract_addr: "router0000".to_string() });
    assert_eq!(back.check().unwrap(), Router::new(&addr("router0000")));
}

#[test]
fn pool_roundtrip() {
    let mk = || PoolBase { pair: "pair0000".to_string(), share_token: "lptoken0".to_string() };
    let checked = Pool::from_unchecked(mk()).unwrap();
    let back: PoolBase<String> = checked.into();
    assert_eq!(back, mk());
    assert_eq!(Pool::from_unchecked(back).unwrap(), Pool::from_unchecked(mk()).unwrap());
}

#[test]
fn red_bank_roundtrip() {
    let unchecked = RedBankBase { contract_addr: "redbank00".to_string() };
    let checked = unchecked.check().unwrap();
    let back: RedBankBase<String> = checked.into();
    assert_eq!(back, RedBankBase { contract_addr: "redbank00".to_string() });
    let again = back.check().unwrap();
    assert_eq!(again.contract_addr, addr("redbank00"));
}

#[test]
fn oracle_generator_factory_roundtrips() {
    let o = OracleBase { contract_addr: "oracle000".to_string() };
    let back: OracleBase<String> = o.check().unwrap().into();
    assert_eq!(back, OracleBase { contract_addr: "oracle000".to_string() });

    let g = GeneratorBase { contract_addr: "generator0".to_string() };
    let back: GeneratorBase<String> = g.check().unwrap().into();
    assert_eq!(back, GeneratorBase { contract_addr: "generator0".to_string() });

    let f = ApolloFactoryBase { contract_addr: "factory00".to_string() };
    let back: ApolloFactoryBase<String> = f.check().unwrap().into();
    assert_eq!(back, ApolloFactoryBase { contract_addr: "factory00".to_string() });
}

#[test]
fn check_rejects_bad_address() {
    let unchecked = RouterBase { contract_addr: "Bad Addr".to_string() };
    assert_eq!(unchecked.check(), Err(VaultError::Validation));
    let pool = PoolBase { pair: "pair0000".to_string(), share_token: "X".to_string() };
    assert_eq!(Pool::from_unchecked(pool), Err(VaultError::Validation));
}

#[test]
fn pool_withdraw_msg_exact() {
    let pool = Pool::from_unchecked(
        PoolBase { pair: "pair0000".to_string(), share_token: "lptoken0".to_string() },
    )
    .unwrap();
    let msg = pool.withdraw_msg(55);
    assert_eq!(
        msg,
        WasmExecute {
            contract_addr: "lptoken0".to_string(),
            msg: ExecutePayload::Cw20(Cw20ExecuteMsg::Send {
                contract: "pair0000".to_string(),
                amount: 55,
                msg: HookMsg::Pair(martian_field::pool::Cw20HookMsg::WithdrawLiquidity),
            }),
            funds: vec![],
        }
    );
}

#[test]
fn pool_provide_msgs_exact() {
    let pool = Pool::from_unchecked(
        PoolBase { pair: "pair0000".to_string(), share_token: "lptoken0".to_string() },
    )
    .unwrap();
    let assets = [token("tokenaaa", 100), native("uusd", 200)];
    let msgs = pool.provide_msgs(&assets);
    assert_eq!(msgs.len(), 2);
    assert_eq!(
        msgs[0],
        WasmExecute {
            contract_addr: "tokenaaa".to_string(),
            msg: ExecutePayload::Cw20(Cw20ExecuteMsg::IncreaseAllowance {
                spender: "pair0000".to_string(),
                amount: 100,
            }),
            funds: vec![],
        }
    );
    assert_eq!(msgs[1].contract_addr, "pair0000".to_string());
    assert_eq!(msgs[1].funds, vec![Coin { denom: "uusd".to_string(), amount: 200 }]);
    match &msgs[1].msg {
        ExecutePayload::Pair(martian_field::pool::HandleMsg::ProvideLiquidity {
            assets,
            slippage_tolerance,
        }) => {
            assert_eq!(assets.0, token("tokenaaa", 100));
            assert_eq!(assets.1, native("uusd", 200));
            assert_eq!(*slippage_tolerance, None);
        }
        other => panic!("unexpected provide payload: {:?}", other),
    }
}

#[test]
fn pool_swap_msg_native_and_token() {
    let pool = Pool::from_unchecked(
        PoolBase { pair: "pair0000".to_string(), share_token: "lptoken0".to_string() },
    )
    .unwrap();
    let m = pool.swap_msg(&native("uusd", 70));
    assert_eq!(m.contract_addr, "pair0000".to_string());
    assert_eq!(m.funds, vec![Coin { denom: "uusd".to_string(), amount: 70 }]);
    let m = pool.swap_msg(&token("tokenaaa", 70));
    assert_eq!(m.contract_addr, "tokenaaa".to_string());
    assert_eq!(m.funds, vec![]);
    match m.msg {
        ExecutePayload::Cw20(Cw20ExecuteMsg::Send { contract, amount, .. }) => {
            assert_eq!(contract, "pair0000".to_string());
            assert_eq!(amount, 70);
        }
        other => panic!("unexpected swap payload: {:?}", other),
    }
}

#[test]
fn pool_parse_finds_both_reserves() {
    let pool = Pool::from_unchecked(
        PoolBase { pair: "pair0000".to_string(), share_token: "lptoken0".to_string() },
    )
    .unwrap();
    let response = martian_field::pool::PoolResponse {
        // The pair reports the assets in the opposite order.
        assets: [
            AssetBase {
                info: AssetInfoBase::NativeToken { denom: "uusd".to_string() },
                amount: 500,
            },
            AssetBase {
                info: AssetInfoBase::Token { contract_addr: "tokenaaa".to_string() },
                amount: 1000,
            },
        ],
        total_share: 100,
    };
    let primary = AssetInfoBase::Token { contract_addr: "tokenaaa".to_string() };
    let secondary = AssetInfoBase::NativeToken { denom: "uusd".to_string() };
    let parsed = pool.query_pool(&response, &primary, &secondary).unwrap();
    assert_eq!(parsed.primary_asset_depth, 1000);
    assert_eq!(parsed.secondary_asset_depth, 500);
    assert_eq!(parsed.share_token_supply, 100);
}

#[test]
fn pool_parse_missing_asset_is_query_error() {
    let pool = Pool::from_unchecked(
        PoolBase { pair: "pair0000".to_string(), share_token: "lptoken0".to_string() },
    )
    .unwrap();
    let response = martian_field::pool::PoolResponse {
        assets: [
            AssetBase {
                info: AssetInfoBase::NativeToken { denom: "uusd".to_string() },
                amount: 500,
            },
            AssetBase {
                info: AssetInfoBase::NativeToken { denom: "uluna".to_string() },
                amount: 1000,
            },
        ],
        total_share: 100,
    };
    let primary = AssetInfoBase::Token { contract_addr: "tokenaaa".to_string() };
    let secondary = AssetInfoBase::NativeToken { denom: "uusd".to_string() };
    assert_eq!(pool.query_pool(&response, &primary, &secondary), Err(VaultError::Query));
}

#[test]
fn legacy_red_bank_borrow_and_repay() {
    let bank = RedBank { contract_addr: "redbank00".to_string() };
    let borrow = bank.borrow_msg(&native("uusd", 400));
    assert_eq!(
        borrow,
        WasmExecute {
            contract_addr: "redbank00".to_string(),
            msg: ExecutePayload::LegacyRedBank(ExecuteMsg::Borrow {
                asset: RedBankAsset::Native { denom: "uusd".to_string() },
                amount: 400,
            }),
            funds: vec![],
        }
    );
    let repay = bank.repay_msg(&native("uusd", 150));
    assert_eq!(
        repay,
        WasmExecute {
            contract_addr: "redbank00".to_string(),
            msg: ExecutePayload::LegacyRedBank(ExecuteMsg::RepayNative {
                denom: "uusd".to_string(),
            }),
            funds: vec![Coin { denom: "uusd".to_string(), amount: 150 }],
        }
    );
    let repay = bank.repay_msg(&token("tokenaaa", 150));
    assert_eq!(
        repay,
        WasmExecute {
            contract_addr: "tokenaaa".to_string(),
            msg: ExecutePayload::Cw20(Cw20ExecuteMsg::Send {
                contract: "redbank00".to_string(),
                amount: 150,
                msg: HookMsg::LegacyRedBank(ReceiveMsg::RepayCw20),
            }),
            funds: vec![],
        }
    );
}

#[test]
fn legacy_red_bank_reads_debt_report() {
    let bank = RedBank { contract_addr: "redbank00".to_string() };
    let response = DebtResponse {
        debts: vec![
            DebtInfo { denom: "uluna".to_string(), amount: 10 },
            DebtInfo { denom: "uusd".to_string(), amount: 400 },
        ],
    };
    assert_eq!(bank.query_debt(&response, &"uusd".to_string()), Ok(400));
    // An absent denomination is a hard query error, not a zero balance.
    assert_eq!(bank.query_debt(&response, &"ukrw".to_string()), Err(VaultError::Query));
}

#[test]
fn mars_red_bank_borrow_and_repay() {
    let bank = RedBankBase { contract_addr: "redbank00".to_string() }.check().unwrap();
    let borrow = bank.borrow_msg(&token("tokenaaa", 400));
    assert_eq!(
        borrow,
        WasmExecute {
            contract_addr: "redbank00".to_string(),
            msg: ExecutePayload::RedBank(MarsExecuteMsg::Borrow {
                asset: MarsAsset::Cw20 { contract_addr: "tokenaaa".to_string() },
                amount: 400,
            }),
            funds: vec![],
        }
    );
    let repay = bank.repay_msg(&native("uusd", 150));
    assert_eq!(
        repay,
        WasmExecute {
            contract_addr: "redbank00".to_string(),
            msg: ExecutePayload::RedBank(MarsExecuteMsg::RepayNative {
                denom: "uusd".to_string(),
            }),
            funds: vec![Coin { denom: "uusd".to_string(), amount: 150 }],
        }
    );
    let repay = bank.repay_msg(&token("tokenaaa", 150));
    match repay.msg {
        ExecutePayload::Cw20(Cw20ExecuteMsg::Send { contract, amount, msg }) => {
            assert_eq!(contract, "redbank00".to_string());
            assert_eq!(amount, 150);
            assert_eq!(msg, HookMsg::RedBank(MarsReceiveMsg::RepayCw20));
        }
        other => panic!("unexpected repay payload: {:?}", other),
    }
}

#[test]
fn router_swap_builds_route_hops() {
    let router = RouterBase { contract_addr: "router0000".to_string() }.check().unwrap();
    let route = vec![
        AssetInfoBase::Token { contract_addr: addr("tokenaaa") },
        AssetInfoBase::NativeToken { denom: "uusd".to_string() },
        AssetInfoBase::NativeToken { denom: "uluna".to_string() },
    ];
    let msg = router.swap_msg(native("uusd", 90), route.clone(), Some(80), Some(addr("user0000")));
    assert_eq!(msg.contract_addr, "router0000".to_string());
    assert_eq!(msg.funds, vec![Coin { denom: "uusd".to_string(), amount: 90 }]);
    match msg.msg {
        ExecutePayload::Router(
            martian_field::adapters::astro_router::RouterExecuteMsg::ExecuteSwapOperations {
                operations,
                minimum_receive,
                to,
            },
        ) => {
            assert_eq!(
                operations,
                vec![
                    SwapOperation::AstroSwap {
                        offer_asset_info: route[0].clone(),
                        ask_asset_info: route[1].clone(),
                    },
                    SwapOperation::AstroSwap {
                        offer_asset_info: route[1].clone(),
                        ask_asset_info: route[2].clone(),
                    },
                ]
            );
            assert_eq!(minimum_receive, Some(80));
            assert_eq!(to, Some("user0000".to_string()));
        }
        other => panic!("unexpected router payload: {:?}", other),
    }
}

#[test]
fn router_swap_of_token_goes_through_send() {
    let router = RouterBase { contract_addr: "router0000".to_string() }.check().unwrap();
    let route = vec![
        AssetInfoBase::Token { contract_addr: addr("tokenaaa") },
        AssetInfoBase::NativeToken { denom: "uusd".to_string() },
    ];
    let msg = router.swap_msg(token("tokenaaa", 90), route, None, None);
    assert_eq!(msg.contract_addr, "tokenaaa".to_string());
    assert_eq!(msg.funds, vec![]);
    match msg.msg {
        ExecutePayload::Cw20(Cw20ExecuteMsg::Send { contract, amount, msg }) => {
            assert_eq!(contract, "router0000".to_string());
            assert_eq!(amount, 90);
            match msg {
                HookMsg::Router(RouterCw20HookMsg::ExecuteSwapOperations {
                    operations,
                    minimum_receive,
                    to,
                }) => {
                    assert_eq!(operations.len(), 1);
                    assert_eq!(minimum_receive, None);
                    assert_eq!(to, None);
                }
                other => panic!("unexpected hook: {:?}", other),
            }
        }
        other => panic!("unexpected payload: {:?}", other),
    }
}

#[test]
fn apollo_factory_update_rewards() {
    let factory = ApolloFactoryBase { contract_addr: "factory00".to_string() }.check().unwrap();
    let msg = factory.update_rewards_msg(&addr("user0000"));
    assert_eq!(
        msg,
        WasmExecute {
            contract_addr: "factory00".to_string(),
            msg: ExecutePayload::ApolloFactory(ApolloFactoryExecuteMsg::UpdateUserRewards {
                user: "user0000".to_string(),
            }),
            funds: vec![],
        }
    );
}

#[test]
fn red_bank_asset_from_asset_info() {
    let info = AssetInfoBase::Token { contract_addr: addr("tokenaaa") };
    assert_eq!(
        RedBankAsset::from(info),
        RedBankAsset::Cw20 { contract_addr: "tokenaaa".to_string() }
    );
    assert_eq!(
        RedBankAsset::from(native("uusd", 5)),
        RedBankAsset::Native { denom: "uusd".to_string() }
    );
    let info = AssetInfoBase::NativeToken { denom: "uusd".to_string() };
    assert_eq!(MarsAsset::from(info), MarsAsset::Native { denom: "uusd".to_string() });
}

#[test]
fn generator_stake_and_unstake() {
    let generator = GeneratorBase { contract_addr: "generator0".to_string() }.check().unwrap();
    let lp_token = addr("lptoken0");
    let stake = generator.stake_msg(&lp_token, 500);
    assert_eq!(
        stake,
        WasmExecute {
            contract_addr: "lptoken0".to_string(),
            msg: ExecutePayload::Cw20(Cw20ExecuteMsg::Send {
                contract: "generator0".to_string(),
                amount: 500,
                msg: HookMsg::Generator(
                    martian_field::adapters::astro_generator::GeneratorCw20HookMsg::Deposit,
                ),
            }),
            funds: vec![],
        }
    );
    let unstake = generator.unstake_msg(&lp_token, 200);
    assert_eq!(
        unstake,
        WasmExecute {
            contract_addr: "generator0".to_string(),
            msg: ExecutePayload::Generator(
                martian_field::adapters::astro_generator::GeneratorExecuteMsg::Withdraw {
                    lp_token: "lptoken0".to_string(),
                    amount: 200,
                },
            ),
            funds: vec![],
        }
    );
}
