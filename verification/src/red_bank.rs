//! The legacy lending-market adapter: builds borrow and repay
//! instructions in the market's own wire vocabulary and reads the debt
//! amount out of its debt report.

use vstd::prelude::*;

use crate::asset::{Asset, AssetInfo, AssetInfoBase};
use crate::error::{VaultError, VaultResult};
use crate::wire::{Coin, Cw20ExecuteMsg, ExecutePayload, HookMsg, WasmExecute, WasmExecuteView};

verus! {

/// The outbound subset of the market's message set.
#[derive(Debug, PartialEq, Eq)]
pub enum ExecuteMsg {
    Borrow { asset: RedBankAsset, amount: u128 },
    RepayNative { denom: String },
}

/// Messages handed to the market through a token transfer.
#[derive(Debug, PartialEq, Eq)]
pub enum ReceiveMsg {
    RepayCw20,
}

/// The market's query set.
#[derive(Debug, PartialEq, Eq)]
pub enum QueryMsg {
    Debt { address: String },
}

/// The market's debt report: one entry per borrowed denomination.
#[derive(Debug, PartialEq, Eq)]
pub struct DebtResponse {
    pub debts: Vec<DebtInfo>,
}

/// One entry of the debt report.
#[derive(Debug, PartialEq, Eq)]
pub struct DebtInfo {
    pub denom: String,
    pub amount: u128,
}

/// An asset in the market's own vocabulary.
#[derive(Debug, PartialEq, Eq)]
pub enum RedBankAsset {
    Cw20 { contract_addr: String },
    Native { denom: String },
}

/// The market's reading of one of the vault's asset identities.
pub open spec fn spec_red_bank_asset(info: AssetInfo) -> RedBankAsset {
    match info {
        AssetInfoBase::Token { contract_addr } => RedBankAsset::Cw20 {
            contract_addr: contract_addr.0,
        },
        AssetInfoBase::NativeToken { denom } => RedBankAsset::Native { denom },
    }
}

impl From<AssetInfo> for RedBankAsset {
    fn from(info: AssetInfo) -> (r: Self) {
        match info {
            AssetInfoBase::Token { contract_addr } => RedBankAsset::Cw20 {
                contract_addr: contract_addr.0,
            },
            AssetInfoBase::NativeToken { denom } => RedBankAsset::Native { denom },
        }
    }
}

impl vstd::std_specs::convert::FromSpecImpl<AssetInfo> for RedBankAsset {
    open spec fn obeys_from_spec() -> bool {
        true
    }

    open spec fn from_spec(info: AssetInfo) -> Self {
        spec_red_bank_asset(info)
    }
}

impl From<Asset> for RedBankAsset {
    fn from(asset: Asset) -> (r: Self) {
        RedBankAsset::from(asset.info)
    }
}

impl vstd::std_specs::convert::FromSpecImpl<Asset> for RedBankAsset {
    open spec fn obeys_from_spec() -> bool {
        true
    }

    open spec fn from_spec(asset: Asset) -> Self {
        spec_red_bank_asset(asset.info)
    }
}

/// The legacy lending-market adapter. This generation of the adapter
/// carries its address raw.
#[derive(Debug, PartialEq, Eq)]
pub struct RedBank {
    /// Address of the lending market.
    pub contract_addr: String,
}

/// The instruction that repays `asset` to the market: a token is sent
/// with a repay hook, a native coin is attached to a direct repay call.
pub open spec fn spec_legacy_repay_msg(market: String, a: Asset) -> WasmExecuteView {
    match a.info {
        AssetInfoBase::Token { contract_addr } => WasmExecuteView {
            contract_addr: contract_addr.0,
            msg: ExecutePayload::Cw20(
                Cw20ExecuteMsg::Send {
                    contract: market,
                    amount: a.amount,
                    msg: HookMsg::LegacyRedBank(ReceiveMsg::RepayCw20),
                },
            ),
            funds: Seq::empty(),
        },
        AssetInfoBase::NativeToken { denom } => WasmExecuteView {
            contract_addr: market,
            msg: ExecutePayload::LegacyRedBank(ExecuteMsg::RepayNative { denom }),
            funds: seq![Coin { denom, amount: a.amount }],
        },
    }
}

/// The amount of the first debt entry carrying `denom`. A denomination
/// absent from the report is a hard query error, never a zero balance.
pub open spec fn spec_debt_amount(debts: Seq<DebtInfo>, denom: Seq<char>) -> VaultResult<u128>
    decreases debts.len(),
{
    if debts.len() == 0 {
        Err(VaultError::Query)
    } else if debts[0].denom@ == denom {
        Ok(debts[0].amount)
    } else {
        spec_debt_amount(debts.drop_first(), denom)
    }
}

impl RedBank {
    /// Builds the instruction that borrows `asset` from the market.
    pub fn borrow_msg(&self, asset: &Asset) -> (r: WasmExecute)
        ensures
            r@ == (WasmExecuteView {
                contract_addr: self.contract_addr,
                msg: ExecutePayload::LegacyRedBank(
                    ExecuteMsg::Borrow {
                        asset: spec_red_bank_asset(asset.info),
                        amount: asset.amount,
                    },
                ),
                funds: Seq::empty(),
            }),
    {
        let r = WasmExecute {
            contract_addr: self.contract_addr.clone(),
            msg: ExecutePayload::LegacyRedBank(
                ExecuteMsg::Borrow {
                    asset: RedBankAsset::from(asset.info.clone()),
                    amount: asset.amount,
                },
            ),
            funds: Vec::new(),
        };
        proof {
            assert(r@.funds =~= Seq::<Coin>::empty());
        }
        r
    }

    /// Builds the instruction that repays `asset` to the market. No tax
    /// is deducted here.
    pub fn repay_msg(&self, asset: &Asset) -> (r: WasmExecute)
        ensures
            r@ == spec_legacy_repay_msg(self.contract_addr, *asset),
    {
        match &asset.info {
            AssetInfoBase::Token { contract_addr } => {
                let r = WasmExecute {
                    contract_addr: contract_addr.as_string(),
                    msg: ExecutePayload::Cw20(
                        Cw20ExecuteMsg::Send {
                            contract: self.contract_addr.clone(),
                            amount: asset.amount,
                            msg: HookMsg::LegacyRedBank(ReceiveMsg::RepayCw20),
                        },
                    ),
                    funds: Vec::new(),
                };
                proof {
                    assert(r@.funds =~= Seq::<Coin>::empty());
                }
                r
            },
            AssetInfoBase::NativeToken { denom } => {
                let mut funds: Vec<Coin> = Vec::new();
                funds.push(Coin { denom: denom.clone(), amount: asset.amount });
                let r = WasmExecute {
                    contract_addr: self.contract_addr.clone(),
                    msg: ExecutePayload::LegacyRedBank(
                        ExecuteMsg::RepayNative { denom: denom.clone() },
                    ),
                    funds,
                };
                proof {
                    assert(r@.funds =~= seq![
                        Coin { denom: asset.info->denom, amount: asset.amount },
                    ]);
                }
                r
            },
        }
    }

    /// Reads the borrower's debt in `denom` out of the market's debt
    /// report. Fails with a query error if the report does not mention
    /// the denomination.
    pub fn query_debt(&self, response: &DebtResponse, denom: &String) -> (r: VaultResult<u128>)
        ensures
            r == spec_debt_amount(response.debts@, denom@),
    {
        let n = response.debts.len();
        let mut i: usize = 0;
        proof {
            assert(response.debts@.skip(0) =~= response.debts@);
        }
        while i < n
            invariant
                n == response.debts@.len(),
                i <= n,
                spec_debt_amount(response.debts@, denom@) == spec_debt_amount(
                    response.debts@.skip(i as int),
                    denom@,
                ),
            decreases n - i,
        {
            proof {
                assert(response.debts@.skip(i as int)[0] == response.debts@[i as int]);
                assert(response.debts@.skip(i as int).drop_first() =~= response.debts@.skip(
                    i as int + 1,
                ));
            }
            if response.debts[i].denom == *denom {
                return Ok(response.debts[i].amount);
            }
            i += 1;
        }
        proof {
            assert(response.debts@.skip(n as int).len() == 0);
        }
        Err(VaultError::Query)
    }
}

} // verus!
