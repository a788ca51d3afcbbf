//! The lending-market adapter: builds borrow and repay instructions in
//! the market's wire vocabulary. The user-debt query is a host round-trip
//! whose report already carries the plain debt amount, so it happens at
//! the host boundary.

use vstd::prelude::*;

use crate::addr::{spec_validate, validate, Addr};
use crate::asset::{Asset, AssetInfo, AssetInfoBase};
use crate::error::{VaultError, VaultResult};
use crate::wire::{Coin, Cw20ExecuteMsg, ExecutePayload, HookMsg, WasmExecute, WasmExecuteView};

verus! {

/// An asset in the market's own vocabulary.
#[derive(Debug, PartialEq, Eq)]
pub enum MarsAsset {
    Cw20 { contract_addr: String },
    Native { denom: String },
}

/// The market's reading of one of the vault's asset identities.
pub open spec fn spec_mars_asset(info: AssetInfo) -> MarsAsset {
    match info {
        AssetInfoBase::Token { contract_addr } => MarsAsset::Cw20 {
            contract_addr: contract_addr.0,
        },
        AssetInfoBase::NativeToken { denom } => MarsAsset::Native { denom },
    }
}

impl From<AssetInfo> for MarsAsset {
    fn from(asset_info: AssetInfo) -> (r: Self) {
        match asset_info {
            AssetInfoBase::Token { contract_addr } => MarsAsset::Cw20 {
                contract_addr: contract_addr.0,
            },
            AssetInfoBase::NativeToken { denom } => MarsAsset::Native { denom },
        }
    }
}

impl vstd::std_specs::convert::FromSpecImpl<AssetInfo> for MarsAsset {
    open spec fn obeys_from_spec() -> bool {
        true
    }

    open spec fn from_spec(asset_info: AssetInfo) -> Self {
        spec_mars_asset(asset_info)
    }
}

/// The outbound subset of the market's message set.
#[derive(Debug, PartialEq, Eq)]
pub enum ExecuteMsg {
    Borrow { asset: MarsAsset, amount: u128 },
    RepayNative { denom: String },
}

/// Messages handed to the market through a token transfer.
#[derive(Debug, PartialEq, Eq)]
pub enum ReceiveMsg {
    RepayCw20,
}

/// The lending-market adapter.
#[derive(Debug, PartialEq, Eq)]
pub struct RedBankBase<T> {
    /// Address of the lending market.
    pub contract_addr: T,
}

/// Market adapter carrying a raw address.
pub type RedBankUnchecked = RedBankBase<String>;

/// Market adapter carrying a validated address.
pub type RedBank = RedBankBase<Addr>;

/// What [`RedBankUnchecked::check`] returns for a given raw adapter.
pub open spec fn spec_check_red_bank(u: RedBankUnchecked) -> VaultResult<RedBank> {
    match spec_validate(u.contract_addr) {
        Ok(a) => Ok(RedBankBase { contract_addr: a }),
        Err(e) => Err(e),
    }
}

impl From<RedBank> for RedBankUnchecked {
    /// Pure string projection; always succeeds.
    fn from(red_bank: RedBank) -> (r: Self) {
        RedBankBase { contract_addr: red_bank.contract_addr.0 }
    }
}

impl vstd::std_specs::convert::FromSpecImpl<RedBank> for RedBankUnchecked {
    open spec fn obeys_from_spec() -> bool {
        true
    }

    open spec fn from_spec(red_bank: RedBank) -> Self {
        RedBankBase { contract_addr: red_bank.contract_addr.0 }
    }
}

impl RedBankUnchecked {
    /// Validates the embedded address; no external call.
    pub fn check(&self) -> (r: VaultResult<RedBank>)
        ensures
            r == spec_check_red_bank(*self),
            r matches Ok(b) ==> b.contract_addr.is_valid(),
    {
        match validate(&self.contract_addr) {
            Ok(a) => Ok(RedBankBase { contract_addr: a }),
            Err(e) => Err(e),
        }
    }
}

/// The instruction that repays `asset` to the market: a token is sent
/// with a repay hook, a native coin is attached to a direct repay call.
pub open spec fn spec_repay_msg(market: RedBank, a: Asset) -> WasmExecuteView {
    match a.info {
        AssetInfoBase::Token { contract_addr } => WasmExecuteView {
            contract_addr: contract_addr.0,
            msg: ExecutePayload::Cw20(
                Cw20ExecuteMsg::Send {
                    contract: market.contract_addr.0,
                    amount: a.amount,
                    msg: HookMsg::RedBank(ReceiveMsg::RepayCw20),
                },
            ),
            funds: Seq::empty(),
        },
        AssetInfoBase::NativeToken { denom } => WasmExecuteView {
            contract_addr: market.contract_addr.0,
            msg: ExecutePayload::RedBank(ExecuteMsg::RepayNative { denom }),
            funds: seq![Coin { denom, amount: a.amount }],
        },
    }
}

impl RedBank {
    /// Builds the instruction that borrows `asset` from the market.
    pub fn borrow_msg(&self, asset: &Asset) -> (r: WasmExecute)
        ensures
            r@ == (WasmExecuteView {
                contract_addr: self.contract_addr.0,
                msg: ExecutePayload::RedBank(
                    ExecuteMsg::Borrow { asset: spec_mars_asset(asset.info), amount: asset.amount },
                ),
                funds: Seq::empty(),
            }),
    {
        let r = WasmExecute {
            contract_addr: self.contract_addr.as_string(),
            msg: ExecutePayload::RedBank(
                ExecuteMsg::Borrow {
                    asset: MarsAsset::from(asset.info.clone()),
                    amount: asset.amount,
                },
            ),
            funds: Vec::new(),
        };
        proof {
            assert(r@.funds =~= Seq::<Coin>::empty());
        }
        r
    }

    /// Builds the instruction that repays `asset` to the market. No tax
    /// is deducted here.
    pub fn repay_msg(&self, asset: &Asset) -> (r: WasmExecute)
        ensures
            r@ == spec_repay_msg(*self, *asset),
    {
        match &asset.info {
            AssetInfoBase::Token { contract_addr } => {
                let r = WasmExecute {
                    contract_addr: contract_addr.as_string(),
                    msg: ExecutePayload::Cw20(
                        Cw20ExecuteMsg::Send {
                            contract: self.contract_addr.as_string(),
                            amount: asset.amount,
                            msg: HookMsg::RedBank(ReceiveMsg::RepayCw20),
                        },
                    ),
                    funds: Vec::new(),
                };
                proof {
                    assert(r@.funds =~= Seq::<Coin>::empty());
                }
                r
            },
            AssetInfoBase::NativeToken { denom } => {
                let mut funds: Vec<Coin> = Vec::new();
                funds.push(Coin { denom: denom.clone(), amount: asset.amount });
                let r = WasmExecute {
                    contract_addr: self.contract_addr.as_string(),
                    msg: ExecutePayload::RedBank(ExecuteMsg::RepayNative { denom: denom.clone() }),
                    funds,
                };
                proof {
                    assert(r@.funds =~= seq![
                        Coin { denom: asset.info->denom, amount: asset.amount },
                    ]);
                }
                r
            },
        }
    }
}

/// Checking the string projection of a valid market adapter gives back
/// the same adapter.
pub proof fn lemma_red_bank_roundtrip(b: RedBank)
    requires
        b.contract_addr.is_valid(),
    ensures
        spec_check_red_bank(RedBankBase { contract_addr: b.contract_addr.0 }) == Ok::<
            RedBank,
            VaultError,
        >(b),
{
}

} // verus!
