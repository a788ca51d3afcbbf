//! Fungible-asset descriptors.

use vstd::prelude::*;

use crate::addr::{spec_validate, validate, Addr};
use crate::error::VaultResult;

verus! {

/// Identifies a fungible asset: either a coin native to the host ledger or
/// a token issued by a contract. Identity equality only; no ordering.
#[derive(Debug, PartialEq, Eq)]
pub enum AssetInfoBase<T> {
    NativeToken { denom: String },
    Token { contract_addr: T },
}

/// Asset identity carrying a raw, unvalidated contract address.
pub type AssetInfoUnchecked = AssetInfoBase<String>;

/// Asset identity carrying a validated contract address.
pub type AssetInfo = AssetInfoBase<Addr>;

/// An amount of a fungible asset. The amount is unsigned and bounded only
/// by the 128-bit integer width.
#[derive(Debug, PartialEq, Eq)]
pub struct AssetBase<T> {
    pub info: AssetInfoBase<T>,
    pub amount: u128,
}

/// Asset carrying a raw contract address.
pub type AssetUnchecked = AssetBase<String>;

/// Asset carrying a validated contract address.
pub type Asset = AssetBase<Addr>;

/// What [`AssetInfoBase::check`] returns for a given unchecked identity.
pub open spec fn spec_check_asset_info(u: AssetInfoUnchecked) -> VaultResult<AssetInfo> {
    match u {
        AssetInfoBase::NativeToken { denom } => Ok(AssetInfoBase::NativeToken { denom }),
        AssetInfoBase::Token { contract_addr } => match spec_validate(contract_addr) {
            Ok(a) => Ok(AssetInfoBase::Token { contract_addr: a }),
            Err(e) => Err(e),
        },
    }
}

/// The raw projection of a checked identity.
pub open spec fn spec_info_unchecked(info: AssetInfo) -> AssetInfoUnchecked {
    match info {
        AssetInfoBase::NativeToken { denom } => AssetInfoBase::NativeToken::<String> { denom },
        AssetInfoBase::Token { contract_addr } => AssetInfoBase::Token::<String> {
            contract_addr: contract_addr.0,
        },
    }
}

/// Checking the raw projection of a valid identity gives back the same
/// identity.
pub proof fn lemma_asset_info_roundtrip(info: AssetInfo)
    requires
        info.is_valid(),
    ensures
        spec_check_asset_info(spec_info_unchecked(info)) == Ok::<AssetInfo, crate::error::VaultError>(
            info,
        ),
{
}

/// The two checked identities name the same asset.
pub open spec fn info_eq(a: AssetInfo, b: AssetInfo) -> bool {
    match (a, b) {
        (
            AssetInfoBase::NativeToken { denom: da },
            AssetInfoBase::NativeToken { denom: db },
        ) => da@ == db@,
        (
            AssetInfoBase::Token { contract_addr: ca },
            AssetInfoBase::Token { contract_addr: cb },
        ) => ca@ == cb@,
        _ => false,
    }
}

/// The two raw identities name the same asset.
pub open spec fn raw_info_eq(a: AssetInfoUnchecked, b: AssetInfoUnchecked) -> bool {
    match (a, b) {
        (
            AssetInfoBase::NativeToken { denom: da },
            AssetInfoBase::NativeToken { denom: db },
        ) => da@ == db@,
        (
            AssetInfoBase::Token { contract_addr: ca },
            AssetInfoBase::Token { contract_addr: cb },
        ) => ca@ == cb@,
        _ => false,
    }
}

impl AssetInfoBase<String> {
    /// Decides [`raw_info_eq`].
    pub fn same_asset(&self, other: &Self) -> (r: bool)
        ensures
            r == raw_info_eq(*self, *other),
    {
        match self {
            AssetInfoBase::NativeToken { denom: da } => match other {
                AssetInfoBase::NativeToken { denom: db } => *da == *db,
                _ => false,
            },
            AssetInfoBase::Token { contract_addr: ca } => match other {
                AssetInfoBase::Token { contract_addr: cb } => *ca == *cb,
                _ => false,
            },
        }
    }

    /// Validates the embedded contract address, if any; no external call.
    pub fn check(&self) -> (r: VaultResult<AssetInfo>)
        ensures
            r == spec_check_asset_info(*self),
    {
        match self {
            AssetInfoBase::NativeToken { denom } => Ok(
                AssetInfoBase::NativeToken { denom: denom.clone() },
            ),
            AssetInfoBase::Token { contract_addr } => match validate(contract_addr) {
                Ok(a) => Ok(AssetInfoBase::Token { contract_addr: a }),
                Err(e) => Err(e),
            },
        }
    }
}

impl AssetInfoBase<Addr> {
    /// Every embedded contract address is syntactically valid.
    pub open spec fn is_valid(&self) -> bool {
        match self {
            AssetInfoBase::NativeToken { .. } => true,
            AssetInfoBase::Token { contract_addr } => contract_addr.is_valid(),
        }
    }

    /// Pure string projection; always succeeds.
    pub fn to_unchecked(&self) -> (r: AssetInfoUnchecked)
        ensures
            r == spec_info_unchecked(*self),
    {
        match self {
            AssetInfoBase::NativeToken { denom } => AssetInfoBase::NativeToken {
                denom: denom.clone(),
            },
            AssetInfoBase::Token { contract_addr } => AssetInfoBase::Token {
                contract_addr: contract_addr.as_string(),
            },
        }
    }

    /// Decides [`info_eq`].
    pub fn same_asset(&self, other: &AssetInfo) -> (r: bool)
        ensures
            r == info_eq(*self, *other),
    {
        match self {
            AssetInfoBase::NativeToken { denom: da } => match other {
                AssetInfoBase::NativeToken { denom: db } => *da == *db,
                _ => false,
            },
            AssetInfoBase::Token { contract_addr: ca } => match other {
                AssetInfoBase::Token { contract_addr: cb } => ca.0 == cb.0,
                _ => false,
            },
        }
    }
}

impl Clone for AssetInfoBase<Addr> {
    fn clone(&self) -> (r: Self)
        ensures
            r == *self,
    {
        match self {
            AssetInfoBase::NativeToken { denom } => AssetInfoBase::NativeToken {
                denom: denom.clone(),
            },
            AssetInfoBase::Token { contract_addr } => AssetInfoBase::Token {
                contract_addr: contract_addr.clone(),
            },
        }
    }
}

impl Clone for AssetBase<Addr> {
    fn clone(&self) -> (r: Self)
        ensures
            r == *self,
    {
        AssetBase { info: self.info.clone(), amount: self.amount }
    }
}

impl AssetBase<String> {
    /// Validates the embedded contract address, if any; no external call.
    pub fn check(&self) -> (r: VaultResult<Asset>)
        ensures
            r == (match spec_check_asset_info(self.info) {
                Ok(info) => Ok(AssetBase::<Addr> { info, amount: self.amount }),
                Err(e) => Err::<Asset, _>(e),
            }),
    {
        match self.info.check() {
            Ok(info) => Ok(AssetBase { info, amount: self.amount }),
            Err(e) => Err(e),
        }
    }
}

impl AssetBase<Addr> {
    /// Every embedded contract address is syntactically valid.
    pub open spec fn is_valid(&self) -> bool {
        self.info.is_valid()
    }
}

} // verus!
