//! The swap-router adapter: builds the instruction that swaps an asset
//! along a route of asset identities.

use vstd::prelude::*;

use crate::addr::{spec_validate, validate, Addr};
use crate::asset::{Asset, AssetInfo, AssetInfoBase};
use crate::error::{VaultError, VaultResult};
use crate::wire::{Coin, Cw20ExecuteMsg, ExecutePayload, HookMsg, WasmExecute};

verus! {

/// One hop of a swap route.
#[derive(Debug, PartialEq, Eq)]
pub enum SwapOperation {
    AstroSwap { offer_asset_info: AssetInfo, ask_asset_info: AssetInfo },
}

/// The outbound subset of the router's message set.
#[derive(Debug, PartialEq, Eq)]
pub enum RouterExecuteMsg {
    ExecuteSwapOperations {
        operations: Vec<SwapOperation>,
        minimum_receive: Option<u128>,
        to: Option<String>,
    },
}

/// Messages handed to the router through a token transfer.
#[derive(Debug, PartialEq, Eq)]
pub enum RouterCw20HookMsg {
    ExecuteSwapOperations {
        operations: Vec<SwapOperation>,
        minimum_receive: Option<u128>,
        to: Option<String>,
    },
}

/// The router adapter.
#[derive(Debug, PartialEq, Eq)]
pub struct RouterBase<T> {
    /// Address of the router contract.
    pub contract_addr: T,
}

/// Router adapter carrying a raw address.
pub type RouterUnchecked = RouterBase<String>;

/// Router adapter carrying a validated address.
pub type Router = RouterBase<Addr>;

/// What [`RouterUnchecked::check`] returns for a given raw adapter.
pub open spec fn spec_check_router(u: RouterUnchecked) -> VaultResult<Router> {
    match spec_validate(u.contract_addr) {
        Ok(a) => Ok(RouterBase { contract_addr: a }),
        Err(e) => Err(e),
    }
}

impl From<Router> for RouterUnchecked {
    /// Pure string projection; always succeeds.
    fn from(router: Router) -> (r: Self) {
        RouterBase { contract_addr: router.contract_addr.0 }
    }
}

impl vstd::std_specs::convert::FromSpecImpl<Router> for RouterUnchecked {
    open spec fn obeys_from_spec() -> bool {
        true
    }

    open spec fn from_spec(router: Router) -> Self {
        RouterBase { contract_addr: router.contract_addr.0 }
    }
}

impl RouterUnchecked {
    /// Validates the embedded address; no external call.
    pub fn check(&self) -> (r: VaultResult<Router>)
        ensures
            r == spec_check_router(*self),
            r matches Ok(router) ==> router.contract_addr.is_valid(),
    {
        match validate(&self.contract_addr) {
            Ok(a) => Ok(RouterBase { contract_addr: a }),
            Err(e) => Err(e),
        }
    }
}

/// One hop per adjacent pair of the route, in order.
pub open spec fn spec_swap_operations(route: Seq<AssetInfo>) -> Seq<SwapOperation> {
    if route.len() == 0 {
        Seq::empty()
    } else {
        Seq::new(
            (route.len() - 1) as nat,
            |i: int|
                SwapOperation::AstroSwap {
                    offer_asset_info: route[i],
                    ask_asset_info: route[i + 1],
                },
        )
    }
}

/// The string projection of an optional recipient.
pub open spec fn spec_recipient(to: Option<Addr>) -> Option<String> {
    match to {
        Some(a) => Some(a.0),
        None => None,
    }
}

impl Router {
    /// Creates a router adapter for the given contract.
    pub fn new(contract_addr: &Addr) -> (r: Self)
        ensures
            r.contract_addr == *contract_addr,
    {
        RouterBase { contract_addr: contract_addr.clone() }
    }

    /// Builds the instruction that swaps `start_asset` along `assets`:
    /// one hop per adjacent pair, ending in the last identity of the
    /// route. `start_asset`'s own identity is expected to open the route.
    pub fn swap_msg(
        &self,
        start_asset: Asset,
        assets: Vec<AssetInfo>,
        minimum_receive: Option<u128>,
        to: Option<Addr>,
    ) -> (r: WasmExecute)
        ensures
            start_asset.info matches AssetInfoBase::Token { contract_addr } ==> {
                &&& r@.contract_addr == contract_addr.0
                &&& r@.funds == Seq::<Coin>::empty()
                &&& r@.msg matches ExecutePayload::Cw20(Cw20ExecuteMsg::Send {
                    contract,
                    amount,
                    msg,
                })
                &&& contract == self.contract_addr.0
                &&& amount == start_asset.amount
                &&& msg matches HookMsg::Router(RouterCw20HookMsg::ExecuteSwapOperations {
                    operations,
                    minimum_receive: mr,
                    to: t,
                })
                &&& operations@ == spec_swap_operations(assets@)
                &&& mr == minimum_receive
                &&& t == spec_recipient(to)
            },
            start_asset.info matches AssetInfoBase::NativeToken { denom } ==> {
                &&& r@.contract_addr == self.contract_addr.0
                &&& r@.funds == seq![Coin { denom, amount: start_asset.amount }]
                &&& r@.msg matches ExecutePayload::Router(RouterExecuteMsg::ExecuteSwapOperations {
                    operations,
                    minimum_receive: mr,
                    to: t,
                })
                &&& operations@ == spec_swap_operations(assets@)
                &&& mr == minimum_receive
                &&& t == spec_recipient(to)
            },
    {
        let route_len = assets.len();
        let mut operations: Vec<SwapOperation> = Vec::new();
        let mut i: usize = 1;
        while i < route_len
            invariant
                route_len == assets@.len(),
                1 <= i,
                route_len > 0 ==> i <= route_len,
                route_len == 0 ==> i == 1,
                operations@.len() == i - 1,
                forall|j: int|
                    0 <= j < operations@.len() ==> operations@[j]
                        == (SwapOperation::AstroSwap {
                        offer_asset_info: assets@[j],
                        ask_asset_info: assets@[j + 1],
                    }),
            decreases route_len - i,
        {
            operations.push(
                SwapOperation::AstroSwap {
                    offer_asset_info: assets[i - 1].clone(),
                    ask_asset_info: assets[i].clone(),
                },
            );
            i += 1;
        }
        proof {
            assert(operations@ =~= spec_swap_operations(assets@));
        }
        let recipient: Option<String> = match to {
            Some(a) => Some(a.0),
            None => None,
        };
        match start_asset.info {
            AssetInfoBase::Token { contract_addr } => {
                let r = WasmExecute {
                    contract_addr: contract_addr.as_string(),
                    msg: ExecutePayload::Cw20(
                        Cw20ExecuteMsg::Send {
                            contract: self.contract_addr.as_string(),
                            amount: start_asset.amount,
                            msg: HookMsg::Router(
                                RouterCw20HookMsg::ExecuteSwapOperations {
                                    operations,
                                    minimum_receive,
                                    to: recipient,
                                },
                            ),
                        },
                    ),
                    funds: Vec::new(),
                };
                proof {
                    assert(r@.funds =~= Seq::<Coin>::empty());
                }
                r
            },
            AssetInfoBase::NativeToken { denom } => {
                let mut funds: Vec<Coin> = Vec::new();
                funds.push(Coin { denom: denom.clone(), amount: start_asset.amount });
                let r = WasmExecute {
                    contract_addr: self.contract_addr.as_string(),
                    msg: ExecutePayload::Router(
                        RouterExecuteMsg::ExecuteSwapOperations {
                            operations,
                            minimum_receive,
                            to: recipient,
                        },
                    ),
                    funds,
                };
                proof {
                    assert(r@.funds =~= seq![Coin { denom, amount: start_asset.amount }]);
                }
                r
            },
        }
    }
}

/// Checking the string projection of a valid router adapter gives back
/// the same adapter.
pub proof fn lemma_router_roundtrip(router: Router)
    requires
        router.contract_addr.is_valid(),
    ensures
        spec_check_router(RouterBase { contract_addr: router.contract_addr.0 }) == Ok::<
            Router,
            VaultError,
        >(router),
{
}

} // verus!
