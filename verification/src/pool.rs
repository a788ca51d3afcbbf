//! The AMM pair adapter: builds liquidity and swap instructions and parses
//! the pair contract's pool report.

use vstd::prelude::*;

use crate::addr::{spec_validate, validate, Addr};
use crate::asset::{raw_info_eq, Asset, AssetBase, AssetInfoBase, AssetInfoUnchecked};
use crate::error::{VaultError, VaultResult};
use crate::state::Ratio;
use crate::wire::{views_of, Coin, Cw20ExecuteMsg, ExecutePayload, HookMsg, WasmExecute,
    WasmExecuteView};

verus! {

/// The pair adapter: the pair contract and its LP share token.
#[derive(Debug, PartialEq, Eq)]
pub struct PoolBase<T> {
    /// Address of the AMM pair contract.
    pub pair: T,
    /// Address of the pair's LP share token.
    pub share_token: T,
}

/// Pair adapter carrying raw addresses, as configuration supplies them.
pub type PoolUnchecked = PoolBase<String>;

/// Pair adapter carrying validated addresses.
pub type Pool = PoolBase<Addr>;

/// The outbound subset of the pair contract's own message set.
#[derive(Debug, PartialEq, Eq)]
pub enum HandleMsg {
    ProvideLiquidity { assets: (Asset, Asset), slippage_tolerance: Option<Ratio> },
    Swap {
        offer_asset: Asset,
        belief_price: Option<Ratio>,
        max_spread: Option<Ratio>,
        to: Option<String>,
    },
}

/// Messages handed to the pair through a token transfer.
#[derive(Debug, PartialEq, Eq)]
pub enum Cw20HookMsg {
    Swap { belief_price: Option<Ratio>, max_spread: Option<Ratio>, to: Option<String> },
    WithdrawLiquidity,
}

/// The pair contract's query set.
#[derive(Debug, PartialEq, Eq)]
pub enum QueryMsg {
    Pool,
    Simulation { offer_asset: Asset },
}

/// The pair contract's pool report: its two reserves and the LP supply.
/// Asset identities arrive raw, exactly as the external protocol sends
/// them.
#[derive(Debug, PartialEq, Eq)]
pub struct PoolResponse {
    pub assets: [AssetBase<String>; 2],
    pub total_share: u128,
}

/// The pair contract's swap simulation report.
#[derive(Debug, PartialEq, Eq)]
pub struct SimulationResponse {
    pub return_amount: u128,
    pub spread_amount: u128,
    pub commission_amount: u128,
}

/// A pool report resolved against the vault's two assets.
#[derive(Clone, Copy, Debug, PartialEq, Eq, Structural)]
pub struct PoolResponseParsed {
    /// Reserve of the primary asset.
    pub primary_asset_depth: u128,
    /// Reserve of the secondary asset.
    pub secondary_asset_depth: u128,
    /// Total supply of the LP share token.
    pub share_token_supply: u128,
}

/// What [`Pool::from_unchecked`] returns for a given raw adapter.
pub open spec fn spec_pool_from_unchecked(u: PoolUnchecked) -> VaultResult<Pool> {
    match spec_validate(u.pair) {
        Ok(pair) => match spec_validate(u.share_token) {
            Ok(share_token) => Ok(PoolBase { pair, share_token }),
            Err(e) => Err(e),
        },
        Err(e) => Err(e),
    }
}

impl From<Pool> for PoolUnchecked {
    /// Pure string projection; always succeeds.
    fn from(pool: Pool) -> (r: Self) {
        PoolBase { pair: pool.pair.0, share_token: pool.share_token.0 }
    }
}

impl vstd::std_specs::convert::FromSpecImpl<Pool> for PoolUnchecked {
    open spec fn obeys_from_spec() -> bool {
        true
    }

    open spec fn from_spec(pool: Pool) -> Self {
        PoolBase { pair: pool.pair.0, share_token: pool.share_token.0 }
    }
}

impl Pool {
    /// Both embedded addresses are syntactically valid.
    pub open spec fn is_valid(&self) -> bool {
        self.pair.is_valid() && self.share_token.is_valid()
    }

    /// Validates both embedded addresses; no external call.
    pub fn from_unchecked(pool_unchecked: PoolUnchecked) -> (r: VaultResult<Self>)
        ensures
            r == spec_pool_from_unchecked(pool_unchecked),
            r matches Ok(p) ==> p.is_valid(),
    {
        let pair = match validate(&pool_unchecked.pair) {
            Ok(a) => a,
            Err(e) => {
                return Err(e);
            },
        };
        let share_token = match validate(&pool_unchecked.share_token) {
            Ok(a) => a,
            Err(e) => {
                return Err(e);
            },
        };
        Ok(PoolBase { pair, share_token })
    }
}

/// The allowance instruction sent to a token before providing it, if the
/// asset is a token; a native asset needs none.
pub open spec fn spec_allowance_msgs(pool: Pool, a: Asset) -> Seq<WasmExecuteView> {
    match a.info {
        AssetInfoBase::Token { contract_addr } => seq![
            WasmExecuteView {
                contract_addr: contract_addr.0,
                msg: ExecutePayload::Cw20(
                    Cw20ExecuteMsg::IncreaseAllowance { spender: pool.pair.0, amount: a.amount },
                ),
                funds: Seq::empty(),
            },
        ],
        AssetInfoBase::NativeToken { .. } => Seq::empty(),
    }
}

/// The coins attached to the provide instruction for one asset: the
/// amount itself if the asset is native, nothing for a token.
pub open spec fn spec_provide_funds(a: Asset) -> Seq<Coin> {
    match a.info {
        AssetInfoBase::NativeToken { denom } => seq![Coin { denom, amount: a.amount }],
        AssetInfoBase::Token { .. } => Seq::empty(),
    }
}

/// The instruction batch that provides the two assets to the pair: one
/// allowance per token asset, then the provide call carrying the native
/// coins.
pub open spec fn spec_provide_msgs(pool: Pool, a0: Asset, a1: Asset) -> Seq<WasmExecuteView> {
    spec_allowance_msgs(pool, a0) + spec_allowance_msgs(pool, a1) + seq![
        WasmExecuteView {
            contract_addr: pool.pair.0,
            msg: ExecutePayload::Pair(
                HandleMsg::ProvideLiquidity { assets: (a0, a1), slippage_tolerance: None },
            ),
            funds: spec_provide_funds(a0) + spec_provide_funds(a1),
        },
    ]
}

/// The instruction that swaps one asset through the pair: a token is sent
/// to the pair with a swap hook, a native coin is attached to a direct
/// swap call.
pub open spec fn spec_pool_swap_msg(pool: Pool, a: Asset) -> WasmExecuteView {
    match a.info {
        AssetInfoBase::Token { contract_addr } => WasmExecuteView {
            contract_addr: contract_addr.0,
            msg: ExecutePayload::Cw20(
                Cw20ExecuteMsg::Send {
                    contract: pool.pair.0,
                    amount: a.amount,
                    msg: HookMsg::Pair(
                        Cw20HookMsg::Swap { belief_price: None, max_spread: None, to: None },
                    ),
                },
            ),
            funds: Seq::empty(),
        },
        AssetInfoBase::NativeToken { denom } => WasmExecuteView {
            contract_addr: pool.pair.0,
            msg: ExecutePayload::Pair(
                HandleMsg::Swap {
                    offer_asset: a,
                    belief_price: None,
                    max_spread: None,
                    to: None,
                },
            ),
            funds: seq![Coin { denom, amount: a.amount }],
        },
    }
}

/// What [`Pool::query_pool`] resolves a raw pool report to: the reserve
/// of each requested asset, or a query error if the report does not
/// mention it. An asset absent from the report is a hard error, never a
/// zero reserve.
pub open spec fn spec_parse_pool(
    response: PoolResponse,
    primary: AssetInfoUnchecked,
    secondary: AssetInfoUnchecked,
) -> VaultResult<PoolResponseParsed> {
    if !raw_info_eq(response.assets[0].info, primary) && !raw_info_eq(
        response.assets[1].info,
        primary,
    ) {
        Err(VaultError::Query)
    } else if !raw_info_eq(response.assets[0].info, secondary) && !raw_info_eq(
        response.assets[1].info,
        secondary,
    ) {
        Err(VaultError::Query)
    } else {
        Ok(
            PoolResponseParsed {
                primary_asset_depth: if raw_info_eq(response.assets[0].info, primary) {
                    response.assets[0].amount
                } else {
                    response.assets[1].amount
                },
                secondary_asset_depth: if raw_info_eq(response.assets[0].info, secondary) {
                    response.assets[0].amount
                } else {
                    response.assets[1].amount
                },
                share_token_supply: response.total_share,
            },
        )
    }
}

impl Pool {
    /// Builds the instructions that provide the two assets as liquidity.
    /// No slippage tolerance is specified.
    pub fn provide_msgs(&self, assets: &[Asset; 2]) -> (r: Vec<WasmExecute>)
        ensures
            views_of(r@) == spec_provide_msgs(*self, assets[0], assets[1]),
    {
        let mut messages: Vec<WasmExecute> = Vec::new();
        let mut funds: Vec<Coin> = Vec::new();
        match &assets[0].info {
            AssetInfoBase::Token { contract_addr } => {
                messages.push(
                    WasmExecute {
                        contract_addr: contract_addr.as_string(),
                        msg: ExecutePayload::Cw20(
                            Cw20ExecuteMsg::IncreaseAllowance {
                                spender: self.pair.as_string(),
                                amount: assets[0].amount,
                            },
                        ),
                        funds: Vec::new(),
                    },
                );
            },
            AssetInfoBase::NativeToken { denom } => {
                funds.push(Coin { denom: denom.clone(), amount: assets[0].amount });
            },
        }
        match &assets[1].info {
            AssetInfoBase::Token { contract_addr } => {
                messages.push(
                    WasmExecute {
                        contract_addr: contract_addr.as_string(),
                        msg: ExecutePayload::Cw20(
                            Cw20ExecuteMsg::IncreaseAllowance {
                                spender: self.pair.as_string(),
                                amount: assets[1].amount,
                            },
                        ),
                        funds: Vec::new(),
                    },
                );
            },
            AssetInfoBase::NativeToken { denom } => {
                funds.push(Coin { denom: denom.clone(), amount: assets[1].amount });
            },
        }
        messages.push(
            WasmExecute {
                contract_addr: self.pair.as_string(),
                msg: ExecutePayload::Pair(
                    HandleMsg::ProvideLiquidity {
                        assets: (assets[0].clone(), assets[1].clone()),
                        slippage_tolerance: None,
                    },
                ),
                funds,
            },
        );
        proof {
            assert(views_of(messages@) =~~= spec_provide_msgs(*self, assets[0], assets[1]));
        }
        messages
    }

    /// Builds the instruction that burns `shares` LP tokens for the
    /// underlying reserves: the share token is sent back to the pair with
    /// a withdraw hook.
    pub fn withdraw_msg(&self, shares: u128) -> (r: WasmExecute)
        ensures
            r@ == (WasmExecuteView {
                contract_addr: self.share_token.0,
                msg: ExecutePayload::Cw20(
                    Cw20ExecuteMsg::Send {
                        contract: self.pair.0,
                        amount: shares,
                        msg: HookMsg::Pair(Cw20HookMsg::WithdrawLiquidity),
                    },
                ),
                funds: Seq::empty(),
            }),
    {
        let r = WasmExecute {
            contract_addr: self.share_token.as_string(),
            msg: ExecutePayload::Cw20(
                Cw20ExecuteMsg::Send {
                    contract: self.pair.as_string(),
                    amount: shares,
                    msg: HookMsg::Pair(Cw20HookMsg::WithdrawLiquidity),
                },
            ),
            funds: Vec::new(),
        };
        proof {
            assert(r@.funds =~= Seq::<Coin>::empty());
        }
        r
    }

    /// Builds the instruction that swaps `asset` through the pair. No
    /// slippage tolerance is specified.
    pub fn swap_msg(&self, asset: &Asset) -> (r: WasmExecute)
        ensures
            r@ == spec_pool_swap_msg(*self, *asset),
    {
        match &asset.info {
            AssetInfoBase::Token { contract_addr } => {
                let r = WasmExecute {
                    contract_addr: contract_addr.as_string(),
                    msg: ExecutePayload::Cw20(
                        Cw20ExecuteMsg::Send {
                            contract: self.pair.as_string(),
                            amount: asset.amount,
                            msg: HookMsg::Pair(
                                Cw20HookMsg::Swap {
                                    belief_price: None,
                                    max_spread: None,
                                    to: None,
                                },
                            ),
                        },
                    ),
                    funds: Vec::new(),
                };
                proof {
                    assert(r@.funds =~= Seq::<Coin>::empty());
                }
                r
            },
            AssetInfoBase::NativeToken { denom } => {
                let mut funds: Vec<Coin> = Vec::new();
                funds.push(Coin { denom: denom.clone(), amount: asset.amount });
                let r = WasmExecute {
                    contract_addr: self.pair.as_string(),
                    msg: ExecutePayload::Pair(
                        HandleMsg::Swap {
                            offer_asset: asset.clone(),
                            belief_price: None,
                            max_spread: None,
                            to: None,
                        },
                    ),
                    funds,
                };
                proof {
                    assert(r@.funds =~= seq![Coin { denom: asset.info->denom, amount: asset.amount }]);
                }
                r
            },
        }
    }

    /// Resolves a raw pool report against the vault's two assets. Fails
    /// with a query error if either asset is absent from the report.
    pub fn query_pool(
        &self,
        response: &PoolResponse,
        primary_asset_info: &AssetInfoUnchecked,
        secondary_asset_info: &AssetInfoUnchecked,
    ) -> (r: VaultResult<PoolResponseParsed>)
        ensures
            r == spec_parse_pool(*response, *primary_asset_info, *secondary_asset_info),
    {
        let primary_asset_depth = if response.assets[0].info.same_asset(primary_asset_info) {
            response.assets[0].amount
        } else if response.assets[1].info.same_asset(primary_asset_info) {
            response.assets[1].amount
        } else {
            return Err(VaultError::Query);
        };
        let secondary_asset_depth = if response.assets[0].info.same_asset(secondary_asset_info) {
            response.assets[0].amount
        } else if response.assets[1].info.same_asset(secondary_asset_info) {
            response.assets[1].amount
        } else {
            return Err(VaultError::Query);
        };
        Ok(
            PoolResponseParsed {
                primary_asset_depth,
                secondary_asset_depth,
                share_token_supply: response.total_share,
            },
        )
    }
}

/// Checking the string projection of a valid pair adapter gives back the
/// same adapter.
pub proof fn lemma_pool_roundtrip(pool: Pool)
    requires
        pool.is_valid(),
    ensures
        spec_pool_from_unchecked(
            PoolBase { pair: pool.pair.0, share_token: pool.share_token.0 },
        ) == Ok::<Pool, VaultError>(pool),
{
}

} // verus!
