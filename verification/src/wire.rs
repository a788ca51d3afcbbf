//! The instruction model: what the vault tells the host to execute.
//!
//! Builders in the adapter modules return these values. The host-facing
//! layer serializes each payload into the external protocol's published
//! wire format and dispatches it; keeping the instruction structured here
//! lets every builder's contract pin down exactly which message is built
//! for which input.

use vstd::prelude::*;

verus! {

/// An amount of a native coin attached to an instruction.
#[derive(Debug, PartialEq, Eq)]
pub struct Coin {
    pub denom: String,
    pub amount: u128,
}

impl Clone for Coin {
    fn clone(&self) -> (r: Self)
        ensures
            r == *self,
    {
        Coin { denom: self.denom.clone(), amount: self.amount }
    }
}

/// Messages carried inside a token transfer and handed to the receiving
/// contract.
#[derive(Debug, PartialEq, Eq)]
pub enum HookMsg {
    /// A hook of the AMM pair contract.
    Pair(crate::pool::Cw20HookMsg),
    /// A hook of the legacy lending market.
    LegacyRedBank(crate::red_bank::ReceiveMsg),
    /// A hook of the lending market.
    RedBank(crate::adapters::red_bank::ReceiveMsg),
    /// A hook of the staking generator.
    Generator(crate::adapters::astro_generator::GeneratorCw20HookMsg),
    /// A hook of the swap router.
    Router(crate::adapters::astro_router::RouterCw20HookMsg),
}

/// The token-contract messages this core builds.
#[derive(Debug, PartialEq, Eq)]
pub enum Cw20ExecuteMsg {
    /// Lets `spender` draw up to `amount` from the vault's balance.
    IncreaseAllowance { spender: String, amount: u128 },
    /// Transfers `amount` to `contract` and hands it `msg`.
    Send { contract: String, amount: u128, msg: HookMsg },
}

/// The top-level message of an instruction, in the receiving protocol's
/// own vocabulary.
#[derive(Debug, PartialEq, Eq)]
pub enum ExecutePayload {
    Cw20(Cw20ExecuteMsg),
    Pair(crate::pool::HandleMsg),
    LegacyRedBank(crate::red_bank::ExecuteMsg),
    RedBank(crate::adapters::red_bank::ExecuteMsg),
    Generator(crate::adapters::astro_generator::GeneratorExecuteMsg),
    Router(crate::adapters::astro_router::RouterExecuteMsg),
    ApolloFactory(crate::adapters::apollo_factory::ApolloFactoryExecuteMsg),
}

/// One outbound instruction: a contract to call, the message to hand it,
/// and the native coins to attach.
#[derive(Debug, PartialEq, Eq)]
pub struct WasmExecute {
    pub contract_addr: String,
    pub msg: ExecutePayload,
    pub funds: Vec<Coin>,
}

/// The mathematical model of an instruction: as [`WasmExecute`], with the
/// attached coins as a sequence.
#[verifier::ext_equal]
pub struct WasmExecuteView {
    pub contract_addr: String,
    pub msg: ExecutePayload,
    pub funds: Seq<Coin>,
}

impl View for WasmExecute {
    type V = WasmExecuteView;

    open spec fn view(&self) -> WasmExecuteView {
        WasmExecuteView { contract_addr: self.contract_addr, msg: self.msg, funds: self.funds@ }
    }
}

/// The models of a batch of instructions, in order.
pub open spec fn views_of(msgs: Seq<WasmExecute>) -> Seq<WasmExecuteView> {
    msgs.map_values(|m: WasmExecute| m@)
}

} // verus!
