//! The staking-generator adapter: builds the instructions that stake and
//! unstake LP tokens. The bonded-amount query is a host round-trip and
//! happens at the host boundary; this core receives the bonded amount as
//! a plain value.

use vstd::prelude::*;

use crate::addr::{spec_validate, validate, Addr};
use crate::error::{VaultError, VaultResult};
use crate::wire::{Coin, Cw20ExecuteMsg, ExecutePayload, HookMsg, WasmExecute, WasmExecuteView};

verus! {

/// The outbound subset of the generator's message set.
#[derive(Debug, PartialEq, Eq)]
pub enum GeneratorExecuteMsg {
    Withdraw { lp_token: String, amount: u128 },
}

/// Messages handed to the generator through a token transfer.
#[derive(Debug, PartialEq, Eq)]
pub enum GeneratorCw20HookMsg {
    Deposit,
}

/// The staking-generator adapter.
#[derive(Debug, PartialEq, Eq)]
pub struct GeneratorBase<T> {
    /// Address of the generator contract.
    pub contract_addr: T,
}

/// Generator adapter carrying a raw address.
pub type GeneratorUnchecked = GeneratorBase<String>;

/// Generator adapter carrying a validated address.
pub type Generator = GeneratorBase<Addr>;

/// What [`GeneratorUnchecked::check`] returns for a given raw adapter.
pub open spec fn spec_check_generator(u: GeneratorUnchecked) -> VaultResult<Generator> {
    match spec_validate(u.contract_addr) {
        Ok(a) => Ok(GeneratorBase { contract_addr: a }),
        Err(e) => Err(e),
    }
}

impl From<Generator> for GeneratorUnchecked {
    /// Pure string projection; always succeeds.
    fn from(generator: Generator) -> (r: Self) {
        GeneratorBase { contract_addr: generator.contract_addr.0 }
    }
}

impl vstd::std_specs::convert::FromSpecImpl<Generator> for GeneratorUnchecked {
    open spec fn obeys_from_spec() -> bool {
        true
    }

    open spec fn from_spec(generator: Generator) -> Self {
        GeneratorBase { contract_addr: generator.contract_addr.0 }
    }
}

impl GeneratorUnchecked {
    /// Validates the embedded address; no external call.
    pub fn check(&self) -> (r: VaultResult<Generator>)
        ensures
            r == spec_check_generator(*self),
            r matches Ok(g) ==> g.contract_addr.is_valid(),
    {
        match validate(&self.contract_addr) {
            Ok(a) => Ok(GeneratorBase { contract_addr: a }),
            Err(e) => Err(e),
        }
    }
}

impl Generator {
    /// Builds the instruction that stakes `amount` LP tokens: the tokens
    /// are sent to the generator with a deposit hook.
    pub fn stake_msg(&self, lp_token: &Addr, amount: u128) -> (r: WasmExecute)
        ensures
            r@ == (WasmExecuteView {
                contract_addr: lp_token.0,
                msg: ExecutePayload::Cw20(
                    Cw20ExecuteMsg::Send {
                        contract: self.contract_addr.0,
                        amount,
                        msg: HookMsg::Generator(GeneratorCw20HookMsg::Deposit),
                    },
                ),
                funds: Seq::empty(),
            }),
    {
        let r = WasmExecute {
            contract_addr: lp_token.as_string(),
            msg: ExecutePayload::Cw20(
                Cw20ExecuteMsg::Send {
                    contract: self.contract_addr.as_string(),
                    amount,
                    msg: HookMsg::Generator(GeneratorCw20HookMsg::Deposit),
                },
            ),
            funds: Vec::new(),
        };
        proof {
            assert(r@.funds =~= Seq::<Coin>::empty());
        }
        r
    }

    /// Builds the instruction that unstakes `amount` LP tokens.
    pub fn unstake_msg(&self, lp_token: &Addr, amount: u128) -> (r: WasmExecute)
        ensures
            r@ == (WasmExecuteView {
                contract_addr: self.contract_addr.0,
                msg: ExecutePayload::Generator(
                    GeneratorExecuteMsg::Withdraw { lp_token: lp_token.0, amount },
                ),
                funds: Seq::empty(),
            }),
    {
        let r = WasmExecute {
            contract_addr: self.contract_addr.as_string(),
            msg: ExecutePayload::Generator(
                GeneratorExecuteMsg::Withdraw { lp_token: lp_token.as_string(), amount },
            ),
            funds: Vec::new(),
        };
        proof {
            assert(r@.funds =~= Seq::<Coin>::empty());
        }
        r
    }
}

/// Checking the string projection of a valid generator adapter gives back
/// the same adapter.
pub proof fn lemma_generator_roundtrip(g: Generator)
    requires
        g.contract_addr.is_valid(),
    ensures
        spec_check_generator(GeneratorBase { contract_addr: g.contract_addr.0 }) == Ok::<
            Generator,
            VaultError,
        >(g),
{
}

} // verus!
