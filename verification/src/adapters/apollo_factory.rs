//! The reward-factory adapter: builds the reward-update instruction that
//! must precede every change of a user's shares.

use vstd::prelude::*;

use crate::addr::{spec_validate, validate, Addr};
use crate::error::{VaultError, VaultResult};
use crate::wire::{Coin, ExecutePayload, WasmExecute, WasmExecuteView};

verus! {

/// The outbound subset of the factory's message set.
#[derive(Debug, PartialEq, Eq)]
pub enum ApolloFactoryExecuteMsg {
    UpdateUserRewards { user: String },
}

/// The factory adapter.
#[derive(Debug, PartialEq, Eq)]
pub struct ApolloFactoryBase<T> {
    /// Address of the factory contract.
    pub contract_addr: T,
}

/// Factory adapter carrying a raw address.
pub type ApolloFactoryUnchecked = ApolloFactoryBase<String>;

/// Factory adapter carrying a validated address.
pub type ApolloFactory = ApolloFactoryBase<Addr>;

/// What [`ApolloFactoryUnchecked::check`] returns for a given raw adapter.
pub open spec fn spec_check_apollo_factory(u: ApolloFactoryUnchecked) -> VaultResult<
    ApolloFactory,
> {
    match spec_validate(u.contract_addr) {
        Ok(a) => Ok(ApolloFactoryBase { contract_addr: a }),
        Err(e) => Err(e),
    }
}

impl From<ApolloFactory> for ApolloFactoryUnchecked {
    /// Pure string projection; always succeeds.
    fn from(apollo_factory: ApolloFactory) -> (r: Self) {
        ApolloFactoryBase { contract_addr: apollo_factory.contract_addr.0 }
    }
}

impl vstd::std_specs::convert::FromSpecImpl<ApolloFactory> for ApolloFactoryUnchecked {
    open spec fn obeys_from_spec() -> bool {
        true
    }

    open spec fn from_spec(apollo_factory: ApolloFactory) -> Self {
        ApolloFactoryBase { contract_addr: apollo_factory.contract_addr.0 }
    }
}

impl ApolloFactoryUnchecked {
    /// Validates the embedded address; no external call.
    pub fn check(&self) -> (r: VaultResult<ApolloFactory>)
        ensures
            r == spec_check_apollo_factory(*self),
            r matches Ok(f) ==> f.contract_addr.is_valid(),
    {
        match validate(&self.contract_addr) {
            Ok(a) => Ok(ApolloFactoryBase { contract_addr: a }),
            Err(e) => Err(e),
        }
    }
}

impl ApolloFactory {
    /// Builds the instruction that updates `user`'s pending rewards.
    pub fn update_rewards_msg(&self, user: &Addr) -> (r: WasmExecute)
        ensures
            r@ == (WasmExecuteView {
                contract_addr: self.contract_addr.0,
                msg: ExecutePayload::ApolloFactory(
                    ApolloFactoryExecuteMsg::UpdateUserRewards { user: user.0 },
                ),
                funds: Seq::empty(),
            }),
    {
        let r = WasmExecute {
            contract_addr: self.contract_addr.as_string(),
            msg: ExecutePayload::ApolloFactory(
                ApolloFactoryExecuteMsg::UpdateUserRewards { user: user.as_string() },
            ),
            funds: Vec::new(),
        };
        proof {
            assert(r@.funds =~= Seq::<Coin>::empty());
        }
        r
    }
}

/// Checking the string projection of a valid factory adapter gives back
/// the same adapter.
pub proof fn lemma_apollo_factory_roundtrip(f: ApolloFactory)
    requires
        f.contract_addr.is_valid(),
    ensures
        spec_check_apollo_factory(ApolloFactoryBase { contract_addr: f.contract_addr.0 })
            == Ok::<ApolloFactory, VaultError>(f),
{
}

} // verus!
