//! The price-oracle adapter. Price queries themselves are a host
//! round-trip and happen at the host boundary; this core receives the
//! prices as plain values.

use vstd::prelude::*;

use crate::addr::{spec_validate, validate, Addr};
use crate::error::{VaultError, VaultResult};

verus! {

/// The oracle adapter.
#[derive(Debug, PartialEq, Eq)]
pub struct OracleBase<T> {
    /// Address of the oracle contract.
    pub contract_addr: T,
}

/// Oracle adapter carrying a raw address.
pub type OracleUnchecked = OracleBase<String>;

/// Oracle adapter carrying a validated address.
pub type Oracle = OracleBase<Addr>;

/// What [`OracleUnchecked::check`] returns for a given raw adapter.
pub open spec fn spec_check_oracle(u: OracleUnchecked) -> VaultResult<Oracle> {
    match spec_validate(u.contract_addr) {
        Ok(a) => Ok(OracleBase { contract_addr: a }),
        Err(e) => Err(e),
    }
}

impl From<Oracle> for OracleUnchecked {
    /// Pure string projection; always succeeds.
    fn from(oracle: Oracle) -> (r: Self) {
        OracleBase { contract_addr: oracle.contract_addr.0 }
    }
}

impl vstd::std_specs::convert::FromSpecImpl<Oracle> for OracleUnchecked {
    open spec fn obeys_from_spec() -> bool {
        true
    }

    open spec fn from_spec(oracle: Oracle) -> Self {
        OracleBase { contract_addr: oracle.contract_addr.0 }
    }
}

impl OracleUnchecked {
    /// Validates the embedded address; no external call.
    pub fn check(&self) -> (r: VaultResult<Oracle>)
        ensures
            r == spec_check_oracle(*self),
            r matches Ok(o) ==> o.contract_addr.is_valid(),
    {
        match validate(&self.contract_addr) {
            Ok(a) => Ok(OracleBase { contract_addr: a }),
            Err(e) => Err(e),
        }
    }
}

/// Checking the string projection of a valid oracle adapter gives back
/// the same adapter.
pub proof fn lemma_oracle_roundtrip(o: Oracle)
    requires
        o.contract_addr.is_valid(),
    ensures
        spec_check_oracle(OracleBase { contract_addr: o.contract_addr.0 }) == Ok::<
            Oracle,
            VaultError,
        >(o),
{
}

} // verus!
