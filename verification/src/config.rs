//! The vault's configuration: the addresses and adapters of every
//! external protocol it works with. Created at instantiation, changed
//! only by privileged update paths outside this core.

use vstd::prelude::*;

use crate::adapters::apollo_factory::{spec_check_apollo_factory, ApolloFactoryBase};
use crate::adapters::astro_generator::{spec_check_generator, GeneratorBase};
use crate::adapters::astro_router::{spec_check_router, RouterBase};
use crate::adapters::oracle::{spec_check_oracle, OracleBase};
use crate::adapters::red_bank::{spec_check_red_bank, RedBankBase};
use crate::addr::{spec_validate, validate, Addr};
use crate::asset::{spec_check_asset_info, spec_info_unchecked, AssetInfoBase};
use crate::error::{VaultError, VaultResult};
use crate::pool::{spec_pool_from_unchecked, Pool, PoolBase};

verus! {

/// The vault's configuration record.
#[derive(Debug, PartialEq, Eq)]
pub struct ConfigBase<T> {
    /// Identity of the asset users deposit.
    pub primary_asset_info: AssetInfoBase<T>,
    /// Identity of the asset the vault borrows.
    pub secondary_asset_info: AssetInfoBase<T>,
    /// The AMM pair holding both assets, and its LP token.
    pub primary_pair: PoolBase<T>,
    /// The staking generator the LP tokens are bonded with.
    pub astro_generator: GeneratorBase<T>,
    /// The lending market the secondary asset is borrowed from.
    pub red_bank: RedBankBase<T>,
    /// The oracle that prices both assets.
    pub oracle: OracleBase<T>,
    /// The router used for reward swaps.
    pub router: RouterBase<T>,
    /// The reward factory to notify before every share change.
    pub apollo_factory: ApolloFactoryBase<T>,
    /// The adapter answering yield queries.
    pub apr_query_adapter: T,
}

/// Configuration as supplied over the wire: raw addresses throughout.
pub type ConfigUnchecked = ConfigBase<String>;

/// Configuration as the core uses it: every address validated.
pub type Config = ConfigBase<Addr>;

/// The raw projection of a checked configuration.
pub open spec fn spec_config_unchecked(c: Config) -> ConfigUnchecked {
    ConfigBase {
        primary_asset_info: spec_info_unchecked(c.primary_asset_info),
        secondary_asset_info: spec_info_unchecked(c.secondary_asset_info),
        primary_pair: PoolBase {
            pair: c.primary_pair.pair.0,
            share_token: c.primary_pair.share_token.0,
        },
        astro_generator: GeneratorBase { contract_addr: c.astro_generator.contract_addr.0 },
        red_bank: RedBankBase { contract_addr: c.red_bank.contract_addr.0 },
        oracle: OracleBase { contract_addr: c.oracle.contract_addr.0 },
        router: RouterBase { contract_addr: c.router.contract_addr.0 },
        apollo_factory: ApolloFactoryBase { contract_addr: c.apollo_factory.contract_addr.0 },
        apr_query_adapter: c.apr_query_adapter.0,
    }
}

/// What [`ConfigUnchecked::check`] returns: the checked configuration, or
/// the first validation failure in field order.
pub open spec fn spec_check_config(u: ConfigUnchecked) -> VaultResult<Config> {
    match spec_check_asset_info(u.primary_asset_info) {
        Err(e) => Err(e),
        Ok(primary_asset_info) => match spec_check_asset_info(u.secondary_asset_info) {
            Err(e) => Err(e),
            Ok(secondary_asset_info) => match spec_pool_from_unchecked(u.primary_pair) {
                Err(e) => Err(e),
                Ok(primary_pair) => match spec_check_generator(u.astro_generator) {
                    Err(e) => Err(e),
                    Ok(astro_generator) => match spec_check_red_bank(u.red_bank) {
                        Err(e) => Err(e),
                        Ok(red_bank) => match spec_check_oracle(u.oracle) {
                            Err(e) => Err(e),
                            Ok(oracle) => match spec_check_router(u.router) {
                                Err(e) => Err(e),
                                Ok(router) => match spec_check_apollo_factory(u.apollo_factory) {
                                    Err(e) => Err(e),
                                    Ok(apollo_factory) => match spec_validate(u.apr_query_adapter) {
                                        Err(e) => Err(e),
                                        Ok(apr_query_adapter) => Ok(
                                            ConfigBase {
                                                primary_asset_info,
                                                secondary_asset_info,
                                                primary_pair,
                                                astro_generator,
                                                red_bank,
                                                oracle,
                                                router,
                                                apollo_factory,
                                                apr_query_adapter,
                                            },
                                        ),
                                    },
                                },
                            },
                        },
                    },
                },
            },
        },
    }
}

impl ConfigBase<String> {
    /// Validates every embedded address; no external call.
    pub fn check(&self) -> (r: VaultResult<Config>)
        ensures
            r == spec_check_config(*self),
    {
        let primary_asset_info = match self.primary_asset_info.check() {
            Ok(v) => v,
            Err(e) => {
                return Err(e);
            },
        };
        let secondary_asset_info = match self.secondary_asset_info.check() {
            Ok(v) => v,
            Err(e) => {
                return Err(e);
            },
        };
        let primary_pair = match Pool::from_unchecked(
            PoolBase {
                pair: self.primary_pair.pair.clone(),
                share_token: self.primary_pair.share_token.clone(),
            },
        ) {
            Ok(v) => v,
            Err(e) => {
                return Err(e);
            },
        };
        let astro_generator = match self.astro_generator.check() {
            Ok(v) => v,
            Err(e) => {
                return Err(e);
            },
        };
        let red_bank = match self.red_bank.check() {
            Ok(v) => v,
            Err(e) => {
                return Err(e);
            },
        };
        let oracle = match self.oracle.check() {
            Ok(v) => v,
            Err(e) => {
                return Err(e);
            },
        };
        let router = match self.router.check() {
            Ok(v) => v,
            Err(e) => {
                return Err(e);
            },
        };
        let apollo_factory = match self.apollo_factory.check() {
            Ok(v) => v,
            Err(e) => {
                return Err(e);
            },
        };
        let apr_query_adapter = match validate(&self.apr_query_adapter) {
            Ok(v) => v,
            Err(e) => {
                return Err(e);
            },
        };
        Ok(
            ConfigBase {
                primary_asset_info,
                secondary_asset_info,
                primary_pair,
                astro_generator,
                red_bank,
                oracle,
                router,
                apollo_factory,
                apr_query_adapter,
            },
        )
    }
}

impl Config {
    /// Every embedded address is syntactically valid.
    pub open spec fn is_valid(&self) -> bool {
        &&& self.primary_asset_info.is_valid()
        &&& self.secondary_asset_info.is_valid()
        &&& self.primary_pair.is_valid()
        &&& self.astro_generator.contract_addr.is_valid()
        &&& self.red_bank.contract_addr.is_valid()
        &&& self.oracle.contract_addr.is_valid()
        &&& self.router.contract_addr.is_valid()
        &&& self.apollo_factory.contract_addr.is_valid()
        &&& self.apr_query_adapter.is_valid()
    }

    /// Raw projection of the configuration; always succeeds.
    pub fn to_unchecked(&self) -> (r: ConfigUnchecked)
        ensures
            r == spec_config_unchecked(*self),
    {
        ConfigBase {
            primary_asset_info: self.primary_asset_info.to_unchecked(),
            secondary_asset_info: self.secondary_asset_info.to_unchecked(),
            primary_pair: PoolBase {
                pair: self.primary_pair.pair.as_string(),
                share_token: self.primary_pair.share_token.as_string(),
            },
            astro_generator: GeneratorBase {
                contract_addr: self.astro_generator.contract_addr.as_string(),
            },
            red_bank: RedBankBase { contract_addr: self.red_bank.contract_addr.as_string() },
            oracle: OracleBase { contract_addr: self.oracle.contract_addr.as_string() },
            router: RouterBase { contract_addr: self.router.contract_addr.as_string() },
            apollo_factory: ApolloFactoryBase {
                contract_addr: self.apollo_factory.contract_addr.as_string(),
            },
            apr_query_adapter: self.apr_query_adapter.as_string(),
        }
    }
}

/// Checking the raw projection of a valid configuration gives back the
/// same configuration.
pub proof fn lemma_config_roundtrip(c: Config)
    requires
        c.is_valid(),
    ensures
        spec_check_config(spec_config_unchecked(c)) == Ok::<Config, VaultError>(c),
{
}

} // verus!
