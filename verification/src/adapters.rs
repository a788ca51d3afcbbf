//! Adapters over the external protocols the vault works with.
//!
//! Each adapter is a pair of address-indexed value types: an unchecked
//! form carrying raw configuration strings and a checked form carrying
//! validated addresses, connected by one fallible `check` and one
//! infallible string projection. Adapters hold no mutable state; they are
//! stateless function bundles parameterized by an address.

pub mod apollo_factory;
pub mod astro_generator;
pub mod astro_router;
pub mod oracle;
pub mod red_bank;
