//! Error taxonomy of the vault core.

use vstd::prelude::*;

verus! {

/// Every failure the verified core can surface.
///
/// Serialization failures (building an outbound instruction's wire bytes)
/// happen at the host boundary, outside this crate, and therefore have no
/// variant here.
#[derive(Clone, Copy, Debug, PartialEq, Eq, Structural)]
pub enum VaultError {
    /// An unchecked input held a string that is not a syntactically valid
    /// account identity. Recoverable: the caller corrects the input.
    Validation,
    /// An external protocol's response lacked data this core requires, for
    /// example a pool-reserve list that does not mention a requested asset.
    Query,
    /// A wide-integer multiplication or ratio computation left the 128-bit
    /// range. Fatal: the whole enclosing operation aborts.
    Arithmetic,
    /// A burn request exceeded the position's unit balance. Recoverable:
    /// the caller requests a smaller amount.
    InsufficientUnits,
}

/// Result type of the vault core.
pub type VaultResult<T> = Result<T, VaultError>;

} // verus!
