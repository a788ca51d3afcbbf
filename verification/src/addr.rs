//! Validated account identities.
//!
//! Configuration and wire messages carry raw strings; the core works only
//! with identities that passed [`validate`]. The two forms are distinct
//! types connected by one fallible conversion (`validate`) and one
//! infallible inverse (`as_string`).

use vstd::prelude::*;
use vstd::string::StrSliceExecFns;

use crate::error::{VaultError, VaultResult};

verus! {

/// Smallest number of characters a valid account identity may have.
pub const ADDR_MIN_LEN: usize = 3;

/// Largest number of characters a valid account identity may have.
pub const ADDR_MAX_LEN: usize = 90;

/// A character an account identity may contain: a lowercase ASCII letter
/// or an ASCII digit.
pub open spec fn valid_addr_char(c: char) -> bool {
    (97 <= c as u32 && c as u32 <= 122) || (48 <= c as u32 && c as u32 <= 57)
}

/// A syntactically valid account identity: three to ninety characters,
/// each a lowercase letter or a digit.
pub open spec fn valid_addr(s: Seq<char>) -> bool {
    &&& ADDR_MIN_LEN <= s.len()
    &&& s.len() <= ADDR_MAX_LEN
    &&& forall|i: int| 0 <= i < s.len() ==> valid_addr_char(#[trigger] s[i])
}

/// An account identity meant to be validated.
///
/// The checking conversions produce only values satisfying
/// [`Addr::is_valid`], and every statement that depends on validity names
/// it; the wrapper itself adds no enforcement, like the host's own
/// address type.
#[derive(Debug, PartialEq, Eq)]
pub struct Addr(pub String);

impl View for Addr {
    type V = Seq<char>;

    open spec fn view(&self) -> Seq<char> {
        self.0@
    }
}

impl Addr {
    /// The wrapped string is a syntactically valid identity.
    pub open spec fn is_valid(&self) -> bool {
        valid_addr(self@)
    }

    /// String projection of the identity; always succeeds.
    pub fn as_string(&self) -> (r: String)
        ensures
            r == self.0,
    {
        self.0.clone()
    }
}

impl Clone for Addr {
    fn clone(&self) -> (r: Self)
        ensures
            r == *self,
    {
        Addr(self.0.clone())
    }
}

/// What [`validate`] returns: the wrapped input when it is a valid
/// identity, a validation error otherwise.
pub open spec fn spec_validate(s: String) -> VaultResult<Addr> {
    if valid_addr(s@) {
        Ok(Addr(s))
    } else {
        Err(VaultError::Validation)
    }
}

/// Checks that `input` is a syntactically valid account identity and wraps
/// it. Performs no call to any external system.
pub fn validate(input: &String) -> (r: VaultResult<Addr>)
    ensures
        r == spec_validate(*input),
        r is Ok ==> r->Ok_0.is_valid(),
{
    let n = input.as_str().unicode_len();
    if n < ADDR_MIN_LEN || n > ADDR_MAX_LEN {
        return Err(VaultError::Validation);
    }
    let mut i: usize = 0;
    while i < n
        invariant
            n == input@.len(),
            ADDR_MIN_LEN <= n && n <= ADDR_MAX_LEN,
            i <= n,
            forall|j: int| 0 <= j < i ==> valid_addr_char(#[trigger] input@[j]),
        decreases n - i,
    {
        let c = input.as_str().get_char(i);
        let u = c as u32;
        if !((97 <= u && u <= 122) || (48 <= u && u <= 57)) {
            return Err(VaultError::Validation);
        }
        i += 1;
    }
    Ok(Addr(input.clone()))
}

} // verus!
