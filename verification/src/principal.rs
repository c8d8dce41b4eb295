//! Party identities.
//!
//! The engine never inspects an identity beyond comparing it for equality and
//! testing it against the unset placeholder, so a principal is an opaque
//! numeric identifier. The hosting environment maps real account addresses to
//! these identifiers and certifies, before each call, that the caller it
//! passes in really signed the request.

use vstd::prelude::*;

verus! {

/// An authenticated party identity (creator, opponent, bettor, authority).
///
/// The identifier 0 is the unset placeholder: it marks an empty principal
/// slot, and a draw when it stands in a winner field.
#[derive(Clone, Copy, PartialEq, Eq, Structural, Debug)]
pub struct Principal {
    pub id: u64,
}

impl Principal {
    /// True of the unset placeholder.
    pub open spec fn is_unset(self) -> bool {
        self.id == 0
    }

    /// The unset placeholder: no principal.
    pub fn unset() -> (p: Principal)
        ensures
            p.is_unset(),
    {
        Principal { id: 0 }
    }

    /// A principal with the given identifier.
    pub fn new(id: u64) -> (p: Principal)
        ensures
            p.id == id,
    {
        Principal { id }
    }

    /// Whether this is the unset placeholder.
    pub fn is_none_key(&self) -> (r: bool)
        ensures
            r == self.is_unset(),
    {
        self.id == 0
    }
}

} // verus!
