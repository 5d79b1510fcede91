//! The ways in which a request can fail.

use vstd::prelude::*;

verus! {

/// Why a request did not succeed. A request fails in one way only: each
/// operation makes a single call to the store, and a request that is at
/// fault never reaches it.
#[derive(Debug, Clone, Copy, PartialEq, Eq, Structural)]
pub enum Failure {
    /// The request could not be read: its body or its identifier is
    /// malformed. Sending it again will not help.
    InvalidInput,
    /// No stored item has the identifier that was asked for.
    NotFound,
    /// The store could not be reached, or did not serve the call.
    StorageUnavailable,
}

} // verus!
