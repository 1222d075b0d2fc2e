//! How a wait for the request to shut down ends.

use vstd::prelude::*;

verus! {

/// What ends a wait for the request to shut down.
#[derive(Debug, Clone, Copy, PartialEq, Eq, Structural)]
pub enum Cancel {
    /// The request came.
    Told,
    /// Nobody is left who could make the request.
    Closed,
    /// Requests came faster than they were waited for.
    Lagged,
}

} // verus!
