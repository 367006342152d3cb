//! Whether a message to a client reports success or failure.

use vstd::prelude::*;

verus! {

/// The status every message to a client carries.
#[derive(Debug, PartialEq, Eq, Structural)]
pub enum ResponseStatus {
    Success,
    Failure,
}

} // verus!
