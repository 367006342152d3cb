//! What the server hands a session to write to its client.

use vstd::prelude::*;

verus! {

/// A message for the client, already encoded.
#[derive(Debug, Clone)]
pub struct SessionMessage {
    pub response: String,
}

impl From<String> for SessionMessage {
    fn from(response: String) -> (res: Self) {
        SessionMessage { response }
    }
}

impl vstd::std_specs::convert::FromSpecImpl<String> for SessionMessage {
    open spec fn obeys_from_spec() -> bool {
        true
    }

    open spec fn from_spec(response: String) -> Self {
        SessionMessage { response }
    }
}

} // verus!
