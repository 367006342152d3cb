//! Errors of the server that are not about a particular game.

use vstd::prelude::*;

verus! {

/// An error with a text for the client.
#[derive(Debug)]
pub struct WsError {
    pub message: String,
}

impl WsError {
    /// The error with text `message`, on the heap.
    pub fn boxed(message: &str) -> (res: Box<Self>)
        ensures
            res.message@ == message@,
    {
        Box::new(WsError { message: message.to_owned() })
    }

    /// The error with text `message`.
    pub fn message(message: &str) -> (res: Self)
        ensures
            res.message@ == message@,
    {
        WsError { message: message.to_owned() }
    }

    /// The text of the error, for a reader: its message.
    pub fn to_string(&self) -> (res: String)
        ensures
            res@ == self.message@,
    {
        self.message.clone()
    }
}

} // verus!
