//! The "add" endpoint.

use vstd::prelude::*;

verus! {

/// The handler of the "add" endpoint. It holds no state and no configuration.
#[derive(Debug, Clone, Copy, PartialEq, Eq, Structural)]
pub struct AddHandler;

impl AddHandler {
    pub fn new() -> (handler: AddHandler)
        ensures
            handler == AddHandler,
    {
        AddHandler
    }
}

} // verus!
