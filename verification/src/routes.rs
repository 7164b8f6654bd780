//! Values that every route shares.

use vstd::prelude::*;

verus! {

/// A message that handlers read from the shared state.
#[derive(Debug)]
pub struct SharedData {
    pub message: String,
}

impl SharedData {
    /// The shared state as the router is built with.
    pub fn new() -> (shared: SharedData)
        ensures
            shared.message@ == "Hello from shared data, I'm a State now"@,
    {
        SharedData { message: "Hello from shared data, I'm a State now".to_owned() }
    }
}

impl Clone for SharedData {
    fn clone(&self) -> (shared: SharedData)
        ensures
            shared.message@ == self.message@,
    {
        SharedData { message: self.message.clone() }
    }
}

} // verus!
