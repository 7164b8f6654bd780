//! The signing secret, held as a value that is handed to whoever signs or
//! checks a token.

use vstd::prelude::*;

verus! {

/// The process-wide signing secret. It is built once at startup and only read
/// afterwards. It has no `Debug`, so that it is not written to a log by
/// accident.
pub struct TokenWrapper(pub String);

impl TokenWrapper {
    pub fn new(secret: &str) -> (w: TokenWrapper)
        ensures
            w.0@ == secret@,
    {
        TokenWrapper(secret.to_owned())
    }

    /// The secret as text.
    pub fn secret(&self) -> (s: &str)
        ensures
            s@ == self.0@,
    {
        self.0.as_str()
    }
}

impl Clone for TokenWrapper {
    fn clone(&self) -> (w: TokenWrapper)
        ensures
            w.0@ == self.0@,
    {
        TokenWrapper(self.0.clone())
    }
}

} // verus!
