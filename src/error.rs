//! The library's error: one user-facing message, possibly of several lines.

use vstd::prelude::*;

verus! {

pub struct TizenError {
    pub message: String,
}

impl TizenError {
    /// An error with the given message.
    pub fn new(message: String) -> (r: TizenError)
        ensures
            r.message == message,
    {
        TizenError { message }
    }

    /// The error as shown to users: `TizenError: <message>`.
    pub fn describe(&self) -> (r: String)
        ensures
            r@ == "TizenError: "@ + self.message@,
    {
        let mut s = String::from_str("TizenError: ");
        s.append(self.message.as_str());
        s
    }
}

impl From<String> for TizenError {
    fn from(message: String) -> (r: TizenError) {
        TizenError { message }
    }
}

impl vstd::std_specs::convert::FromSpecImpl<String> for TizenError {
    open spec fn obeys_from_spec() -> bool {
        true
    }

    open spec fn from_spec(message: String) -> TizenError {
        TizenError { message }
    }
}

} // verus!
