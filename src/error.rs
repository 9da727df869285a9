//! Error carrying a message.
use vstd::prelude::*;

verus! {

/// An error described by its message.
#[derive(Debug)]
pub struct StrError(pub String);

impl StrError {
    /// The message.
    pub fn message(&self) -> (r: &str)
        ensures
            r@ == self.0@,
    {
        self.0.as_str()
    }
}

impl From<String> for StrError {
    fn from(value: String) -> (r: Self) {
        StrError(value)
    }
}

impl vstd::std_specs::convert::FromSpecImpl<String> for StrError {
    open spec fn obeys_from_spec() -> bool {
        true
    }

    open spec fn from_spec(v: String) -> Self {
        StrError(v)
    }
}

} // verus!
