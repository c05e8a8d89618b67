//! The transaction identifier that pairs a response with its query.

use crate::text::{hex4_string, hex4_text};
use vstd::prelude::*;
use vstd::std_specs::convert::FromSpecImpl;

verus! {

/// A sixteen-bit identifier. Every value is a valid identifier.
#[derive(Debug, Clone, Copy, PartialEq, Eq)]
pub struct Id(pub u16);

impl Id {
    /// Renders the identifier as four upper-case hexadecimal digits.
    pub fn to_hex_string(&self) -> (s: String)
        ensures
            s@ == hex4_text(self.0),
    {
        hex4_string(self.0)
    }
}

impl From<u16> for Id {
    /// The identifier with the given number.
    fn from(value: u16) -> (id: Id)
        ensures
            id == Id(value),
    {
        Id(value)
    }
}

impl FromSpecImpl<u16> for Id {
    open spec fn obeys_from_spec() -> bool {
        true
    }

    open spec fn from_spec(value: u16) -> Id {
        Id(value)
    }
}

impl From<Id> for u16 {
    /// The identifier's number.
    fn from(id: Id) -> (value: u16)
        ensures
            value == id.0,
    {
        id.0
    }
}

impl FromSpecImpl<Id> for u16 {
    open spec fn obeys_from_spec() -> bool {
        true
    }

    open spec fn from_spec(id: Id) -> u16 {
        id.0
    }
}

} // verus!
