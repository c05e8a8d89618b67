//! The RD flag as a value of its own, with its rendering as text.

use crate::text::{bit_string, bit_text};
use vstd::prelude::*;
use vstd::std_specs::convert::{FromSpecImpl, TryFromSpecImpl};

verus! {

/// RD: whether the client asks the server to resolve recursively.
#[derive(Debug, Clone, Copy, PartialEq, Eq)]
pub enum Rd {
    /// Recursion is asked for.
    RecursiveQuery,
    /// Recursion is not asked for.
    NonRecursiveQuery,
}

impl Rd {
    /// The bit that stands for this state on the wire.
    pub open spec fn bit(self) -> u8 {
        match self {
            Rd::NonRecursiveQuery => 0,
            Rd::RecursiveQuery => 1,
        }
    }

    /// The state that a raw value stands for. Any value but 0 and 1 stands for
    /// none and is handed back as the error.
    pub open spec fn from_bit(value: u8) -> Result<Rd, u8> {
        if value == 0 {
            Ok(Rd::NonRecursiveQuery)
        } else if value == 1 {
            Ok(Rd::RecursiveQuery)
        } else {
            Err(value)
        }
    }

    /// Renders the flag's bit as text, `0` or `1`.
    pub fn to_hex_string(&self) -> (s: String)
        ensures
            s@ == bit_text(self.bit()),
    {
        let value: u8 = (*self).into();
        bit_string(value)
    }

    /// The two states and the two bit values correspond one to one: a state is
    /// recovered from its bit, and a raw value is accepted exactly when it is 0
    /// or 1, as the state that has it for its bit.
    pub proof fn lemma_bit_bijection(flag: Rd, value: u8)
        ensures
            flag.bit() <= 1,
            Rd::from_bit(flag.bit()) == Ok::<Rd, u8>(flag),
            Rd::from_bit(value) is Ok <==> value <= 1,
            Rd::from_bit(value) matches Ok(state) ==> state.bit() == value,
            Rd::from_bit(value) matches Err(rejected) ==> rejected == value,
    {
    }
}

impl TryFrom<u8> for Rd {
    type Error = u8;

    /// Accepts 0 and 1; hands any other value back as the error.
    fn try_from(value: u8) -> (r: Result<Rd, u8>)
        ensures
            r == Rd::from_bit(value),
    {
        match value {
            0 => Ok(Rd::NonRecursiveQuery),
            1 => Ok(Rd::RecursiveQuery),
            v => Err(v),
        }
    }
}

impl TryFromSpecImpl<u8> for Rd {
    open spec fn obeys_try_from_spec() -> bool {
        true
    }

    open spec fn try_from_spec(value: u8) -> Result<Rd, u8> {
        Rd::from_bit(value)
    }
}

impl From<Rd> for u8 {
    /// The flag's bit, 0 or 1.
    fn from(flag: Rd) -> (bit: u8)
        ensures
            bit == flag.bit(),
    {
        match flag {
            Rd::NonRecursiveQuery => 0,
            Rd::RecursiveQuery => 1,
        }
    }
}

impl FromSpecImpl<Rd> for u8 {
    open spec fn obeys_from_spec() -> bool {
        true
    }

    open spec fn from_spec(flag: Rd) -> u8 {
        flag.bit()
    }
}

} // verus!
