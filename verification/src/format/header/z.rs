//! The reserved bit of the header, which is always sent as zero.

use vstd::prelude::*;
use vstd::std_specs::convert::{FromSpecImpl, TryFromSpecImpl};
use vstd::string::*;

verus! {

/// The reserved bit. It has one state and carries no information.
#[derive(Debug, Clone, Copy, PartialEq, Eq)]
pub struct Z;

impl Z {
    /// The reserved bit that a raw value stands for: zero alone is accepted,
    /// and any other value is handed back as the error.
    pub open spec fn from_bit(value: u8) -> Result<Z, u8> {
        if value == 0 {
            Ok(Z)
        } else {
            Err(value)
        }
    }

    /// Renders the bit as text, which is always `0`.
    pub fn to_hex_string(&self) -> (s: String)
        ensures
            s@ == seq!['0'],
    {
        proof {
            reveal_strlit("0");
        }
        let s = String::from_str("0");
        assert(s@ =~= seq!['0']);
        s
    }
}

impl TryFrom<u8> for Z {
    type Error = u8;

    /// Accepts zero; hands any other value back as the error.
    fn try_from(value: u8) -> (r: Result<Z, u8>)
        ensures
            r == Z::from_bit(value),
    {
        match value {
            0 => Ok(Z),
            v => Err(v),
        }
    }
}

impl TryFromSpecImpl<u8> for Z {
    open spec fn obeys_try_from_spec() -> bool {
        true
    }

    open spec fn try_from_spec(value: u8) -> Result<Z, u8> {
        Z::from_bit(value)
    }
}

impl From<Z> for u8 {
    /// The bit as it is sent: zero.
    fn from(reserved: Z) -> (bit: u8)
        ensures
            bit == 0,
    {
        0
    }
}

impl FromSpecImpl<Z> for u8 {
    open spec fn obeys_from_spec() -> bool {
        true
    }

    open spec fn from_spec(reserved: Z) -> u8 {
        0
    }
}

} // verus!
