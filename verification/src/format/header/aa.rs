//! The AA flag as a value of its own, with its rendering as text.

use crate::text::{bit_string, bit_text};
use vstd::prelude::*;
use vstd::std_specs::convert::{FromSpecImpl, TryFromSpecImpl};

verus! {

/// AA: whether the responding server is an authority for the name asked about.
#[derive(Debug, Clone, Copy, PartialEq, Eq)]
pub enum Aa {
    /// The answer comes from an authoritative server.
    FromAuthority,
    /// The answer comes from a server without authority.
    FromNonAuthority,
}

impl Aa {
    /// The bit that stands for this state on the wire.
    pub open spec fn bit(self) -> u8 {
        match self {
            Aa::FromNonAuthority => 0,
            Aa::FromAuthority => 1,
        }
    }

    /// The state that a raw value stands for. Any value but 0 and 1 stands for
    /// none and is handed back as the error.
    pub open spec fn from_bit(value: u8) -> Result<Aa, u8> {
        if value == 0 {
            Ok(Aa::FromNonAuthority)
        } else if value == 1 {
            Ok(Aa::FromAuthority)
        } else {
            Err(value)
        }
    }

    /// Renders the flag's bit as text, `0` or `1`.
    pub fn to_hex_string(&self) -> (s: String)
        ensures
            s@ == bit_text(self.bit()),
    {
        let value: u8 = (*self).into();
        bit_string(value)
    }

    /// The two states and the two bit values correspond one to one: a state is
    /// recovered from its bit, and a raw value is accepted exactly when it is 0
    /// or 1, as the state that has it for its bit.
    pub proof fn lemma_bit_bijection(flag: Aa, value: u8)
        ensures
            flag.bit() <= 1,
            Aa::from_bit(flag.bit()) == Ok::<Aa, u8>(flag),
            Aa::from_bit(value) is Ok <==> value <= 1,
            Aa::from_bit(value) matches Ok(state) ==> state.bit() == value,
            Aa::from_bit(value) matches Err(rejected) ==> rejected == value,
    {
    }
}

impl TryFrom<u8> for Aa {
    type Error = u8;

    /// Accepts 0 and 1; hands any other value back as the error.
    fn try_from(value: u8) -> (r: Result<Aa, u8>)
        ensures
            r == Aa::from_bit(value),
    {
        match value {
            0 => Ok(Aa::FromNonAuthority),
            1 => Ok(Aa::FromAuthority),
            v => Err(v),
        }
    }
}

impl TryFromSpecImpl<u8> for Aa {
    open spec fn obeys_try_from_spec() -> bool {
        true
    }

    open spec fn try_from_spec(value: u8) -> Result<Aa, u8> {
        Aa::from_bit(value)
    }
}

impl From<Aa> for u8 {
    /// The flag's bit, 0 or 1.
    fn from(flag: Aa) -> (bit: u8)
        ensures
            bit == flag.bit(),
    {
        match flag {
            Aa::FromNonAuthority => 0,
            Aa::FromAuthority => 1,
        }
    }
}

impl FromSpecImpl<Aa> for u8 {
    open spec fn obeys_from_spec() -> bool {
        true
    }

    open spec fn from_spec(flag: Aa) -> u8 {
        flag.bit()
    }
}

} // verus!
