//! The TC flag as a value of its own, with its rendering as text.

use crate::text::{bit_string, bit_text};
use vstd::prelude::*;
use vstd::std_specs::convert::{FromSpecImpl, TryFromSpecImpl};

verus! {

/// TC: whether the message was cut short to fit the transport.
#[derive(Debug, Clone, Copy, PartialEq, Eq)]
pub enum Tc {
    /// The message was cut short.
    Truncated,
    /// The message is whole.
    NotTruncated,
}

impl Tc {
    /// The bit that stands for this state on the wire.
    pub open spec fn bit(self) -> u8 {
        match self {
            Tc::NotTruncated => 0,
            Tc::Truncated => 1,
        }
    }

    /// The state that a raw value stands for. Any value but 0 and 1 stands for
    /// none and is handed back as the error.
    pub open spec fn from_bit(value: u8) -> Result<Tc, u8> {
        if value == 0 {
            Ok(Tc::NotTruncated)
        } else if value == 1 {
            Ok(Tc::Truncated)
        } else {
            Err(value)
        }
    }

    /// The boolean reading of the flag: true when the message was cut short.
    pub open spec fn is_set(self) -> bool {
        self == Tc::Truncated
    }

    /// The state with the given boolean reading.
    pub open spec fn from_bool(value: bool) -> Tc {
        if value {
            Tc::Truncated
        } else {
            Tc::NotTruncated
        }
    }

    /// Renders the flag's bit as text, `0` or `1`.
    pub fn to_hex_string(&self) -> (s: String)
        ensures
            s@ == bit_text(self.bit()),
    {
        let value: u8 = (*self).into();
        bit_string(value)
    }

    /// The two states and the two bit values correspond one to one: a state is
    /// recovered from its bit, and a raw value is accepted exactly when it is 0
    /// or 1, as the state that has it for its bit.
    pub proof fn lemma_bit_bijection(flag: Tc, value: u8)
        ensures
            flag.bit() <= 1,
            Tc::from_bit(flag.bit()) == Ok::<Tc, u8>(flag),
            Tc::from_bit(value) is Ok <==> value <= 1,
            Tc::from_bit(value) matches Ok(state) ==> state.bit() == value,
            Tc::from_bit(value) matches Err(rejected) ==> rejected == value,
            Tc::from_bool(flag.is_set()) == flag,
            flag.is_set() <==> flag.bit() == 1,
    {
    }
}

impl TryFrom<u8> for Tc {
    type Error = u8;

    /// Accepts 0 and 1; hands any other value back as the error.
    fn try_from(value: u8) -> (r: Result<Tc, u8>)
        ensures
            r == Tc::from_bit(value),
    {
        match value {
            0 => Ok(Tc::NotTruncated),
            1 => Ok(Tc::Truncated),
            v => Err(v),
        }
    }
}

impl TryFromSpecImpl<u8> for Tc {
    open spec fn obeys_try_from_spec() -> bool {
        true
    }

    open spec fn try_from_spec(value: u8) -> Result<Tc, u8> {
        Tc::from_bit(value)
    }
}

impl From<Tc> for u8 {
    /// The flag's bit, 0 or 1.
    fn from(flag: Tc) -> (bit: u8)
        ensures
            bit == flag.bit(),
    {
        match flag {
            Tc::NotTruncated => 0,
            Tc::Truncated => 1,
        }
    }
}

impl FromSpecImpl<Tc> for u8 {
    open spec fn obeys_from_spec() -> bool {
        true
    }

    open spec fn from_spec(flag: Tc) -> u8 {
        flag.bit()
    }
}

impl From<bool> for Tc {
    /// The state with the given boolean reading.
    fn from(value: bool) -> (flag: Tc)
        ensures
            flag == Tc::from_bool(value),
    {
        if value {
            Tc::Truncated
        } else {
            Tc::NotTruncated
        }
    }
}

impl FromSpecImpl<bool> for Tc {
    open spec fn obeys_from_spec() -> bool {
        true
    }

    open spec fn from_spec(value: bool) -> Tc {
        Tc::from_bool(value)
    }
}

impl From<Tc> for bool {
    /// The boolean reading of the flag.
    fn from(flag: Tc) -> (value: bool)
        ensures
            value == flag.is_set(),
    {
        match flag {
            Tc::Truncated => true,
            Tc::NotTruncated => false,
        }
    }
}

impl FromSpecImpl<Tc> for bool {
    open spec fn obeys_from_spec() -> bool {
        true
    }

    open spec fn from_spec(flag: Tc) -> bool {
        flag.is_set()
    }
}

} // verus!
