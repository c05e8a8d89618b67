//! The AD flag as a value of its own, with its rendering as text.

use crate::text::{bit_string, bit_text};
use vstd::prelude::*;
use vstd::std_specs::convert::{FromSpecImpl, TryFromSpecImpl};

verus! {

/// AD: whether the answer passed DNSSEC validation (in a query: whether the
/// client understands the bit).
#[derive(Debug, Clone, Copy, PartialEq, Eq)]
pub enum Ad {
    /// Validated, or the bit is understood.
    SuccessDnssecValidationOrSupportedAdBit,
    /// Not validated, or the bit is not understood.
    DnssecValidationFailureOrNotSUpportedAdBit,
}

impl Ad {
    /// The bit that stands for this state on the wire.
    pub open spec fn bit(self) -> u8 {
        match self {
            Ad::DnssecValidationFailureOrNotSUpportedAdBit => 0,
            Ad::SuccessDnssecValidationOrSupportedAdBit => 1,
        }
    }

    /// The state that a raw value stands for. Any value but 0 and 1 stands for
    /// none and is handed back as the error.
    pub open spec fn from_bit(value: u8) -> Result<Ad, u8> {
        if value == 0 {
            Ok(Ad::DnssecValidationFailureOrNotSUpportedAdBit)
        } else if value == 1 {
            Ok(Ad::SuccessDnssecValidationOrSupportedAdBit)
        } else {
            Err(value)
        }
    }

    /// The boolean reading of the flag: true when validation succeeded.
    pub open spec fn is_set(self) -> bool {
        self == Ad::SuccessDnssecValidationOrSupportedAdBit
    }

    /// The state with the given boolean reading.
    pub open spec fn from_bool(value: bool) -> Ad {
        if value {
            Ad::SuccessDnssecValidationOrSupportedAdBit
        } else {
            Ad::DnssecValidationFailureOrNotSUpportedAdBit
        }
    }

    /// Renders the flag's bit as text, `0` or `1`.
    pub fn to_hex_string(&self) -> (s: String)
        ensures
            s@ == bit_text(self.bit()),
    {
        let value: u8 = (*self).into();
        bit_string(value)
    }

    /// The two states and the two bit values correspond one to one: a state is
    /// recovered from its bit, and a raw value is accepted exactly when it is 0
    /// or 1, as the state that has it for its bit.
    pub proof fn lemma_bit_bijection(flag: Ad, value: u8)
        ensures
            flag.bit() <= 1,
            Ad::from_bit(flag.bit()) == Ok::<Ad, u8>(flag),
            Ad::from_bit(value) is Ok <==> value <= 1,
            Ad::from_bit(value) matches Ok(state) ==> state.bit() == value,
            Ad::from_bit(value) matches Err(rejected) ==> rejected == value,
            Ad::from_bool(flag.is_set()) == flag,
            flag.is_set() <==> flag.bit() == 1,
    {
    }
}

impl TryFrom<u8> for Ad {
    type Error = u8;

    /// Accepts 0 and 1; hands any other value back as the error.
    fn try_from(value: u8) -> (r: Result<Ad, u8>)
        ensures
            r == Ad::from_bit(value),
    {
        match value {
            0 => Ok(Ad::DnssecValidationFailureOrNotSUpportedAdBit),
            1 => Ok(Ad::SuccessDnssecValidationOrSupportedAdBit),
            v => Err(v),
        }
    }
}

impl TryFromSpecImpl<u8> for Ad {
    open spec fn obeys_try_from_spec() -> bool {
        true
    }

    open spec fn try_from_spec(value: u8) -> Result<Ad, u8> {
        Ad::from_bit(value)
    }
}

impl From<Ad> for u8 {
    /// The flag's bit, 0 or 1.
    fn from(flag: Ad) -> (bit: u8)
        ensures
            bit == flag.bit(),
    {
        match flag {
            Ad::DnssecValidationFailureOrNotSUpportedAdBit => 0,
            Ad::SuccessDnssecValidationOrSupportedAdBit => 1,
        }
    }
}

impl FromSpecImpl<Ad> for u8 {
    open spec fn obeys_from_spec() -> bool {
        true
    }

    open spec fn from_spec(flag: Ad) -> u8 {
        flag.bit()
    }
}

impl From<bool> for Ad {
    /// The state with the given boolean reading.
    fn from(value: bool) -> (flag: Ad)
        ensures
            flag == Ad::from_bool(value),
    {
        if value {
            Ad::SuccessDnssecValidationOrSupportedAdBit
        } else {
            Ad::DnssecValidationFailureOrNotSUpportedAdBit
        }
    }
}

impl FromSpecImpl<bool> for Ad {
    open spec fn obeys_from_spec() -> bool {
        true
    }

    open spec fn from_spec(value: bool) -> Ad {
        Ad::from_bool(value)
    }
}

impl From<Ad> for bool {
    /// The boolean reading of the flag.
    fn from(flag: Ad) -> (value: bool)
        ensures
            value == flag.is_set(),
    {
        match flag {
            Ad::SuccessDnssecValidationOrSupportedAdBit => true,
            Ad::DnssecValidationFailureOrNotSUpportedAdBit => false,
        }
    }
}

impl FromSpecImpl<Ad> for bool {
    open spec fn obeys_from_spec() -> bool {
        true
    }

    open spec fn from_spec(flag: Ad) -> bool {
        flag.is_set()
    }
}

} // verus!
