//! The RA flag as a value of its own, with its rendering as text.

use crate::text::{bit_string, bit_text};
use vstd::prelude::*;
use vstd::std_specs::convert::{FromSpecImpl, TryFromSpecImpl};

verus! {

/// RA: whether the server offers recursive resolution.
#[derive(Debug, Clone, Copy, PartialEq, Eq)]
pub enum Ra {
    /// The server does not resolve recursively.
    RecursionUnavailable,
    /// The server resolves recursively.
    RecursionAvailable,
}

impl Ra {
    /// The bit that stands for this state on the wire.
    pub open spec fn bit(self) -> u8 {
        match self {
            Ra::RecursionUnavailable => 0,
            Ra::RecursionAvailable => 1,
        }
    }

    /// The state that a raw value stands for. Any value but 0 and 1 stands for
    /// none and is handed back as the error.
    pub open spec fn from_bit(value: u8) -> Result<Ra, u8> {
        if value == 0 {
            Ok(Ra::RecursionUnavailable)
        } else if value == 1 {
            Ok(Ra::RecursionAvailable)
        } else {
            Err(value)
        }
    }

    /// The boolean reading of the flag: true when recursion is on offer.
    pub open spec fn is_set(self) -> bool {
        self == Ra::RecursionAvailable
    }

    /// The state with the given boolean reading.
    pub open spec fn from_bool(value: bool) -> Ra {
        if value {
            Ra::RecursionAvailable
        } else {
            Ra::RecursionUnavailable
        }
    }

    /// Renders the flag's bit as text, `0` or `1`.
    pub fn to_hex_string(&self) -> (s: String)
        ensures
            s@ == bit_text(self.bit()),
    {
        let value: u8 = (*self).into();
        bit_string(value)
    }

    /// The two states and the two bit values correspond one to one: a state is
    /// recovered from its bit, and a raw value is accepted exactly when it is 0
    /// or 1, as the state that has it for its bit.
    pub proof fn lemma_bit_bijection(flag: Ra, value: u8)
        ensures
            flag.bit() <= 1,
            Ra::from_bit(flag.bit()) == Ok::<Ra, u8>(flag),
            Ra::from_bit(value) is Ok <==> value <= 1,
            Ra::from_bit(value) matches Ok(state) ==> state.bit() == value,
            Ra::from_bit(value) matches Err(rejected) ==> rejected == value,
            Ra::from_bool(flag.is_set()) == flag,
            flag.is_set() <==> flag.bit() == 1,
    {
    }
}

impl TryFrom<u8> for Ra {
    type Error = u8;

    /// Accepts 0 and 1; hands any other value back as the error.
    fn try_from(value: u8) -> (r: Result<Ra, u8>)
        ensures
            r == Ra::from_bit(value),
    {
        match value {
            0 => Ok(Ra::RecursionUnavailable),
            1 => Ok(Ra::RecursionAvailable),
            v => Err(v),
        }
    }
}

impl TryFromSpecImpl<u8> for Ra {
    open spec fn obeys_try_from_spec() -> bool {
        true
    }

    open spec fn try_from_spec(value: u8) -> Result<Ra, u8> {
        Ra::from_bit(value)
    }
}

impl From<Ra> for u8 {
    /// The flag's bit, 0 or 1.
    fn from(flag: Ra) -> (bit: u8)
        ensures
            bit == flag.bit(),
    {
        match flag {
            Ra::RecursionUnavailable => 0,
            Ra::RecursionAvailable => 1,
        }
    }
}

impl FromSpecImpl<Ra> for u8 {
    open spec fn obeys_from_spec() -> bool {
        true
    }

    open spec fn from_spec(flag: Ra) -> u8 {
        flag.bit()
    }
}

impl From<bool> for Ra {
    /// The state with the given boolean reading.
    fn from(value: bool) -> (flag: Ra)
        ensures
            flag == Ra::from_bool(value),
    {
        if value {
            Ra::RecursionAvailable
        } else {
            Ra::RecursionUnavailable
        }
    }
}

impl FromSpecImpl<bool> for Ra {
    open spec fn obeys_from_spec() -> bool {
        true
    }

    open spec fn from_spec(value: bool) -> Ra {
        Ra::from_bool(value)
    }
}

impl From<Ra> for bool {
    /// The boolean reading of the flag.
    fn from(flag: Ra) -> (value: bool)
        ensures
            value == flag.is_set(),
    {
        match flag {
            Ra::RecursionAvailable => true,
            Ra::RecursionUnavailable => false,
        }
    }
}

impl FromSpecImpl<Ra> for bool {
    open spec fn obeys_from_spec() -> bool {
        true
    }

    open spec fn from_spec(flag: Ra) -> bool {
        flag.is_set()
    }
}

} // verus!
