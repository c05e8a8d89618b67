//! The CD flag as a value of its own, with its rendering as text.

use crate::text::{bit_string, bit_text};
use vstd::prelude::*;
use vstd::std_specs::convert::{FromSpecImpl, TryFromSpecImpl};

verus! {

/// CD: whether the resolver is to leave DNSSEC validation out.
#[derive(Debug, Clone, Copy, PartialEq, Eq)]
pub enum Cd {
    /// Validation stays on.
    DnssecEnabled,
    /// Validation is switched off for this query.
    DnssecForbidden,
}

impl Cd {
    /// The bit that stands for this state on the wire.
    pub open spec fn bit(self) -> u8 {
        match self {
            Cd::DnssecEnabled => 0,
            Cd::DnssecForbidden => 1,
        }
    }

    /// The state that a raw value stands for. Any value but 0 and 1 stands for
    /// none and is handed back as the error.
    pub open spec fn from_bit(value: u8) -> Result<Cd, u8> {
        if value == 0 {
            Ok(Cd::DnssecEnabled)
        } else if value == 1 {
            Ok(Cd::DnssecForbidden)
        } else {
            Err(value)
        }
    }

    /// The boolean reading of the flag: true when validation is switched off.
    pub open spec fn is_set(self) -> bool {
        self == Cd::DnssecForbidden
    }

    /// The state with the given boolean reading.
    pub open spec fn from_bool(value: bool) -> Cd {
        if value {
            Cd::DnssecForbidden
        } else {
            Cd::DnssecEnabled
        }
    }

    /// Renders the flag's bit as text, `0` or `1`.
    pub fn to_hex_string(&self) -> (s: String)
        ensures
            s@ == bit_text(self.bit()),
    {
        let value: u8 = (*self).into();
        bit_string(value)
    }

    /// The two states and the two bit values correspond one to one: a state is
    /// recovered from its bit, and a raw value is accepted exactly when it is 0
    /// or 1, as the state that has it for its bit.
    pub proof fn lemma_bit_bijection(flag: Cd, value: u8)
        ensures
            flag.bit() <= 1,
            Cd::from_bit(flag.bit()) == Ok::<Cd, u8>(flag),
            Cd::from_bit(value) is Ok <==> value <= 1,
            Cd::from_bit(value) matches Ok(state) ==> state.bit() == value,
            Cd::from_bit(value) matches Err(rejected) ==> rejected == value,
            Cd::from_bool(flag.is_set()) == flag,
            flag.is_set() <==> flag.bit() == 1,
    {
    }
}

impl TryFrom<u8> for Cd {
    type Error = u8;

    /// Accepts 0 and 1; hands any other value back as the error.
    fn try_from(value: u8) -> (r: Result<Cd, u8>)
        ensures
            r == Cd::from_bit(value),
    {
        match value {
            0 => Ok(Cd::DnssecEnabled),
            1 => Ok(Cd::DnssecForbidden),
            v => Err(v),
        }
    }
}

impl TryFromSpecImpl<u8> for Cd {
    open spec fn obeys_try_from_spec() -> bool {
        true
    }

    open spec fn try_from_spec(value: u8) -> Result<Cd, u8> {
        Cd::from_bit(value)
    }
}

impl From<Cd> for u8 {
    /// The flag's bit, 0 or 1.
    fn from(flag: Cd) -> (bit: u8)
        ensures
            bit == flag.bit(),
    {
        match flag {
            Cd::DnssecEnabled => 0,
            Cd::DnssecForbidden => 1,
        }
    }
}

impl FromSpecImpl<Cd> for u8 {
    open spec fn obeys_from_spec() -> bool {
        true
    }

    open spec fn from_spec(flag: Cd) -> u8 {
        flag.bit()
    }
}

impl From<bool> for Cd {
    /// The state with the given boolean reading.
    fn from(value: bool) -> (flag: Cd)
        ensures
            flag == Cd::from_bool(value),
    {
        if value {
            Cd::DnssecForbidden
        } else {
            Cd::DnssecEnabled
        }
    }
}

impl FromSpecImpl<bool> for Cd {
    open spec fn obeys_from_spec() -> bool {
        true
    }

    open spec fn from_spec(value: bool) -> Cd {
        Cd::from_bool(value)
    }
}

impl From<Cd> for bool {
    /// The boolean reading of the flag.
    fn from(flag: Cd) -> (value: bool)
        ensures
            value == flag.is_set(),
    {
        match flag {
            Cd::DnssecForbidden => true,
            Cd::DnssecEnabled => false,
        }
    }
}

impl FromSpecImpl<Cd> for bool {
    open spec fn obeys_from_spec() -> bool {
        true
    }

    open spec fn from_spec(flag: Cd) -> bool {
        flag.is_set()
    }
}

} // verus!
