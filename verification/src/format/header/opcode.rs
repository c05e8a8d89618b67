//! The operation code: what kind of request the message carries.

use crate::text::{hex2_string, hex2_text};
use vstd::prelude::*;
use vstd::std_specs::convert::{FromSpecImpl, TryFromSpecImpl};

verus! {

/// The operation codes that are assigned today. The field is four bits wide,
/// so further codes may be assigned later without a change of the layout.
#[non_exhaustive]
#[derive(Debug, Clone, Copy, PartialEq, Eq)]
pub enum Opcode {
    /// A standard query.
    Query,
    /// An inverse query.
    InverseQuery,
    /// A request for the server's status.
    ServerStatus,
    /// A notification of a zone change.
    Notify,
    /// A dynamic update.
    Update,
    /// DNS stateful operations.
    DnsStatefulOperations,
}

/// Why a number is not an operation code.
#[derive(Debug, PartialEq, Eq)]
pub enum FromError {
    /// The number fits the field but no operation is assigned to it.
    Unassigned(u8),
    /// The number does not fit the four bits of the field.
    InvalidRange(u8),
}

impl Opcode {
    /// The number that stands for this operation on the wire.
    pub open spec fn code(self) -> u8 {
        match self {
            Opcode::Query => 0,
            Opcode::InverseQuery => 1,
            Opcode::ServerStatus => 2,
            Opcode::Notify => 4,
            Opcode::Update => 5,
            Opcode::DnsStatefulOperations => 6,
        }
    }

    /// Whether an operation is assigned to the number.
    pub open spec fn is_assigned(value: u8) -> bool {
        value <= 6 && value != 3
    }

    /// The operation that a number stands for, or why it stands for none.
    pub open spec fn from_code(value: u8) -> Result<Opcode, FromError> {
        if value >= 16 {
            Err(FromError::InvalidRange(value))
        } else if value == 0 {
            Ok(Opcode::Query)
        } else if value == 1 {
            Ok(Opcode::InverseQuery)
        } else if value == 2 {
            Ok(Opcode::ServerStatus)
        } else if value == 4 {
            Ok(Opcode::Notify)
        } else if value == 5 {
            Ok(Opcode::Update)
        } else if value == 6 {
            Ok(Opcode::DnsStatefulOperations)
        } else {
            Err(FromError::Unassigned(value))
        }
    }

    /// Renders the operation's number as two upper-case hexadecimal digits.
    pub fn to_hex_string(&self) -> (s: String)
        ensures
            s@ == hex2_text(self.code()),
    {
        let value: u8 = (*self).into();
        hex2_string(value)
    }

    /// A number is accepted exactly when an operation is assigned to it; a
    /// number that fits the field without an assignment (3, and 7 to 15) is
    /// reported as unassigned, and one of 16 or more as out of range. Each
    /// error carries the number that was refused.
    pub proof fn lemma_from_code_classifies(value: u8)
        ensures
            Opcode::from_code(value) is Ok <==> Opcode::is_assigned(value),
            (value == 3 || 7 <= value <= 15) <==> Opcode::from_code(value) == Err::<
                Opcode,
                FromError,
            >(FromError::Unassigned(value)),
            value >= 16 <==> Opcode::from_code(value) == Err::<Opcode, FromError>(
                FromError::InvalidRange(value),
            ),
            Opcode::from_code(value) matches Ok(opcode) ==> opcode.code() == value,
    {
    }

    /// Every operation is recovered from its own number, and that number fits
    /// the four bits of the field.
    pub proof fn lemma_code_round_trip(opcode: Opcode)
        ensures
            opcode.code() < 16,
            Opcode::is_assigned(opcode.code()),
            Opcode::from_code(opcode.code()) == Ok::<Opcode, FromError>(opcode),
    {
    }
}

impl TryFrom<u8> for Opcode {
    type Error = FromError;

    /// Accepts the assigned numbers and says of any other why it is refused.
    fn try_from(value: u8) -> (r: Result<Opcode, FromError>)
        ensures
            r == Opcode::from_code(value),
    {
        match value {
            0 => Ok(Opcode::Query),
            1 => Ok(Opcode::InverseQuery),
            2 => Ok(Opcode::ServerStatus),
            4 => Ok(Opcode::Notify),
            5 => Ok(Opcode::Update),
            6 => Ok(Opcode::DnsStatefulOperations),
            3 | 7 | 8 | 9 | 10 | 11 | 12 | 13 | 14 | 15 => Err(FromError::Unassigned(value)),
            v => Err(FromError::InvalidRange(v)),
        }
    }
}

impl TryFromSpecImpl<u8> for Opcode {
    open spec fn obeys_try_from_spec() -> bool {
        true
    }

    open spec fn try_from_spec(value: u8) -> Result<Opcode, FromError> {
        Opcode::from_code(value)
    }
}

impl From<Opcode> for u8 {
    /// The operation's number.
    fn from(opcode: Opcode) -> (value: u8)
        ensures
            value == opcode.code(),
    {
        match opcode {
            Opcode::Query => 0,
            Opcode::InverseQuery => 1,
            Opcode::ServerStatus => 2,
            Opcode::Notify => 4,
            Opcode::Update => 5,
            Opcode::DnsStatefulOperations => 6,
        }
    }
}

impl FromSpecImpl<Opcode> for u8 {
    open spec fn obeys_from_spec() -> bool {
        true
    }

    open spec fn from_spec(opcode: Opcode) -> u8 {
        opcode.code()
    }
}

} // verus!
