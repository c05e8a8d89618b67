//! The response code: how the request fared.

use crate::text::{hex4_string, hex4_text};
use vstd::prelude::*;
use vstd::std_specs::convert::{FromSpecImpl, TryFromSpecImpl};

verus! {

/// The response codes that are assigned today, over sixteen bits: the header
/// itself carries the low four bits, and an extension carries the rest.
#[non_exhaustive]
#[derive(Debug, Clone, Copy, PartialEq, Eq)]
pub enum Rcode {
    /// No error.
    NoError,
    /// The server could not make sense of the query.
    FormatError,
    /// The server failed.
    ServerFailure,
    /// The name does not exist.
    NameError,
    /// The server does not support the kind of query.
    NotImplemented,
    /// The server refuses for reasons of policy.
    Refused,
    /// A name exists that should not.
    YxDomain,
    /// A record set exists that should not.
    YxRrset,
    /// A record set that should exist does not.
    NxRrset,
    /// The server has no authority for the zone.
    NotAuth,
    /// The name is not within the zone.
    NotZone,
    /// The stateful operation type is not implemented.
    Dsotypeni,
    /// Bad extension version, or a signature that failed.
    BadversOrBadsig,
    /// The key is not recognised.
    Badkey,
    /// The signature is outside its time window.
    Badtime,
    /// Bad key-exchange mode.
    Badmode,
    /// Duplicate key name.
    Badname,
    /// The algorithm is not supported.
    Badalg,
    /// Bad truncation.
    Badtrunc,
    /// The server cookie is bad or missing.
    Badcookie,
    /// A code from the range set aside for private use, 3841 to 4095, with
    /// the number itself.
    Private(u16),
    /// The highest number, which is reserved.
    Reserved,
}

/// Why a number is not a response code.
#[derive(Debug, PartialEq, Eq)]
pub enum FromError {
    /// No response code is assigned to the number.
    Unassigned(u16),
    /// The number fell through every class. The classes cover all numbers, so
    /// this is never reported.
    LogicError(u16),
}

impl Rcode {
    /// The number that stands for this code.
    pub open spec fn code(self) -> u16 {
        match self {
            Rcode::NoError => 0,
            Rcode::FormatError => 1,
            Rcode::ServerFailure => 2,
            Rcode::NameError => 3,
            Rcode::NotImplemented => 4,
            Rcode::Refused => 5,
            Rcode::YxDomain => 6,
            Rcode::YxRrset => 7,
            Rcode::NxRrset => 8,
            Rcode::NotAuth => 9,
            Rcode::NotZone => 10,
            Rcode::Dsotypeni => 11,
            Rcode::BadversOrBadsig => 16,
            Rcode::Badkey => 17,
            Rcode::Badtime => 18,
            Rcode::Badmode => 19,
            Rcode::Badname => 20,
            Rcode::Badalg => 21,
            Rcode::Badtrunc => 22,
            Rcode::Badcookie => 23,
            Rcode::Private(value) => value,
            Rcode::Reserved => 65535,
        }
    }

    /// Whether the number lies in the range set aside for private use.
    pub open spec fn is_private_use(value: u16) -> bool {
        3841 <= value <= 4095
    }

    /// Whether a code of its own name is assigned to the number.
    pub open spec fn is_named(value: u16) -> bool {
        value <= 11 || 16 <= value <= 23
    }

    /// Whether a private code carries a number of the private range. Every
    /// other code is in its domain as it stands.
    pub open spec fn in_domain(self) -> bool {
        self matches Rcode::Private(value) ==> Rcode::is_private_use(value)
    }

    /// The named code that stands for a number to which one is assigned.
    pub open spec fn named(value: u16) -> Rcode
        recommends
            Rcode::is_named(value),
    {
        if value == 0 {
            Rcode::NoError
        } else if value == 1 {
            Rcode::FormatError
        } else if value == 2 {
            Rcode::ServerFailure
        } else if value == 3 {
            Rcode::NameError
        } else if value == 4 {
            Rcode::NotImplemented
        } else if value == 5 {
            Rcode::Refused
        } else if value == 6 {
            Rcode::YxDomain
        } else if value == 7 {
            Rcode::YxRrset
        } else if value == 8 {
            Rcode::NxRrset
        } else if value == 9 {
            Rcode::NotAuth
        } else if value == 10 {
            Rcode::NotZone
        } else if value == 11 {
            Rcode::Dsotypeni
        } else if value == 16 {
            Rcode::BadversOrBadsig
        } else if value == 17 {
            Rcode::Badkey
        } else if value == 18 {
            Rcode::Badtime
        } else if value == 19 {
            Rcode::Badmode
        } else if value == 20 {
            Rcode::Badname
        } else if value == 21 {
            Rcode::Badalg
        } else if value == 22 {
            Rcode::Badtrunc
        } else {
            Rcode::Badcookie
        }
    }

    /// The code that a number stands for, or the number as unassigned.
    pub open spec fn from_code(value: u16) -> Result<Rcode, FromError> {
        if Rcode::is_private_use(value) {
            Ok(Rcode::Private(value))
        } else if value == 65535 {
            Ok(Rcode::Reserved)
        } else if Rcode::is_named(value) {
            Ok(Rcode::named(value))
        } else {
            Err(FromError::Unassigned(value))
        }
    }

    /// Renders the code's number as four upper-case hexadecimal digits.
    pub fn to_hex_string(&self) -> (s: String)
        ensures
            s@ == hex4_text(self.code()),
    {
        let value: u16 = (*self).into();
        hex4_string(value)
    }

    /// The numbers 12 to 15, 24 to 3840 and 4096 to 65534 are refused as
    /// unassigned, and no others; 3841 to 4095 give a private code that
    /// carries the number; 65535 gives the reserved code. The logic error is
    /// never reported, and an accepted code has the number for its own.
    pub proof fn lemma_from_code_classifies(value: u16)
        ensures
            (12 <= value <= 15 || 24 <= value <= 3840 || 4096 <= value <= 65534)
                <==> Rcode::from_code(value) == Err::<Rcode, FromError>(
                FromError::Unassigned(value),
            ),
            3841 <= value <= 4095 <==> Rcode::from_code(value) == Ok::<Rcode, FromError>(
                Rcode::Private(value),
            ),
            value == 65535 <==> Rcode::from_code(value) == Ok::<Rcode, FromError>(
                Rcode::Reserved,
            ),
            !(Rcode::from_code(value) matches Err(FromError::LogicError(_))),
            Rcode::from_code(value) matches Ok(rcode) ==> rcode.code() == value
                && rcode.in_domain(),
    {
    }

    /// Every code in its domain is recovered from its own number.
    pub proof fn lemma_code_round_trip(rcode: Rcode)
        requires
            rcode.in_domain(),
        ensures
            Rcode::from_code(rcode.code()) == Ok::<Rcode, FromError>(rcode),
    {
    }
}

impl TryFrom<u16> for Rcode {
    type Error = FromError;

    /// Accepts the assigned numbers, the private range and the reserved
    /// number, and refuses every other number as unassigned.
    fn try_from(value: u16) -> (r: Result<Rcode, FromError>)
        ensures
            r == Rcode::from_code(value),
    {
        if (24 <= value && value <= 3840) || (4096 <= value && value <= 65534) {
            return Err(FromError::Unassigned(value));
        } else if 3841 <= value && value <= 4095 {
            return Ok(Rcode::Private(value));
        }
        match value {
            0 => Ok(Rcode::NoError),
            1 => Ok(Rcode::FormatError),
            2 => Ok(Rcode::ServerFailure),
            3 => Ok(Rcode::NameError),
            4 => Ok(Rcode::NotImplemented),
            5 => Ok(Rcode::Refused),
            6 => Ok(Rcode::YxDomain),
            7 => Ok(Rcode::YxRrset),
            8 => Ok(Rcode::NxRrset),
            9 => Ok(Rcode::NotAuth),
            10 => Ok(Rcode::NotZone),
            11 => Ok(Rcode::Dsotypeni),
            16 => Ok(Rcode::BadversOrBadsig),
            17 => Ok(Rcode::Badkey),
            18 => Ok(Rcode::Badtime),
            19 => Ok(Rcode::Badmode),
            20 => Ok(Rcode::Badname),
            21 => Ok(Rcode::Badalg),
            22 => Ok(Rcode::Badtrunc),
            23 => Ok(Rcode::Badcookie),
            65535 => Ok(Rcode::Reserved),
            12 | 13 | 14 | 15 => Err(FromError::Unassigned(value)),
            v => Err(FromError::LogicError(v)),
        }
    }
}

impl TryFromSpecImpl<u16> for Rcode {
    open spec fn obeys_try_from_spec() -> bool {
        true
    }

    open spec fn try_from_spec(value: u16) -> Result<Rcode, FromError> {
        Rcode::from_code(value)
    }
}

impl From<Rcode> for u16 {
    /// The code's number; a private code gives the number it carries.
    fn from(rcode: Rcode) -> (value: u16)
        ensures
            value == rcode.code(),
    {
        match rcode {
            Rcode::NoError => 0,
            Rcode::FormatError => 1,
            Rcode::ServerFailure => 2,
            Rcode::NameError => 3,
            Rcode::NotImplemented => 4,
            Rcode::Refused => 5,
            Rcode::YxDomain => 6,
            Rcode::YxRrset => 7,
            Rcode::NxRrset => 8,
            Rcode::NotAuth => 9,
            Rcode::NotZone => 10,
            Rcode::Dsotypeni => 11,
            Rcode::BadversOrBadsig => 16,
            Rcode::Badkey => 17,
            Rcode::Badtime => 18,
            Rcode::Badmode => 19,
            Rcode::Badname => 20,
            Rcode::Badalg => 21,
            Rcode::Badtrunc => 22,
            Rcode::Badcookie => 23,
            Rcode::Private(value) => value,
            Rcode::Reserved => 65535,
        }
    }
}

impl FromSpecImpl<Rcode> for u16 {
    open spec fn obeys_from_spec() -> bool {
        true
    }

    open spec fn from_spec(rcode: Rcode) -> u16 {
        rcode.code()
    }
}

} // verus!
