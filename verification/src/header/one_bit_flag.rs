//! The seven single-bit flags of the header. Each is a choice between two
//! named states that corresponds one to one with the bit values 0 and 1.

use vstd::prelude::*;
use vstd::std_specs::convert::{FromSpecImpl, TryFromSpecImpl};

verus! {

/// QR: whether the message is a query or a response to one.
#[derive(Debug, Clone, Copy, PartialEq, Eq)]
pub enum Qr {
    /// The message asks.
    Query,
    /// The message answers.
    Response,
}

impl Qr {
    /// The bit that stands for this state on the wire.
    pub open spec fn bit(self) -> u8 {
        match self {
            Qr::Query => 0,
            Qr::Response => 1,
        }
    }

    /// The state that a raw value stands for. Any value but 0 and 1 stands for
    /// none and is handed back as the error.
    pub open spec fn from_bit(value: u8) -> Result<Qr, u8> {
        if value == 0 {
            Ok(Qr::Query)
        } else if value == 1 {
            Ok(Qr::Response)
        } else {
            Err(value)
        }
    }

    /// The two states and the two bit values correspond one to one: a state is
    /// recovered from its bit, and a raw value is accepted exactly when it is 0
    /// or 1, as the state that has it for its bit.
    pub proof fn lemma_bit_bijection(flag: Qr, value: u8)
        ensures
            flag.bit() <= 1,
            Qr::from_bit(flag.bit()) == Ok::<Qr, u8>(flag),
            Qr::from_bit(value) is Ok <==> value <= 1,
            Qr::from_bit(value) matches Ok(state) ==> state.bit() == value,
            Qr::from_bit(value) matches Err(rejected) ==> rejected == value,
    {
    }
}

impl TryFrom<u8> for Qr {
    type Error = u8;

    /// Accepts 0 and 1; hands any other value back as the error.
    fn try_from(value: u8) -> (r: Result<Qr, u8>)
        ensures
            r == Qr::from_bit(value),
    {
        match value {
            0 => Ok(Qr::Query),
            1 => Ok(Qr::Response),
            v => Err(v),
        }
    }
}

impl TryFromSpecImpl<u8> for Qr {
    open spec fn obeys_try_from_spec() -> bool {
        true
    }

    open spec fn try_from_spec(value: u8) -> Result<Qr, u8> {
        Qr::from_bit(value)
    }
}

impl From<Qr> for u8 {
    /// The flag's bit, 0 or 1.
    fn from(flag: Qr) -> (bit: u8)
        ensures
            bit == flag.bit(),
    {
        match flag {
            Qr::Query => 0,
            Qr::Response => 1,
        }
    }
}

impl FromSpecImpl<Qr> for u8 {
    open spec fn obeys_from_spec() -> bool {
        true
    }

    open spec fn from_spec(flag: Qr) -> u8 {
        flag.bit()
    }
}

/// AA: whether the responding server is an authority for the name asked about.
#[derive(Debug, Clone, Copy, PartialEq, Eq)]
pub enum Aa {
    /// The answer comes from an authoritative server.
    FromAuthority,
    /// The answer comes from a server without authority.
    FromNonAuthority,
}

impl Aa {
    /// The bit that stands for this state on the wire.
    pub open spec fn bit(self) -> u8 {
        match self {
            Aa::FromNonAuthority => 0,
            Aa::FromAuthority => 1,
        }
    }

    /// The state that a raw value stands for. Any value but 0 and 1 stands for
    /// none and is handed back as the error.
    pub open spec fn from_bit(value: u8) -> Result<Aa, u8> {
        if value == 0 {
            Ok(Aa::FromNonAuthority)
        } else if value == 1 {
            Ok(Aa::FromAuthority)
        } else {
            Err(value)
        }
    }

    /// The two states and the two bit values correspond one to one: a state is
    /// recovered from its bit, and a raw value is accepted exactly when it is 0
    /// or 1, as the state that has it for its bit.
    pub proof fn lemma_bit_bijection(flag: Aa, value: u8)
        ensures
            flag.bit() <= 1,
            Aa::from_bit(flag.bit()) == Ok::<Aa, u8>(flag),
            Aa::from_bit(value) is Ok <==> value <= 1,
            Aa::from_bit(value) matches Ok(state) ==> state.bit() == value,
            Aa::from_bit(value) matches Err(rejected) ==> rejected == value,
    {
    }
}

impl TryFrom<u8> for Aa {
    type Error = u8;

    /// Accepts 0 and 1; hands any other value back as the error.
    fn try_from(value: u8) -> (r: Result<Aa, u8>)
        ensures
            r == Aa::from_bit(value),
    {
        match value {
            0 => Ok(Aa::FromNonAuthority),
            1 => Ok(Aa::FromAuthority),
            v => Err(v),
        }
    }
}

impl TryFromSpecImpl<u8> for Aa {
    open spec fn obeys_try_from_spec() -> bool {
        true
    }

    open spec fn try_from_spec(value: u8) -> Result<Aa, u8> {
        Aa::from_bit(value)
    }
}

impl From<Aa> for u8 {
    /// The flag's bit, 0 or 1.
    fn from(flag: Aa) -> (bit: u8)
        ensures
            bit == flag.bit(),
    {
        match flag {
            Aa::FromNonAuthority => 0,
            Aa::FromAuthority => 1,
        }
    }
}

impl FromSpecImpl<Aa> for u8 {
    open spec fn obeys_from_spec() -> bool {
        true
    }

    open spec fn from_spec(flag: Aa) -> u8 {
        flag.bit()
    }
}

/// TC: whether the message was cut short to fit the transport.
#[derive(Debug, Clone, Copy, PartialEq, Eq)]
pub enum Tc {
    /// The message was cut short.
    Truncated,
    /// The message is whole.
    NotTruncated,
}

impl Tc {
    /// The bit that stands for this state on the wire.
    pub open spec fn bit(self) -> u8 {
        match self {
            Tc::NotTruncated => 0,
            Tc::Truncated => 1,
        }
    }

    /// The state that a raw value stands for. Any value but 0 and 1 stands for
    /// none and is handed back as the error.
    pub open spec fn from_bit(value: u8) -> Result<Tc, u8> {
        if value == 0 {
            Ok(Tc::NotTruncated)
        } else if value == 1 {
            Ok(Tc::Truncated)
        } else {
            Err(value)
        }
    }

    /// The boolean reading of the flag: true when the message was cut short.
    pub open spec fn is_set(self) -> bool {
        self == Tc::Truncated
    }

    /// The state with the given boolean reading.
    pub open spec fn from_bool(value: bool) -> Tc {
        if value {
            Tc::Truncated
        } else {
            Tc::NotTruncated
        }
    }

    /// The two states and the two bit values correspond one to one: a state is
    /// recovered from its bit, and a raw value is accepted exactly when it is 0
    /// or 1, as the state that has it for its bit.
    pub proof fn lemma_bit_bijection(flag: Tc, value: u8)
        ensures
            flag.bit() <= 1,
            Tc::from_bit(flag.bit()) == Ok::<Tc, u8>(flag),
            Tc::from_bit(value) is Ok <==> value <= 1,
            Tc::from_bit(value) matches Ok(state) ==> state.bit() == value,
            Tc::from_bit(value) matches Err(rejected) ==> rejected == value,
            Tc::from_bool(flag.is_set()) == flag,
            flag.is_set() <==> flag.bit() == 1,
    {
    }
}

impl TryFrom<u8> for Tc {
    type Error = u8;

    /// Accepts 0 and 1; hands any other value back as the error.
    fn try_from(value: u8) -> (r: Result<Tc, u8>)
        ensures
            r == Tc::from_bit(value),
    {
        match value {
            0 => Ok(Tc::NotTruncated),
            1 => Ok(Tc::Truncated),
            v => Err(v),
        }
    }
}

impl TryFromSpecImpl<u8> for Tc {
    open spec fn obeys_try_from_spec() -> bool {
        true
    }

    open spec fn try_from_spec(value: u8) -> Result<Tc, u8> {
        Tc::from_bit(value)
    }
}

impl From<Tc> for u8 {
    /// The flag's bit, 0 or 1.
    fn from(flag: Tc) -> (bit: u8)
        ensures
            bit == flag.bit(),
    {
        match flag {
            Tc::NotTruncated => 0,
            Tc::Truncated => 1,
        }
    }
}

impl FromSpecImpl<Tc> for u8 {
    open spec fn obeys_from_spec() -> bool {
        true
    }

    open spec fn from_spec(flag: Tc) -> u8 {
        flag.bit()
    }
}

impl From<bool> for Tc {
    /// The state with the given boolean reading.
    fn from(value: bool) -> (flag: Tc)
        ensures
            flag == Tc::from_bool(value),
    {
        if value {
            Tc::Truncated
        } else {
            Tc::NotTruncated
        }
    }
}

impl FromSpecImpl<bool> for Tc {
    open spec fn obeys_from_spec() -> bool {
        true
    }

    open spec fn from_spec(value: bool) -> Tc {
        Tc::from_bool(value)
    }
}

impl From<Tc> for bool {
    /// The boolean reading of the flag.
    fn from(flag: Tc) -> (value: bool)
        ensures
            value == flag.is_set(),
    {
        match flag {
            Tc::Truncated => true,
            Tc::NotTruncated => false,
        }
    }
}

impl FromSpecImpl<Tc> for bool {
    open spec fn obeys_from_spec() -> bool {
        true
    }

    open spec fn from_spec(flag: Tc) -> bool {
        flag.is_set()
    }
}

/// RD: whether the client asks the server to resolve recursively.
#[derive(Debug, Clone, Copy, PartialEq, Eq)]
pub enum Rd {
    /// Recursion is asked for.
    RecursiveDesired,
    /// Recursion is not asked for.
    RecursiveUndesired,
}

impl Rd {
    /// The bit that stands for this state on the wire.
    pub open spec fn bit(self) -> u8 {
        match self {
            Rd::RecursiveUndesired => 0,
            Rd::RecursiveDesired => 1,
        }
    }

    /// The state that a raw value stands for. Any value but 0 and 1 stands for
    /// none and is handed back as the error.
    pub open spec fn from_bit(value: u8) -> Result<Rd, u8> {
        if value == 0 {
            Ok(Rd::RecursiveUndesired)
        } else if value == 1 {
            Ok(Rd::RecursiveDesired)
        } else {
            Err(value)
        }
    }

    /// The two states and the two bit values correspond one to one: a state is
    /// recovered from its bit, and a raw value is accepted exactly when it is 0
    /// or 1, as the state that has it for its bit.
    pub proof fn lemma_bit_bijection(flag: Rd, value: u8)
        ensures
            flag.bit() <= 1,
            Rd::from_bit(flag.bit()) == Ok::<Rd, u8>(flag),
            Rd::from_bit(value) is Ok <==> value <= 1,
            Rd::from_bit(value) matches Ok(state) ==> state.bit() == value,
            Rd::from_bit(value) matches Err(rejected) ==> rejected == value,
    {
    }
}

impl TryFrom<u8> for Rd {
    type Error = u8;

    /// Accepts 0 and 1; hands any other value back as the error.
    fn try_from(value: u8) -> (r: Result<Rd, u8>)
        ensures
            r == Rd::from_bit(value),
    {
        match value {
            0 => Ok(Rd::RecursiveUndesired),
            1 => Ok(Rd::RecursiveDesired),
            v => Err(v),
        }
    }
}

impl TryFromSpecImpl<u8> for Rd {
    open spec fn obeys_try_from_spec() -> bool {
        true
    }

    open spec fn try_from_spec(value: u8) -> Result<Rd, u8> {
        Rd::from_bit(value)
    }
}

impl From<Rd> for u8 {
    /// The flag's bit, 0 or 1.
    fn from(flag: Rd) -> (bit: u8)
        ensures
            bit == flag.bit(),
    {
        match flag {
            Rd::RecursiveUndesired => 0,
            Rd::RecursiveDesired => 1,
        }
    }
}

impl FromSpecImpl<Rd> for u8 {
    open spec fn obeys_from_spec() -> bool {
        true
    }

    open spec fn from_spec(flag: Rd) -> u8 {
        flag.bit()
    }
}

/// RA: whether the server offers recursive resolution.
#[derive(Debug, Clone, Copy, PartialEq, Eq)]
pub enum Ra {
    /// The server does not resolve recursively.
    RecursionUnavailable,
    /// The server resolves recursively.
    RecursionAvailable,
}

impl Ra {
    /// The bit that stands for this state on the wire.
    pub open spec fn bit(self) -> u8 {
        match self {
            Ra::RecursionUnavailable => 0,
            Ra::RecursionAvailable => 1,
        }
    }

    /// The state that a raw value stands for. Any value but 0 and 1 stands for
    /// none and is handed back as the error.
    pub open spec fn from_bit(value: u8) -> Result<Ra, u8> {
        if value == 0 {
            Ok(Ra::RecursionUnavailable)
        } else if value == 1 {
            Ok(Ra::RecursionAvailable)
        } else {
            Err(value)
        }
    }

    /// The boolean reading of the flag: true when recursion is on offer.
    pub open spec fn is_set(self) -> bool {
        self == Ra::RecursionAvailable
    }

    /// The state with the given boolean reading.
    pub open spec fn from_bool(value: bool) -> Ra {
        if value {
            Ra::RecursionAvailable
        } else {
            Ra::RecursionUnavailable
        }
    }

    /// The two states and the two bit values correspond one to one: a state is
    /// recovered from its bit, and a raw value is accepted exactly when it is 0
    /// or 1, as the state that has it for its bit.
    pub proof fn lemma_bit_bijection(flag: Ra, value: u8)
        ensures
            flag.bit() <= 1,
            Ra::from_bit(flag.bit()) == Ok::<Ra, u8>(flag),
            Ra::from_bit(value) is Ok <==> value <= 1,
            Ra::from_bit(value) matches Ok(state) ==> state.bit() == value,
            Ra::from_bit(value) matches Err(rejected) ==> rejected == value,
            Ra::from_bool(flag.is_set()) == flag,
            flag.is_set() <==> flag.bit() == 1,
    {
    }
}

impl TryFrom<u8> for Ra {
    type Error = u8;

    /// Accepts 0 and 1; hands any other value back as the error.
    fn try_from(value: u8) -> (r: Result<Ra, u8>)
        ensures
            r == Ra::from_bit(value),
    {
        match value {
            0 => Ok(Ra::RecursionUnavailable),
            1 => Ok(Ra::RecursionAvailable),
            v => Err(v),
        }
    }
}

impl TryFromSpecImpl<u8> for Ra {
    open spec fn obeys_try_from_spec() -> bool {
        true
    }

    open spec fn try_from_spec(value: u8) -> Result<Ra, u8> {
        Ra::from_bit(value)
    }
}

impl From<Ra> for u8 {
    /// The flag's bit, 0 or 1.
    fn from(flag: Ra) -> (bit: u8)
        ensures
            bit == flag.bit(),
    {
        match flag {
            Ra::RecursionUnavailable => 0,
            Ra::RecursionAvailable => 1,
        }
    }
}

impl FromSpecImpl<Ra> for u8 {
    open spec fn obeys_from_spec() -> bool {
        true
    }

    open spec fn from_spec(flag: Ra) -> u8 {
        flag.bit()
    }
}

impl From<bool> for Ra {
    /// The state with the given boolean reading.
    fn from(value: bool) -> (flag: Ra)
        ensures
            flag == Ra::from_bool(value),
    {
        if value {
            Ra::RecursionAvailable
        } else {
            Ra::RecursionUnavailable
        }
    }
}

impl FromSpecImpl<bool> for Ra {
    open spec fn obeys_from_spec() -> bool {
        true
    }

    open spec fn from_spec(value: bool) -> Ra {
        Ra::from_bool(value)
    }
}

impl From<Ra> for bool {
    /// The boolean reading of the flag.
    fn from(flag: Ra) -> (value: bool)
        ensures
            value == flag.is_set(),
    {
        match flag {
            Ra::RecursionAvailable => true,
            Ra::RecursionUnavailable => false,
        }
    }
}

impl FromSpecImpl<Ra> for bool {
    open spec fn obeys_from_spec() -> bool {
        true
    }

    open spec fn from_spec(flag: Ra) -> bool {
        flag.is_set()
    }
}

/// AD: whether the answer passed DNSSEC validation (in a query: whether the
/// client understands the bit).
#[derive(Debug, Clone, Copy, PartialEq, Eq)]
pub enum Ad {
    /// Validated, or the bit is understood.
    SuccessDnssecValidationOrSupportedAdBit,
    /// Not validated, or the bit is not understood.
    DnssecValidationFailureOrNotSupportedAdBit,
}

impl Ad {
    /// The bit that stands for this state on the wire.
    pub open spec fn bit(self) -> u8 {
        match self {
            Ad::DnssecValidationFailureOrNotSupportedAdBit => 0,
            Ad::SuccessDnssecValidationOrSupportedAdBit => 1,
        }
    }

    /// The state that a raw value stands for. Any value but 0 and 1 stands for
    /// none and is handed back as the error.
    pub open spec fn from_bit(value: u8) -> Result<Ad, u8> {
        if value == 0 {
            Ok(Ad::DnssecValidationFailureOrNotSupportedAdBit)
        } else if value == 1 {
            Ok(Ad::SuccessDnssecValidationOrSupportedAdBit)
        } else {
            Err(value)
        }
    }

    /// The two states and the two bit values correspond one to one: a state is
    /// recovered from its bit, and a raw value is accepted exactly when it is 0
    /// or 1, as the state that has it for its bit.
    pub proof fn lemma_bit_bijection(flag: Ad, value: u8)
        ensures
            flag.bit() <= 1,
            Ad::from_bit(flag.bit()) == Ok::<Ad, u8>(flag),
            Ad::from_bit(value) is Ok <==> value <= 1,
            Ad::from_bit(value) matches Ok(state) ==> state.bit() == value,
            Ad::from_bit(value) matches Err(rejected) ==> rejected == value,
    {
    }
}

impl TryFrom<u8> for Ad {
    type Error = u8;

    /// Accepts 0 and 1; hands any other value back as the error.
    fn try_from(value: u8) -> (r: Result<Ad, u8>)
        ensures
            r == Ad::from_bit(value),
    {
        match value {
            0 => Ok(Ad::DnssecValidationFailureOrNotSupportedAdBit),
            1 => Ok(Ad::SuccessDnssecValidationOrSupportedAdBit),
            v => Err(v),
        }
    }
}

impl TryFromSpecImpl<u8> for Ad {
    open spec fn obeys_try_from_spec() -> bool {
        true
    }

    open spec fn try_from_spec(value: u8) -> Result<Ad, u8> {
        Ad::from_bit(value)
    }
}

impl From<Ad> for u8 {
    /// The flag's bit, 0 or 1.
    fn from(flag: Ad) -> (bit: u8)
        ensures
            bit == flag.bit(),
    {
        match flag {
            Ad::DnssecValidationFailureOrNotSupportedAdBit => 0,
            Ad::SuccessDnssecValidationOrSupportedAdBit => 1,
        }
    }
}

impl FromSpecImpl<Ad> for u8 {
    open spec fn obeys_from_spec() -> bool {
        true
    }

    open spec fn from_spec(flag: Ad) -> u8 {
        flag.bit()
    }
}

/// CD: whether the resolver is to leave DNSSEC validation out.
#[derive(Debug, Clone, Copy, PartialEq, Eq)]
pub enum Cd {
    /// Validation stays on.
    DnssecEnabled,
    /// Validation is switched off for this query.
    DnssecForbidden,
}

impl Cd {
    /// The bit that stands for this state on the wire.
    pub open spec fn bit(self) -> u8 {
        match self {
            Cd::DnssecEnabled => 0,
            Cd::DnssecForbidden => 1,
        }
    }

    /// The state that a raw value stands for. Any value but 0 and 1 stands for
    /// none and is handed back as the error.
    pub open spec fn from_bit(value: u8) -> Result<Cd, u8> {
        if value == 0 {
            Ok(Cd::DnssecEnabled)
        } else if value == 1 {
            Ok(Cd::DnssecForbidden)
        } else {
            Err(value)
        }
    }

    /// The two states and the two bit values correspond one to one: a state is
    /// recovered from its bit, and a raw value is accepted exactly when it is 0
    /// or 1, as the state that has it for its bit.
    pub proof fn lemma_bit_bijection(flag: Cd, value: u8)
        ensures
            flag.bit() <= 1,
            Cd::from_bit(flag.bit()) == Ok::<Cd, u8>(flag),
            Cd::from_bit(value) is Ok <==> value <= 1,
            Cd::from_bit(value) matches Ok(state) ==> state.bit() == value,
            Cd::from_bit(value) matches Err(rejected) ==> rejected == value,
    {
    }
}

impl TryFrom<u8> for Cd {
    type Error = u8;

    /// Accepts 0 and 1; hands any other value back as the error.
    fn try_from(value: u8) -> (r: Result<Cd, u8>)
        ensures
            r == Cd::from_bit(value),
    {
        match value {
            0 => Ok(Cd::DnssecEnabled),
            1 => Ok(Cd::DnssecForbidden),
            v => Err(v),
        }
    }
}

impl TryFromSpecImpl<u8> for Cd {
    open spec fn obeys_try_from_spec() -> bool {
        true
    }

    open spec fn try_from_spec(value: u8) -> Result<Cd, u8> {
        Cd::from_bit(value)
    }
}

impl From<Cd> for u8 {
    /// The flag's bit, 0 or 1.
    fn from(flag: Cd) -> (bit: u8)
        ensures
            bit == flag.bit(),
    {
        match flag {
            Cd::DnssecEnabled => 0,
            Cd::DnssecForbidden => 1,
        }
    }
}

impl FromSpecImpl<Cd> for u8 {
    open spec fn obeys_from_spec() -> bool {
        true
    }

    open spec fn from_spec(flag: Cd) -> u8 {
        flag.bit()
    }
}

} // verus!
