//! What decoding and encoding a header report when they fail, and the text of
//! each report.

use crate::text::{decimal_text, push_decimal};
use vstd::prelude::*;
use vstd::string::*;

verus! {

/// The fields of the packed flag word, each of which is checked on decoding.
#[derive(Debug, Clone, Copy, PartialEq, Eq)]
pub enum Field {
    Qr,
    Opcode,
    Aa,
    Tc,
    Rd,
    Ra,
    Z,
    Ad,
    Cd,
    Rcode,
}

impl Field {
    /// The field's name as the protocol writes it.
    pub open spec fn name_text(self) -> Seq<char> {
        match self {
            Field::Qr => "QR"@,
            Field::Opcode => "OPCODE"@,
            Field::Aa => "AA"@,
            Field::Tc => "TC"@,
            Field::Rd => "RD"@,
            Field::Ra => "RA"@,
            Field::Z => "Z"@,
            Field::Ad => "AD"@,
            Field::Cd => "CD"@,
            Field::Rcode => "RCODE"@,
        }
    }

    /// The field's name as the protocol writes it.
    pub fn name(&self) -> (s: &'static str)
        ensures
            s@ == self.name_text(),
    {
        match self {
            Field::Qr => "QR",
            Field::Opcode => "OPCODE",
            Field::Aa => "AA",
            Field::Tc => "TC",
            Field::Rd => "RD",
            Field::Ra => "RA",
            Field::Z => "Z",
            Field::Ad => "AD",
            Field::Cd => "CD",
            Field::Rcode => "RCODE",
        }
    }
}

/// Why a value was refused, where the field tells more than that it was.
#[derive(Debug, Clone, Copy, PartialEq, Eq)]
pub enum Reason {
    /// The value does not fit the field.
    RangeInvalid,
    /// The value fits the field, but nothing is assigned to it.
    Unassigned,
    /// The value fell through every class of its field.
    LogicError,
}

impl Reason {
    /// The reason in words.
    pub open spec fn text(self) -> Seq<char> {
        match self {
            Reason::RangeInvalid => "range invalid"@,
            Reason::Unassigned => "unassigned in RFC"@,
            Reason::LogicError => "logic error"@,
        }
    }

    /// The reason in words.
    pub fn as_str(&self) -> (s: &'static str)
        ensures
            s@ == self.text(),
    {
        match self {
            Reason::RangeInvalid => "range invalid",
            Reason::Unassigned => "unassigned in RFC",
            Reason::LogicError => "logic error",
        }
    }
}

/// A field held a value outside its domain.
#[derive(Debug, Clone, Copy, PartialEq, Eq)]
pub struct InvalidValueError {
    /// The field that was refused.
    pub field: Field,
    /// The raw value found in it.
    pub invalid_value: u16,
    /// The class of the failure, for the fields that distinguish classes.
    pub reason: Option<Reason>,
}

impl InvalidValueError {
    /// The report in words: the field, the reason where there is one, and
    /// the value in decimal.
    pub open spec fn message_text(self) -> Seq<char> {
        match self.reason {
            None => "found invalid "@ + self.field.name_text() + " value: "@ + decimal_text(
                self.invalid_value as nat,
            ),
            Some(reason) => "found invalid "@ + self.field.name_text() + " value ("@
                + reason.text() + "): "@ + decimal_text(self.invalid_value as nat),
        }
    }

    /// The name of the field that was refused.
    pub fn name(&self) -> (s: String)
        ensures
            s@ == self.field.name_text(),
    {
        String::from_str(self.field.name())
    }

    /// The class of the failure in words, where there is one.
    pub fn additional_info(&self) -> (info: Option<String>)
        ensures
            self.reason is None <==> info is None,
            self.reason matches Some(reason) ==> info matches Some(s) && s@ == reason.text(),
    {
        match self.reason {
            None => None,
            Some(reason) => Some(String::from_str(reason.as_str())),
        }
    }

    /// The report in words.
    pub fn message(&self) -> (s: String)
        ensures
            s@ == self.message_text(),
    {
        let mut s = String::from_str("found invalid ");
        s.append(self.field.name());
        match self.reason {
            None => {
                s.append(" value: ");
            },
            Some(reason) => {
                s.append(" value (");
                s.append(reason.as_str());
                s.append("): ");
            },
        }
        push_decimal(&mut s, self.invalid_value);
        s
    }
}

/// The buffer ended before a word of the header did.
#[derive(Debug, PartialEq, Eq)]
pub struct HeaderReadError {
    /// The source's own description of the failure.
    pub cause: String,
    /// The first and the last bit of the word that could not be read,
    /// counting the header's bits from one.
    pub range: (u8, u8),
}

impl HeaderReadError {
    /// The report in words: the bits that could not be read, then the cause
    /// on a line of its own.
    pub open spec fn message_text(self) -> Seq<char> {
        "cannot read header from "@ + decimal_text(self.range.0 as nat) + " to "@ + decimal_text(
            self.range.1 as nat,
        ) + " bit"@ + "\n"@ + self.cause@
    }

    /// The report in words.
    pub fn message(&self) -> (s: String)
        ensures
            s@ == self.message_text(),
    {
        let mut s = String::from_str("cannot read header from ");
        push_decimal(&mut s, self.range.0 as u16);
        s.append(" to ");
        push_decimal(&mut s, self.range.1 as u16);
        s.append(" bit");
        s.append("\n");
        s.append(self.cause.as_str());
        s
    }
}

/// Why a buffer is not a header.
#[derive(Debug, PartialEq, Eq)]
pub enum DecodeError {
    /// The buffer is too short.
    Read(HeaderReadError),
    /// A field holds a value outside its domain.
    InvalidValue(InvalidValueError),
}

impl DecodeError {
    /// The report in words.
    pub open spec fn message_text(self) -> Seq<char> {
        match self {
            DecodeError::Read(error) => error.message_text(),
            DecodeError::InvalidValue(error) => error.message_text(),
        }
    }

    /// The report in words.
    pub fn message(&self) -> (s: String)
        ensures
            s@ == self.message_text(),
    {
        match self {
            DecodeError::Read(error) => error.message(),
            DecodeError::InvalidValue(error) => error.message(),
        }
    }
}

/// The six words of the header, as the encoder names them when the sink
/// refuses one.
#[derive(Debug, Clone, Copy, PartialEq, Eq)]
pub enum Property {
    Id,
    Flags,
    QdZoCount,
    AnPrCount,
    NsUpCount,
    Arcount,
}

impl Property {
    /// The word's name.
    pub open spec fn name_text(self) -> Seq<char> {
        match self {
            Property::Id => "ID"@,
            Property::Flags => "17 ~ 32 bit"@,
            Property::QdZoCount => "QDCOUNT / ZOCOUNT"@,
            Property::AnPrCount => "ANCOUNT / PRCOUNT"@,
            Property::NsUpCount => "NSCOUNT / UPCOUNT"@,
            Property::Arcount => "ARCOUNT"@,
        }
    }

    /// The word's name.
    pub fn name(&self) -> (s: &'static str)
        ensures
            s@ == self.name_text(),
    {
        match self {
            Property::Id => "ID",
            Property::Flags => "17 ~ 32 bit",
            Property::QdZoCount => "QDCOUNT / ZOCOUNT",
            Property::AnPrCount => "ANCOUNT / PRCOUNT",
            Property::NsUpCount => "NSCOUNT / UPCOUNT",
            Property::Arcount => "ARCOUNT",
        }
    }
}

/// The sink refused a word of the header.
#[derive(Debug)]
pub struct HeaderWriteError {
    /// The sink's own description of the failure.
    pub cause: String,
    /// The word that was refused.
    pub property: Property,
}

impl HeaderWriteError {
    /// The report in words: the word that was refused, then the cause on a
    /// line of its own.
    pub open spec fn message_text(self) -> Seq<char> {
        "cannot write header property: "@ + self.property.name_text() + "\n"@ + self.cause@
    }

    /// The name of the word that was refused.
    pub fn property_name(&self) -> (s: String)
        ensures
            s@ == self.property.name_text(),
    {
        String::from_str(self.property.name())
    }

    /// The report in words.
    pub fn message(&self) -> (s: String)
        ensures
            s@ == self.message_text(),
    {
        let mut s = String::from_str("cannot write header property: ");
        s.append(self.property.name());
        s.append("\n");
        s.append(self.cause.as_str());
        s
    }
}

} // verus!
