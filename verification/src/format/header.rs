//! The fixed header that opens every message: twelve octets, six big-endian
//! words. The second word packs the flags, the operation code and the low
//! four bits of the response code.
//!
//! | bits of the word | field  |
//! |------------------|--------|
//! | 15               | QR     |
//! | 14 to 11         | OPCODE |
//! | 10               | AA     |
//! | 9                | TC     |
//! | 8                | RD     |
//! | 7                | RA     |
//! | 6                | Z      |
//! | 5                | AD     |
//! | 4                | CD     |
//! | 3 to 0           | RCODE  |

pub mod aa;
pub mod ad;
pub mod cd;
pub mod count;
pub mod error;
pub mod id;
pub mod laws;
pub mod opcode;
pub mod qr;
pub mod ra;
pub mod rcode;
pub mod rd;
pub mod tc;
pub mod z;

use crate::header::one_bit_flag::{Aa, Ad, Cd, Qr, Ra, Rd, Tc};
use crate::wire::{be_bytes, read_word, word_at, write_word};
use count::{AnPrCount, Arcount, NsUpCount, QdZoCount};
use error::{DecodeError, Field, HeaderReadError, HeaderWriteError, InvalidValueError, Property, Reason};
use id::Id;
use opcode::Opcode;
use rcode::Rcode;
use vstd::prelude::*;
use z::Z;

verus! {

/// A decoded header. Every field holds a member of its own domain; there is
/// no header with a field that failed its check.
#[derive(Debug, Clone, Copy, PartialEq, Eq)]
pub struct Header {
    pub id: Id,
    pub qr: Qr,
    pub opcode: Opcode,
    pub aa: Aa,
    pub tc: Tc,
    pub rd: Rd,
    pub ra: Ra,
    pub z: Z,
    pub ad: Ad,
    pub cd: Cd,
    pub rcode: Rcode,
    pub qd_zo_count: QdZoCount,
    pub an_pr_count: AnPrCount,
    pub ns_up_count: NsUpCount,
    pub arcount: Arcount,
}

/// The QR bit of the flag word.
pub open spec fn qr_bits(chunk: u16) -> u8 {
    ((chunk & 0x8000) >> 15) as u8
}

/// The four OPCODE bits of the flag word.
pub open spec fn opcode_bits(chunk: u16) -> u8 {
    ((chunk & 0x7800) >> 11) as u8
}

/// The AA bit of the flag word.
pub open spec fn aa_bits(chunk: u16) -> u8 {
    ((chunk & 0x0400) >> 10) as u8
}

/// The TC bit of the flag word.
pub open spec fn tc_bits(chunk: u16) -> u8 {
    ((chunk & 0x0200) >> 9) as u8
}

/// The RD bit of the flag word.
pub open spec fn rd_bits(chunk: u16) -> u8 {
    ((chunk & 0x0100) >> 8) as u8
}

/// The RA bit of the flag word.
pub open spec fn ra_bits(chunk: u16) -> u8 {
    ((chunk & 0x0080) >> 7) as u8
}

/// The reserved bit of the flag word.
pub open spec fn z_bits(chunk: u16) -> u8 {
    ((chunk & 0x0040) >> 6) as u8
}

/// The AD bit of the flag word.
pub open spec fn ad_bits(chunk: u16) -> u8 {
    ((chunk & 0x0020) >> 5) as u8
}

/// The CD bit of the flag word.
pub open spec fn cd_bits(chunk: u16) -> u8 {
    ((chunk & 0x0010) >> 4) as u8
}

/// The four RCODE bits of the flag word.
pub open spec fn rcode_bits(chunk: u16) -> u16 {
    chunk & 0x000F
}

/// The first and the last bit of the `index`-th word, counting the header's
/// bits from one.
pub open spec fn word_range(index: int) -> (u8, u8) {
    ((16 * index + 1) as u8, (16 * index + 16) as u8)
}

/// The report that a field holds a value outside its domain.
pub open spec fn invalid(field: Field, value: u16, reason: Option<Reason>) -> InvalidValueError {
    InvalidValueError { field, invalid_value: value, reason }
}

/// The report for a number that is no operation code.
pub open spec fn opcode_error_spec(error: opcode::FromError) -> InvalidValueError {
    match error {
        opcode::FromError::InvalidRange(value) => invalid(
            Field::Opcode,
            value as u16,
            Some(Reason::RangeInvalid),
        ),
        opcode::FromError::Unassigned(value) => invalid(
            Field::Opcode,
            value as u16,
            Some(Reason::Unassigned),
        ),
    }
}

/// The report for a number that is no response code.
pub open spec fn rcode_error_spec(error: rcode::FromError) -> InvalidValueError {
    match error {
        rcode::FromError::LogicError(value) => invalid(
            Field::Rcode,
            value,
            Some(Reason::LogicError),
        ),
        rcode::FromError::Unassigned(value) => invalid(
            Field::Rcode,
            value,
            Some(Reason::Unassigned),
        ),
    }
}

/// Turns the refusal of an operation code into the header's report of it:
/// the refused number with its class.
pub fn opcode_error(error: opcode::FromError) -> (report: InvalidValueError)
    ensures
        report == opcode_error_spec(error),
{
    match error {
        opcode::FromError::InvalidRange(value) => InvalidValueError {
            field: Field::Opcode,
            invalid_value: value as u16,
            reason: Some(Reason::RangeInvalid),
        },
        opcode::FromError::Unassigned(value) => InvalidValueError {
            field: Field::Opcode,
            invalid_value: value as u16,
            reason: Some(Reason::Unassigned),
        },
    }
}

/// Turns the refusal of a response code into the header's report of it: the
/// refused number with its class.
pub fn rcode_error(error: rcode::FromError) -> (report: InvalidValueError)
    ensures
        report == rcode_error_spec(error),
{
    match error {
        rcode::FromError::LogicError(value) => InvalidValueError {
            field: Field::Rcode,
            invalid_value: value,
            reason: Some(Reason::LogicError),
        },
        rcode::FromError::Unassigned(value) => InvalidValueError {
            field: Field::Rcode,
            invalid_value: value,
            reason: Some(Reason::Unassigned),
        },
    }
}

/// Turns the refusal of a flag's raw value into the header's report of it.
pub fn flag_error(field: Field, value: u8) -> (report: InvalidValueError)
    ensures
        report == invalid(field, value as u16, None),
{
    InvalidValueError { field, invalid_value: value as u16, reason: None }
}

/// Turns what the sink said of one word into the encoder's outcome for that
/// word: success stays success, and a failure is tagged with the word.
pub fn write_outcome(outcome: Result<(), String>, property: Property) -> (r: Result<
    (),
    HeaderWriteError,
>)
    ensures
        outcome is Ok <==> r is Ok,
        outcome matches Err(cause) ==> r matches Err(error) && error.property == property
            && error.cause == cause,
{
    match outcome {
        Ok(()) => Ok(()),
        Err(cause) => Err(HeaderWriteError { cause, property }),
    }
}

/// Every field of the flag word fits its width.
pub proof fn lemma_field_widths(chunk: u16)
    by (bit_vector)
    ensures
        (chunk & 0x8000) >> 15 <= 1,
        (chunk & 0x7800) >> 11 <= 15,
        (chunk & 0x0400) >> 10 <= 1,
        (chunk & 0x0200) >> 9 <= 1,
        (chunk & 0x0100) >> 8 <= 1,
        (chunk & 0x0080) >> 7 <= 1,
        (chunk & 0x0040) >> 6 <= 1,
        (chunk & 0x0020) >> 5 <= 1,
        (chunk & 0x0010) >> 4 <= 1,
        chunk & 0x000F <= 15,
{
}

impl Header {
    /// The header that six words stand for, or the first field of the flag
    /// word, in the order QR, OPCODE, AA, TC, RD, RA, Z, AD, CD, RCODE, that
    /// holds no member of its domain. A one-bit field always holds one, so
    /// only an unassigned operation code, a reserved bit that is set and an
    /// unassigned response code are ever reported.
    pub open spec fn unpack_spec(
        id: u16,
        chunk: u16,
        qd_zo_count: u16,
        an_pr_count: u16,
        ns_up_count: u16,
        arcount: u16,
    ) -> Result<Header, InvalidValueError> {
        if !Opcode::is_assigned(opcode_bits(chunk)) {
            Err(invalid(Field::Opcode, opcode_bits(chunk) as u16, Some(Reason::Unassigned)))
        } else if z_bits(chunk) != 0 {
            Err(invalid(Field::Z, 1, None))
        } else if !Rcode::is_named(rcode_bits(chunk)) {
            Err(invalid(Field::Rcode, rcode_bits(chunk), Some(Reason::Unassigned)))
        } else {
            Ok(
                Header {
                    id: Id(id),
                    qr: Qr::from_bit(qr_bits(chunk)).unwrap(),
                    opcode: Opcode::from_code(opcode_bits(chunk)).unwrap(),
                    aa: Aa::from_bit(aa_bits(chunk)).unwrap(),
                    tc: Tc::from_bit(tc_bits(chunk)).unwrap(),
                    rd: Rd::from_bit(rd_bits(chunk)).unwrap(),
                    ra: Ra::from_bit(ra_bits(chunk)).unwrap(),
                    z: Z,
                    ad: Ad::from_bit(ad_bits(chunk)).unwrap(),
                    cd: Cd::from_bit(cd_bits(chunk)).unwrap(),
                    rcode: Rcode::named(rcode_bits(chunk)),
                    qd_zo_count: QdZoCount(qd_zo_count),
                    an_pr_count: AnPrCount(an_pr_count),
                    ns_up_count: NsUpCount(ns_up_count),
                    arcount: Arcount(arcount),
                },
            )
        }
    }

    /// What a buffer of twelve octets or more decodes to: its first six words
    /// decide, and octets after them are not looked at. A shorter buffer is
    /// refused for its length before any field is checked.
    pub open spec fn decode_spec(bytes: Seq<u8>) -> Result<Header, DecodeError>
        recommends
            bytes.len() >= 12,
    {
        match Header::unpack_spec(
            word_at(bytes, 0),
            word_at(bytes, 1),
            word_at(bytes, 2),
            word_at(bytes, 3),
            word_at(bytes, 4),
            word_at(bytes, 5),
        ) {
            Ok(header) => Ok(header),
            Err(error) => Err(DecodeError::InvalidValue(error)),
        }
    }

    /// The bits of the first word that a buffer of `len` octets, fewer than
    /// twelve, does not hold in full.
    pub open spec fn missing_range(len: nat) -> (u8, u8)
        recommends
            len < 12,
    {
        word_range(len as int / 2)
    }

    /// The flag word of this header. Only the low four bits of the response
    /// code have a place in it; the reserved bit is zero.
    pub open spec fn flags_word(self) -> u16 {
        ((self.qr.bit() as u16) << 15)
            | ((self.opcode.code() as u16) << 11)
            | ((self.aa.bit() as u16) << 10)
            | ((self.tc.bit() as u16) << 9)
            | ((self.rd.bit() as u16) << 8)
            | ((self.ra.bit() as u16) << 7)
            | ((self.ad.bit() as u16) << 5)
            | ((self.cd.bit() as u16) << 4)
            | (self.rcode.code() & 0x000F)
    }

    /// The twelve octets of this header: its six words in wire order, each
    /// high byte first.
    pub open spec fn wire(self) -> Seq<u8> {
        be_bytes(self.id.0)
            + be_bytes(self.flags_word())
            + be_bytes(self.qd_zo_count.0)
            + be_bytes(self.an_pr_count.0)
            + be_bytes(self.ns_up_count.0)
            + be_bytes(self.arcount.0)
    }

    /// Whether the response code is one that the header alone can carry: a
    /// named code below sixteen.
    pub open spec fn rcode_fits(self) -> bool {
        self.rcode.code() <= 11 && !(self.rcode is Private)
    }

    /// Builds a header from its six words. Each field of the flag word goes
    /// through its own conversion, in the order QR, OPCODE, AA, TC, RD, RA, Z,
    /// AD, CD, RCODE, and the first refusal is the result.
    pub fn unpack(
        id: u16,
        chunk: u16,
        qd_zo_count: u16,
        an_pr_count: u16,
        ns_up_count: u16,
        arcount: u16,
    ) -> (r: Result<Header, InvalidValueError>)
        ensures
            r == Header::unpack_spec(id, chunk, qd_zo_count, an_pr_count, ns_up_count, arcount),
    {
        proof {
            lemma_field_widths(chunk);
        }
        let qr = ((chunk & 0x8000) >> 15) as u8;
        let opcode = ((chunk & 0x7800) >> 11) as u8;
        let aa = ((chunk & 0x0400) >> 10) as u8;
        let tc = ((chunk & 0x0200) >> 9) as u8;
        let rd = ((chunk & 0x0100) >> 8) as u8;
        let ra = ((chunk & 0x0080) >> 7) as u8;
        let z = ((chunk & 0x0040) >> 6) as u8;
        let ad = ((chunk & 0x0020) >> 5) as u8;
        let cd = ((chunk & 0x0010) >> 4) as u8;
        let rcode = chunk & 0x000F;

        let qr = match Qr::try_from(qr) {
            Ok(flag) => flag,
            Err(value) => return Err(flag_error(Field::Qr, value)),
        };
        let opcode = match Opcode::try_from(opcode) {
            Ok(code) => code,
            Err(error) => return Err(opcode_error(error)),
        };
        let aa = match Aa::try_from(aa) {
            Ok(flag) => flag,
            Err(value) => return Err(flag_error(Field::Aa, value)),
        };
        let tc = match Tc::try_from(tc) {
            Ok(flag) => flag,
            Err(value) => return Err(flag_error(Field::Tc, value)),
        };
        let rd = match Rd::try_from(rd) {
            Ok(flag) => flag,
            Err(value) => return Err(flag_error(Field::Rd, value)),
        };
        let ra = match Ra::try_from(ra) {
            Ok(flag) => flag,
            Err(value) => return Err(flag_error(Field::Ra, value)),
        };
        let z = match Z::try_from(z) {
            Ok(reserved) => reserved,
            Err(value) => return Err(flag_error(Field::Z, value)),
        };
        let ad = match Ad::try_from(ad) {
            Ok(flag) => flag,
            Err(value) => return Err(flag_error(Field::Ad, value)),
        };
        let cd = match Cd::try_from(cd) {
            Ok(flag) => flag,
            Err(value) => return Err(flag_error(Field::Cd, value)),
        };
        let rcode = match Rcode::try_from(rcode) {
            Ok(code) => code,
            Err(error) => return Err(rcode_error(error)),
        };

        Ok(
            Header {
                id: Id(id),
                qr,
                opcode,
                aa,
                tc,
                rd,
                ra,
                z,
                ad,
                cd,
                rcode,
                qd_zo_count: QdZoCount(qd_zo_count),
                an_pr_count: AnPrCount(an_pr_count),
                ns_up_count: NsUpCount(ns_up_count),
                arcount: Arcount(arcount),
            },
        )
    }

    /// Reads the `index`-th word of the header. When the buffer ends before
    /// that word does, the report holds the word's bit range and the source's
    /// own description of the failure.
    fn read_field(header_buffer: &[u8], index: usize) -> (r: Result<u16, DecodeError>)
        requires
            index < 6,
        ensures
            2 * index + 2 <= header_buffer@.len() ==> r == Ok::<u16, DecodeError>(
                word_at(header_buffer@, index as int),
            ),
            2 * index + 2 > header_buffer@.len() ==> (r matches Err(DecodeError::Read(error))
                && error.range == word_range(index as int)),
    {
        match read_word(header_buffer, index) {
            Ok(word) => Ok(word),
            Err(cause) => {
                let first: u8 = (16 * index + 1) as u8;
                let last: u8 = (16 * index + 16) as u8;
                Err(DecodeError::Read(HeaderReadError { cause, range: (first, last) }))
            },
        }
    }

    /// Decodes the header at the start of a buffer. The six words are read
    /// first, so a short buffer is reported before any field is checked, with
    /// the bits of the first word that is not there in full and the cause as
    /// the source words it; then the flag word is taken apart and the first
    /// field outside its domain, if there is one, is reported.
    pub fn decode(header_buffer: &[u8]) -> (r: Result<Header, DecodeError>)
        ensures
            header_buffer@.len() >= 12 ==> r == Header::decode_spec(header_buffer@),
            header_buffer@.len() < 12 ==> (r matches Err(DecodeError::Read(error))
                && error.range == Header::missing_range(header_buffer@.len())),
            header_buffer@.len() < 12 <==> r matches Err(DecodeError::Read(_)),
    {
        let id = Header::read_field(header_buffer, 0)?;
        let chunk = Header::read_field(header_buffer, 1)?;
        let qd_zo_count = Header::read_field(header_buffer, 2)?;
        let an_pr_count = Header::read_field(header_buffer, 3)?;
        let ns_up_count = Header::read_field(header_buffer, 4)?;
        let arcount = Header::read_field(header_buffer, 5)?;
        match Header::unpack(id, chunk, qd_zo_count, an_pr_count, ns_up_count, arcount) {
            Ok(header) => Ok(header),
            Err(error) => Err(DecodeError::InvalidValue(error)),
        }
    }

    /// Packs the flags, the operation code and the low four bits of the
    /// response code into the header's second word. The bit for RA is taken
    /// from the RA field, and the reserved bit is left zero.
    pub fn pack_flags(&self) -> (chunk: u16)
        ensures
            chunk == self.flags_word(),
    {
        let qr: u8 = self.qr.into();
        let opcode: u8 = self.opcode.into();
        let aa: u8 = self.aa.into();
        let tc: u8 = self.tc.into();
        let rd: u8 = self.rd.into();
        let ra: u8 = self.ra.into();
        let ad: u8 = self.ad.into();
        let cd: u8 = self.cd.into();
        let rcode: u16 = self.rcode.into();
        ((qr as u16) << 15)
            | ((opcode as u16) << 11)
            | ((aa as u16) << 10)
            | ((tc as u16) << 9)
            | ((rd as u16) << 8)
            | ((ra as u16) << 7)
            | ((ad as u16) << 5)
            | ((cd as u16) << 4)
            | (rcode & 0x000F)
    }

    /// Appends one word of the header to the sink. The sink takes every
    /// word; were it to refuse one, the refusal would be tagged with the
    /// word's name.
    fn put(sink: &mut Vec<u8>, word: u16, property: Property) -> (r: Result<(), HeaderWriteError>)
        ensures
            r is Ok,
            final(sink)@ == old(sink)@ + be_bytes(word),
    {
        let outcome = write_word(sink, word);
        write_outcome(outcome, property)
    }

    /// Encodes the header as its twelve octets, handing the six words to a
    /// byte vector one after another. A byte vector takes every word, so the
    /// encoding always succeeds.
    pub fn encode(&self) -> (r: Result<Vec<u8>, HeaderWriteError>)
        ensures
            r matches Ok(bytes) && bytes@ == self.wire() && bytes@.len() == 12,
    {
        let mut buffer: Vec<u8> = Vec::new();
        Header::put(&mut buffer, self.id.into(), Property::Id)?;
        Header::put(&mut buffer, self.pack_flags(), Property::Flags)?;
        Header::put(&mut buffer, self.qd_zo_count.into(), Property::QdZoCount)?;
        Header::put(&mut buffer, self.an_pr_count.into(), Property::AnPrCount)?;
        Header::put(&mut buffer, self.ns_up_count.into(), Property::NsUpCount)?;
        Header::put(&mut buffer, self.arcount.into(), Property::Arcount)?;
        assert(buffer@ =~= self.wire());
        Ok(buffer)
    }
}

} // verus!
