//! What holds between the header's encoder and decoder, stated over their
//! specifications.

use crate::format::header::error::{DecodeError, Field};
use crate::format::header::opcode::Opcode;
use crate::format::header::{
    aa_bits, ad_bits, cd_bits, invalid, lemma_field_widths, opcode_bits, qr_bits, ra_bits,
    rcode_bits, rd_bits, tc_bits, word_range, z_bits, Header,
};
use crate::wire::{be_bytes, lemma_be_bytes_of_word, lemma_be_round_trip, word_at};
use vstd::prelude::*;

verus! {

/// Fields that fit their widths are read back from the word they were packed
/// into, and the reserved bit of that word is zero.
proof fn lemma_pack_then_unpack(
    qr: u16,
    opcode: u16,
    aa: u16,
    tc: u16,
    rd: u16,
    ra: u16,
    ad: u16,
    cd: u16,
    rcode: u16,
)
    by (bit_vector)
    requires
        qr <= 1,
        opcode <= 15,
        aa <= 1,
        tc <= 1,
        rd <= 1,
        ra <= 1,
        ad <= 1,
        cd <= 1,
        rcode <= 15,
    ensures
        ({
            let chunk = (qr << 15)
                | (opcode << 11)
                | (aa << 10)
                | (tc << 9)
                | (rd << 8)
                | (ra << 7)
                | (ad << 5)
                | (cd << 4)
                | rcode;
            &&& (chunk & 0x8000) >> 15 == qr
            &&& (chunk & 0x7800) >> 11 == opcode
            &&& (chunk & 0x0400) >> 10 == aa
            &&& (chunk & 0x0200) >> 9 == tc
            &&& (chunk & 0x0100) >> 8 == rd
            &&& (chunk & 0x0080) >> 7 == ra
            &&& (chunk & 0x0040) >> 6 == 0
            &&& (chunk & 0x0020) >> 5 == ad
            &&& (chunk & 0x0010) >> 4 == cd
            &&& chunk & 0x000F == rcode
        }),
{
}

/// A word whose reserved bit is zero is the word that its fields pack into.
proof fn lemma_unpack_then_pack(chunk: u16)
    by (bit_vector)
    requires
        (chunk & 0x0040) >> 6 == 0,
    ensures
        (((chunk & 0x8000) >> 15) << 15)
            | (((chunk & 0x7800) >> 11) << 11)
            | (((chunk & 0x0400) >> 10) << 10)
            | (((chunk & 0x0200) >> 9) << 9)
            | (((chunk & 0x0100) >> 8) << 8)
            | (((chunk & 0x0080) >> 7) << 7)
            | (((chunk & 0x0020) >> 5) << 5)
            | (((chunk & 0x0010) >> 4) << 4)
            | ((chunk & 0x000F) & 0x000F) == chunk,
{
}

/// The low four bits of a number: below sixteen, and the number itself when
/// it is below sixteen.
proof fn lemma_low_four_bits(value: u16)
    by (bit_vector)
    ensures
        value & 0x000F <= 15,
        value <= 15 ==> value & 0x000F == value,
{
}

/// The words of an encoded header are the words it was built from.
proof fn lemma_wire_words(header: Header)
    ensures
        header.wire().len() == 12,
        word_at(header.wire(), 0) == header.id.0,
        word_at(header.wire(), 1) == header.flags_word(),
        word_at(header.wire(), 2) == header.qd_zo_count.0,
        word_at(header.wire(), 3) == header.an_pr_count.0,
        word_at(header.wire(), 4) == header.ns_up_count.0,
        word_at(header.wire(), 5) == header.arcount.0,
{
    lemma_be_round_trip(header.id.0);
    lemma_be_round_trip(header.flags_word());
    lemma_be_round_trip(header.qd_zo_count.0);
    lemma_be_round_trip(header.an_pr_count.0);
    lemma_be_round_trip(header.ns_up_count.0);
    lemma_be_round_trip(header.arcount.0);
}

/// The fields of an encoded header's flag word are the header's own, with the
/// response code cut to its low four bits and the reserved bit zero.
proof fn lemma_flags_word_fields(header: Header)
    ensures
        qr_bits(header.flags_word()) == header.qr.bit(),
        opcode_bits(header.flags_word()) == header.opcode.code(),
        aa_bits(header.flags_word()) == header.aa.bit(),
        tc_bits(header.flags_word()) == header.tc.bit(),
        rd_bits(header.flags_word()) == header.rd.bit(),
        ra_bits(header.flags_word()) == header.ra.bit(),
        z_bits(header.flags_word()) == 0,
        ad_bits(header.flags_word()) == header.ad.bit(),
        cd_bits(header.flags_word()) == header.cd.bit(),
        rcode_bits(header.flags_word()) == header.rcode.code() & 0x000F,
{
    lemma_low_four_bits(header.rcode.code());
    lemma_pack_then_unpack(
        header.qr.bit() as u16,
        header.opcode.code() as u16,
        header.aa.bit() as u16,
        header.tc.bit() as u16,
        header.rd.bit() as u16,
        header.ra.bit() as u16,
        header.ad.bit() as u16,
        header.cd.bit() as u16,
        header.rcode.code() & 0x000F,
    );
}

impl Header {
    /// An encoded header is exactly twelve octets long.
    pub proof fn lemma_wire_length(self)
        ensures
            self.wire().len() == 12,
    {
    }

    /// The reserved bit of an encoded header is zero, whatever the fields
    /// hold.
    pub proof fn lemma_reserved_bit_zero_on_wire(self)
        ensures
            z_bits(word_at(self.wire(), 1)) == 0,
    {
        lemma_wire_words(self);
        lemma_flags_word_fields(self);
    }

    /// Decoding what a header encodes to gives the header back, for every
    /// header whose response code the header alone can carry, and for no
    /// other: a code of sixteen or more loses its high bits on the wire, and
    /// a private code below sixteen comes back under its name.
    pub proof fn lemma_round_trip(self)
        ensures
            self.rcode_fits() <==> Header::decode_spec(self.wire()) == Ok::<Header, DecodeError>(
                self,
            ),
    {
        lemma_wire_words(self);
        lemma_flags_word_fields(self);
        lemma_low_four_bits(self.rcode.code());
    }

    /// A buffer of twelve octets or more is never refused for its length; a
    /// shorter one is refused with a bit range that is one of the six words',
    /// from bits 1 to 16 for a buffer that lacks the first word to bits 81
    /// to 96 for one that lacks only the last.
    pub proof fn lemma_truncation(bytes: Seq<u8>)
        ensures
            !(Header::decode_spec(bytes) matches Err(DecodeError::Read(_))),
            bytes.len() < 12 ==> Header::missing_range(bytes.len()) == (
                (16 * (bytes.len() / 2) + 1) as u8,
                (16 * (bytes.len() / 2) + 16) as u8,
            ),
            bytes.len() < 2 ==> Header::missing_range(bytes.len()) == (1u8, 16u8),
            10 <= bytes.len() < 12 ==> Header::missing_range(bytes.len()) == (81u8, 96u8),
    {
    }

    /// A buffer of full length whose reserved bit is set is never decoded. It
    /// is refused for that bit whenever its operation code is an assigned
    /// one; an unassigned operation code comes earlier in the order of the
    /// checks and is reported in its place.
    pub proof fn lemma_reserved_bit_rejected(bytes: Seq<u8>)
        requires
            bytes.len() >= 12,
            z_bits(word_at(bytes, 1)) != 0,
        ensures
            Header::decode_spec(bytes) is Err,
            Header::decode_spec(bytes)->Err_0 is InvalidValue,
            Opcode::is_assigned(opcode_bits(word_at(bytes, 1))) <==> Header::decode_spec(bytes)
                == Err::<Header, DecodeError>(
                DecodeError::InvalidValue(invalid(Field::Z, 1, None)),
            ),
    {
    }

    /// Encoding what a buffer decodes to gives the buffer's first twelve
    /// octets back.
    pub proof fn lemma_decode_then_encode(bytes: Seq<u8>)
        requires
            bytes.len() >= 12,
            Header::decode_spec(bytes) is Ok,
        ensures
            Header::decode_spec(bytes)->Ok_0.wire() == bytes.subrange(0, 12),
    {
        let header = Header::decode_spec(bytes)->Ok_0;
        let chunk = word_at(bytes, 1);
        lemma_field_widths(chunk);
        lemma_unpack_then_pack(chunk);
        assert(header.flags_word() == chunk);
        lemma_be_bytes_of_word(bytes[0], bytes[1]);
        lemma_be_bytes_of_word(bytes[2], bytes[3]);
        lemma_be_bytes_of_word(bytes[4], bytes[5]);
        lemma_be_bytes_of_word(bytes[6], bytes[7]);
        lemma_be_bytes_of_word(bytes[8], bytes[9]);
        lemma_be_bytes_of_word(bytes[10], bytes[11]);
        assert(header.wire() =~= bytes.subrange(0, 12));
    }
}

} // verus!
