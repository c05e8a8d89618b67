use byteorder::{BigEndian, ReadBytesExt};
use dns_header::format::header::count::{AnPrCount, Arcount, NsUpCount, QdZoCount};
use dns_header::format::header::error::{
    DecodeError, Field, HeaderReadError, InvalidValueError, Property, Reason,
};
use dns_header::format::header::id::Id;
use dns_header::format::header::opcode;
use dns_header::format::header::opcode::Opcode;
use dns_header::format::header::rcode;
use dns_header::format::header::rcode::Rcode;
use dns_header::format::header::z::Z;
use dns_header::format::header::{flag_error, opcode_error, rcode_error, write_outcome, Header};
use dns_header::header::one_bit_flag::{Aa, Ad, Cd, Qr, Ra, Rd, Tc};

fn sample() -> Header {
    Header {
        id: Id(0x1234),
        qr: Qr::Response,
        opcode: Opcode::Update,
        aa: Aa::FromNonAuthority,
        tc: Tc::Truncated,
        rd: Rd::RecursiveDesired,
        ra: Ra::RecursionUnavailable,
        z: Z,
        ad: Ad::DnssecValidationFailureOrNotSupportedAdBit,
        cd: Cd::DnssecForbidden,
        rcode: Rcode::Refused,
        qd_zo_count: QdZoCount(1),
        an_pr_count: AnPrCount(0xFFFF),
        ns_up_count: NsUpCount(0x8000),
        arcount: Arcount(0x00FF),
    }
}

fn well_formed_bytes() -> Vec<u8> {
    vec![0xAB, 0xCD, 0x90, 0xA0, 0x00, 0x01, 0x01, 0x02, 0x03, 0x04, 0x05, 0x06]
}

#[test]
fn sample_header_encodes_to_its_exact_octets() {
    let bytes = sample().encode().unwrap();
    // QR=1, OPCODE=5, AA=0, TC=1, RD=1 | RA=0, Z=0, AD=0, CD=1, RCODE=5
    assert_eq!(
        bytes,
        vec![0x12, 0x34, 0b1_0101_0_1_1, 0b0_0_0_1_0101, 0x00, 0x01, 0xFF, 0xFF, 0x80, 0x00, 0x00, 0xFF]
    );
}

#[test]
fn decoding_an_encoded_header_gives_it_back() {
    let opcodes = [
        Opcode::Query,
        Opcode::InverseQuery,
        Opcode::ServerStatus,
        Opcode::Notify,
        Opcode::Update,
        Opcode::DnsStatefulOperations,
    ];
    let rcodes = [
        Rcode::NoError,
        Rcode::FormatError,
        Rcode::ServerFailure,
        Rcode::NameError,
        Rcode::NotImplemented,
        Rcode::Refused,
        Rcode::YxDomain,
        Rcode::YxRrset,
        Rcode::NxRrset,
        Rcode::NotAuth,
        Rcode::NotZone,
        Rcode::Dsotypeni,
    ];
    for bits in 0u8..128 {
        for opcode in opcodes {
            for rcode in rcodes {
                let header = Header {
                    id: Id(0xABCD),
                    qr: Qr::try_from(bits & 1).unwrap(),
                    opcode,
                    aa: Aa::try_from((bits >> 1) & 1).unwrap(),
                    tc: Tc::try_from((bits >> 2) & 1).unwrap(),
                    rd: Rd::try_from((bits >> 3) & 1).unwrap(),
                    ra: Ra::try_from((bits >> 4) & 1).unwrap(),
                    z: Z,
                    ad: Ad::try_from((bits >> 5) & 1).unwrap(),
                    cd: Cd::try_from((bits >> 6) & 1).unwrap(),
                    rcode,
                    qd_zo_count: QdZoCount(0x0102),
                    an_pr_count: AnPrCount(0x0304),
                    ns_up_count: NsUpCount(0x0405),
                    arcount: Arcount(0x0607),
                };
                let bytes = header.encode().unwrap();
                assert_eq!(bytes.len(), 12);
                assert_eq!(bytes[3] & 0x40, 0);
                assert_eq!(Header::decode(&bytes), Ok(header));
            }
        }
    }
}

#[test]
fn encoding_a_decoded_buffer_gives_its_octets_back() {
    let bytes = well_formed_bytes();
    let header = Header::decode(&bytes).unwrap();
    assert_eq!(header.encode().unwrap(), bytes);
}

#[test]
fn octets_after_the_header_are_not_looked_at() {
    let mut bytes = well_formed_bytes();
    let expected = Header::decode(&bytes).unwrap();
    bytes.extend_from_slice(&[0xFF, 0xFF, 0xFF]);
    assert_eq!(Header::decode(&bytes), Ok(expected));
}

fn read_error(result: Result<Header, DecodeError>) -> HeaderReadError {
    match result {
        Err(DecodeError::Read(error)) => error,
        other => panic!("expected a read error, got {:?}", other),
    }
}

#[test]
fn a_short_buffer_is_refused_with_the_bits_of_the_missing_word() {
    let bytes = well_formed_bytes();
    for len in 0usize..12 {
        let first = (16 * (len / 2) + 1) as u8;
        let last = (16 * (len / 2) + 16) as u8;
        let error = read_error(Header::decode(&bytes[..len]));
        assert_eq!(error.range, (first, last));
        assert!(!error.cause.is_empty());
    }
    assert_eq!(read_error(Header::decode(&[])).range, (1, 16));
    assert_eq!(read_error(Header::decode(&bytes[..3])).range, (17, 32));
    assert_eq!(read_error(Header::decode(&bytes[..11])).range, (81, 96));
    assert!(Header::decode(&bytes[..12]).is_ok());
}

#[test]
fn a_short_buffer_is_reported_with_the_cause_of_the_failed_read() {
    let mut source = std::io::Cursor::new(vec![0x90u8]);
    let source_says = source.read_u16::<BigEndian>().unwrap_err().to_string();
    let error = read_error(Header::decode(&[0xAB, 0xCD, 0x90]));
    assert_eq!(error.cause, source_says);
    assert_eq!(
        error.message(),
        format!("cannot read header from 17 to 32 bit\n{}", source_says)
    );
    assert_eq!(
        Header::decode(&[0xAB, 0xCD, 0x90]),
        Err(DecodeError::Read(HeaderReadError { cause: source_says, range: (17, 32) }))
    );
}

#[test]
fn a_short_buffer_is_reported_before_a_bad_field() {
    // OPCODE 7 is unassigned, but the buffer is also one octet short.
    let bytes = [0xAB, 0xCD, 0b1_0111_1_1_0, 0xA0, 0, 1, 1, 2, 3, 4, 5];
    assert_eq!(read_error(Header::decode(&bytes)).range, (81, 96));
}

#[test]
fn encoding_never_fails() {
    let mut header = sample();
    for rcode in [Rcode::NoError, Rcode::Badcookie, Rcode::Private(4095), Rcode::Reserved] {
        header.rcode = rcode;
        let bytes = header.encode();
        assert!(bytes.is_ok());
        assert_eq!(bytes.unwrap().len(), 12);
    }
}

#[test]
fn the_header_of_a_response_encodes_to_its_exact_octets() {
    let header = Header {
        id: Id(0xABCD),
        qr: Qr::Response,
        opcode: Opcode::Query,
        aa: Aa::FromAuthority,
        tc: Tc::Truncated,
        rd: Rd::RecursiveUndesired,
        ra: Ra::RecursionAvailable,
        z: Z,
        ad: Ad::SuccessDnssecValidationOrSupportedAdBit,
        cd: Cd::DnssecEnabled,
        rcode: Rcode::NoError,
        qd_zo_count: QdZoCount(0x0001),
        an_pr_count: AnPrCount(0x0102),
        ns_up_count: NsUpCount(0x0304),
        arcount: Arcount(0x0506),
    };
    assert_eq!(
        header.encode().unwrap(),
        vec![0xAB, 0xCD, 0x86, 0xA0, 0x00, 0x01, 0x01, 0x02, 0x03, 0x04, 0x05, 0x06]
    );
}

#[test]
fn a_set_reserved_bit_is_refused() {
    let z_error = InvalidValueError { field: Field::Z, invalid_value: 1, reason: None };
    for high in [0x00u8, 0x80, 0x0F, 0x87, 0xAF, 0x28, 0x30] {
        for low in [0x40u8, 0x4B, 0xF0, 0xFF, 0x7C] {
            let bytes = [0, 0, high, low, 0, 0, 0, 0, 0, 0, 0, 0];
            assert_eq!(Header::decode(&bytes), Err(DecodeError::InvalidValue(z_error)));
        }
    }
}

#[test]
fn an_unassigned_opcode_is_reported_before_the_reserved_bit() {
    // OPCODE 3 and the reserved bit set: the operation code is checked first.
    let bytes = [0, 0, 0b0_0011_0_0_0, 0x40, 0, 0, 0, 0, 0, 0, 0, 0];
    assert_eq!(
        Header::decode(&bytes),
        Err(DecodeError::InvalidValue(InvalidValueError {
            field: Field::Opcode,
            invalid_value: 3,
            reason: Some(Reason::Unassigned),
        }))
    );
}

#[test]
fn unassigned_opcodes_in_a_header_are_refused() {
    for code in [3u8, 7, 8, 9, 10, 11, 12, 13, 14, 15] {
        let bytes = [0, 0, code << 3, 0, 0, 0, 0, 0, 0, 0, 0, 0];
        assert_eq!(
            Header::decode(&bytes),
            Err(DecodeError::InvalidValue(InvalidValueError {
                field: Field::Opcode,
                invalid_value: code as u16,
                reason: Some(Reason::Unassigned),
            }))
        );
    }
    for code in [0u8, 1, 2, 4, 5, 6] {
        let bytes = [0, 0, code << 3, 0, 0, 0, 0, 0, 0, 0, 0, 0];
        assert!(Header::decode(&bytes).is_ok());
    }
}

#[test]
fn unassigned_rcodes_in_a_header_are_refused() {
    for code in 12u8..16 {
        let bytes = [0, 0, 0, code, 0, 0, 0, 0, 0, 0, 0, 0];
        assert_eq!(
            Header::decode(&bytes),
            Err(DecodeError::InvalidValue(InvalidValueError {
                field: Field::Rcode,
                invalid_value: code as u16,
                reason: Some(Reason::Unassigned),
            }))
        );
    }
    for code in 0u8..12 {
        let bytes = [0, 0, 0, code, 0, 0, 0, 0, 0, 0, 0, 0];
        let header = Header::decode(&bytes).unwrap();
        assert_eq!(u16::from(header.rcode), code as u16);
    }
}

#[test]
fn the_recursion_available_bit_comes_from_its_own_field() {
    // RD and RA differ: bit 8 of the flag word follows RD, bit 7 follows RA.
    let mut header = sample();
    header.rd = Rd::RecursiveDesired;
    header.ra = Ra::RecursionUnavailable;
    let bytes = header.encode().unwrap();
    assert_eq!(bytes[2] & 0x01, 0x01);
    assert_eq!(bytes[3] & 0x80, 0x00);
    assert_eq!(Header::decode(&bytes), Ok(header));

    header.rd = Rd::RecursiveUndesired;
    header.ra = Ra::RecursionAvailable;
    let bytes = header.encode().unwrap();
    assert_eq!(bytes[2] & 0x01, 0x00);
    assert_eq!(bytes[3] & 0x80, 0x80);
    assert_eq!(Header::decode(&bytes), Ok(header));
}

#[test]
fn a_response_code_above_fifteen_keeps_its_low_four_bits() {
    let mut header = sample();
    header.cd = Cd::DnssecEnabled;
    header.ad = Ad::DnssecValidationFailureOrNotSupportedAdBit;
    header.ra = Ra::RecursionUnavailable;
    header.rcode = Rcode::Badkey;
    let bytes = header.encode().unwrap();
    assert_eq!(bytes[3], 0x01);
    let decoded = Header::decode(&bytes).unwrap();
    assert_eq!(decoded.rcode, Rcode::FormatError);
    assert_eq!(decoded.cd, Cd::DnssecEnabled);

    header.rcode = Rcode::Reserved;
    let bytes = header.encode().unwrap();
    assert_eq!(bytes[3], 0x0F);
    assert_eq!(bytes.len(), 12);

    header.rcode = Rcode::Private(3841);
    let bytes = header.encode().unwrap();
    assert_eq!(bytes[3], 0x01);
}

#[test]
fn every_opcode_number_is_classified() {
    for value in 0u8..=255 {
        let expected = match value {
            0 => Ok(Opcode::Query),
            1 => Ok(Opcode::InverseQuery),
            2 => Ok(Opcode::ServerStatus),
            4 => Ok(Opcode::Notify),
            5 => Ok(Opcode::Update),
            6 => Ok(Opcode::DnsStatefulOperations),
            3 | 7..=15 => Err(opcode::FromError::Unassigned(value)),
            _ => Err(opcode::FromError::InvalidRange(value)),
        };
        assert_eq!(Opcode::try_from(value), expected);
        if let Ok(code) = Opcode::try_from(value) {
            assert_eq!(u8::from(code), value);
        }
    }
}

#[test]
fn every_rcode_number_is_classified() {
    for value in 0u16..=65535 {
        let decoded = Rcode::try_from(value);
        if (12..=15).contains(&value) || (24..=3840).contains(&value) || (4096..=65534).contains(&value) {
            assert_eq!(decoded, Err(rcode::FromError::Unassigned(value)));
        } else if (3841..=4095).contains(&value) {
            assert_eq!(decoded, Ok(Rcode::Private(value)));
        } else if value == 65535 {
            assert_eq!(decoded, Ok(Rcode::Reserved));
        } else {
            assert_eq!(u16::from(decoded.unwrap()), value);
        }
    }
}

#[test]
fn refusals_are_turned_into_reports() {
    assert_eq!(
        opcode_error(opcode::FromError::InvalidRange(16)),
        InvalidValueError { field: Field::Opcode, invalid_value: 16, reason: Some(Reason::RangeInvalid) }
    );
    assert_eq!(
        opcode_error(opcode::FromError::Unassigned(7)),
        InvalidValueError { field: Field::Opcode, invalid_value: 7, reason: Some(Reason::Unassigned) }
    );
    assert_eq!(
        rcode_error(rcode::FromError::LogicError(40)),
        InvalidValueError { field: Field::Rcode, invalid_value: 40, reason: Some(Reason::LogicError) }
    );
    assert_eq!(
        rcode_error(rcode::FromError::Unassigned(12)),
        InvalidValueError { field: Field::Rcode, invalid_value: 12, reason: Some(Reason::Unassigned) }
    );
    assert_eq!(
        flag_error(Field::Qr, 2),
        InvalidValueError { field: Field::Qr, invalid_value: 2, reason: None }
    );
}

#[test]
fn a_refused_word_is_tagged_with_its_name() {
    assert!(write_outcome(Ok(()), Property::Id).is_ok());
    let error = write_outcome(Err("sink is full".to_string()), Property::Flags).unwrap_err();
    assert_eq!(error.property, Property::Flags);
    assert_eq!(error.cause, "sink is full");
    assert_eq!(error.property_name(), "17 ~ 32 bit");
    assert_eq!(error.message(), "cannot write header property: 17 ~ 32 bit\nsink is full");
    let names: Vec<String> = [
        Property::Id,
        Property::Flags,
        Property::QdZoCount,
        Property::AnPrCount,
        Property::NsUpCount,
        Property::Arcount,
    ]
    .iter()
    .map(|property| property.name().to_string())
    .collect();
    assert_eq!(
        names,
        vec!["ID", "17 ~ 32 bit", "QDCOUNT / ZOCOUNT", "ANCOUNT / PRCOUNT", "NSCOUNT / UPCOUNT", "ARCOUNT"]
    );
}

#[test]
fn reports_read_as_text() {
    let error = InvalidValueError { field: Field::Qr, invalid_value: 2, reason: None };
    assert_eq!(error.message(), "found invalid QR value: 2");
    assert_eq!(error.name(), "QR");
    assert_eq!(error.additional_info(), None);

    let error = InvalidValueError { field: Field::Opcode, invalid_value: 7, reason: Some(Reason::Unassigned) };
    assert_eq!(error.message(), "found invalid OPCODE value (unassigned in RFC): 7");
    assert_eq!(error.additional_info(), Some("unassigned in RFC".to_string()));

    let error = InvalidValueError { field: Field::Opcode, invalid_value: 16, reason: Some(Reason::RangeInvalid) };
    assert_eq!(error.message(), "found invalid OPCODE value (range invalid): 16");

    let error = InvalidValueError { field: Field::Rcode, invalid_value: 65534, reason: Some(Reason::LogicError) };
    assert_eq!(error.message(), "found invalid RCODE value (logic error): 65534");

    let error = HeaderReadError { cause: "c".to_string(), range: (17, 32) };
    assert_eq!(error.message(), "cannot read header from 17 to 32 bit\nc");

    let bytes = [0u8, 0, 0, 0x40, 0, 0, 0, 0, 0, 0, 0, 0];
    assert_eq!(Header::decode(&bytes).unwrap_err().message(), "found invalid Z value: 1");
    let error = read_error(Header::decode(&bytes[..5]));
    assert_eq!(
        DecodeError::Read(HeaderReadError { cause: error.cause.clone(), range: error.range })
            .message(),
        format!("cannot read header from 33 to 48 bit\n{}", error.cause)
    );
    let fields = [
        Field::Qr, Field::Opcode, Field::Aa, Field::Tc, Field::Rd, Field::Ra, Field::Z, Field::Ad,
        Field::Cd, Field::Rcode,
    ];
    let names: Vec<&str> = fields.iter().map(|field| field.name()).collect();
    assert_eq!(names, vec!["QR", "OPCODE", "AA", "TC", "RD", "RA", "Z", "AD", "CD", "RCODE"]);
}

#[test]
fn the_flag_word_is_packed_bit_by_bit() {
    let header = Header {
        id: Id(0),
        qr: Qr::Response,
        opcode: Opcode::DnsStatefulOperations,
        aa: Aa::FromAuthority,
        tc: Tc::Truncated,
        rd: Rd::RecursiveDesired,
        ra: Ra::RecursionAvailable,
        z: Z,
        ad: Ad::SuccessDnssecValidationOrSupportedAdBit,
        cd: Cd::DnssecForbidden,
        rcode: Rcode::Dsotypeni,
        qd_zo_count: QdZoCount(0),
        an_pr_count: AnPrCount(0),
        ns_up_count: NsUpCount(0),
        arcount: Arcount(0),
    };
    assert_eq!(header.pack_flags(), 0b1_0110_1_1_1_1_0_1_1_1011);
    assert_eq!(
        Header::unpack(0, 0b1_0110_1_1_1_1_0_1_1_1011, 0, 0, 0, 0),
        Ok(header)
    );
    assert_eq!(
        Header::unpack(7, 0, 1, 2, 3, 4),
        Ok(Header {
            id: Id(7),
            qr: Qr::Query,
            opcode: Opcode::Query,
            aa: Aa::FromNonAuthority,
            tc: Tc::NotTruncated,
            rd: Rd::RecursiveUndesired,
            ra: Ra::RecursionUnavailable,
            z: Z,
            ad: Ad::DnssecValidationFailureOrNotSupportedAdBit,
            cd: Cd::DnssecEnabled,
            rcode: Rcode::NoError,
            qd_zo_count: QdZoCount(1),
            an_pr_count: AnPrCount(2),
            ns_up_count: NsUpCount(3),
            arcount: Arcount(4),
        })
    );
}
