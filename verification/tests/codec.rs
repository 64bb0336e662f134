use explicit_vr_be::decoder::{header_nbytes_for_code, ExplicitVRBigEndianDecoder};
use explicit_vr_be::encoder::ExplicitVRBigEndianEncoder;
use explicit_vr_be::error::Error;
use explicit_vr_be::header::{DataElementHeader, SequenceItemHeader};
use explicit_vr_be::vr::ValueRepresentation;

const ALL_VRS: [ValueRepresentation; 31] = [
    ValueRepresentation::AE,
    ValueRepresentation::AS,
    ValueRepresentation::AT,
    ValueRepresentation::CS,
    ValueRepresentation::DA,
    ValueRepresentation::DS,
    ValueRepresentation::DT,
    ValueRepresentation::FL,
    ValueRepresentation::FD,
    ValueRepresentation::IS,
    ValueRepresentation::LO,
    ValueRepresentation::LT,
    ValueRepresentation::OB,
    ValueRepresentation::OD,
    ValueRepresentation::OF,
    ValueRepresentation::OL,
    ValueRepresentation::OW,
    ValueRepresentation::PN,
    ValueRepresentation::SH,
    ValueRepresentation::SL,
    ValueRepresentation::SQ,
    ValueRepresentation::SS,
    ValueRepresentation::ST,
    ValueRepresentation::TM,
    ValueRepresentation::UC,
    ValueRepresentation::UI,
    ValueRepresentation::UL,
    ValueRepresentation::UN,
    ValueRepresentation::UR,
    ValueRepresentation::US,
    ValueRepresentation::UT,
];

const LONG_FORM_VRS: [ValueRepresentation; 10] = [
    ValueRepresentation::OB,
    ValueRepresentation::OD,
    ValueRepresentation::OF,
    ValueRepresentation::OL,
    ValueRepresentation::OW,
    ValueRepresentation::SQ,
    ValueRepresentation::UC,
    ValueRepresentation::UR,
    ValueRepresentation::UT,
    ValueRepresentation::UN,
];

#[test]
fn vr_codes_round_trip() {
    for vr in ALL_VRS {
        let (b0, b1) = vr.to_bytes();
        assert!(b0.is_ascii_uppercase());
        assert!(b1.is_ascii_uppercase() || b1.is_ascii_digit());
        assert_eq!(ValueRepresentation::from_binary(b0, b1), Some(vr));
    }
}

#[test]
fn vr_layout_categories() {
    for vr in ALL_VRS {
        let expected = LONG_FORM_VRS.contains(&vr);
        assert_eq!(vr.is_long_form(), expected);
        let (b0, b1) = vr.to_bytes();
        assert_eq!(header_nbytes_for_code(b0, b1), if expected { 12 } else { 8 });
    }
    // bytes that match no defined code take UN's long form
    assert_eq!(header_nbytes_for_code(0x5A, 0x5A), 12);
}

#[test]
fn header_round_trip_every_vr() {
    let enc = ExplicitVRBigEndianEncoder::default();
    let dec = ExplicitVRBigEndianDecoder::default();
    for vr in ALL_VRS {
        let header = DataElementHeader {
            tag: (0x0010, 0x0020),
            vr,
            len: 0x1234,
        };
        let mut buf: Vec<u8> = Vec::new();
        enc.encode_element_header(header, &mut buf);
        let expected_len = if vr.is_long_form() { 12 } else { 8 };
        assert_eq!(buf.len(), expected_len);
        let (decoded, end) = dec.decode_header(&buf, 0).expect("an encoded header decodes");
        assert_eq!(decoded, header);
        assert_eq!(end, expected_len);
    }
}

#[test]
fn long_form_round_trip_keeps_wide_length() {
    let enc = ExplicitVRBigEndianEncoder::default();
    let dec = ExplicitVRBigEndianDecoder::default();
    let header = DataElementHeader {
        tag: (0x7FE0, 0x0010),
        vr: ValueRepresentation::OB,
        len: 0x1234_5678,
    };
    let mut buf: Vec<u8> = Vec::new();
    enc.encode_element_header(header, &mut buf);
    assert_eq!(buf.len(), 12);
    // reserved bytes are written as zero
    assert_eq!(&buf[..8], &[0x7F, 0xE0, 0x00, 0x10, 0x4F, 0x42, 0x00, 0x00]);
    assert_eq!(&buf[8..], &[0x12, 0x34, 0x56, 0x78]);
    let (decoded, end) = dec.decode_header(&buf, 0).expect("an encoded header decodes");
    assert_eq!(decoded, header);
    assert_eq!(end, 12);
}

#[test]
fn short_form_truncates_length_to_16_bits() {
    let enc = ExplicitVRBigEndianEncoder::default();
    let dec = ExplicitVRBigEndianDecoder::default();
    let header = DataElementHeader {
        tag: (0x0028, 0x0010),
        vr: ValueRepresentation::US,
        len: 0x0001_2345,
    };
    let mut buf: Vec<u8> = Vec::new();
    enc.encode_element_header(header, &mut buf);
    assert_eq!(buf, vec![0x00, 0x28, 0x00, 0x10, 0x55, 0x53, 0x23, 0x45]);
    let (decoded, _) = dec.decode_header(&buf, 0).expect("an encoded header decodes");
    assert_eq!(decoded.len(), 0x2345);
}

#[test]
fn unknown_vr_code_falls_back_to_un() {
    let dec = ExplicitVRBigEndianDecoder::default();
    // tag (0008,0000), VR bytes "ZZ" (no defined code), 2 reserved bytes,
    // then a 4-byte length: the UN fallback uses the long form
    let data: Vec<u8> = vec![
        0x00, 0x08, 0x00, 0x00, 0x5A, 0x5A, 0xAB, 0xCD, 0x00, 0x00, 0x00, 0x05,
    ];
    let (decoded, end) = dec.decode_header(&data, 0).expect("unknown codes never fail");
    assert_eq!(decoded.tag(), (8, 0));
    assert_eq!(decoded.vr(), ValueRepresentation::UN);
    assert_eq!(decoded.len(), 5);
    assert_eq!(end, 12);
}

#[test]
fn unknown_vr_code_needs_long_form_bytes() {
    let dec = ExplicitVRBigEndianDecoder::default();
    // only 8 bytes: too short for the 12-byte layout the UN fallback uses
    let data: Vec<u8> = vec![0x00, 0x08, 0x00, 0x00, 0x5A, 0x5A, 0x00, 0x05];
    assert_eq!(
        dec.decode_header(&data, 0).unwrap_err(),
        Error::UnexpectedEndOfStream
    );
}

#[test]
fn short_buffer_is_unexpected_end() {
    let dec = ExplicitVRBigEndianDecoder::default();
    let empty: Vec<u8> = Vec::new();
    assert_eq!(dec.decode_header(&empty, 0).unwrap_err(), Error::UnexpectedEndOfStream);
    // tag and VR present, length bytes missing
    let data: Vec<u8> = vec![0x00, 0x28, 0x00, 0x10, 0x55, 0x53, 0x23];
    assert_eq!(dec.decode_header(&data, 0).unwrap_err(), Error::UnexpectedEndOfStream);
    // an offset past the end is a short read too
    assert_eq!(dec.decode_header(&data, 100).unwrap_err(), Error::UnexpectedEndOfStream);
}

#[test]
fn item_header_construction_validates_tag() {
    let ok = SequenceItemHeader::new((0xFFFE, 0xE000), 24).expect("item start is a marker");
    assert_eq!(ok.tag(), (0xFFFE, 0xE000));
    assert_eq!(ok.len(), 24);
    assert!(SequenceItemHeader::new((0xFFFE, 0xE00D), 0).is_ok());
    assert!(SequenceItemHeader::new((0xFFFE, 0xE0DD), 0).is_ok());
    assert_eq!(
        SequenceItemHeader::new((0x0010, 0x0010), 0).unwrap_err(),
        Error::InvalidFormat
    );
    assert_eq!(
        SequenceItemHeader::new((0xFFFE, 0xE001), 0).unwrap_err(),
        Error::InvalidFormat
    );
}

#[test]
fn item_header_round_trip() {
    let enc = ExplicitVRBigEndianEncoder::default();
    let dec = ExplicitVRBigEndianDecoder::default();
    let mut buf: Vec<u8> = Vec::new();
    enc.encode_item_header(10, &mut buf);
    assert_eq!(buf, vec![0xFF, 0xFE, 0xE0, 0x00, 0x00, 0x00, 0x00, 0x0A]);
    let (h, end) = dec.decode_item_header(&buf, 0).expect("a marker tag decodes");
    assert_eq!(h.tag(), (0xFFFE, 0xE000));
    assert_eq!(h.len(), 10);
    assert_eq!(end, 8);
}

#[test]
fn delimiters_encode_fixed_bytes() {
    let enc = ExplicitVRBigEndianEncoder::default();
    let mut buf: Vec<u8> = Vec::new();
    enc.encode_item_delimiter(&mut buf);
    assert_eq!(buf, vec![0xFF, 0xFE, 0xE0, 0x0D, 0x00, 0x00, 0x00, 0x00]);
    buf.clear();
    enc.encode_sequence_delimiter(&mut buf);
    assert_eq!(buf, vec![0xFF, 0xFE, 0xE0, 0xDD, 0x00, 0x00, 0x00, 0x00]);
}

#[test]
fn item_header_decode_rejects_ordinary_tags() {
    let dec = ExplicitVRBigEndianDecoder::default();
    let data: Vec<u8> = vec![0x00, 0x10, 0x00, 0x10, 0x00, 0x00, 0x00, 0x00];
    assert_eq!(dec.decode_item_header(&data, 0).unwrap_err(), Error::InvalidFormat);
    let short: Vec<u8> = vec![0xFF, 0xFE, 0xE0, 0x00];
    assert_eq!(
        dec.decode_item_header(&short, 0).unwrap_err(),
        Error::UnexpectedEndOfStream
    );
}

#[test]
fn scalar_decode_is_big_endian() {
    let dec = ExplicitVRBigEndianDecoder::default();
    assert_eq!(dec.decode_us(&[0x12, 0x34], 0), Ok(0x1234));
    assert_eq!(dec.decode_ul(&[0x00, 0x00, 0x00, 0x01], 0), Ok(1));
    assert_eq!(dec.decode_ss(&[0x12, 0x34], 0), Ok(0x1234));
    assert_eq!(dec.decode_ss(&[0xFF, 0xFE], 0), Ok(-2));
    assert_eq!(dec.decode_ss(&[0x80, 0x00], 0), Ok(i16::MIN));
    assert_eq!(dec.decode_sl(&[0xFF, 0xFF, 0xFF, 0xFF], 0), Ok(-1));
    assert_eq!(dec.decode_sl(&[0x80, 0x00, 0x00, 0x00], 0), Ok(i32::MIN));
    assert_eq!(dec.decode_sl(&[0x00, 0x00, 0x00, 0x2A], 0), Ok(42));
    // an offset selects the bytes to read
    assert_eq!(dec.decode_us(&[0x00, 0x12, 0x34], 1), Ok(0x1234));
}

#[test]
fn scalar_decode_short_reads() {
    let dec = ExplicitVRBigEndianDecoder::default();
    assert_eq!(dec.decode_us(&[0x12], 0), Err(Error::UnexpectedEndOfStream));
    assert_eq!(dec.decode_ul(&[0x12, 0x34, 0x56], 0), Err(Error::UnexpectedEndOfStream));
    assert_eq!(dec.decode_ss(&[], 0), Err(Error::UnexpectedEndOfStream));
    assert_eq!(dec.decode_sl(&[0x12, 0x34, 0x56], 1), Err(Error::UnexpectedEndOfStream));
}

#[test]
fn decode_at_offset_matches_decode_after_skip() {
    let enc = ExplicitVRBigEndianEncoder::default();
    let dec = ExplicitVRBigEndianDecoder::default();
    let first = DataElementHeader {
        tag: (0x0008, 0x0018),
        vr: ValueRepresentation::UI,
        len: 2,
    };
    let second = DataElementHeader {
        tag: (0x0028, 0x0011),
        vr: ValueRepresentation::US,
        len: 2,
    };
    let mut buf: Vec<u8> = Vec::new();
    enc.encode_element_header(first, &mut buf);
    buf.extend_from_slice(&[0x31, 0x00]);
    enc.encode_element_header(second, &mut buf);
    buf.extend_from_slice(&[0x02, 0x00]);

    let (h1, after_first) = dec.decode_header(&buf, 0).expect("first header decodes");
    assert_eq!(h1, first);
    let value_end = after_first + h1.len() as usize;
    let (h2, after_second) = dec.decode_header(&buf, value_end).expect("second header decodes");
    assert_eq!(h2, second);
    assert_eq!(after_second + h2.len() as usize, buf.len());
}
