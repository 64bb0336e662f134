//! The header encoder: appends the exact wire form of structured headers
//! to a byte buffer, the mirror image of the decoder.

use vstd::prelude::*;

use crate::header::{DataElementHeader, ITEM_DELIMITER_ELEMENT, ITEM_START_ELEMENT, MARKER_GROUP,
    SEQUENCE_DELIMITER_ELEMENT};
use crate::vr::{spec_code_of, spec_header_nbytes, spec_is_long_form};
use crate::wire::{push_u16_be, push_u32_be, u16_be_bytes, u32_be_bytes};

verus! {

/// The exact wire form of a data element header.
///
/// Long-form representations emit 4 tag bytes, the 2-byte code, 2 zero
/// reserved bytes and a 4-byte length: 12 bytes. Short-form ones emit the
/// tag, the code and a 2-byte length: 8 bytes. In the short form the length
/// is truncated silently to its low 16 bits; callers that care must keep
/// `len` within 16 bits themselves.
pub open spec fn spec_encode_element_header(h: DataElementHeader) -> Seq<u8> {
    let code = spec_code_of(h.vr);
    let prefix = u16_be_bytes(h.tag.0) + u16_be_bytes(h.tag.1) + seq![code.0, code.1];
    if spec_is_long_form(h.vr) {
        prefix + seq![0u8, 0u8] + u32_be_bytes(h.len)
    } else {
        prefix + u16_be_bytes((h.len % 0x10000) as u16)
    }
}

/// The exact 8-byte wire form of an item start header: the fixed marker
/// tag followed by the given length.
pub open spec fn spec_encode_item_header(len: u32) -> Seq<u8> {
    u16_be_bytes(MARKER_GROUP) + u16_be_bytes(ITEM_START_ELEMENT) + u32_be_bytes(len)
}

/// The exact 8-byte wire form of an item delimiter: the fixed marker tag
/// followed by a zero length.
pub open spec fn spec_encode_item_delimiter() -> Seq<u8> {
    u16_be_bytes(MARKER_GROUP) + u16_be_bytes(ITEM_DELIMITER_ELEMENT) + u32_be_bytes(0)
}

/// The exact 8-byte wire form of a sequence delimiter: the fixed marker
/// tag followed by a zero length.
pub open spec fn spec_encode_sequence_delimiter() -> Seq<u8> {
    u16_be_bytes(MARKER_GROUP) + u16_be_bytes(SEQUENCE_DELIMITER_ELEMENT) + u32_be_bytes(0)
}

/// A header always encodes to exactly as many bytes as its value
/// representation's layout category prescribes: 12 long form, 8 short form.
pub proof fn lemma_encoded_header_nbytes(h: DataElementHeader)
    ensures
        spec_encode_element_header(h).len() == spec_header_nbytes(h.vr),
{
}

/// A data element encoder for the Explicit VR Big Endian transfer syntax.
///
/// Stateless: each call appends the full wire form of one header to the
/// buffer it is given.
#[derive(Clone, Copy, Debug, Default)]
pub struct ExplicitVRBigEndianEncoder;

impl ExplicitVRBigEndianEncoder {
    /// Appends the wire form of `de` to `to`: 12 bytes for a long-form
    /// value representation, 8 for a short-form one. In the short form the
    /// length field holds only the low 16 bits of `de.len`.
    pub fn encode_element_header(&self, de: DataElementHeader, to: &mut Vec<u8>)
        ensures
            final(to)@ == old(to)@ + spec_encode_element_header(de),
            final(to)@.len() == old(to)@.len() + spec_header_nbytes(de.vr),
    {
        push_u16_be(to, de.tag.0);
        push_u16_be(to, de.tag.1);
        let (c0, c1) = de.vr.to_bytes();
        to.push(c0);
        to.push(c1);
        if de.vr.is_long_form() {
            to.push(0);
            to.push(0);
            push_u32_be(to, de.len);
        } else {
            push_u16_be(to, (de.len % 0x10000) as u16);
        }
        assert(to@ =~= old(to)@ + spec_encode_element_header(de));
    }

    /// Appends an 8-byte item start header carrying `len` to `to`.
    pub fn encode_item_header(&self, len: u32, to: &mut Vec<u8>)
        ensures
            final(to)@ == old(to)@ + spec_encode_item_header(len),
            final(to)@.len() == old(to)@.len() + 8,
    {
        push_u16_be(to, MARKER_GROUP);
        push_u16_be(to, ITEM_START_ELEMENT);
        push_u32_be(to, len);
        assert(to@ =~= old(to)@ + spec_encode_item_header(len));
    }

    /// Appends an 8-byte item delimiter header to `to`. Delimiters carry
    /// no payload, so their length field is zero.
    pub fn encode_item_delimiter(&self, to: &mut Vec<u8>)
        ensures
            final(to)@ == old(to)@ + spec_encode_item_delimiter(),
            final(to)@.len() == old(to)@.len() + 8,
    {
        push_u16_be(to, MARKER_GROUP);
        push_u16_be(to, ITEM_DELIMITER_ELEMENT);
        push_u32_be(to, 0);
        assert(to@ =~= old(to)@ + spec_encode_item_delimiter());
    }

    /// Appends an 8-byte sequence delimiter header to `to`. Delimiters
    /// carry no payload, so their length field is zero.
    pub fn encode_sequence_delimiter(&self, to: &mut Vec<u8>)
        ensures
            final(to)@ == old(to)@ + spec_encode_sequence_delimiter(),
            final(to)@.len() == old(to)@.len() + 8,
    {
        push_u16_be(to, MARKER_GROUP);
        push_u16_be(to, SEQUENCE_DELIMITER_ELEMENT);
        push_u32_be(to, 0);
        assert(to@ =~= old(to)@ + spec_encode_sequence_delimiter());
    }
}

} // verus!
