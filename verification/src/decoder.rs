//! The header decoder: reads structured headers and big-endian scalars out
//! of a byte buffer, consuming exactly the bytes of the value decoded and
//! never looking past them.

use vstd::prelude::*;

use crate::error::Error;
use crate::header::{DataElementHeader, SequenceItemHeader, Tag, spec_is_marker_tag};
use crate::vr::{ValueRepresentation, spec_header_nbytes, spec_is_long_form, spec_vr_or_unknown};
use crate::wire::{be_i16_value, be_i32_value, be_u16_value, be_u32_value, read_i16_be,
    read_i32_be, read_u16_be, read_u32_be};

verus! {

/// The one data element header that starts at `pos` in `s`, with the
/// position just past it, or `None` when the buffer ends before the header
/// does.
///
/// The layout is: 4 tag bytes, 2 value representation bytes, then either
/// 2 reserved bytes and a 4-byte length (long form) or a 2-byte length
/// widened to 32 bits (short form). A byte pair that matches no defined
/// representation decodes as `UN` and therefore takes the long form.
pub open spec fn spec_decode_header(s: Seq<u8>, pos: int) -> Option<(DataElementHeader, int)> {
    if pos + 6 > s.len() {
        None
    } else {
        let tag = (be_u16_value(s[pos], s[pos + 1]), be_u16_value(s[pos + 2], s[pos + 3]));
        let vr = spec_vr_or_unknown(s[pos + 4], s[pos + 5]);
        if spec_is_long_form(vr) {
            if pos + 12 <= s.len() {
                Some(
                    (
                        DataElementHeader {
                            tag,
                            vr,
                            len: be_u32_value(s[pos + 8], s[pos + 9], s[pos + 10], s[pos + 11]),
                        },
                        pos + 12,
                    ),
                )
            } else {
                None
            }
        } else {
            if pos + 8 <= s.len() {
                Some(
                    (
                        DataElementHeader {
                            tag,
                            vr,
                            len: be_u16_value(s[pos + 6], s[pos + 7]) as u32,
                        },
                        pos + 8,
                    ),
                )
            } else {
                None
            }
        }
    }
}

/// The tag and length fields of the 8-byte item header that starts at
/// `pos` in `s`: 4 tag bytes followed by a 4-byte big-endian length.
pub open spec fn spec_item_fields(s: Seq<u8>, pos: int) -> (Tag, u32) {
    (
        (be_u16_value(s[pos], s[pos + 1]), be_u16_value(s[pos + 2], s[pos + 3])),
        be_u32_value(s[pos + 4], s[pos + 5], s[pos + 6], s[pos + 7]),
    )
}

/// How many bytes the header occupies whose two value representation bytes
/// are `(b0, b1)`: 12 when they name a long-form representation or match no
/// defined code (the `UN` fallback is long form), 8 otherwise. Lets a
/// caller that streams bytes fetch the rest of a header after its first six
/// bytes.
pub fn header_nbytes_for_code(b0: u8, b1: u8) -> (r: usize)
    ensures
        r == spec_header_nbytes(spec_vr_or_unknown(b0, b1)),
{
    let vr = match ValueRepresentation::from_binary(b0, b1) {
        Some(vr) => vr,
        None => ValueRepresentation::UN,
    };
    if vr.is_long_form() {
        12
    } else {
        8
    }
}

/// A data element decoder for the Explicit VR Big Endian transfer syntax.
///
/// Stateless: each call decodes one value from the buffer and offset it is
/// given and reports the position just past the bytes it consumed.
#[derive(Clone, Copy, Debug, Default)]
pub struct ExplicitVRBigEndianDecoder;

impl ExplicitVRBigEndianDecoder {
    /// Decodes the data element header that starts at `pos` in `data`.
    ///
    /// On success the result carries the header and the position of the
    /// first value byte; decoding consumes exactly the header's 8 or 12
    /// bytes. A short buffer is the only failure: an unrecognized value
    /// representation code falls back to `UN` rather than failing.
    pub fn decode_header(&self, data: &[u8], pos: usize) -> (r: Result<
        (DataElementHeader, usize),
        Error,
    >)
        ensures
            r matches Ok((h, end)) ==> spec_decode_header(data@, pos as int) == Some(
                (h, end as int),
            ),
            r is Err ==> spec_decode_header(data@, pos as int) is None,
            r matches Err(e) ==> e == Error::UnexpectedEndOfStream,
    {
        let n = data.len();
        if n < 6 || pos > n - 6 {
            return Err(Error::UnexpectedEndOfStream);
        }
        let group = read_u16_be(data[pos], data[pos + 1]);
        let element = read_u16_be(data[pos + 2], data[pos + 3]);
        let vr = match ValueRepresentation::from_binary(data[pos + 4], data[pos + 5]) {
            Some(vr) => vr,
            None => ValueRepresentation::UN,
        };
        if vr.is_long_form() {
            // two reserved bytes are skipped unchecked, then a 4-byte length
            if n < 12 || pos > n - 12 {
                return Err(Error::UnexpectedEndOfStream);
            }
            let len = read_u32_be(data[pos + 8], data[pos + 9], data[pos + 10], data[pos + 11]);
            Ok((DataElementHeader { tag: (group, element), vr, len }, pos + 12))
        } else {
            if n < 8 || pos > n - 8 {
                return Err(Error::UnexpectedEndOfStream);
            }
            let len = read_u16_be(data[pos + 6], data[pos + 7]) as u32;
            Ok((DataElementHeader { tag: (group, element), vr, len }, pos + 8))
        }
    }

    /// Decodes the 8-byte sequence item header that starts at `pos` in
    /// `data`: 4 tag bytes and a 4-byte length. Fails with
    /// `UnexpectedEndOfStream` on a short buffer and with `InvalidFormat`
    /// when the tag is not one of the three reserved marker tags.
    pub fn decode_item_header(&self, data: &[u8], pos: usize) -> (r: Result<
        (SequenceItemHeader, usize),
        Error,
    >)
        ensures
            r is Err <==> pos + 8 > data@.len() || !spec_is_marker_tag(
                spec_item_fields(data@, pos as int).0,
            ),
            pos + 8 > data@.len() ==> r == Err::<(SequenceItemHeader, usize), Error>(
                Error::UnexpectedEndOfStream,
            ),
            pos + 8 <= data@.len() && !spec_is_marker_tag(spec_item_fields(data@, pos as int).0)
                ==> r == Err::<(SequenceItemHeader, usize), Error>(Error::InvalidFormat),
            r matches Ok((h, end)) ==> h.spec_tag() == spec_item_fields(data@, pos as int).0
                && h.spec_len() == spec_item_fields(data@, pos as int).1 && end == pos + 8,
    {
        let n = data.len();
        if n < 8 || pos > n - 8 {
            return Err(Error::UnexpectedEndOfStream);
        }
        let group = read_u16_be(data[pos], data[pos + 1]);
        let element = read_u16_be(data[pos + 2], data[pos + 3]);
        let len = read_u32_be(data[pos + 4], data[pos + 5], data[pos + 6], data[pos + 7]);
        match SequenceItemHeader::new((group, element), len) {
            Ok(h) => Ok((h, pos + 8)),
            Err(e) => Err(e),
        }
    }

    /// Decodes the two bytes at `pos` as a big-endian unsigned 16-bit
    /// value. Fails only when fewer than two bytes remain.
    pub fn decode_us(&self, data: &[u8], pos: usize) -> (r: Result<u16, Error>)
        ensures
            r is Err <==> pos + 2 > data@.len(),
            r matches Ok(v) ==> v == be_u16_value(data@[pos as int], data@[pos + 1]),
            r matches Err(e) ==> e == Error::UnexpectedEndOfStream,
    {
        let n = data.len();
        if n < 2 || pos > n - 2 {
            return Err(Error::UnexpectedEndOfStream);
        }
        Ok(read_u16_be(data[pos], data[pos + 1]))
    }

    /// Decodes the four bytes at `pos` as a big-endian unsigned 32-bit
    /// value. Fails only when fewer than four bytes remain.
    pub fn decode_ul(&self, data: &[u8], pos: usize) -> (r: Result<u32, Error>)
        ensures
            r is Err <==> pos + 4 > data@.len(),
            r matches Ok(v) ==> v == be_u32_value(
                data@[pos as int],
                data@[pos + 1],
                data@[pos + 2],
                data@[pos + 3],
            ),
            r matches Err(e) ==> e == Error::UnexpectedEndOfStream,
    {
        let n = data.len();
        if n < 4 || pos > n - 4 {
            return Err(Error::UnexpectedEndOfStream);
        }
        Ok(read_u32_be(data[pos], data[pos + 1], data[pos + 2], data[pos + 3]))
    }

    /// Decodes the two bytes at `pos` as a big-endian two's-complement
    /// signed 16-bit value. Fails only when fewer than two bytes remain.
    pub fn decode_ss(&self, data: &[u8], pos: usize) -> (r: Result<i16, Error>)
        ensures
            r is Err <==> pos + 2 > data@.len(),
            r matches Ok(v) ==> v == be_i16_value(data@[pos as int], data@[pos + 1]),
            r matches Err(e) ==> e == Error::UnexpectedEndOfStream,
    {
        let n = data.len();
        if n < 2 || pos > n - 2 {
            return Err(Error::UnexpectedEndOfStream);
        }
        Ok(read_i16_be(data[pos], data[pos + 1]))
    }

    /// Decodes the four bytes at `pos` as a big-endian two's-complement
    /// signed 32-bit value. Fails only when fewer than four bytes remain.
    pub fn decode_sl(&self, data: &[u8], pos: usize) -> (r: Result<i32, Error>)
        ensures
            r is Err <==> pos + 4 > data@.len(),
            r matches Ok(v) ==> v == be_i32_value(
                data@[pos as int],
                data@[pos + 1],
                data@[pos + 2],
                data@[pos + 3],
            ),
            r matches Err(e) ==> e == Error::UnexpectedEndOfStream,
    {
        let n = data.len();
        if n < 4 || pos > n - 4 {
            return Err(Error::UnexpectedEndOfStream);
        }
        Ok(read_i32_be(data[pos], data[pos + 1], data[pos + 2], data[pos + 3]))
    }
}

} // verus!
