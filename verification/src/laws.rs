//! Laws that tie the encoder and the decoder together: the decoder inverts
//! the encoder, consumes exactly the bytes the encoder emitted, and falls
//! back to `UN` on unknown value representation codes.

use vstd::prelude::*;

use crate::decoder::spec_decode_header;
use crate::encoder::spec_encode_element_header;
use crate::header::DataElementHeader;
use crate::vr::{ValueRepresentation, lemma_code_roundtrip, lemma_unknown_code, spec_code_of,
    spec_header_nbytes, spec_is_long_form};
use crate::wire::{lemma_u16_be_roundtrip, lemma_u32_be_roundtrip, u16_be_bytes, u32_be_bytes};

verus! {

/// Round trip: decoding an encoded header, whatever bytes follow it, yields
/// a header with the same tag and value representation, consumes exactly
/// the bytes the encoder emitted, and recovers the same length whenever the
/// length fits the field width of the representation's layout category.
pub proof fn lemma_header_round_trip(h: DataElementHeader, rest: Seq<u8>)
    ensures
        spec_decode_header(spec_encode_element_header(h) + rest, 0) matches Some((d, end)) && {
            &&& d.tag == h.tag
            &&& d.vr == h.vr
            &&& end == spec_encode_element_header(h).len()
            &&& end == spec_header_nbytes(h.vr)
            &&& (spec_is_long_form(h.vr) || h.len <= 0xFFFF) ==> d.len == h.len
        },
{
    let code = spec_code_of(h.vr);
    let a = u16_be_bytes(h.tag.0);
    let b = u16_be_bytes(h.tag.1);
    let enc = spec_encode_element_header(h);
    let s = enc + rest;
    lemma_u16_be_roundtrip(h.tag.0);
    lemma_u16_be_roundtrip(h.tag.1);
    lemma_code_roundtrip(h.vr);
    assert(s[0] == a[0] && s[1] == a[1]);
    assert(s[2] == b[0] && s[3] == b[1]);
    assert(s[4] == code.0 && s[5] == code.1);
    if spec_is_long_form(h.vr) {
        let c = u32_be_bytes(h.len);
        lemma_u32_be_roundtrip(h.len);
        assert(s[8] == c[0] && s[9] == c[1] && s[10] == c[2] && s[11] == c[3]);
    } else {
        let t = (h.len % 0x10000) as u16;
        let c = u16_be_bytes(t);
        lemma_u16_be_roundtrip(t);
        assert(s[6] == c[0] && s[7] == c[1]);
    }
}

/// Unknown code fallback: when the two value representation bytes of a
/// header equal no defined code, decoding still succeeds, yields `UN`, and
/// uses `UN`'s long-form layout of 12 bytes.
pub proof fn lemma_unknown_vr_falls_back(s: Seq<u8>, pos: int)
    requires
        0 <= pos,
        pos + 12 <= s.len(),
        forall|vr: ValueRepresentation| spec_code_of(vr) != (s[pos + 4], s[pos + 5]),
    ensures
        spec_decode_header(s, pos) matches Some((d, end)) && d.vr == ValueRepresentation::UN
            && end == pos + 12,
{
    lemma_unknown_code(s[pos + 4], s[pos + 5]);
}

} // verus!
