//! The value representation registry: the closed set of two-letter codes
//! that type a data element's value, each with its two-byte ASCII wire form
//! and its header-layout category.

use vstd::prelude::*;

verus! {

/// A value representation: the two-letter code that declares the data type
/// of an element's value.
///
/// `UN` ("unknown") doubles as the decode-time fallback for wire codes that
/// match no defined representation.
#[derive(Clone, Copy, Debug, PartialEq, Eq)]
pub enum ValueRepresentation {
    AE,
    AS,
    AT,
    CS,
    DA,
    DS,
    DT,
    FL,
    FD,
    IS,
    LO,
    LT,
    OB,
    OD,
    OF,
    OL,
    OW,
    PN,
    SH,
    SL,
    SQ,
    SS,
    ST,
    TM,
    UC,
    UI,
    UL,
    UN,
    UR,
    US,
    UT,
}

/// The canonical two-byte ASCII wire form of a value representation.
pub open spec fn spec_code_of(vr: ValueRepresentation) -> (u8, u8) {
    match vr {
        ValueRepresentation::AE => (0x41, 0x45),
        ValueRepresentation::AS => (0x41, 0x53),
        ValueRepresentation::AT => (0x41, 0x54),
        ValueRepresentation::CS => (0x43, 0x53),
        ValueRepresentation::DA => (0x44, 0x41),
        ValueRepresentation::DS => (0x44, 0x53),
        ValueRepresentation::DT => (0x44, 0x54),
        ValueRepresentation::FL => (0x46, 0x4C),
        ValueRepresentation::FD => (0x46, 0x44),
        ValueRepresentation::IS => (0x49, 0x53),
        ValueRepresentation::LO => (0x4C, 0x4F),
        ValueRepresentation::LT => (0x4C, 0x54),
        ValueRepresentation::OB => (0x4F, 0x42),
        ValueRepresentation::OD => (0x4F, 0x44),
        ValueRepresentation::OF => (0x4F, 0x46),
        ValueRepresentation::OL => (0x4F, 0x4C),
        ValueRepresentation::OW => (0x4F, 0x57),
        ValueRepresentation::PN => (0x50, 0x4E),
        ValueRepresentation::SH => (0x53, 0x48),
        ValueRepresentation::SL => (0x53, 0x4C),
        ValueRepresentation::SQ => (0x53, 0x51),
        ValueRepresentation::SS => (0x53, 0x53),
        ValueRepresentation::ST => (0x53, 0x54),
        ValueRepresentation::TM => (0x54, 0x4D),
        ValueRepresentation::UC => (0x55, 0x43),
        ValueRepresentation::UI => (0x55, 0x49),
        ValueRepresentation::UL => (0x55, 0x4C),
        ValueRepresentation::UN => (0x55, 0x4E),
        ValueRepresentation::UR => (0x55, 0x52),
        ValueRepresentation::US => (0x55, 0x53),
        ValueRepresentation::UT => (0x55, 0x54),
    }
}

/// The value representation whose wire form is the given byte pair, if any.
pub open spec fn spec_vr_of_code(b0: u8, b1: u8) -> Option<ValueRepresentation> {
    match (b0, b1) {
        (0x41, 0x45) => Some(ValueRepresentation::AE),
        (0x41, 0x53) => Some(ValueRepresentation::AS),
        (0x41, 0x54) => Some(ValueRepresentation::AT),
        (0x43, 0x53) => Some(ValueRepresentation::CS),
        (0x44, 0x41) => Some(ValueRepresentation::DA),
        (0x44, 0x53) => Some(ValueRepresentation::DS),
        (0x44, 0x54) => Some(ValueRepresentation::DT),
        (0x46, 0x4C) => Some(ValueRepresentation::FL),
        (0x46, 0x44) => Some(ValueRepresentation::FD),
        (0x49, 0x53) => Some(ValueRepresentation::IS),
        (0x4C, 0x4F) => Some(ValueRepresentation::LO),
        (0x4C, 0x54) => Some(ValueRepresentation::LT),
        (0x4F, 0x42) => Some(ValueRepresentation::OB),
        (0x4F, 0x44) => Some(ValueRepresentation::OD),
        (0x4F, 0x46) => Some(ValueRepresentation::OF),
        (0x4F, 0x4C) => Some(ValueRepresentation::OL),
        (0x4F, 0x57) => Some(ValueRepresentation::OW),
        (0x50, 0x4E) => Some(ValueRepresentation::PN),
        (0x53, 0x48) => Some(ValueRepresentation::SH),
        (0x53, 0x4C) => Some(ValueRepresentation::SL),
        (0x53, 0x51) => Some(ValueRepresentation::SQ),
        (0x53, 0x53) => Some(ValueRepresentation::SS),
        (0x53, 0x54) => Some(ValueRepresentation::ST),
        (0x54, 0x4D) => Some(ValueRepresentation::TM),
        (0x55, 0x43) => Some(ValueRepresentation::UC),
        (0x55, 0x49) => Some(ValueRepresentation::UI),
        (0x55, 0x4C) => Some(ValueRepresentation::UL),
        (0x55, 0x4E) => Some(ValueRepresentation::UN),
        (0x55, 0x52) => Some(ValueRepresentation::UR),
        (0x55, 0x53) => Some(ValueRepresentation::US),
        (0x55, 0x54) => Some(ValueRepresentation::UT),
        _ => None,
    }
}

/// The value representation for a decoded byte pair: the defined one when
/// the pair is a known code, `UN` otherwise.
pub open spec fn spec_vr_or_unknown(b0: u8, b1: u8) -> ValueRepresentation {
    match spec_vr_of_code(b0, b1) {
        Some(vr) => vr,
        None => ValueRepresentation::UN,
    }
}

/// Whether a value representation uses the long header form: a two-byte
/// reserved field followed by a four-byte length, 12 bytes in all. Every
/// other representation uses the short form with a two-byte length, 8 bytes
/// in all. This classification is the single source of truth for both the
/// decoder and the encoder.
pub open spec fn spec_is_long_form(vr: ValueRepresentation) -> bool {
    match vr {
        ValueRepresentation::OB => true,
        ValueRepresentation::OD => true,
        ValueRepresentation::OF => true,
        ValueRepresentation::OL => true,
        ValueRepresentation::OW => true,
        ValueRepresentation::SQ => true,
        ValueRepresentation::UC => true,
        ValueRepresentation::UR => true,
        ValueRepresentation::UT => true,
        ValueRepresentation::UN => true,
        _ => false,
    }
}

/// How many bytes a data element header occupies on the wire, by the
/// length-category of its value representation.
pub open spec fn spec_header_nbytes(vr: ValueRepresentation) -> int {
    if spec_is_long_form(vr) {
        12
    } else {
        8
    }
}

/// Reading back the canonical code of any representation yields that
/// representation: the registry's two directions invert each other.
pub proof fn lemma_code_roundtrip(vr: ValueRepresentation)
    ensures
        spec_vr_of_code(spec_code_of(vr).0, spec_code_of(vr).1) == Some(vr),
{
}

/// A byte pair that equals no representation's canonical code matches
/// nothing in the registry: decoding it will fall back to `UN`.
pub proof fn lemma_unknown_code(b0: u8, b1: u8)
    requires
        forall|vr: ValueRepresentation| spec_code_of(vr) != (b0, b1),
    ensures
        spec_vr_of_code(b0, b1) is None,
{
    assert(spec_code_of(ValueRepresentation::AE) != (b0, b1));
    assert(spec_code_of(ValueRepresentation::AS) != (b0, b1));
    assert(spec_code_of(ValueRepresentation::AT) != (b0, b1));
    assert(spec_code_of(ValueRepresentation::CS) != (b0, b1));
    assert(spec_code_of(ValueRepresentation::DA) != (b0, b1));
    assert(spec_code_of(ValueRepresentation::DS) != (b0, b1));
    assert(spec_code_of(ValueRepresentation::DT) != (b0, b1));
    assert(spec_code_of(ValueRepresentation::FL) != (b0, b1));
    assert(spec_code_of(ValueRepresentation::FD) != (b0, b1));
    assert(spec_code_of(ValueRepresentation::IS) != (b0, b1));
    assert(spec_code_of(ValueRepresentation::LO) != (b0, b1));
    assert(spec_code_of(ValueRepresentation::LT) != (b0, b1));
    assert(spec_code_of(ValueRepresentation::OB) != (b0, b1));
    assert(spec_code_of(ValueRepresentation::OD) != (b0, b1));
    assert(spec_code_of(ValueRepresentation::OF) != (b0, b1));
    assert(spec_code_of(ValueRepresentation::OL) != (b0, b1));
    assert(spec_code_of(ValueRepresentation::OW) != (b0, b1));
    assert(spec_code_of(ValueRepresentation::PN) != (b0, b1));
    assert(spec_code_of(ValueRepresentation::SH) != (b0, b1));
    assert(spec_code_of(ValueRepresentation::SL) != (b0, b1));
    assert(spec_code_of(ValueRepresentation::SQ) != (b0, b1));
    assert(spec_code_of(ValueRepresentation::SS) != (b0, b1));
    assert(spec_code_of(ValueRepresentation::ST) != (b0, b1));
    assert(spec_code_of(ValueRepresentation::TM) != (b0, b1));
    assert(spec_code_of(ValueRepresentation::UC) != (b0, b1));
    assert(spec_code_of(ValueRepresentation::UI) != (b0, b1));
    assert(spec_code_of(ValueRepresentation::UL) != (b0, b1));
    assert(spec_code_of(ValueRepresentation::UN) != (b0, b1));
    assert(spec_code_of(ValueRepresentation::UR) != (b0, b1));
    assert(spec_code_of(ValueRepresentation::US) != (b0, b1));
    assert(spec_code_of(ValueRepresentation::UT) != (b0, b1));
}

impl ValueRepresentation {
    /// The representation whose wire form is the byte pair `(b0, b1)`, or
    /// `None` when the pair matches no defined code.
    pub fn from_binary(b0: u8, b1: u8) -> (r: Option<ValueRepresentation>)
        ensures
            r == spec_vr_of_code(b0, b1),
    {
        match (b0, b1) {
            (0x41, 0x45) => Some(ValueRepresentation::AE),
            (0x41, 0x53) => Some(ValueRepresentation::AS),
            (0x41, 0x54) => Some(ValueRepresentation::AT),
            (0x43, 0x53) => Some(ValueRepresentation::CS),
            (0x44, 0x41) => Some(ValueRepresentation::DA),
            (0x44, 0x53) => Some(ValueRepresentation::DS),
            (0x44, 0x54) => Some(ValueRepresentation::DT),
            (0x46, 0x4C) => Some(ValueRepresentation::FL),
            (0x46, 0x44) => Some(ValueRepresentation::FD),
            (0x49, 0x53) => Some(ValueRepresentation::IS),
            (0x4C, 0x4F) => Some(ValueRepresentation::LO),
            (0x4C, 0x54) => Some(ValueRepresentation::LT),
            (0x4F, 0x42) => Some(ValueRepresentation::OB),
            (0x4F, 0x44) => Some(ValueRepresentation::OD),
            (0x4F, 0x46) => Some(ValueRepresentation::OF),
            (0x4F, 0x4C) => Some(ValueRepresentation::OL),
            (0x4F, 0x57) => Some(ValueRepresentation::OW),
            (0x50, 0x4E) => Some(ValueRepresentation::PN),
            (0x53, 0x48) => Some(ValueRepresentation::SH),
            (0x53, 0x4C) => Some(ValueRepresentation::SL),
            (0x53, 0x51) => Some(ValueRepresentation::SQ),
            (0x53, 0x53) => Some(ValueRepresentation::SS),
            (0x53, 0x54) => Some(ValueRepresentation::ST),
            (0x54, 0x4D) => Some(ValueRepresentation::TM),
            (0x55, 0x43) => Some(ValueRepresentation::UC),
            (0x55, 0x49) => Some(ValueRepresentation::UI),
            (0x55, 0x4C) => Some(ValueRepresentation::UL),
            (0x55, 0x4E) => Some(ValueRepresentation::UN),
            (0x55, 0x52) => Some(ValueRepresentation::UR),
            (0x55, 0x53) => Some(ValueRepresentation::US),
            (0x55, 0x54) => Some(ValueRepresentation::UT),
            _ => None,
        }
    }

    /// The canonical two-byte ASCII wire form of this representation.
    pub fn to_bytes(&self) -> (r: (u8, u8))
        ensures
            r == spec_code_of(*self),
    {
        match self {
            ValueRepresentation::AE => (0x41, 0x45),
            ValueRepresentation::AS => (0x41, 0x53),
            ValueRepresentation::AT => (0x41, 0x54),
            ValueRepresentation::CS => (0x43, 0x53),
            ValueRepresentation::DA => (0x44, 0x41),
            ValueRepresentation::DS => (0x44, 0x53),
            ValueRepresentation::DT => (0x44, 0x54),
            ValueRepresentation::FL => (0x46, 0x4C),
            ValueRepresentation::FD => (0x46, 0x44),
            ValueRepresentation::IS => (0x49, 0x53),
            ValueRepresentation::LO => (0x4C, 0x4F),
            ValueRepresentation::LT => (0x4C, 0x54),
            ValueRepresentation::OB => (0x4F, 0x42),
            ValueRepresentation::OD => (0x4F, 0x44),
            ValueRepresentation::OF => (0x4F, 0x46),
            ValueRepresentation::OL => (0x4F, 0x4C),
            ValueRepresentation::OW => (0x4F, 0x57),
            ValueRepresentation::PN => (0x50, 0x4E),
            ValueRepresentation::SH => (0x53, 0x48),
            ValueRepresentation::SL => (0x53, 0x4C),
            ValueRepresentation::SQ => (0x53, 0x51),
            ValueRepresentation::SS => (0x53, 0x53),
            ValueRepresentation::ST => (0x53, 0x54),
            ValueRepresentation::TM => (0x54, 0x4D),
            ValueRepresentation::UC => (0x55, 0x43),
            ValueRepresentation::UI => (0x55, 0x49),
            ValueRepresentation::UL => (0x55, 0x4C),
            ValueRepresentation::UN => (0x55, 0x4E),
            ValueRepresentation::UR => (0x55, 0x52),
            ValueRepresentation::US => (0x55, 0x53),
            ValueRepresentation::UT => (0x55, 0x54),
        }
    }

    /// Whether this representation uses the long header form.
    pub fn is_long_form(&self) -> (r: bool)
        ensures
            r == spec_is_long_form(*self),
    {
        match self {
            ValueRepresentation::OB => true,
            ValueRepresentation::OD => true,
            ValueRepresentation::OF => true,
            ValueRepresentation::OL => true,
            ValueRepresentation::OW => true,
            ValueRepresentation::SQ => true,
            ValueRepresentation::UC => true,
            ValueRepresentation::UR => true,
            ValueRepresentation::UT => true,
            ValueRepresentation::UN => true,
            _ => false,
        }
    }
}

} // verus!
