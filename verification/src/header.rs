//! The structured header values that the codec reads and writes: ordinary
//! data element headers and the reserved marker headers that bound sequence
//! items.

use vstd::prelude::*;

use crate::error::Error;
use crate::vr::ValueRepresentation;

verus! {

/// A data element tag: the ordered pair (group, element), each 16 bits.
pub type Tag = (u16, u16);

/// The group number shared by all three reserved marker tags.
pub const MARKER_GROUP: u16 = 0xFFFE;

/// The element number of the item start marker tag.
pub const ITEM_START_ELEMENT: u16 = 0xE000;

/// The element number of the item delimiter marker tag.
pub const ITEM_DELIMITER_ELEMENT: u16 = 0xE00D;

/// The element number of the sequence delimiter marker tag.
pub const SEQUENCE_DELIMITER_ELEMENT: u16 = 0xE0DD;

/// Whether a tag is one of the three reserved marker tags that delimit
/// sequence items: item start, item delimiter, or sequence delimiter.
pub open spec fn spec_is_marker_tag(tag: Tag) -> bool {
    tag.0 == MARKER_GROUP && (tag.1 == ITEM_START_ELEMENT || tag.1 == ITEM_DELIMITER_ELEMENT
        || tag.1 == SEQUENCE_DELIMITER_ELEMENT)
}

/// Whether a tag is one of the three reserved marker tags.
pub fn is_marker_tag(tag: Tag) -> (r: bool)
    ensures
        r == spec_is_marker_tag(tag),
{
    tag.0 == MARKER_GROUP && (tag.1 == ITEM_START_ELEMENT || tag.1 == ITEM_DELIMITER_ELEMENT
        || tag.1 == SEQUENCE_DELIMITER_ELEMENT)
}

/// The header of one data element: its tag, its value representation and
/// the byte length of the value that follows it in the stream. The length
/// never counts the header's own bytes.
#[derive(Clone, Copy, Debug, PartialEq, Eq)]
pub struct DataElementHeader {
    pub tag: Tag,
    pub vr: ValueRepresentation,
    pub len: u32,
}

impl DataElementHeader {
    /// The element's tag.
    pub fn tag(&self) -> (r: Tag)
        ensures
            r == self.tag,
    {
        self.tag
    }

    /// The element's value representation.
    pub fn vr(&self) -> (r: ValueRepresentation)
        ensures
            r == self.vr,
    {
        self.vr
    }

    /// The byte length of the element's value.
    pub fn len(&self) -> (r: u32)
        ensures
            r == self.len,
    {
        self.len
    }
}

/// The header of a sequence item or delimiter: one of the three reserved
/// marker tags plus a length. The fields are private so that every value
/// of this type carries a marker tag; the only constructor rejects any
/// other tag.
#[derive(Clone, Copy, Debug, PartialEq, Eq)]
pub struct SequenceItemHeader {
    tag: Tag,
    len: u32,
}

impl SequenceItemHeader {
    /// Every value of this type carries one of the three marker tags.
    #[verifier::type_invariant]
    pub closed spec fn wf(&self) -> bool {
        spec_is_marker_tag(self.tag)
    }

    /// The marker tag of this header.
    pub closed spec fn spec_tag(&self) -> Tag {
        self.tag
    }

    /// The length field of this header.
    pub closed spec fn spec_len(&self) -> u32 {
        self.len
    }

    /// Builds a sequence item header. Succeeds exactly on the three
    /// reserved marker tags; any other tag is an invalid structure.
    pub fn new(tag: Tag, len: u32) -> (r: Result<SequenceItemHeader, Error>)
        ensures
            r is Ok <==> spec_is_marker_tag(tag),
            r matches Ok(h) ==> h.spec_tag() == tag && h.spec_len() == len,
            r matches Err(e) ==> e == Error::InvalidFormat,
    {
        if is_marker_tag(tag) {
            Ok(SequenceItemHeader { tag, len })
        } else {
            Err(Error::InvalidFormat)
        }
    }

    /// The marker tag of this header.
    pub fn tag(&self) -> (r: Tag)
        ensures
            r == self.spec_tag(),
            spec_is_marker_tag(r),
    {
        proof {
            use_type_invariant(self);
        }
        self.tag
    }

    /// The length field of this header.
    pub fn len(&self) -> (r: u32)
        ensures
            r == self.spec_len(),
    {
        self.len
    }
}

} // verus!
