//! Codec for data element headers in the Explicit VR, Big Endian transfer
//! syntax of the DICOM wire format.
//!
//! The library translates between raw bytes and structured header values:
//! `DataElementHeader` (tag, value representation, value length) and
//! `SequenceItemHeader` (one of the three reserved marker tags plus a
//! length). Decoding and encoding are pure transforms over caller-provided
//! byte buffers; every function carries a contract that pins the exact wire
//! layout down to the byte.

pub mod decoder;
pub mod encoder;
pub mod error;
pub mod header;
pub mod laws;
pub mod vr;
pub mod wire;
