//! The two failure classes of the codec.

use vstd::prelude::*;

verus! {

/// Why a codec operation failed.
///
/// `UnexpectedEndOfStream` stands for a short read: the buffer held fewer
/// bytes than the operation required. `InvalidFormat` is raised only when a
/// sequence item header is built from a tag that is not one of the three
/// reserved marker tags.
#[derive(Clone, Copy, Debug, PartialEq, Eq)]
pub enum Error {
    UnexpectedEndOfStream,
    InvalidFormat,
}

} // verus!
