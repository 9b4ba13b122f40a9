//! The error taxonomy shared by all decoders.

use vstd::prelude::*;
use crate::map::tags::MapSectionName;
use crate::cif::fields::FieldName;

verus! {

/// A violation of a container's byte layout. Always fatal for the file at hand.
#[derive(Debug, Clone, Copy, PartialEq, Eq, Structural)]
pub enum StructuralError {
    /// The leading magic number is not one this library recognises.
    BadMagic,
    /// Header fields that must agree with each other do not.
    HeaderMismatch,
    /// The buffer ends before a field, a table or a run is complete.
    Truncated,
    /// A payload yields another number of elements than its header declares.
    LengthMismatch,
    /// A sprite frame carries a kind tag other than the three known ones.
    UnknownFrameKind,
    /// A sprite frame refers to rows that the row directory does not hold.
    RowOutOfRange,
    /// A run of a sprite row would draw a pixel outside the row.
    RowOverrun,
    /// A text field does not hold valid UTF-8.
    InvalidText,
    /// An item of a definition container stands before the first section.
    OrphanItem,
    /// A value of a definition record does not follow its field's grammar.
    MalformedValue,
    /// The trailing palette of an image is absent.
    PaletteNotFound,
    /// An image's bounding box is inverted or its size does not fit in memory.
    BadDimensions,
    /// The buffer that was handed in cannot hold the decoded image.
    BufferTooSmall,
}

/// Why a decode failed.
#[derive(Debug, Clone, Copy, PartialEq, Eq, Structural)]
pub enum DecodeError {
    /// The bytes do not follow the container's layout.
    Malformed(StructuralError),
    /// A mandatory element is absent; the payload names it.
    MissingSection(MissingElement),
    /// A palette index lies outside the palette.
    OutOfRange,
}

/// The element whose absence made a decode fail.
#[derive(Debug, Clone, Copy, PartialEq, Eq, Structural)]
pub enum MissingElement {
    /// A mandatory section of a map container.
    MapSection(MapSectionName),
    /// A required field of a definition record.
    Field(FieldName),
}

} // verus!
