//! The palette record.
//!
//! Its name and its image are required. The flag is off where no item sets
//! it, and the palette to remap to may be left out.

use vstd::prelude::*;
use crate::cif::definitions::GfxPalette256;
use crate::cif::definitions::GfxPalette256View;
use crate::cif::fields::FieldName;
use crate::cif::fields::field_of;
use crate::cif::fields::field_of_key;
use crate::cif::fields::missing_field;
use crate::cif::section::Item;
use crate::cif::section::ItemView;
use crate::cif::section::items_view;
use crate::cif::value::flag_value;
use crate::cif::value::parse_flag;
use crate::cif::value::parse_text;
use crate::cif::value::text_value;
use crate::cif::value::malformed_value;
use crate::error::DecodeError;
use crate::error::MissingElement;
use crate::error::StructuralError;

verus! {

/// A palette record in the making.
#[allow(non_snake_case)]
#[derive(Debug)]
pub struct GfxPalette256Builder {
    pub editname: Option<String>,
    pub gfxfile: Option<String>,
    pub gfxpreshade: Option<bool>,
    pub gfxremaptopreshaded: Option<String>,
}

/// The mathematical value of a `GfxPalette256Builder`.
#[allow(non_snake_case)]
pub struct GfxPalette256BuilderView {
    pub editname: Option<Seq<char>>,
    pub gfxfile: Option<Seq<char>>,
    pub gfxpreshade: Option<bool>,
    pub gfxremaptopreshaded: Option<Seq<char>>,
}

impl View for GfxPalette256Builder {
    type V = GfxPalette256BuilderView;

    open spec fn view(&self) -> GfxPalette256BuilderView {
        GfxPalette256BuilderView {
            editname: match self.editname {
                Some(v) => Some(v@),
                None => None,
            },
            gfxfile: match self.gfxfile {
                Some(v) => Some(v@),
                None => None,
            },
            gfxpreshade: self.gfxpreshade,
            gfxremaptopreshaded: match self.gfxremaptopreshaded {
                Some(v) => Some(v@),
                None => None,
            },
        }
    }
}

/// The builder in which no field is set.
pub open spec fn empty_palette() -> GfxPalette256BuilderView {
    GfxPalette256BuilderView {
        editname: None,
        gfxfile: None,
        gfxpreshade: None,
        gfxremaptopreshaded: None,
    }
}

/// The builder after one item. An item whose key names no field of the
/// record changes nothing; a value that its field cannot take is an error.
pub open spec fn palette_step(b: GfxPalette256BuilderView, item: ItemView) -> Result<
    GfxPalette256BuilderView,
    DecodeError,
> {
    match field_of_key(item.key) {
        Some(FieldName::EditName) => match text_value(item.value) {
            Some(v) => Ok(GfxPalette256BuilderView { editname: Some(v), ..b }),
            None => Err(malformed_value()),
        },
        Some(FieldName::GfxFile) => match text_value(item.value) {
            Some(v) => Ok(GfxPalette256BuilderView { gfxfile: Some(v), ..b }),
            None => Err(malformed_value()),
        },
        Some(FieldName::GfxPreshade) => match flag_value(item.value) {
            Some(v) => Ok(GfxPalette256BuilderView { gfxpreshade: Some(v), ..b }),
            None => Err(malformed_value()),
        },
        Some(FieldName::GfxRemapToPreshaded) => match text_value(item.value) {
            Some(v) => Ok(GfxPalette256BuilderView { gfxremaptopreshaded: Some(v), ..b }),
            None => Err(malformed_value()),
        },
        _ => Ok(b),
    }
}

/// The builder after the items from place `i` on. The first item that fails
/// ends the building.
pub open spec fn palette_fold(b: GfxPalette256BuilderView, items: Seq<ItemView>, i: int) -> Result<
    GfxPalette256BuilderView,
    DecodeError,
>
    decreases items.len() - i,
{
    if i < 0 || i >= items.len() {
        Ok(b)
    } else {
        match palette_step(b, items[i]) {
            Err(e) => Err(e),
            Ok(next) => palette_fold(next, items, i + 1),
        }
    }
}

/// The first required field, in the order of the record, that is not set.
pub open spec fn palette_unset(b: GfxPalette256BuilderView) -> Option<FieldName> {
    if b.editname is None {
        Some(FieldName::EditName)
    } else if b.gfxfile is None {
        Some(FieldName::GfxFile)
    } else {
        None
    }
}

/// The record that a builder makes, or the first required field that it
/// lacks.
pub open spec fn palette_built(b: GfxPalette256BuilderView) -> Result<GfxPalette256View, DecodeError> {
    match palette_unset(b) {
        Some(field) => Err(missing_field(field)),
        None => Ok(
            GfxPalette256View {
                editname: b.editname.unwrap(),
                gfxfile: b.gfxfile.unwrap(),
                gfxpreshade: match b.gfxpreshade {
                    Some(v) => v,
                    None => false,
                },
                gfxremaptopreshaded: b.gfxremaptopreshaded,
            },
        ),
    }
}

/// The record that the items of a section make.
pub open spec fn palette_of(items: Seq<ItemView>) -> Result<GfxPalette256View, DecodeError> {
    match palette_fold(empty_palette(), items, 0) {
        Err(e) => Err(e),
        Ok(b) => palette_built(b),
    }
}

impl GfxPalette256Builder {
    /// The builder in which no field is set.
    pub fn new() -> (builder: GfxPalette256Builder)
        ensures
            builder@ == empty_palette(),
    {
        let builder = GfxPalette256Builder {
            editname: None,
            gfxfile: None,
            gfxpreshade: None,
            gfxremaptopreshaded: None,
        };
        builder
    }

    /// Sets the field that an item names from the item's value. An item that
    /// fails changes nothing.
    pub fn apply(&mut self, item: &Item) -> (r: Result<(), DecodeError>)
        ensures
            match palette_step(old(self)@, item@) {
                Ok(next) => r is Ok && final(self)@ == next,
                Err(e) => r == Err::<(), DecodeError>(e) && final(self)@ == old(self)@,
            },
    {
        let value: &str = item.value.as_str();
        match field_of(item.key.as_str()) {
            Some(FieldName::EditName) => match parse_text(value) {
                Some(v) => {
                    self.editname = Some(v);
                    Ok(())
                },
                None => Err(DecodeError::Malformed(StructuralError::MalformedValue)),
            },
            Some(FieldName::GfxFile) => match parse_text(value) {
                Some(v) => {
                    self.gfxfile = Some(v);
                    Ok(())
                },
                None => Err(DecodeError::Malformed(StructuralError::MalformedValue)),
            },
            Some(FieldName::GfxPreshade) => match parse_flag(value) {
                Some(v) => {
                    self.gfxpreshade = Some(v);
                    Ok(())
                },
                None => Err(DecodeError::Malformed(StructuralError::MalformedValue)),
            },
            Some(FieldName::GfxRemapToPreshaded) => match parse_text(value) {
                Some(v) => {
                    self.gfxremaptopreshaded = Some(v);
                    Ok(())
                },
                None => Err(DecodeError::Malformed(StructuralError::MalformedValue)),
            },
            _ => Ok(()),
        }
    }

    /// Makes the record, or names the first required field that is not set.
    pub fn build(self) -> (r: Result<GfxPalette256, DecodeError>)
        ensures
            match palette_built(self@) {
                Ok(record) => r is Ok && r.unwrap()@ == record,
                Err(e) => r == Err::<GfxPalette256, DecodeError>(e),
            },
    {
        let editname_value: String = match self.editname {
            Some(v) => v,
            None => {
                return Err(DecodeError::MissingSection(MissingElement::Field(FieldName::EditName)));
            },
        };
        let gfxfile_value: String = match self.gfxfile {
            Some(v) => v,
            None => {
                return Err(DecodeError::MissingSection(MissingElement::Field(FieldName::GfxFile)));
            },
        };
        Ok(
            GfxPalette256 {
                editname: editname_value,
                gfxfile: gfxfile_value,
                gfxpreshade: match self.gfxpreshade {
                    Some(v) => v,
                    None => false,
                },
                gfxremaptopreshaded: self.gfxremaptopreshaded,
            },
        )
    }
}

/// Builds a palette record from the items of a section.
#[allow(non_snake_case)]
pub fn parse_GfxPalette256(items: Vec<Item>) -> (r: Result<GfxPalette256, DecodeError>)
    ensures
        match palette_of(items_view(items@)) {
            Ok(record) => r is Ok && r.unwrap()@ == record,
            Err(e) => r == Err::<GfxPalette256, DecodeError>(e),
        },
{
    let mut builder: GfxPalette256Builder = GfxPalette256Builder::new();
    let ghost target = palette_fold(empty_palette(), items_view(items@), 0);
    let mut i: usize = 0;
    while i < items.len()
        invariant
            i <= items@.len(),
            target == palette_fold(empty_palette(), items_view(items@), 0),
            palette_fold(builder@, items_view(items@), i as int) == target,
        decreases items@.len() - i,
    {
        builder.apply(&items[i])?;
        i = i + 1;
    }
    builder.build()
}

} // verus!
