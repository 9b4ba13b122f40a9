//! The pattern record.
//!
//! Every field is required. Of the groups that an item names, each is kept
//! once, in the order in which they are named.

use vstd::prelude::*;
use crate::cif::definitions::GfxPattern;
use crate::cif::definitions::GfxPatternView;
use crate::cif::fields::FieldName;
use crate::cif::fields::field_of;
use crate::cif::fields::field_of_key;
use crate::cif::fields::missing_field;
use crate::cif::section::Item;
use crate::cif::section::ItemView;
use crate::cif::section::items_view;
use crate::cif::value::byte_value;
use crate::cif::value::bytes_value;
use crate::cif::value::distinct;
use crate::cif::value::distinct_texts;
use crate::cif::value::parse_byte;
use crate::cif::value::parse_text;
use crate::cif::value::parse_texts;
use crate::cif::value::split_string_to_ints;
use crate::cif::value::text_value;
use crate::cif::value::texts_value;
use crate::codec::texts_of;
use crate::cif::value::malformed_value;
use crate::error::DecodeError;
use crate::error::MissingElement;
use crate::error::StructuralError;

verus! {

/// A pattern record in the making.
#[allow(non_snake_case)]
#[derive(Debug)]
pub struct GfxPatternBuilder {
    pub EditName: Option<String>,
    pub EditGroups: Option<Vec<String>>,
    pub LogicType: Option<u8>,
    pub GfxTexture: Option<String>,
    pub GfxCoordsA: Option<Vec<u8>>,
    pub GfxCoordsB: Option<Vec<u8>>,
}

/// The mathematical value of a `GfxPatternBuilder`.
#[allow(non_snake_case)]
pub struct GfxPatternBuilderView {
    pub EditName: Option<Seq<char>>,
    pub EditGroups: Option<Seq<Seq<char>>>,
    pub LogicType: Option<u8>,
    pub GfxTexture: Option<Seq<char>>,
    pub GfxCoordsA: Option<Seq<u8>>,
    pub GfxCoordsB: Option<Seq<u8>>,
}

impl View for GfxPatternBuilder {
    type V = GfxPatternBuilderView;

    open spec fn view(&self) -> GfxPatternBuilderView {
        GfxPatternBuilderView {
            EditName: match self.EditName {
                Some(v) => Some(v@),
                None => None,
            },
            EditGroups: match self.EditGroups {
                Some(v) => Some(texts_of(v@)),
                None => None,
            },
            LogicType: self.LogicType,
            GfxTexture: match self.GfxTexture {
                Some(v) => Some(v@),
                None => None,
            },
            GfxCoordsA: match self.GfxCoordsA {
                Some(v) => Some(v@),
                None => None,
            },
            GfxCoordsB: match self.GfxCoordsB {
                Some(v) => Some(v@),
                None => None,
            },
        }
    }
}

/// The builder in which no field is set.
pub open spec fn empty_pattern() -> GfxPatternBuilderView {
    GfxPatternBuilderView {
        EditName: None,
        EditGroups: None,
        LogicType: None,
        GfxTexture: None,
        GfxCoordsA: None,
        GfxCoordsB: None,
    }
}

/// The builder after one item. An item whose key names no field of the
/// record changes nothing; a value that its field cannot take is an error.
pub open spec fn pattern_step(b: GfxPatternBuilderView, item: ItemView) -> Result<
    GfxPatternBuilderView,
    DecodeError,
> {
    match field_of_key(item.key) {
        Some(FieldName::EditName) => match text_value(item.value) {
            Some(v) => Ok(GfxPatternBuilderView { EditName: Some(v), ..b }),
            None => Err(malformed_value()),
        },
        Some(FieldName::EditGroups) => match texts_value(item.value) {
            Some(v) => Ok(GfxPatternBuilderView { EditGroups: Some(distinct(v)), ..b }),
            None => Err(malformed_value()),
        },
        Some(FieldName::LogicType) => match byte_value(item.value) {
            Some(v) => Ok(GfxPatternBuilderView { LogicType: Some(v), ..b }),
            None => Err(malformed_value()),
        },
        Some(FieldName::GfxTexture) => match text_value(item.value) {
            Some(v) => Ok(GfxPatternBuilderView { GfxTexture: Some(v), ..b }),
            None => Err(malformed_value()),
        },
        Some(FieldName::GfxCoordsA) => match bytes_value(item.value) {
            Some(v) => Ok(GfxPatternBuilderView { GfxCoordsA: Some(v), ..b }),
            None => Err(malformed_value()),
        },
        Some(FieldName::GfxCoordsB) => match bytes_value(item.value) {
            Some(v) => Ok(GfxPatternBuilderView { GfxCoordsB: Some(v), ..b }),
            None => Err(malformed_value()),
        },
        _ => Ok(b),
    }
}

/// The builder after the items from place `i` on. The first item that fails
/// ends the building.
pub open spec fn pattern_fold(b: GfxPatternBuilderView, items: Seq<ItemView>, i: int) -> Result<
    GfxPatternBuilderView,
    DecodeError,
>
    decreases items.len() - i,
{
    if i < 0 || i >= items.len() {
        Ok(b)
    } else {
        match pattern_step(b, items[i]) {
            Err(e) => Err(e),
            Ok(next) => pattern_fold(next, items, i + 1),
        }
    }
}

/// The first required field, in the order of the record, that is not set.
pub open spec fn pattern_unset(b: GfxPatternBuilderView) -> Option<FieldName> {
    if b.EditName is None {
        Some(FieldName::EditName)
    } else if b.EditGroups is None {
        Some(FieldName::EditGroups)
    } else if b.LogicType is None {
        Some(FieldName::LogicType)
    } else if b.GfxTexture is None {
        Some(FieldName::GfxTexture)
    } else if b.GfxCoordsA is None {
        Some(FieldName::GfxCoordsA)
    } else if b.GfxCoordsB is None {
        Some(FieldName::GfxCoordsB)
    } else {
        None
    }
}

/// The record that a builder makes, or the first required field that it
/// lacks.
pub open spec fn pattern_built(b: GfxPatternBuilderView) -> Result<GfxPatternView, DecodeError> {
    match pattern_unset(b) {
        Some(field) => Err(missing_field(field)),
        None => Ok(
            GfxPatternView {
                EditName: b.EditName.unwrap(),
                EditGroups: b.EditGroups.unwrap(),
                LogicType: b.LogicType.unwrap(),
                GfxTexture: b.GfxTexture.unwrap(),
                GfxCoordsA: b.GfxCoordsA.unwrap(),
                GfxCoordsB: b.GfxCoordsB.unwrap(),
            },
        ),
    }
}

/// The record that the items of a section make.
pub open spec fn pattern_of(items: Seq<ItemView>) -> Result<GfxPatternView, DecodeError> {
    match pattern_fold(empty_pattern(), items, 0) {
        Err(e) => Err(e),
        Ok(b) => pattern_built(b),
    }
}

impl GfxPatternBuilder {
    /// The builder in which no field is set.
    pub fn new() -> (builder: GfxPatternBuilder)
        ensures
            builder@ == empty_pattern(),
    {
        let builder = GfxPatternBuilder {
            EditName: None,
            EditGroups: None,
            LogicType: None,
            GfxTexture: None,
            GfxCoordsA: None,
            GfxCoordsB: None,
        };
        builder
    }

    /// Sets the field that an item names from the item's value. An item that
    /// fails changes nothing.
    pub fn apply(&mut self, item: &Item) -> (r: Result<(), DecodeError>)
        ensures
            match pattern_step(old(self)@, item@) {
                Ok(next) => r is Ok && final(self)@ == next,
                Err(e) => r == Err::<(), DecodeError>(e) && final(self)@ == old(self)@,
            },
    {
        let value: &str = item.value.as_str();
        match field_of(item.key.as_str()) {
            Some(FieldName::EditName) => match parse_text(value) {
                Some(v) => {
                    self.EditName = Some(v);
                    Ok(())
                },
                None => Err(DecodeError::Malformed(StructuralError::MalformedValue)),
            },
            Some(FieldName::EditGroups) => match parse_texts(value) {
                Some(v) => {
                    self.EditGroups = Some(distinct_texts(v));
                    Ok(())
                },
                None => Err(DecodeError::Malformed(StructuralError::MalformedValue)),
            },
            Some(FieldName::LogicType) => match parse_byte(value) {
                Some(v) => {
                    self.LogicType = Some(v);
                    Ok(())
                },
                None => Err(DecodeError::Malformed(StructuralError::MalformedValue)),
            },
            Some(FieldName::GfxTexture) => match parse_text(value) {
                Some(v) => {
                    self.GfxTexture = Some(v);
                    Ok(())
                },
                None => Err(DecodeError::Malformed(StructuralError::MalformedValue)),
            },
            Some(FieldName::GfxCoordsA) => match split_string_to_ints(value) {
                Some(v) => {
                    self.GfxCoordsA = Some(v);
                    Ok(())
                },
                None => Err(DecodeError::Malformed(StructuralError::MalformedValue)),
            },
            Some(FieldName::GfxCoordsB) => match split_string_to_ints(value) {
                Some(v) => {
                    self.GfxCoordsB = Some(v);
                    Ok(())
                },
                None => Err(DecodeError::Malformed(StructuralError::MalformedValue)),
            },
            _ => Ok(()),
        }
    }

    /// Makes the record, or names the first required field that is not set.
    pub fn build(self) -> (r: Result<GfxPattern, DecodeError>)
        ensures
            match pattern_built(self@) {
                Ok(record) => r is Ok && r.unwrap()@ == record,
                Err(e) => r == Err::<GfxPattern, DecodeError>(e),
            },
    {
        let EditName_value: String = match self.EditName {
            Some(v) => v,
            None => {
                return Err(DecodeError::MissingSection(MissingElement::Field(FieldName::EditName)));
            },
        };
        let EditGroups_value: Vec<String> = match self.EditGroups {
            Some(v) => v,
            None => {
                return Err(DecodeError::MissingSection(MissingElement::Field(FieldName::EditGroups)));
            },
        };
        let LogicType_value: u8 = match self.LogicType {
            Some(v) => v,
            None => {
                return Err(DecodeError::MissingSection(MissingElement::Field(FieldName::LogicType)));
            },
        };
        let GfxTexture_value: String = match self.GfxTexture {
            Some(v) => v,
            None => {
                return Err(DecodeError::MissingSection(MissingElement::Field(FieldName::GfxTexture)));
            },
        };
        let GfxCoordsA_value: Vec<u8> = match self.GfxCoordsA {
            Some(v) => v,
            None => {
                return Err(DecodeError::MissingSection(MissingElement::Field(FieldName::GfxCoordsA)));
            },
        };
        let GfxCoordsB_value: Vec<u8> = match self.GfxCoordsB {
            Some(v) => v,
            None => {
                return Err(DecodeError::MissingSection(MissingElement::Field(FieldName::GfxCoordsB)));
            },
        };
        Ok(
            GfxPattern {
                EditName: EditName_value,
                EditGroups: EditGroups_value,
                LogicType: LogicType_value,
                GfxTexture: GfxTexture_value,
                GfxCoordsA: GfxCoordsA_value,
                GfxCoordsB: GfxCoordsB_value,
            },
        )
    }
}

/// Builds a pattern record from the items of a section.
#[allow(non_snake_case)]
pub fn parse_GfxPattern(items: Vec<Item>) -> (r: Result<GfxPattern, DecodeError>)
    ensures
        match pattern_of(items_view(items@)) {
            Ok(record) => r is Ok && r.unwrap()@ == record,
            Err(e) => r == Err::<GfxPattern, DecodeError>(e),
        },
{
    let mut builder: GfxPatternBuilder = GfxPatternBuilder::new();
    let ghost target = pattern_fold(empty_pattern(), items_view(items@), 0);
    let mut i: usize = 0;
    while i < items.len()
        invariant
            i <= items@.len(),
            target == pattern_fold(empty_pattern(), items_view(items@), 0),
            pattern_fold(builder@, items_view(items@), i as int) == target,
        decreases items@.len() - i,
    {
        builder.apply(&items[i])?;
        i = i + 1;
    }
    builder.build()
}

} // verus!
