//! The transition record.
//!
//! Its four texts are required. Every item with corners adds one list to
//! the lists of its kind, in the order of the items.

use vstd::prelude::*;
use crate::cif::definitions::Transition;
use crate::cif::definitions::TransitionView;
use crate::cif::definitions::lists_of;
use crate::cif::fields::FieldName;
use crate::cif::fields::field_of;
use crate::cif::fields::field_of_key;
use crate::cif::fields::missing_field;
use crate::cif::section::Item;
use crate::cif::section::ItemView;
use crate::cif::section::items_view;
use crate::cif::value::bytes_value;
use crate::cif::value::parse_text;
use crate::cif::value::split_string_to_ints;
use crate::cif::value::text_value;
use crate::cif::value::malformed_value;
use crate::error::DecodeError;
use crate::error::MissingElement;
use crate::error::StructuralError;

verus! {

/// A transition record in the making.
#[allow(non_snake_case)]
#[derive(Debug)]
pub struct TransitionBuilder {
    pub name: Option<String>,
    pub pointtype: Option<String>,
    pub GfxTexture: Option<String>,
    pub GfxTextureAlpha: Option<String>,
    pub GfxCoordsA: Vec<Vec<u8>>,
    pub GfxCoordsB: Vec<Vec<u8>>,
}

/// The mathematical value of a `TransitionBuilder`.
#[allow(non_snake_case)]
pub struct TransitionBuilderView {
    pub name: Option<Seq<char>>,
    pub pointtype: Option<Seq<char>>,
    pub GfxTexture: Option<Seq<char>>,
    pub GfxTextureAlpha: Option<Seq<char>>,
    pub GfxCoordsA: Seq<Seq<u8>>,
    pub GfxCoordsB: Seq<Seq<u8>>,
}

impl View for TransitionBuilder {
    type V = TransitionBuilderView;

    open spec fn view(&self) -> TransitionBuilderView {
        TransitionBuilderView {
            name: match self.name {
                Some(v) => Some(v@),
                None => None,
            },
            pointtype: match self.pointtype {
                Some(v) => Some(v@),
                None => None,
            },
            GfxTexture: match self.GfxTexture {
                Some(v) => Some(v@),
                None => None,
            },
            GfxTextureAlpha: match self.GfxTextureAlpha {
                Some(v) => Some(v@),
                None => None,
            },
            GfxCoordsA: lists_of(self.GfxCoordsA@),
            GfxCoordsB: lists_of(self.GfxCoordsB@),
        }
    }
}

/// The builder in which no field is set.
pub open spec fn empty_transition() -> TransitionBuilderView {
    TransitionBuilderView {
        name: None,
        pointtype: None,
        GfxTexture: None,
        GfxTextureAlpha: None,
        GfxCoordsA: Seq::empty(),
        GfxCoordsB: Seq::empty(),
    }
}

/// The builder after one item. An item whose key names no field of the
/// record changes nothing; a value that its field cannot take is an error.
pub open spec fn transition_step(b: TransitionBuilderView, item: ItemView) -> Result<
    TransitionBuilderView,
    DecodeError,
> {
    match field_of_key(item.key) {
        Some(FieldName::Name) => match text_value(item.value) {
            Some(v) => Ok(TransitionBuilderView { name: Some(v), ..b }),
            None => Err(malformed_value()),
        },
        Some(FieldName::PointType) => match text_value(item.value) {
            Some(v) => Ok(TransitionBuilderView { pointtype: Some(v), ..b }),
            None => Err(malformed_value()),
        },
        Some(FieldName::GfxTexture) => match text_value(item.value) {
            Some(v) => Ok(TransitionBuilderView { GfxTexture: Some(v), ..b }),
            None => Err(malformed_value()),
        },
        Some(FieldName::GfxTextureAlpha) => match text_value(item.value) {
            Some(v) => Ok(TransitionBuilderView { GfxTextureAlpha: Some(v), ..b }),
            None => Err(malformed_value()),
        },
        Some(FieldName::GfxCoordsA) => match bytes_value(item.value) {
            Some(v) => Ok(TransitionBuilderView { GfxCoordsA: b.GfxCoordsA.push(v), ..b }),
            None => Err(malformed_value()),
        },
        Some(FieldName::GfxCoordsB) => match bytes_value(item.value) {
            Some(v) => Ok(TransitionBuilderView { GfxCoordsB: b.GfxCoordsB.push(v), ..b }),
            None => Err(malformed_value()),
        },
        _ => Ok(b),
    }
}

/// The builder after the items from place `i` on. The first item that fails
/// ends the building.
pub open spec fn transition_fold(b: TransitionBuilderView, items: Seq<ItemView>, i: int) -> Result<
    TransitionBuilderView,
    DecodeError,
>
    decreases items.len() - i,
{
    if i < 0 || i >= items.len() {
        Ok(b)
    } else {
        match transition_step(b, items[i]) {
            Err(e) => Err(e),
            Ok(next) => transition_fold(next, items, i + 1),
        }
    }
}

/// The first required field, in the order of the record, that is not set.
pub open spec fn transition_unset(b: TransitionBuilderView) -> Option<FieldName> {
    if b.name is None {
        Some(FieldName::Name)
    } else if b.pointtype is None {
        Some(FieldName::PointType)
    } else if b.GfxTexture is None {
        Some(FieldName::GfxTexture)
    } else if b.GfxTextureAlpha is None {
        Some(FieldName::GfxTextureAlpha)
    } else {
        None
    }
}

/// The record that a builder makes, or the first required field that it
/// lacks.
pub open spec fn transition_built(b: TransitionBuilderView) -> Result<TransitionView, DecodeError> {
    match transition_unset(b) {
        Some(field) => Err(missing_field(field)),
        None => Ok(
            TransitionView {
                name: b.name.unwrap(),
                pointtype: b.pointtype.unwrap(),
                GfxTexture: b.GfxTexture.unwrap(),
                GfxTextureAlpha: b.GfxTextureAlpha.unwrap(),
                GfxCoordsA: b.GfxCoordsA,
                GfxCoordsB: b.GfxCoordsB,
            },
        ),
    }
}

/// The record that the items of a section make.
pub open spec fn transition_of(items: Seq<ItemView>) -> Result<TransitionView, DecodeError> {
    match transition_fold(empty_transition(), items, 0) {
        Err(e) => Err(e),
        Ok(b) => transition_built(b),
    }
}

impl TransitionBuilder {
    /// The builder in which no field is set.
    pub fn new() -> (builder: TransitionBuilder)
        ensures
            builder@ == empty_transition(),
    {
        let builder = TransitionBuilder {
            name: None,
            pointtype: None,
            GfxTexture: None,
            GfxTextureAlpha: None,
            GfxCoordsA: Vec::new(),
            GfxCoordsB: Vec::new(),
        };
        assert(lists_of(builder.GfxCoordsA@) =~= Seq::<Seq<u8>>::empty());
        assert(lists_of(builder.GfxCoordsB@) =~= Seq::<Seq<u8>>::empty());
        builder
    }

    /// Sets the field that an item names from the item's value. An item that
    /// fails changes nothing.
    pub fn apply(&mut self, item: &Item) -> (r: Result<(), DecodeError>)
        ensures
            match transition_step(old(self)@, item@) {
                Ok(next) => r is Ok && final(self)@ == next,
                Err(e) => r == Err::<(), DecodeError>(e) && final(self)@ == old(self)@,
            },
    {
        let value: &str = item.value.as_str();
        match field_of(item.key.as_str()) {
            Some(FieldName::Name) => match parse_text(value) {
                Some(v) => {
                    self.name = Some(v);
                    Ok(())
                },
                None => Err(DecodeError::Malformed(StructuralError::MalformedValue)),
            },
            Some(FieldName::PointType) => match parse_text(value) {
                Some(v) => {
                    self.pointtype = Some(v);
                    Ok(())
                },
                None => Err(DecodeError::Malformed(StructuralError::MalformedValue)),
            },
            Some(FieldName::GfxTexture) => match parse_text(value) {
                Some(v) => {
                    self.GfxTexture = Some(v);
                    Ok(())
                },
                None => Err(DecodeError::Malformed(StructuralError::MalformedValue)),
            },
            Some(FieldName::GfxTextureAlpha) => match parse_text(value) {
                Some(v) => {
                    self.GfxTextureAlpha = Some(v);
                    Ok(())
                },
                None => Err(DecodeError::Malformed(StructuralError::MalformedValue)),
            },
            Some(FieldName::GfxCoordsA) => match split_string_to_ints(value) {
                Some(v) => {
                    let ghost before = lists_of(self.GfxCoordsA@);
                    self.GfxCoordsA.push(v);
                    assert(lists_of(self.GfxCoordsA@) =~= before.push(v@));
                    Ok(())
                },
                None => Err(DecodeError::Malformed(StructuralError::MalformedValue)),
            },
            Some(FieldName::GfxCoordsB) => match split_string_to_ints(value) {
                Some(v) => {
                    let ghost before = lists_of(self.GfxCoordsB@);
                    self.GfxCoordsB.push(v);
                    assert(lists_of(self.GfxCoordsB@) =~= before.push(v@));
                    Ok(())
                },
                None => Err(DecodeError::Malformed(StructuralError::MalformedValue)),
            },
            _ => Ok(()),
        }
    }

    /// Makes the record, or names the first required field that is not set.
    pub fn build(self) -> (r: Result<Transition, DecodeError>)
        ensures
            match transition_built(self@) {
                Ok(record) => r is Ok && r.unwrap()@ == record,
                Err(e) => r == Err::<Transition, DecodeError>(e),
            },
    {
        let name_value: String = match self.name {
            Some(v) => v,
            None => {
                return Err(DecodeError::MissingSection(MissingElement::Field(FieldName::Name)));
            },
        };
        let pointtype_value: String = match self.pointtype {
            Some(v) => v,
            None => {
                return Err(DecodeError::MissingSection(MissingElement::Field(FieldName::PointType)));
            },
        };
        let GfxTexture_value: String = match self.GfxTexture {
            Some(v) => v,
            None => {
                return Err(DecodeError::MissingSection(MissingElement::Field(FieldName::GfxTexture)));
            },
        };
        let GfxTextureAlpha_value: String = match self.GfxTextureAlpha {
            Some(v) => v,
            None => {
                return Err(DecodeError::MissingSection(MissingElement::Field(FieldName::GfxTextureAlpha)));
            },
        };
        Ok(
            Transition {
                name: name_value,
                pointtype: pointtype_value,
                GfxTexture: GfxTexture_value,
                GfxTextureAlpha: GfxTextureAlpha_value,
                GfxCoordsA: self.GfxCoordsA,
                GfxCoordsB: self.GfxCoordsB,
            },
        )
    }
}

/// Builds a transition record from the items of a section.
#[allow(non_snake_case)]
pub fn parse_Transition(items: Vec<Item>) -> (r: Result<Transition, DecodeError>)
    ensures
        match transition_of(items_view(items@)) {
            Ok(record) => r is Ok && r.unwrap()@ == record,
            Err(e) => r == Err::<Transition, DecodeError>(e),
        },
{
    let mut builder: TransitionBuilder = TransitionBuilder::new();
    let ghost target = transition_fold(empty_transition(), items_view(items@), 0);
    let mut i: usize = 0;
    while i < items.len()
        invariant
            i <= items@.len(),
            target == transition_fold(empty_transition(), items_view(items@), 0),
            transition_fold(builder@, items_view(items@), i as int) == target,
        decreases items@.len() - i,
    {
        builder.apply(&items[i])?;
        i = i + 1;
    }
    builder.build()
}

} // verus!
