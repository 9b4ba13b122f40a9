//! The text record: texts by their numbers.
//!
//! An item `stringn` gives a number and a text. An item `string` gives a
//! text only, and takes the number after the one that the item before it
//! had; the first number is 1. The first text that is given for a number is
//! kept.

use vstd::prelude::*;
use std::collections::HashMap;
use crate::cif::definitions::Text;
use crate::cif::definitions::TextView;
use crate::cif::definitions::merged_first;
use crate::cif::definitions::text_map_of;
use crate::cif::fields::FieldName;
use crate::cif::fields::field_of;
use crate::cif::fields::field_of_key;
use crate::cif::section::Item;
use crate::cif::section::ItemView;
use crate::cif::section::items_view;
use crate::cif::value::numbered_text_value;
use crate::cif::value::parse_numbered_text;
use crate::cif::value::parse_text;
use crate::cif::value::text_value;
use crate::cif::value::malformed_value;
use crate::error::DecodeError;
use crate::error::StructuralError;

verus! {

broadcast use vstd::std_specs::hash::group_hash_axioms;

/// A text record in the making: the texts so far, and the number that the
/// last item had.
#[derive(Debug)]
pub struct TextBuilder {
    pub strings: HashMap<u32, String>,
    pub last: u32,
}

/// The mathematical value of a `TextBuilder`.
pub struct TextBuilderView {
    pub strings: Map<u32, Seq<char>>,
    pub last: u32,
}

impl View for TextBuilder {
    type V = TextBuilderView;

    open spec fn view(&self) -> TextBuilderView {
        TextBuilderView { strings: text_map_of(self.strings@), last: self.last }
    }
}

/// The builder that holds no text yet.
pub open spec fn empty_texts() -> TextBuilderView {
    TextBuilderView { strings: Map::empty(), last: 0 }
}

/// The builder after one item. A `string` item after the number
/// `0xFFFF_FFFF` has no number to take, and is an error as a value is that
/// its field cannot take.
pub open spec fn texts_step(b: TextBuilderView, item: ItemView) -> Result<
    TextBuilderView,
    DecodeError,
> {
    match field_of_key(item.key) {
        Some(FieldName::StringN) => match numbered_text_value(item.value) {
            Some((id, text)) => Ok(
                TextBuilderView { strings: merged_first(b.strings, id, text), last: id },
            ),
            None => Err(malformed_value()),
        },
        Some(FieldName::String) => match text_value(item.value) {
            Some(text) => if b.last == 0xFFFF_FFFF {
                Err(malformed_value())
            } else {
                Ok(
                    TextBuilderView {
                        strings: merged_first(b.strings, (b.last + 1) as u32, text),
                        last: (b.last + 1) as u32,
                    },
                )
            },
            None => Err(malformed_value()),
        },
        _ => Ok(b),
    }
}

/// The builder after the items from place `i` on. The first item that fails
/// ends the building.
pub open spec fn texts_fold(b: TextBuilderView, items: Seq<ItemView>, i: int) -> Result<
    TextBuilderView,
    DecodeError,
>
    decreases items.len() - i,
{
    if i < 0 || i >= items.len() {
        Ok(b)
    } else {
        match texts_step(b, items[i]) {
            Err(e) => Err(e),
            Ok(next) => texts_fold(next, items, i + 1),
        }
    }
}

/// The text record that the items of a section make.
pub open spec fn texts_record_of(items: Seq<ItemView>) -> Result<TextView, DecodeError> {
    match texts_fold(empty_texts(), items, 0) {
        Err(e) => Err(e),
        Ok(b) => Ok(TextView { strings: b.strings }),
    }
}

impl TextBuilder {
    /// The builder that holds no text yet.
    pub fn new() -> (builder: TextBuilder)
        ensures
            builder@ == empty_texts(),
    {
        let builder = TextBuilder { strings: HashMap::new(), last: 0 };
        assert(text_map_of(builder.strings@) =~= Map::<u32, Seq<char>>::empty());
        builder
    }

    /// Keeps a text under a number, unless the number has a text already.
    fn merge(&mut self, id: u32, text: String)
        ensures
            final(self)@ == (TextBuilderView {
                strings: merged_first(old(self)@.strings, id, text@),
                last: id,
            }),
    {
        let ghost before = text_map_of(self.strings@);
        if !self.strings.contains_key(&id) {
            self.strings.insert(id, text);
            assert(text_map_of(self.strings@) =~= before.insert(id, text@));
        }
        self.last = id;
    }

    /// Takes the text of an item. An item that fails changes nothing.
    pub fn apply(&mut self, item: &Item) -> (r: Result<(), DecodeError>)
        ensures
            match texts_step(old(self)@, item@) {
                Ok(next) => r is Ok && final(self)@ == next,
                Err(e) => r == Err::<(), DecodeError>(e) && final(self)@ == old(self)@,
            },
    {
        let value: &str = item.value.as_str();
        match field_of(item.key.as_str()) {
            Some(FieldName::StringN) => match parse_numbered_text(value) {
                Some((id, text)) => {
                    self.merge(id, text);
                    Ok(())
                },
                None => Err(DecodeError::Malformed(StructuralError::MalformedValue)),
            },
            Some(FieldName::String) => match parse_text(value) {
                Some(text) => {
                    if self.last == 0xFFFF_FFFF {
                        return Err(DecodeError::Malformed(StructuralError::MalformedValue));
                    }
                    let id: u32 = self.last + 1;
                    self.merge(id, text);
                    Ok(())
                },
                None => Err(DecodeError::Malformed(StructuralError::MalformedValue)),
            },
            _ => Ok(()),
        }
    }
}

/// Builds a text record from the items of a section.
#[allow(non_snake_case)]
pub fn parse_Text(items: Vec<Item>) -> (r: Result<Text, DecodeError>)
    ensures
        match texts_record_of(items_view(items@)) {
            Ok(record) => r is Ok && r.unwrap()@ == record,
            Err(e) => r == Err::<Text, DecodeError>(e),
        },
{
    let mut builder: TextBuilder = TextBuilder::new();
    let ghost target = texts_fold(empty_texts(), items_view(items@), 0);
    let mut i: usize = 0;
    while i < items.len()
        invariant
            i <= items@.len(),
            target == texts_fold(empty_texts(), items_view(items@), 0),
            texts_fold(builder@, items_view(items@), i as int) == target,
        decreases items@.len() - i,
    {
        builder.apply(&items[i])?;
        i = i + 1;
    }
    Ok(Text { strings: builder.strings })
}

} // verus!
