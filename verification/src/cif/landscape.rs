//! The landscape record: how its fields are filled from the items of a
//! section, and what a finished record must hold.
//!
//! The items are gone through in order. An item whose key names a field of
//! the record sets that field from its value; a later item for the same
//! field takes the place of an earlier one. The two numbered fields gather
//! one entry from each item, and keep the first entry for a number. An item
//! with another key is passed over. Once the items are through, every field
//! must be set.

use vstd::prelude::*;
use std::collections::HashMap;
use crate::cif::definitions::GfxBobLibs;
use crate::cif::definitions::GfxBobLibsView;
use crate::cif::definitions::GfxLandscape;
use crate::cif::definitions::GfxLandscapeView;
use crate::cif::definitions::list_map_of;
use crate::cif::definitions::merged_first;
use crate::cif::definitions::text_map_of;
use crate::cif::fields::FieldName;
use crate::cif::fields::field_of;
use crate::cif::fields::field_of_key;
use crate::cif::fields::missing_field;
use crate::cif::section::Item;
use crate::cif::section::ItemView;
use crate::cif::section::items_view;
use crate::cif::value::byte_value;
use crate::cif::value::coords_value;
use crate::cif::value::decimal_value;
use crate::cif::value::flag_value;
use crate::cif::value::keyed_bytes_value;
use crate::cif::value::keyed_text_value;
use crate::cif::value::malformed_value;
use crate::cif::value::parse_byte;
use crate::cif::value::parse_coords;
use crate::cif::value::parse_decimal;
use crate::cif::value::parse_flag;
use crate::cif::value::parse_keyed_text;
use crate::cif::value::parse_text;
use crate::cif::value::parse_texts;
use crate::cif::value::split_string_to_ints;
use crate::cif::value::text_value;
use crate::cif::value::texts_value;
use crate::codec::texts_of;
use crate::error::DecodeError;
use crate::error::MissingElement;
use crate::error::StructuralError;

verus! {

broadcast use vstd::std_specs::hash::group_hash_axioms;

/// A landscape record in the making: every field is set or not yet.
#[allow(non_snake_case)]
#[derive(Debug)]
pub struct GfxLandscapeBuilder {
    pub EditName: Option<String>,
    pub EditGroups: Option<String>,
    pub LogicType: Option<u8>,
    pub LogicMaximumValency: Option<u8>,
    pub LogicIsWorkable: Option<bool>,
    pub logicispileableonmap: Option<bool>,
    pub LogicWalkBlockArea: Option<((i8, i8), (i8, i8))>,
    pub LogicBuildBlockArea: Option<((i8, i8), (i8, i8))>,
    pub LogicWorkArea: Option<((i8, i8), (i8, i8))>,
    pub GfxBobLibs: Option<GfxBobLibs>,
    pub GfxPalette: Option<Vec<String>>,
    pub GfxFrames: Option<HashMap<u8, Vec<u8>>>,
    pub GfxStatic: Option<bool>,
    pub GfxLoopAnimation: Option<bool>,
    pub GfxShadingFactor: Option<String>,
    pub GfxUserFXMatrix: Option<u8>,
    pub GfxDynamicBackground: Option<bool>,
    pub gfxdrawvoidever: Option<bool>,
    pub GfxTransition: Option<HashMap<u8, String>>,
}

/// The mathematical value of a `GfxLandscapeBuilder`.
#[allow(non_snake_case)]
pub struct GfxLandscapeBuilderView {
    pub EditName: Option<Seq<char>>,
    pub EditGroups: Option<Seq<char>>,
    pub LogicType: Option<u8>,
    pub LogicMaximumValency: Option<u8>,
    pub LogicIsWorkable: Option<bool>,
    pub logicispileableonmap: Option<bool>,
    pub LogicWalkBlockArea: Option<((i8, i8), (i8, i8))>,
    pub LogicBuildBlockArea: Option<((i8, i8), (i8, i8))>,
    pub LogicWorkArea: Option<((i8, i8), (i8, i8))>,
    pub GfxBobLibs: Option<GfxBobLibsView>,
    pub GfxPalette: Option<Seq<Seq<char>>>,
    pub GfxFrames: Option<Map<u8, Seq<u8>>>,
    pub GfxStatic: Option<bool>,
    pub GfxLoopAnimation: Option<bool>,
    pub GfxShadingFactor: Option<Seq<char>>,
    pub GfxUserFXMatrix: Option<u8>,
    pub GfxDynamicBackground: Option<bool>,
    pub gfxdrawvoidever: Option<bool>,
    pub GfxTransition: Option<Map<u8, Seq<char>>>,
}

impl View for GfxLandscapeBuilder {
    type V = GfxLandscapeBuilderView;

    open spec fn view(&self) -> GfxLandscapeBuilderView {
        GfxLandscapeBuilderView {
            EditName: match self.EditName {
                Some(v) => Some(v@),
                None => None,
            },
            EditGroups: match self.EditGroups {
                Some(v) => Some(v@),
                None => None,
            },
            LogicType: self.LogicType,
            LogicMaximumValency: self.LogicMaximumValency,
            LogicIsWorkable: self.LogicIsWorkable,
            logicispileableonmap: self.logicispileableonmap,
            LogicWalkBlockArea: self.LogicWalkBlockArea,
            LogicBuildBlockArea: self.LogicBuildBlockArea,
            LogicWorkArea: self.LogicWorkArea,
            GfxBobLibs: match self.GfxBobLibs {
                Some(v) => Some(v@),
                None => None,
            },
            GfxPalette: match self.GfxPalette {
                Some(v) => Some(texts_of(v@)),
                None => None,
            },
            GfxFrames: match self.GfxFrames {
                Some(v) => Some(list_map_of(v@)),
                None => None,
            },
            GfxStatic: self.GfxStatic,
            GfxLoopAnimation: self.GfxLoopAnimation,
            GfxShadingFactor: match self.GfxShadingFactor {
                Some(v) => Some(v@),
                None => None,
            },
            GfxUserFXMatrix: self.GfxUserFXMatrix,
            GfxDynamicBackground: self.GfxDynamicBackground,
            gfxdrawvoidever: self.gfxdrawvoidever,
            GfxTransition: match self.GfxTransition {
                Some(v) => Some(text_map_of(v@)),
                None => None,
            },
        }
    }
}

/// The builder in which no field is set.
pub open spec fn empty_builder() -> GfxLandscapeBuilderView {
    GfxLandscapeBuilderView {
        EditName: None,
        EditGroups: None,
        LogicType: None,
        LogicMaximumValency: None,
        LogicIsWorkable: None,
        logicispileableonmap: None,
        LogicWalkBlockArea: None,
        LogicBuildBlockArea: None,
        LogicWorkArea: None,
        GfxBobLibs: None,
        GfxPalette: None,
        GfxFrames: None,
        GfxStatic: None,
        GfxLoopAnimation: None,
        GfxShadingFactor: None,
        GfxUserFXMatrix: None,
        GfxDynamicBackground: None,
        gfxdrawvoidever: None,
        GfxTransition: None,
    }
}

/// The sprite containers that a value names: one quoted string, or two.
pub open spec fn bob_libs_value(s: Seq<char>) -> Option<GfxBobLibsView> {
    match texts_value(s) {
        Some(t) => if t.len() == 1 {
            Some(GfxBobLibsView { bmd: t[0], shadow: None })
        } else if t.len() == 2 {
            Some(GfxBobLibsView { bmd: t[0], shadow: Some(t[1]) })
        } else {
            None
        },
        None => None,
    }
}

/// The map that a numbered field holds so far; empty where it is not set.
pub open spec fn gathered<V>(field: Option<Map<u8, V>>) -> Map<u8, V> {
    match field {
        Some(m) => m,
        None => Map::empty(),
    }
}

/// The builder after one item: the field that the item's key names is set
/// from the item's value. An item whose key names no field of the record
/// changes nothing; a value that its field cannot take is an error.
pub open spec fn landscape_step(b: GfxLandscapeBuilderView, item: ItemView) -> Result<
    GfxLandscapeBuilderView,
    DecodeError,
> {
    match field_of_key(item.key) {
        Some(FieldName::EditName) => match text_value(item.value) {
            Some(v) => Ok(GfxLandscapeBuilderView { EditName: Some(v), ..b }),
            None => Err(malformed_value()),
        },
        Some(FieldName::EditGroups) => match text_value(item.value) {
            Some(v) => Ok(GfxLandscapeBuilderView { EditGroups: Some(v), ..b }),
            None => Err(malformed_value()),
        },
        Some(FieldName::LogicType) => match byte_value(item.value) {
            Some(v) => Ok(GfxLandscapeBuilderView { LogicType: Some(v), ..b }),
            None => Err(malformed_value()),
        },
        Some(FieldName::LogicMaximumValency) => match byte_value(item.value) {
            Some(v) => Ok(GfxLandscapeBuilderView { LogicMaximumValency: Some(v), ..b }),
            None => Err(malformed_value()),
        },
        Some(FieldName::LogicIsWorkable) => match flag_value(item.value) {
            Some(v) => Ok(GfxLandscapeBuilderView { LogicIsWorkable: Some(v), ..b }),
            None => Err(malformed_value()),
        },
        Some(FieldName::LogicIsPileableOnMap) => match flag_value(item.value) {
            Some(v) => Ok(GfxLandscapeBuilderView { logicispileableonmap: Some(v), ..b }),
            None => Err(malformed_value()),
        },
        Some(FieldName::LogicWalkBlockArea) => match coords_value(item.value) {
            Some(v) => Ok(GfxLandscapeBuilderView { LogicWalkBlockArea: Some(v), ..b }),
            None => Err(malformed_value()),
        },
        Some(FieldName::LogicBuildBlockArea) => match coords_value(item.value) {
            Some(v) => Ok(GfxLandscapeBuilderView { LogicBuildBlockArea: Some(v), ..b }),
            None => Err(malformed_value()),
        },
        Some(FieldName::LogicWorkArea) => match coords_value(item.value) {
            Some(v) => Ok(GfxLandscapeBuilderView { LogicWorkArea: Some(v), ..b }),
            None => Err(malformed_value()),
        },
        Some(FieldName::GfxBobLibs) => match bob_libs_value(item.value) {
            Some(v) => Ok(GfxLandscapeBuilderView { GfxBobLibs: Some(v), ..b }),
            None => Err(malformed_value()),
        },
        Some(FieldName::GfxPalette) => match texts_value(item.value) {
            Some(v) => Ok(GfxLandscapeBuilderView { GfxPalette: Some(v), ..b }),
            None => Err(malformed_value()),
        },
        Some(FieldName::GfxFrames) => match keyed_bytes_value(item.value) {
            Some((id, list)) => Ok(
                GfxLandscapeBuilderView { GfxFrames: Some(merged_first(gathered(b.GfxFrames), id, list)), ..b },
            ),
            None => Err(malformed_value()),
        },
        Some(FieldName::GfxStatic) => match flag_value(item.value) {
            Some(v) => Ok(GfxLandscapeBuilderView { GfxStatic: Some(v), ..b }),
            None => Err(malformed_value()),
        },
        Some(FieldName::GfxLoopAnimation) => match flag_value(item.value) {
            Some(v) => Ok(GfxLandscapeBuilderView { GfxLoopAnimation: Some(v), ..b }),
            None => Err(malformed_value()),
        },
        Some(FieldName::GfxShadingFactor) => match decimal_value(item.value) {
            Some(v) => Ok(GfxLandscapeBuilderView { GfxShadingFactor: Some(v), ..b }),
            None => Err(malformed_value()),
        },
        Some(FieldName::GfxUserFXMatrix) => match byte_value(item.value) {
            Some(v) => Ok(GfxLandscapeBuilderView { GfxUserFXMatrix: Some(v), ..b }),
            None => Err(malformed_value()),
        },
        Some(FieldName::GfxDynamicBackground) => match flag_value(item.value) {
            Some(v) => Ok(GfxLandscapeBuilderView { GfxDynamicBackground: Some(v), ..b }),
            None => Err(malformed_value()),
        },
        Some(FieldName::GfxDrawVoidEver) => match flag_value(item.value) {
            Some(v) => Ok(GfxLandscapeBuilderView { gfxdrawvoidever: Some(v), ..b }),
            None => Err(malformed_value()),
        },
        Some(FieldName::GfxTransition) => match keyed_text_value(item.value) {
            Some((id, text)) => Ok(
                GfxLandscapeBuilderView { GfxTransition: Some(merged_first(gathered(b.GfxTransition), id, text)), ..b },
            ),
            None => Err(malformed_value()),
        },
        _ => Ok(b),
    }
}

/// The builder after the items from place `i` on. The first item that fails
/// ends the building.
pub open spec fn landscape_fold(b: GfxLandscapeBuilderView, items: Seq<ItemView>, i: int) -> Result<
    GfxLandscapeBuilderView,
    DecodeError,
>
    decreases items.len() - i,
{
    if i < 0 || i >= items.len() {
        Ok(b)
    } else {
        match landscape_step(b, items[i]) {
            Err(e) => Err(e),
            Ok(next) => landscape_fold(next, items, i + 1),
        }
    }
}

/// The first field, in the order of the record, that is not set.
pub open spec fn first_unset(b: GfxLandscapeBuilderView) -> Option<FieldName> {
    if b.EditName is None {
        Some(FieldName::EditName)
    } else if b.EditGroups is None {
        Some(FieldName::EditGroups)
    } else if b.LogicType is None {
        Some(FieldName::LogicType)
    } else if b.LogicMaximumValency is None {
        Some(FieldName::LogicMaximumValency)
    } else if b.LogicIsWorkable is None {
        Some(FieldName::LogicIsWorkable)
    } else if b.logicispileableonmap is None {
        Some(FieldName::LogicIsPileableOnMap)
    } else if b.LogicWalkBlockArea is None {
        Some(FieldName::LogicWalkBlockArea)
    } else if b.LogicBuildBlockArea is None {
        Some(FieldName::LogicBuildBlockArea)
    } else if b.LogicWorkArea is None {
        Some(FieldName::LogicWorkArea)
    } else if b.GfxBobLibs is None {
        Some(FieldName::GfxBobLibs)
    } else if b.GfxPalette is None {
        Some(FieldName::GfxPalette)
    } else if b.GfxFrames is None {
        Some(FieldName::GfxFrames)
    } else if b.GfxStatic is None {
        Some(FieldName::GfxStatic)
    } else if b.GfxLoopAnimation is None {
        Some(FieldName::GfxLoopAnimation)
    } else if b.GfxShadingFactor is None {
        Some(FieldName::GfxShadingFactor)
    } else if b.GfxUserFXMatrix is None {
        Some(FieldName::GfxUserFXMatrix)
    } else if b.GfxDynamicBackground is None {
        Some(FieldName::GfxDynamicBackground)
    } else if b.gfxdrawvoidever is None {
        Some(FieldName::GfxDrawVoidEver)
    } else if b.GfxTransition is None {
        Some(FieldName::GfxTransition)
    } else {
        None
    }
}

/// The record that a builder makes, or the first field that it lacks.
pub open spec fn landscape_built(b: GfxLandscapeBuilderView) -> Result<
    GfxLandscapeView,
    DecodeError,
> {
    match first_unset(b) {
        Some(field) => Err(missing_field(field)),
        None => Ok(
            GfxLandscapeView {
                EditName: b.EditName.unwrap(),
                EditGroups: b.EditGroups.unwrap(),
                LogicType: b.LogicType.unwrap(),
                LogicMaximumValency: b.LogicMaximumValency.unwrap(),
                LogicIsWorkable: b.LogicIsWorkable.unwrap(),
                logicispileableonmap: b.logicispileableonmap.unwrap(),
                LogicWalkBlockArea: b.LogicWalkBlockArea.unwrap(),
                LogicBuildBlockArea: b.LogicBuildBlockArea.unwrap(),
                LogicWorkArea: b.LogicWorkArea.unwrap(),
                GfxBobLibs: b.GfxBobLibs.unwrap(),
                GfxPalette: b.GfxPalette,
                GfxFrames: b.GfxFrames.unwrap(),
                GfxStatic: b.GfxStatic.unwrap(),
                GfxLoopAnimation: b.GfxLoopAnimation.unwrap(),
                GfxShadingFactor: b.GfxShadingFactor.unwrap(),
                GfxUserFXMatrix: b.GfxUserFXMatrix.unwrap(),
                GfxDynamicBackground: b.GfxDynamicBackground.unwrap(),
                gfxdrawvoidever: b.gfxdrawvoidever.unwrap(),
                GfxTransition: b.GfxTransition.unwrap(),
            },
        ),
    }
}

/// The landscape record that the items of a section make.
pub open spec fn landscape_of(items: Seq<ItemView>) -> Result<GfxLandscapeView, DecodeError> {
    match landscape_fold(empty_builder(), items, 0) {
        Err(e) => Err(e),
        Ok(b) => landscape_built(b),
    }
}

/// The number of fields of the record.
pub const LANDSCAPE_FIELD_COUNT: usize = 19;

/// The fields of the record, in their order.
pub open spec fn landscape_fields() -> Seq<FieldName> {
    seq![
        FieldName::EditName,
        FieldName::EditGroups,
        FieldName::LogicType,
        FieldName::LogicMaximumValency,
        FieldName::LogicIsWorkable,
        FieldName::LogicIsPileableOnMap,
        FieldName::LogicWalkBlockArea,
        FieldName::LogicBuildBlockArea,
        FieldName::LogicWorkArea,
        FieldName::GfxBobLibs,
        FieldName::GfxPalette,
        FieldName::GfxFrames,
        FieldName::GfxStatic,
        FieldName::GfxLoopAnimation,
        FieldName::GfxShadingFactor,
        FieldName::GfxUserFXMatrix,
        FieldName::GfxDynamicBackground,
        FieldName::GfxDrawVoidEver,
        FieldName::GfxTransition,
    ]
}

/// Whether a field of the record is set. A field of another record never
/// is.
pub open spec fn is_set(b: GfxLandscapeBuilderView, field: FieldName) -> bool {
    match field {
        FieldName::EditName => b.EditName is Some,
        FieldName::EditGroups => b.EditGroups is Some,
        FieldName::LogicType => b.LogicType is Some,
        FieldName::LogicMaximumValency => b.LogicMaximumValency is Some,
        FieldName::LogicIsWorkable => b.LogicIsWorkable is Some,
        FieldName::LogicIsPileableOnMap => b.logicispileableonmap is Some,
        FieldName::LogicWalkBlockArea => b.LogicWalkBlockArea is Some,
        FieldName::LogicBuildBlockArea => b.LogicBuildBlockArea is Some,
        FieldName::LogicWorkArea => b.LogicWorkArea is Some,
        FieldName::GfxBobLibs => b.GfxBobLibs is Some,
        FieldName::GfxPalette => b.GfxPalette is Some,
        FieldName::GfxFrames => b.GfxFrames is Some,
        FieldName::GfxStatic => b.GfxStatic is Some,
        FieldName::GfxLoopAnimation => b.GfxLoopAnimation is Some,
        FieldName::GfxShadingFactor => b.GfxShadingFactor is Some,
        FieldName::GfxUserFXMatrix => b.GfxUserFXMatrix is Some,
        FieldName::GfxDynamicBackground => b.GfxDynamicBackground is Some,
        FieldName::GfxDrawVoidEver => b.gfxdrawvoidever is Some,
        FieldName::GfxTransition => b.GfxTransition is Some,
        _ => false,
    }
}

/// The fields from place `i` on that are not set, in the order of the
/// record.
pub open spec fn unset_from(b: GfxLandscapeBuilderView, i: int) -> Seq<FieldName>
    decreases landscape_fields().len() - i,
{
    if i < 0 || i >= landscape_fields().len() {
        Seq::empty()
    } else if is_set(b, landscape_fields()[i]) {
        unset_from(b, i + 1)
    } else {
        seq![landscape_fields()[i]] + unset_from(b, i + 1)
    }
}

/// Every field that a finished record must hold and the builder lacks.
pub open spec fn unset_fields(b: GfxLandscapeBuilderView) -> Seq<FieldName> {
    unset_from(b, 0)
}

/// The field that a failed build names is the first of those that are not
/// set, and a build succeeds exactly where none is left unset.
pub proof fn lemma_first_unset_is_first_of_all(b: GfxLandscapeBuilderView)
    ensures
        first_unset(b) is None <==> unset_fields(b).len() == 0,
        first_unset(b) matches Some(field) ==> unset_fields(b)[0] == field,
        landscape_built(b) is Ok <==> unset_fields(b).len() == 0,
{
    reveal_with_fuel(unset_from, 21);
}

/// Two items that give a transition for one number: the text of the first
/// is kept, unless a text was kept for that number before.
pub proof fn lemma_first_transition_wins(
    b: GfxLandscapeBuilderView,
    first: ItemView,
    second: ItemView,
    id: u8,
    kept: Seq<char>,
    dropped: Seq<char>,
)
    requires
        field_of_key(first.key) == Some(FieldName::GfxTransition),
        field_of_key(second.key) == Some(FieldName::GfxTransition),
        keyed_text_value(first.value) == Some((id, kept)),
        keyed_text_value(second.value) == Some((id, dropped)),
    ensures
        landscape_step(b, first) is Ok,
        landscape_step(landscape_step(b, first).unwrap(), second) is Ok,
        landscape_step(landscape_step(b, first).unwrap(), second) == landscape_step(b, first),
        !gathered(b.GfxTransition).contains_key(id) ==> landscape_step(
            landscape_step(b, first).unwrap(),
            second,
        ).unwrap().GfxTransition.unwrap()[id] == kept,
{
    let once = merged_first(gathered(b.GfxTransition), id, kept);
    assert(merged_first(once, id, dropped) == once);
}

/// Reads the sprite containers that a value names.
#[allow(non_snake_case)]
pub fn parse_GfxBobLibs(value: &str) -> (r: Option<GfxBobLibs>)
    ensures
        r is Some <==> bob_libs_value(value@) is Some,
        r matches Some(libs) ==> Some(libs@) == bob_libs_value(value@),
{
    let parts: Vec<String> = parse_texts(value)?;
    if parts.len() == 1 {
        Some(GfxBobLibs { bmd: parts[0].clone(), shadow: None })
    } else if parts.len() == 2 {
        Some(GfxBobLibs { bmd: parts[0].clone(), shadow: Some(parts[1].clone()) })
    } else {
        None
    }
}

/// Reads the names of the palettes that a value holds.
#[allow(non_snake_case)]
pub fn parse_GfxPalette(value: &str) -> (r: Option<Vec<String>>)
    ensures
        r is Some <==> texts_value(value@) is Some,
        r matches Some(names) ==> Some(texts_of(names@)) == texts_value(value@),
{
    parse_texts(value)
}

/// Reads the number of an animation and its frames.
#[allow(non_snake_case)]
pub fn parse_GfxFrames_parts(s: &str) -> (r: Option<(u8, Vec<u8>)>)
    ensures
        r is Some <==> keyed_bytes_value(s@) is Some,
        r matches Some(found) ==> Some((found.0, found.1@)) == keyed_bytes_value(s@),
{
    let parts: Vec<u8> = split_string_to_ints(s)?;
    let id: u8 = parts[0];
    let mut frames: Vec<u8> = Vec::new();
    let mut i: usize = 1;
    while i < parts.len()
        invariant
            1 <= i <= parts@.len(),
            frames@ == parts@.subrange(1, i as int),
        decreases parts@.len() - i,
    {
        frames.push(parts[i]);
        i = i + 1;
        assert(frames@ =~= parts@.subrange(1, i as int));
    }
    assert(frames@ =~= parts@.skip(1));
    Some((id, frames))
}

/// Gathers the frames of one animation: the first list that is given for a
/// number is kept.
#[allow(non_snake_case)]
pub fn parse_GfxFrames(builder: &mut GfxLandscapeBuilder, value: &str) -> (r: Result<
    (),
    DecodeError,
>)
    ensures
        match keyed_bytes_value(value@) {
            Some((id, list)) => r is Ok && final(builder)@ == (GfxLandscapeBuilderView {
                GfxFrames: Some(merged_first(gathered(old(builder)@.GfxFrames), id, list)),
                ..old(builder)@
            }),
            None => r == Err::<(), DecodeError>(malformed_value()) && final(builder)@ == old(
                builder,
            )@,
        },
{
    match parse_GfxFrames_parts(value) {
        None => Err(DecodeError::Malformed(StructuralError::MalformedValue)),
        Some((k, v)) => {
            let ghost before = gathered(builder@.GfxFrames);
            let mut existing: HashMap<u8, Vec<u8>> = match builder.GfxFrames.take() {
                Some(m) => m,
                None => HashMap::new(),
            };
            assert(list_map_of(existing@) =~= before);
            if !existing.contains_key(&k) {
                existing.insert(k, v);
                assert(list_map_of(existing@) =~= before.insert(k, v@));
            }
            builder.GfxFrames = Some(existing);
            Ok(())
        },
    }
}

/// Gathers one transition: the first text that is given for a number is
/// kept.
#[allow(non_snake_case)]
pub fn parse_GfxTransition(builder: &mut GfxLandscapeBuilder, value: &str) -> (r: Result<
    (),
    DecodeError,
>)
    ensures
        match keyed_text_value(value@) {
            Some((id, text)) => r is Ok && final(builder)@ == (GfxLandscapeBuilderView {
                GfxTransition: Some(merged_first(gathered(old(builder)@.GfxTransition), id, text)),
                ..old(builder)@
            }),
            None => r == Err::<(), DecodeError>(malformed_value()) && final(builder)@ == old(
                builder,
            )@,
        },
{
    match parse_keyed_text(value) {
        None => Err(DecodeError::Malformed(StructuralError::MalformedValue)),
        Some((k, v)) => {
            let ghost before = gathered(builder@.GfxTransition);
            let mut existing: HashMap<u8, String> = match builder.GfxTransition.take() {
                Some(m) => m,
                None => HashMap::new(),
            };
            assert(text_map_of(existing@) =~= before);
            if !existing.contains_key(&k) {
                existing.insert(k, v);
                assert(text_map_of(existing@) =~= before.insert(k, v@));
            }
            builder.GfxTransition = Some(existing);
            Ok(())
        },
    }
}

/// The field at a place of the record.
pub fn landscape_field(i: usize) -> (field: FieldName)
    requires
        i < LANDSCAPE_FIELD_COUNT,
    ensures
        field == landscape_fields()[i as int],
{
    if i == 0 {
        FieldName::EditName
    } else if i == 1 {
        FieldName::EditGroups
    } else if i == 2 {
        FieldName::LogicType
    } else if i == 3 {
        FieldName::LogicMaximumValency
    } else if i == 4 {
        FieldName::LogicIsWorkable
    } else if i == 5 {
        FieldName::LogicIsPileableOnMap
    } else if i == 6 {
        FieldName::LogicWalkBlockArea
    } else if i == 7 {
        FieldName::LogicBuildBlockArea
    } else if i == 8 {
        FieldName::LogicWorkArea
    } else if i == 9 {
        FieldName::GfxBobLibs
    } else if i == 10 {
        FieldName::GfxPalette
    } else if i == 11 {
        FieldName::GfxFrames
    } else if i == 12 {
        FieldName::GfxStatic
    } else if i == 13 {
        FieldName::GfxLoopAnimation
    } else if i == 14 {
        FieldName::GfxShadingFactor
    } else if i == 15 {
        FieldName::GfxUserFXMatrix
    } else if i == 16 {
        FieldName::GfxDynamicBackground
    } else if i == 17 {
        FieldName::GfxDrawVoidEver
    } else {
        FieldName::GfxTransition
    }
}

impl GfxLandscapeBuilder {
    /// The builder in which no field is set.
    pub fn new() -> (builder: GfxLandscapeBuilder)
        ensures
            builder@ == empty_builder(),
    {
        GfxLandscapeBuilder {
            EditName: None,
            EditGroups: None,
            LogicType: None,
            LogicMaximumValency: None,
            LogicIsWorkable: None,
            logicispileableonmap: None,
            LogicWalkBlockArea: None,
            LogicBuildBlockArea: None,
            LogicWorkArea: None,
            GfxBobLibs: None,
            GfxPalette: None,
            GfxFrames: None,
            GfxStatic: None,
            GfxLoopAnimation: None,
            GfxShadingFactor: None,
            GfxUserFXMatrix: None,
            GfxDynamicBackground: None,
            gfxdrawvoidever: None,
            GfxTransition: None,
        }
    }

    /// Sets the field that an item names from the item's value. An item that
    /// fails changes nothing.
    pub fn apply(&mut self, item: &Item) -> (r: Result<(), DecodeError>)
        ensures
            match landscape_step(old(self)@, item@) {
                Ok(next) => r is Ok && final(self)@ == next,
                Err(e) => r == Err::<(), DecodeError>(e) && final(self)@ == old(self)@,
            },
    {
        let value: &str = item.value.as_str();
        match field_of(item.key.as_str()) {
            Some(FieldName::EditName) => match parse_text(value) {
                Some(v) => {
                    self.EditName = Some(v);
                    Ok(())
                },
                None => Err(DecodeError::Malformed(StructuralError::MalformedValue)),
            },
            Some(FieldName::EditGroups) => match parse_text(value) {
                Some(v) => {
                    self.EditGroups = Some(v);
                    Ok(())
                },
                None => Err(DecodeError::Malformed(StructuralError::MalformedValue)),
            },
            Some(FieldName::LogicType) => match parse_byte(value) {
                Some(v) => {
                    self.LogicType = Some(v);
                    Ok(())
                },
                None => Err(DecodeError::Malformed(StructuralError::MalformedValue)),
            },
            Some(FieldName::LogicMaximumValency) => match parse_byte(value) {
                Some(v) => {
                    self.LogicMaximumValency = Some(v);
                    Ok(())
                },
                None => Err(DecodeError::Malformed(StructuralError::MalformedValue)),
            },
            Some(FieldName::LogicIsWorkable) => match parse_flag(value) {
                Some(v) => {
                    self.LogicIsWorkable = Some(v);
                    Ok(())
                },
                None => Err(DecodeError::Malformed(StructuralError::MalformedValue)),
            },
            Some(FieldName::LogicIsPileableOnMap) => match parse_flag(value) {
                Some(v) => {
                    self.logicispileableonmap = Some(v);
                    Ok(())
                },
                None => Err(DecodeError::Malformed(StructuralError::MalformedValue)),
            },
            Some(FieldName::LogicWalkBlockArea) => match parse_coords(value) {
                Some(v) => {
                    self.LogicWalkBlockArea = Some(v);
                    Ok(())
                },
                None => Err(DecodeError::Malformed(StructuralError::MalformedValue)),
            },
            Some(FieldName::LogicBuildBlockArea) => match parse_coords(value) {
                Some(v) => {
                    self.LogicBuildBlockArea = Some(v);
                    Ok(())
                },
                None => Err(DecodeError::Malformed(StructuralError::MalformedValue)),
            },
            Some(FieldName::LogicWorkArea) => match parse_coords(value) {
                Some(v) => {
                    self.LogicWorkArea = Some(v);
                    Ok(())
                },
                None => Err(DecodeError::Malformed(StructuralError::MalformedValue)),
            },
            Some(FieldName::GfxBobLibs) => match parse_GfxBobLibs(value) {
                Some(v) => {
                    self.GfxBobLibs = Some(v);
                    Ok(())
                },
                None => Err(DecodeError::Malformed(StructuralError::MalformedValue)),
            },
            Some(FieldName::GfxPalette) => match parse_GfxPalette(value) {
                Some(v) => {
                    self.GfxPalette = Some(v);
                    Ok(())
                },
                None => Err(DecodeError::Malformed(StructuralError::MalformedValue)),
            },
            Some(FieldName::GfxFrames) => parse_GfxFrames(self, value),
            Some(FieldName::GfxStatic) => match parse_flag(value) {
                Some(v) => {
                    self.GfxStatic = Some(v);
                    Ok(())
                },
                None => Err(DecodeError::Malformed(StructuralError::MalformedValue)),
            },
            Some(FieldName::GfxLoopAnimation) => match parse_flag(value) {
                Some(v) => {
                    self.GfxLoopAnimation = Some(v);
                    Ok(())
                },
                None => Err(DecodeError::Malformed(StructuralError::MalformedValue)),
            },
            Some(FieldName::GfxShadingFactor) => match parse_decimal(value) {
                Some(v) => {
                    self.GfxShadingFactor = Some(v);
                    Ok(())
                },
                None => Err(DecodeError::Malformed(StructuralError::MalformedValue)),
            },
            Some(FieldName::GfxUserFXMatrix) => match parse_byte(value) {
                Some(v) => {
                    self.GfxUserFXMatrix = Some(v);
                    Ok(())
                },
                None => Err(DecodeError::Malformed(StructuralError::MalformedValue)),
            },
            Some(FieldName::GfxDynamicBackground) => match parse_flag(value) {
                Some(v) => {
                    self.GfxDynamicBackground = Some(v);
                    Ok(())
                },
                None => Err(DecodeError::Malformed(StructuralError::MalformedValue)),
            },
            Some(FieldName::GfxDrawVoidEver) => match parse_flag(value) {
                Some(v) => {
                    self.gfxdrawvoidever = Some(v);
                    Ok(())
                },
                None => Err(DecodeError::Malformed(StructuralError::MalformedValue)),
            },
            Some(FieldName::GfxTransition) => parse_GfxTransition(self, value),
            _ => Ok(()),
        }
    }

    /// Whether a field of the record is set.
    pub fn has(&self, field: FieldName) -> (r: bool)
        ensures
            r == is_set(self@, field),
    {
        match field {
            FieldName::EditName => self.EditName.is_some(),
            FieldName::EditGroups => self.EditGroups.is_some(),
            FieldName::LogicType => self.LogicType.is_some(),
            FieldName::LogicMaximumValency => self.LogicMaximumValency.is_some(),
            FieldName::LogicIsWorkable => self.LogicIsWorkable.is_some(),
            FieldName::LogicIsPileableOnMap => self.logicispileableonmap.is_some(),
            FieldName::LogicWalkBlockArea => self.LogicWalkBlockArea.is_some(),
            FieldName::LogicBuildBlockArea => self.LogicBuildBlockArea.is_some(),
            FieldName::LogicWorkArea => self.LogicWorkArea.is_some(),
            FieldName::GfxBobLibs => self.GfxBobLibs.is_some(),
            FieldName::GfxPalette => self.GfxPalette.is_some(),
            FieldName::GfxFrames => self.GfxFrames.is_some(),
            FieldName::GfxStatic => self.GfxStatic.is_some(),
            FieldName::GfxLoopAnimation => self.GfxLoopAnimation.is_some(),
            FieldName::GfxShadingFactor => self.GfxShadingFactor.is_some(),
            FieldName::GfxUserFXMatrix => self.GfxUserFXMatrix.is_some(),
            FieldName::GfxDynamicBackground => self.GfxDynamicBackground.is_some(),
            FieldName::GfxDrawVoidEver => self.gfxdrawvoidever.is_some(),
            FieldName::GfxTransition => self.GfxTransition.is_some(),
            _ => false,
        }
    }

    /// Every field that a finished record must hold and the builder lacks,
    /// in the order of the record.
    pub fn missing_fields(&self) -> (r: Vec<FieldName>)
        ensures
            r@ == unset_fields(self@),
    {
        let mut missing: Vec<FieldName> = Vec::new();
        let mut i: usize = 0;
        assert(missing@ + unset_from(self@, 0) =~= unset_fields(self@));
        while i < LANDSCAPE_FIELD_COUNT
            invariant
                i <= LANDSCAPE_FIELD_COUNT,
                landscape_fields().len() == LANDSCAPE_FIELD_COUNT,
                missing@ + unset_from(self@, i as int) == unset_fields(self@),
            decreases LANDSCAPE_FIELD_COUNT - i,
        {
            let field: FieldName = landscape_field(i);
            if !self.has(field) {
                let ghost before = missing@;
                missing.push(field);
                assert((before + seq![field]) + unset_from(self@, i + 1) =~= before + (seq![field]
                    + unset_from(self@, i + 1)));
            }
            i = i + 1;
        }
        assert(missing@ + Seq::<FieldName>::empty() =~= missing@);
        missing
    }

    /// Makes the record, or names the first field that is not set.
    pub fn build(self) -> (r: Result<GfxLandscape, DecodeError>)
        ensures
            match landscape_built(self@) {
                Ok(record) => r is Ok && r.unwrap()@ == record,
                Err(e) => r == Err::<GfxLandscape, DecodeError>(e),
            },
    {
        let EditName_value: String = match self.EditName {
            Some(v) => v,
            None => {
                return Err(DecodeError::MissingSection(MissingElement::Field(FieldName::EditName)));
            },
        };
        let EditGroups_value: String = match self.EditGroups {
            Some(v) => v,
            None => {
                return Err(DecodeError::MissingSection(MissingElement::Field(FieldName::EditGroups)));
            },
        };
        let LogicType_value: u8 = match self.LogicType {
            Some(v) => v,
            None => {
                return Err(DecodeError::MissingSection(MissingElement::Field(FieldName::LogicType)));
            },
        };
        let LogicMaximumValency_value: u8 = match self.LogicMaximumValency {
            Some(v) => v,
            None => {
                return Err(DecodeError::MissingSection(MissingElement::Field(FieldName::LogicMaximumValency)));
            },
        };
        let LogicIsWorkable_value: bool = match self.LogicIsWorkable {
            Some(v) => v,
            None => {
                return Err(DecodeError::MissingSection(MissingElement::Field(FieldName::LogicIsWorkable)));
            },
        };
        let logicispileableonmap_value: bool = match self.logicispileableonmap {
            Some(v) => v,
            None => {
                return Err(DecodeError::MissingSection(MissingElement::Field(FieldName::LogicIsPileableOnMap)));
            },
        };
        let LogicWalkBlockArea_value: ((i8, i8), (i8, i8)) = match self.LogicWalkBlockArea {
            Some(v) => v,
            None => {
                return Err(DecodeError::MissingSection(MissingElement::Field(FieldName::LogicWalkBlockArea)));
            },
        };
        let LogicBuildBlockArea_value: ((i8, i8), (i8, i8)) = match self.LogicBuildBlockArea {
            Some(v) => v,
            None => {
                return Err(DecodeError::MissingSection(MissingElement::Field(FieldName::LogicBuildBlockArea)));
            },
        };
        let LogicWorkArea_value: ((i8, i8), (i8, i8)) = match self.LogicWorkArea {
            Some(v) => v,
            None => {
                return Err(DecodeError::MissingSection(MissingElement::Field(FieldName::LogicWorkArea)));
            },
        };
        let GfxBobLibs_value: GfxBobLibs = match self.GfxBobLibs {
            Some(v) => v,
            None => {
                return Err(DecodeError::MissingSection(MissingElement::Field(FieldName::GfxBobLibs)));
            },
        };
        let GfxPalette_value: Vec<String> = match self.GfxPalette {
            Some(v) => v,
            None => {
                return Err(DecodeError::MissingSection(MissingElement::Field(FieldName::GfxPalette)));
            },
        };
        let GfxFrames_value: HashMap<u8, Vec<u8>> = match self.GfxFrames {
            Some(v) => v,
            None => {
                return Err(DecodeError::MissingSection(MissingElement::Field(FieldName::GfxFrames)));
            },
        };
        let GfxStatic_value: bool = match self.GfxStatic {
            Some(v) => v,
            None => {
                return Err(DecodeError::MissingSection(MissingElement::Field(FieldName::GfxStatic)));
            },
        };
        let GfxLoopAnimation_value: bool = match self.GfxLoopAnimation {
            Some(v) => v,
            None => {
                return Err(DecodeError::MissingSection(MissingElement::Field(FieldName::GfxLoopAnimation)));
            },
        };
        let GfxShadingFactor_value: String = match self.GfxShadingFactor {
            Some(v) => v,
            None => {
                return Err(DecodeError::MissingSection(MissingElement::Field(FieldName::GfxShadingFactor)));
            },
        };
        let GfxUserFXMatrix_value: u8 = match self.GfxUserFXMatrix {
            Some(v) => v,
            None => {
                return Err(DecodeError::MissingSection(MissingElement::Field(FieldName::GfxUserFXMatrix)));
            },
        };
        let GfxDynamicBackground_value: bool = match self.GfxDynamicBackground {
            Some(v) => v,
            None => {
                return Err(DecodeError::MissingSection(MissingElement::Field(FieldName::GfxDynamicBackground)));
            },
        };
        let gfxdrawvoidever_value: bool = match self.gfxdrawvoidever {
            Some(v) => v,
            None => {
                return Err(DecodeError::MissingSection(MissingElement::Field(FieldName::GfxDrawVoidEver)));
            },
        };
        let GfxTransition_value: HashMap<u8, String> = match self.GfxTransition {
            Some(v) => v,
            None => {
                return Err(DecodeError::MissingSection(MissingElement::Field(FieldName::GfxTransition)));
            },
        };
        Ok(
            GfxLandscape {
                EditName: EditName_value,
                EditGroups: EditGroups_value,
                LogicType: LogicType_value,
                LogicMaximumValency: LogicMaximumValency_value,
                LogicIsWorkable: LogicIsWorkable_value,
                logicispileableonmap: logicispileableonmap_value,
                LogicWalkBlockArea: LogicWalkBlockArea_value,
                LogicBuildBlockArea: LogicBuildBlockArea_value,
                LogicWorkArea: LogicWorkArea_value,
                GfxBobLibs: GfxBobLibs_value,
                GfxPalette: Some(GfxPalette_value),
                GfxFrames: GfxFrames_value,
                GfxStatic: GfxStatic_value,
                GfxLoopAnimation: GfxLoopAnimation_value,
                GfxShadingFactor: GfxShadingFactor_value,
                GfxUserFXMatrix: GfxUserFXMatrix_value,
                GfxDynamicBackground: GfxDynamicBackground_value,
                gfxdrawvoidever: gfxdrawvoidever_value,
                GfxTransition: GfxTransition_value,
            },
        )
    }
}

/// Builds a landscape record from the items of a section.
#[allow(non_snake_case)]
pub fn parse_GfxLandscape(items: Vec<Item>) -> (r: Result<GfxLandscape, DecodeError>)
    ensures
        match landscape_of(items_view(items@)) {
            Ok(record) => r is Ok && r.unwrap()@ == record,
            Err(e) => r == Err::<GfxLandscape, DecodeError>(e),
        },
{
    let mut builder: GfxLandscapeBuilder = GfxLandscapeBuilder::new();
    let ghost target = landscape_fold(empty_builder(), items_view(items@), 0);
    let mut i: usize = 0;
    while i < items.len()
        invariant
            i <= items@.len(),
            target == landscape_fold(empty_builder(), items_view(items@), 0),
            landscape_fold(builder@, items_view(items@), i as int) == target,
        decreases items@.len() - i,
    {
        builder.apply(&items[i])?;
        i = i + 1;
    }
    builder.build()
}

} // verus!
