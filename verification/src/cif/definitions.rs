//! The typed records that the sections of a definition container are built
//! into.

use vstd::prelude::*;
use std::collections::HashMap;
use crate::cif::section::Section;
use crate::cif::section::SectionView;
use crate::codec::texts_of;

verus! {

/// The kinds of records that this library knows.
#[derive(Debug, Clone, Copy, PartialEq, Eq, Structural)]
pub enum IniCategoryType {
    Text,
    GfxLandscape,
    GfxPalette256,
    GfxPattern,
    Transition,
}

/// A record: one for every section of a container. A section whose name
/// stands for no known kind of record is kept as it is.
#[derive(Debug, PartialEq, Eq)]
pub enum IniCategory {
    Text(Text),
    GfxLandscape(GfxLandscape),
    GfxPalette256(GfxPalette256),
    GfxPattern(GfxPattern),
    Transition(Transition),
    Unknown(Section),
}

/// The mathematical value of an `IniCategory`.
pub enum IniCategoryView {
    Text(TextView),
    GfxLandscape(GfxLandscapeView),
    GfxPalette256(GfxPalette256View),
    GfxPattern(GfxPatternView),
    Transition(TransitionView),
    Unknown(SectionView),
}

impl View for IniCategory {
    type V = IniCategoryView;

    open spec fn view(&self) -> IniCategoryView {
        match self {
            IniCategory::Text(r) => IniCategoryView::Text(r@),
            IniCategory::GfxLandscape(r) => IniCategoryView::GfxLandscape(r@),
            IniCategory::GfxPalette256(r) => IniCategoryView::GfxPalette256(r@),
            IniCategory::GfxPattern(r) => IniCategoryView::GfxPattern(r@),
            IniCategory::Transition(r) => IniCategoryView::Transition(r@),
            IniCategory::Unknown(s) => IniCategoryView::Unknown(s@),
        }
    }
}

/// The texts of a map of strings.
pub open spec fn text_map_of<K>(m: Map<K, String>) -> Map<K, Seq<char>> {
    m.map_values(|s: String| s@)
}

/// The sequences of a map of vectors.
pub open spec fn list_map_of<K>(m: Map<K, Vec<u8>>) -> Map<K, Seq<u8>> {
    m.map_values(|v: Vec<u8>| v@)
}

/// The sequences of a vector of vectors.
pub open spec fn lists_of(v: Seq<Vec<u8>>) -> Seq<Seq<u8>> {
    Seq::new(v.len(), |i: int| v[i]@)
}

/// What a map holds after a pair is merged into it: the first value that
/// was given for a key stays.
pub open spec fn merged_first<K, V>(m: Map<K, V>, k: K, v: V) -> Map<K, V> {
    if m.contains_key(k) {
        m
    } else {
        m.insert(k, v)
    }
}

/// The first value that is merged in for a key is kept, whatever is merged
/// in for that key afterwards.
pub proof fn lemma_first_wins<K, V>(m: Map<K, V>, k: K, first: V, second: V)
    ensures
        merged_first(merged_first(m, k, first), k, second) == merged_first(m, k, first),
        !m.contains_key(k) ==> merged_first(merged_first(m, k, first), k, second)[k] == first,
        m.contains_key(k) ==> merged_first(merged_first(m, k, first), k, second)[k] == m[k],
{
}

/// Texts by their numbers.
#[derive(Debug, Clone, PartialEq, Eq)]
pub struct Text {
    pub strings: HashMap<u32, String>,
}

/// The mathematical value of a `Text`.
pub struct TextView {
    pub strings: Map<u32, Seq<char>>,
}

impl View for Text {
    type V = TextView;

    open spec fn view(&self) -> TextView {
        TextView { strings: text_map_of(self.strings@) }
    }
}

/// The sprite containers of a landscape: the one with its frames, and the
/// one with their shadows where there is one.
#[derive(Debug, Clone, PartialEq, Eq)]
pub struct GfxBobLibs {
    pub bmd: String,
    pub shadow: Option<String>,
}

/// The mathematical value of a `GfxBobLibs`.
pub struct GfxBobLibsView {
    pub bmd: Seq<char>,
    pub shadow: Option<Seq<char>>,
}

impl View for GfxBobLibs {
    type V = GfxBobLibsView;

    open spec fn view(&self) -> GfxBobLibsView {
        GfxBobLibsView {
            bmd: self.bmd@,
            shadow: match self.shadow {
                Some(s) => Some(s@),
                None => None,
            },
        }
    }
}

/// An object of the landscape.
#[allow(non_snake_case)]
#[derive(Debug, PartialEq, Eq)]
pub struct GfxLandscape {
    pub EditName: String,
    pub EditGroups: String,
    pub LogicType: u8,
    pub LogicMaximumValency: u8,
    pub LogicIsWorkable: bool,
    pub logicispileableonmap: bool,
    pub LogicWalkBlockArea: ((i8, i8), (i8, i8)),
    pub LogicBuildBlockArea: ((i8, i8), (i8, i8)),
    pub LogicWorkArea: ((i8, i8), (i8, i8)),
    /// The paths of the sprite containers.
    pub GfxBobLibs: GfxBobLibs,
    /// The names of the palettes.
    pub GfxPalette: Option<Vec<String>>,
    /// The frames of each animation, by the animation's number.
    pub GfxFrames: HashMap<u8, Vec<u8>>,
    pub GfxStatic: bool,
    pub GfxLoopAnimation: bool,
    /// A decimal fraction, as it is written in the container.
    pub GfxShadingFactor: String,
    pub GfxUserFXMatrix: u8,
    pub GfxDynamicBackground: bool,
    pub gfxdrawvoidever: bool,
    /// The object that this one turns into, by the number of the turn.
    pub GfxTransition: HashMap<u8, String>,
}

/// The mathematical value of a `GfxLandscape`.
#[allow(non_snake_case)]
pub struct GfxLandscapeView {
    pub EditName: Seq<char>,
    pub EditGroups: Seq<char>,
    pub LogicType: u8,
    pub LogicMaximumValency: u8,
    pub LogicIsWorkable: bool,
    pub logicispileableonmap: bool,
    pub LogicWalkBlockArea: ((i8, i8), (i8, i8)),
    pub LogicBuildBlockArea: ((i8, i8), (i8, i8)),
    pub LogicWorkArea: ((i8, i8), (i8, i8)),
    pub GfxBobLibs: GfxBobLibsView,
    pub GfxPalette: Option<Seq<Seq<char>>>,
    pub GfxFrames: Map<u8, Seq<u8>>,
    pub GfxStatic: bool,
    pub GfxLoopAnimation: bool,
    pub GfxShadingFactor: Seq<char>,
    pub GfxUserFXMatrix: u8,
    pub GfxDynamicBackground: bool,
    pub gfxdrawvoidever: bool,
    pub GfxTransition: Map<u8, Seq<char>>,
}

impl View for GfxLandscape {
    type V = GfxLandscapeView;

    open spec fn view(&self) -> GfxLandscapeView {
        GfxLandscapeView {
            EditName: self.EditName@,
            EditGroups: self.EditGroups@,
            LogicType: self.LogicType,
            LogicMaximumValency: self.LogicMaximumValency,
            LogicIsWorkable: self.LogicIsWorkable,
            logicispileableonmap: self.logicispileableonmap,
            LogicWalkBlockArea: self.LogicWalkBlockArea,
            LogicBuildBlockArea: self.LogicBuildBlockArea,
            LogicWorkArea: self.LogicWorkArea,
            GfxBobLibs: self.GfxBobLibs@,
            GfxPalette: match self.GfxPalette {
                Some(p) => Some(texts_of(p@)),
                None => None,
            },
            GfxFrames: list_map_of(self.GfxFrames@),
            GfxStatic: self.GfxStatic,
            GfxLoopAnimation: self.GfxLoopAnimation,
            GfxShadingFactor: self.GfxShadingFactor@,
            GfxUserFXMatrix: self.GfxUserFXMatrix,
            GfxDynamicBackground: self.GfxDynamicBackground,
            gfxdrawvoidever: self.gfxdrawvoidever,
            GfxTransition: text_map_of(self.GfxTransition@),
        }
    }
}

/// A palette of 256 colours, by the image that holds it.
#[derive(Debug, Clone, PartialEq, Eq)]
pub struct GfxPalette256 {
    pub editname: String,
    pub gfxfile: String,
    pub gfxpreshade: bool,
    pub gfxremaptopreshaded: Option<String>,
}

/// The mathematical value of a `GfxPalette256`.
pub struct GfxPalette256View {
    pub editname: Seq<char>,
    pub gfxfile: Seq<char>,
    pub gfxpreshade: bool,
    pub gfxremaptopreshaded: Option<Seq<char>>,
}

impl View for GfxPalette256 {
    type V = GfxPalette256View;

    open spec fn view(&self) -> GfxPalette256View {
        GfxPalette256View {
            editname: self.editname@,
            gfxfile: self.gfxfile@,
            gfxpreshade: self.gfxpreshade,
            gfxremaptopreshaded: match self.gfxremaptopreshaded {
                Some(s) => Some(s@),
                None => None,
            },
        }
    }
}

/// A pattern of the ground: a texture and the corners of its two triangles.
#[allow(non_snake_case)]
#[derive(Debug, Clone, PartialEq, Eq)]
pub struct GfxPattern {
    pub EditName: String,
    /// The groups that the pattern belongs to; none of them twice.
    pub EditGroups: Vec<String>,
    pub LogicType: u8,
    pub GfxTexture: String,
    pub GfxCoordsA: Vec<u8>,
    pub GfxCoordsB: Vec<u8>,
}

/// The mathematical value of a `GfxPattern`.
#[allow(non_snake_case)]
pub struct GfxPatternView {
    pub EditName: Seq<char>,
    pub EditGroups: Seq<Seq<char>>,
    pub LogicType: u8,
    pub GfxTexture: Seq<char>,
    pub GfxCoordsA: Seq<u8>,
    pub GfxCoordsB: Seq<u8>,
}

impl View for GfxPattern {
    type V = GfxPatternView;

    open spec fn view(&self) -> GfxPatternView {
        GfxPatternView {
            EditName: self.EditName@,
            EditGroups: texts_of(self.EditGroups@),
            LogicType: self.LogicType,
            GfxTexture: self.GfxTexture@,
            GfxCoordsA: self.GfxCoordsA@,
            GfxCoordsB: self.GfxCoordsB@,
        }
    }
}

/// A transition between two patterns of the ground: a texture, its alpha
/// mask and the corners of the triangles of each of its tiles.
#[allow(non_snake_case)]
#[derive(Debug, Clone, PartialEq, Eq)]
pub struct Transition {
    pub name: String,
    pub pointtype: String,
    pub GfxTexture: String,
    pub GfxTextureAlpha: String,
    pub GfxCoordsA: Vec<Vec<u8>>,
    pub GfxCoordsB: Vec<Vec<u8>>,
}

/// The mathematical value of a `Transition`.
#[allow(non_snake_case)]
pub struct TransitionView {
    pub name: Seq<char>,
    pub pointtype: Seq<char>,
    pub GfxTexture: Seq<char>,
    pub GfxTextureAlpha: Seq<char>,
    pub GfxCoordsA: Seq<Seq<u8>>,
    pub GfxCoordsB: Seq<Seq<u8>>,
}

impl View for Transition {
    type V = TransitionView;

    open spec fn view(&self) -> TransitionView {
        TransitionView {
            name: self.name@,
            pointtype: self.pointtype@,
            GfxTexture: self.GfxTexture@,
            GfxTextureAlpha: self.GfxTextureAlpha@,
            GfxCoordsA: lists_of(self.GfxCoordsA@),
            GfxCoordsB: lists_of(self.GfxCoordsB@),
        }
    }
}

} // verus!
