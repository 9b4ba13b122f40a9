//! The names of the fields of the definition records.
//!
//! A key names a field without regard to the case of its letters.

use vstd::prelude::*;
use crate::cif::text::chars_of;
use crate::cif::text::eq_ignore_case;
use crate::cif::text::lowered;
use crate::error::DecodeError;
use crate::error::MissingElement;

verus! {

/// A field of a definition record.
#[derive(Debug, Clone, Copy, PartialEq, Eq, Structural)]
pub enum FieldName {
    EditName,
    EditGroups,
    LogicType,
    LogicMaximumValency,
    LogicIsWorkable,
    LogicIsPileableOnMap,
    LogicWalkBlockArea,
    LogicBuildBlockArea,
    LogicWorkArea,
    GfxBobLibs,
    GfxPalette,
    GfxFrames,
    GfxStatic,
    GfxLoopAnimation,
    GfxShadingFactor,
    GfxUserFXMatrix,
    GfxDynamicBackground,
    GfxDrawVoidEver,
    GfxTransition,
    GfxTexture,
    GfxCoordsA,
    GfxCoordsB,
    Name,
    PointType,
    GfxTextureAlpha,
    GfxFile,
    GfxPreshade,
    GfxRemapToPreshaded,
    String,
    StringN,
}

/// The error of a record that lacks a required field.
pub open spec fn missing_field(field: FieldName) -> DecodeError {
    DecodeError::MissingSection(MissingElement::Field(field))
}

/// The name of a field, in small letters.
pub open spec fn field_text(field: FieldName) -> Seq<char> {
    match field {
        FieldName::EditName => "editname"@,
        FieldName::EditGroups => "editgroups"@,
        FieldName::LogicType => "logictype"@,
        FieldName::LogicMaximumValency => "logicmaximumvalency"@,
        FieldName::LogicIsWorkable => "logicisworkable"@,
        FieldName::LogicIsPileableOnMap => "logicispileableonmap"@,
        FieldName::LogicWalkBlockArea => "logicwalkblockarea"@,
        FieldName::LogicBuildBlockArea => "logicbuildblockarea"@,
        FieldName::LogicWorkArea => "logicworkarea"@,
        FieldName::GfxBobLibs => "gfxboblibs"@,
        FieldName::GfxPalette => "gfxpalette"@,
        FieldName::GfxFrames => "gfxframes"@,
        FieldName::GfxStatic => "gfxstatic"@,
        FieldName::GfxLoopAnimation => "gfxloopanimation"@,
        FieldName::GfxShadingFactor => "gfxshadingfactor"@,
        FieldName::GfxUserFXMatrix => "gfxuserfxmatrix"@,
        FieldName::GfxDynamicBackground => "gfxdynamicbackground"@,
        FieldName::GfxDrawVoidEver => "gfxdrawvoidever"@,
        FieldName::GfxTransition => "gfxtransition"@,
        FieldName::GfxTexture => "gfxtexture"@,
        FieldName::GfxCoordsA => "gfxcoordsa"@,
        FieldName::GfxCoordsB => "gfxcoordsb"@,
        FieldName::Name => "name"@,
        FieldName::PointType => "pointtype"@,
        FieldName::GfxTextureAlpha => "gfxtexturealpha"@,
        FieldName::GfxFile => "gfxfile"@,
        FieldName::GfxPreshade => "gfxpreshade"@,
        FieldName::GfxRemapToPreshaded => "gfxremaptopreshaded"@,
        FieldName::String => "string"@,
        FieldName::StringN => "stringn"@,
    }
}

/// The field that a key names, if it names one.
pub open spec fn field_of_key(key: Seq<char>) -> Option<FieldName> {
    let k = lowered(key);
    if k == "editname"@ {
        Some(FieldName::EditName)
    } else if k == "editgroups"@ {
        Some(FieldName::EditGroups)
    } else if k == "logictype"@ {
        Some(FieldName::LogicType)
    } else if k == "logicmaximumvalency"@ {
        Some(FieldName::LogicMaximumValency)
    } else if k == "logicisworkable"@ {
        Some(FieldName::LogicIsWorkable)
    } else if k == "logicispileableonmap"@ {
        Some(FieldName::LogicIsPileableOnMap)
    } else if k == "logicwalkblockarea"@ {
        Some(FieldName::LogicWalkBlockArea)
    } else if k == "logicbuildblockarea"@ {
        Some(FieldName::LogicBuildBlockArea)
    } else if k == "logicworkarea"@ {
        Some(FieldName::LogicWorkArea)
    } else if k == "gfxboblibs"@ {
        Some(FieldName::GfxBobLibs)
    } else if k == "gfxpalette"@ {
        Some(FieldName::GfxPalette)
    } else if k == "gfxframes"@ {
        Some(FieldName::GfxFrames)
    } else if k == "gfxstatic"@ {
        Some(FieldName::GfxStatic)
    } else if k == "gfxloopanimation"@ {
        Some(FieldName::GfxLoopAnimation)
    } else if k == "gfxshadingfactor"@ {
        Some(FieldName::GfxShadingFactor)
    } else if k == "gfxuserfxmatrix"@ {
        Some(FieldName::GfxUserFXMatrix)
    } else if k == "gfxdynamicbackground"@ {
        Some(FieldName::GfxDynamicBackground)
    } else if k == "gfxdrawvoidever"@ {
        Some(FieldName::GfxDrawVoidEver)
    } else if k == "gfxtransition"@ {
        Some(FieldName::GfxTransition)
    } else if k == "gfxtexture"@ {
        Some(FieldName::GfxTexture)
    } else if k == "gfxcoordsa"@ {
        Some(FieldName::GfxCoordsA)
    } else if k == "gfxcoordsb"@ {
        Some(FieldName::GfxCoordsB)
    } else if k == "name"@ {
        Some(FieldName::Name)
    } else if k == "pointtype"@ {
        Some(FieldName::PointType)
    } else if k == "gfxtexturealpha"@ {
        Some(FieldName::GfxTextureAlpha)
    } else if k == "gfxfile"@ {
        Some(FieldName::GfxFile)
    } else if k == "gfxpreshade"@ {
        Some(FieldName::GfxPreshade)
    } else if k == "gfxremaptopreshaded"@ {
        Some(FieldName::GfxRemapToPreshaded)
    } else if k == "string"@ {
        Some(FieldName::String)
    } else if k == "stringn"@ {
        Some(FieldName::StringN)
    } else {
        None
    }
}

/// Finds the field that a key names.
pub fn field_of(key: &str) -> (field: Option<FieldName>)
    ensures
        field == field_of_key(key@),
{
    let k: Vec<char> = chars_of(key);
    if eq_ignore_case(&k, "editname") {
        Some(FieldName::EditName)
    } else if eq_ignore_case(&k, "editgroups") {
        Some(FieldName::EditGroups)
    } else if eq_ignore_case(&k, "logictype") {
        Some(FieldName::LogicType)
    } else if eq_ignore_case(&k, "logicmaximumvalency") {
        Some(FieldName::LogicMaximumValency)
    } else if eq_ignore_case(&k, "logicisworkable") {
        Some(FieldName::LogicIsWorkable)
    } else if eq_ignore_case(&k, "logicispileableonmap") {
        Some(FieldName::LogicIsPileableOnMap)
    } else if eq_ignore_case(&k, "logicwalkblockarea") {
        Some(FieldName::LogicWalkBlockArea)
    } else if eq_ignore_case(&k, "logicbuildblockarea") {
        Some(FieldName::LogicBuildBlockArea)
    } else if eq_ignore_case(&k, "logicworkarea") {
        Some(FieldName::LogicWorkArea)
    } else if eq_ignore_case(&k, "gfxboblibs") {
        Some(FieldName::GfxBobLibs)
    } else if eq_ignore_case(&k, "gfxpalette") {
        Some(FieldName::GfxPalette)
    } else if eq_ignore_case(&k, "gfxframes") {
        Some(FieldName::GfxFrames)
    } else if eq_ignore_case(&k, "gfxstatic") {
        Some(FieldName::GfxStatic)
    } else if eq_ignore_case(&k, "gfxloopanimation") {
        Some(FieldName::GfxLoopAnimation)
    } else if eq_ignore_case(&k, "gfxshadingfactor") {
        Some(FieldName::GfxShadingFactor)
    } else if eq_ignore_case(&k, "gfxuserfxmatrix") {
        Some(FieldName::GfxUserFXMatrix)
    } else if eq_ignore_case(&k, "gfxdynamicbackground") {
        Some(FieldName::GfxDynamicBackground)
    } else if eq_ignore_case(&k, "gfxdrawvoidever") {
        Some(FieldName::GfxDrawVoidEver)
    } else if eq_ignore_case(&k, "gfxtransition") {
        Some(FieldName::GfxTransition)
    } else if eq_ignore_case(&k, "gfxtexture") {
        Some(FieldName::GfxTexture)
    } else if eq_ignore_case(&k, "gfxcoordsa") {
        Some(FieldName::GfxCoordsA)
    } else if eq_ignore_case(&k, "gfxcoordsb") {
        Some(FieldName::GfxCoordsB)
    } else if eq_ignore_case(&k, "name") {
        Some(FieldName::Name)
    } else if eq_ignore_case(&k, "pointtype") {
        Some(FieldName::PointType)
    } else if eq_ignore_case(&k, "gfxtexturealpha") {
        Some(FieldName::GfxTextureAlpha)
    } else if eq_ignore_case(&k, "gfxfile") {
        Some(FieldName::GfxFile)
    } else if eq_ignore_case(&k, "gfxpreshade") {
        Some(FieldName::GfxPreshade)
    } else if eq_ignore_case(&k, "gfxremaptopreshaded") {
        Some(FieldName::GfxRemapToPreshaded)
    } else if eq_ignore_case(&k, "string") {
        Some(FieldName::String)
    } else if eq_ignore_case(&k, "stringn") {
        Some(FieldName::StringN)
    } else {
        None
    }
}

impl FieldName {
    /// The name of the field, in small letters.
    pub fn as_str(&self) -> (text: &'static str)
        ensures
            text@ == field_text(*self),
    {
        match self {
            FieldName::EditName => "editname",
            FieldName::EditGroups => "editgroups",
            FieldName::LogicType => "logictype",
            FieldName::LogicMaximumValency => "logicmaximumvalency",
            FieldName::LogicIsWorkable => "logicisworkable",
            FieldName::LogicIsPileableOnMap => "logicispileableonmap",
            FieldName::LogicWalkBlockArea => "logicwalkblockarea",
            FieldName::LogicBuildBlockArea => "logicbuildblockarea",
            FieldName::LogicWorkArea => "logicworkarea",
            FieldName::GfxBobLibs => "gfxboblibs",
            FieldName::GfxPalette => "gfxpalette",
            FieldName::GfxFrames => "gfxframes",
            FieldName::GfxStatic => "gfxstatic",
            FieldName::GfxLoopAnimation => "gfxloopanimation",
            FieldName::GfxShadingFactor => "gfxshadingfactor",
            FieldName::GfxUserFXMatrix => "gfxuserfxmatrix",
            FieldName::GfxDynamicBackground => "gfxdynamicbackground",
            FieldName::GfxDrawVoidEver => "gfxdrawvoidever",
            FieldName::GfxTransition => "gfxtransition",
            FieldName::GfxTexture => "gfxtexture",
            FieldName::GfxCoordsA => "gfxcoordsa",
            FieldName::GfxCoordsB => "gfxcoordsb",
            FieldName::Name => "name",
            FieldName::PointType => "pointtype",
            FieldName::GfxTextureAlpha => "gfxtexturealpha",
            FieldName::GfxFile => "gfxfile",
            FieldName::GfxPreshade => "gfxpreshade",
            FieldName::GfxRemapToPreshaded => "gfxremaptopreshaded",
            FieldName::String => "string",
            FieldName::StringN => "stringn",
        }
    }
}

} // verus!
