//! From sections to records.
//!
//! The name of a section, without regard to the case of its letters, stands
//! for the kind of record that the section is built into. A section with
//! any other name is kept as it is.

use vstd::prelude::*;
use crate::cif::definitions::IniCategory;
use crate::cif::definitions::IniCategoryType;
use crate::cif::definitions::IniCategoryView;
use crate::cif::landscape::landscape_of;
use crate::cif::landscape::parse_GfxLandscape;
use crate::cif::palette::palette_of;
use crate::cif::palette::parse_GfxPalette256;
use crate::cif::pattern::parse_GfxPattern;
use crate::cif::pattern::pattern_of;
use crate::cif::section::Section;
use crate::cif::section::SectionView;
use crate::cif::text::chars_of;
use crate::cif::text::eq_ignore_case;
use crate::cif::text::lowered;
use crate::cif::texts::parse_Text;
use crate::cif::texts::texts_record_of;
use crate::cif::transition::parse_Transition;
use crate::cif::transition::transition_of;
use crate::error::DecodeError;

verus! {

/// The kind of record that a section's name stands for, if it stands for
/// one.
pub open spec fn category_of_name(name: Seq<char>) -> Option<IniCategoryType> {
    let n = lowered(name);
    if n == "text"@ {
        Some(IniCategoryType::Text)
    } else if n == "gfxlandscape"@ {
        Some(IniCategoryType::GfxLandscape)
    } else if n == "gfxpalette256"@ {
        Some(IniCategoryType::GfxPalette256)
    } else if n == "gfxpattern"@ {
        Some(IniCategoryType::GfxPattern)
    } else if n == "transition"@ {
        Some(IniCategoryType::Transition)
    } else {
        None
    }
}

/// The record that a section is built into.
pub open spec fn record_of(section: SectionView) -> Result<IniCategoryView, DecodeError> {
    match category_of_name(section.name) {
        None => Ok(IniCategoryView::Unknown(section)),
        Some(IniCategoryType::Text) => match texts_record_of(section.items) {
            Ok(r) => Ok(IniCategoryView::Text(r)),
            Err(e) => Err(e),
        },
        Some(IniCategoryType::GfxLandscape) => match landscape_of(section.items) {
            Ok(r) => Ok(IniCategoryView::GfxLandscape(r)),
            Err(e) => Err(e),
        },
        Some(IniCategoryType::GfxPalette256) => match palette_of(section.items) {
            Ok(r) => Ok(IniCategoryView::GfxPalette256(r)),
            Err(e) => Err(e),
        },
        Some(IniCategoryType::GfxPattern) => match pattern_of(section.items) {
            Ok(r) => Ok(IniCategoryView::GfxPattern(r)),
            Err(e) => Err(e),
        },
        Some(IniCategoryType::Transition) => match transition_of(section.items) {
            Ok(r) => Ok(IniCategoryView::Transition(r)),
            Err(e) => Err(e),
        },
    }
}

/// The records that the sections from place `i` on are built into, one for
/// each, in their order; or the error of the first of them that cannot be
/// built.
pub open spec fn records_from(sections: Seq<SectionView>, i: int) -> Result<
    Seq<IniCategoryView>,
    DecodeError,
>
    decreases sections.len() - i,
{
    if i < 0 || i >= sections.len() {
        Ok(Seq::empty())
    } else {
        match record_of(sections[i]) {
            Err(e) => Err(e),
            Ok(record) => match records_from(sections, i + 1) {
                Err(e) => Err(e),
                Ok(rest) => Ok(seq![record] + rest),
            },
        }
    }
}

/// The records that sections are built into.
pub open spec fn records_of(sections: Seq<SectionView>) -> Result<
    Seq<IniCategoryView>,
    DecodeError,
> {
    records_from(sections, 0)
}

/// The mathematical values of a sequence of sections.
pub open spec fn sections_view(sections: Seq<Section>) -> Seq<SectionView> {
    Seq::new(sections.len(), |i: int| sections[i]@)
}

/// The mathematical values of a sequence of records.
pub open spec fn records_view(records: Seq<IniCategory>) -> Seq<IniCategoryView> {
    Seq::new(records.len(), |i: int| records[i]@)
}

/// Finds the kind of record that a section's name stands for.
pub fn category_of(name: &str) -> (kind: Option<IniCategoryType>)
    ensures
        kind == category_of_name(name@),
{
    let n: Vec<char> = chars_of(name);
    if eq_ignore_case(&n, "text") {
        Some(IniCategoryType::Text)
    } else if eq_ignore_case(&n, "gfxlandscape") {
        Some(IniCategoryType::GfxLandscape)
    } else if eq_ignore_case(&n, "gfxpalette256") {
        Some(IniCategoryType::GfxPalette256)
    } else if eq_ignore_case(&n, "gfxpattern") {
        Some(IniCategoryType::GfxPattern)
    } else if eq_ignore_case(&n, "transition") {
        Some(IniCategoryType::Transition)
    } else {
        None
    }
}

/// Builds the record that a section's name stands for from the section's
/// items. A section with a name that stands for no record is kept whole.
pub fn parse_section(section: Section) -> (r: Result<IniCategory, DecodeError>)
    ensures
        match record_of(section@) {
            Ok(record) => r is Ok && r.unwrap()@ == record,
            Err(e) => r == Err::<IniCategory, DecodeError>(e),
        },
{
    match category_of(section.name.as_str()) {
        None => Ok(IniCategory::Unknown(section)),
        Some(IniCategoryType::Text) => Ok(IniCategory::Text(parse_Text(section.items)?)),
        Some(IniCategoryType::GfxLandscape) => Ok(
            IniCategory::GfxLandscape(parse_GfxLandscape(section.items)?),
        ),
        Some(IniCategoryType::GfxPalette256) => Ok(
            IniCategory::GfxPalette256(parse_GfxPalette256(section.items)?),
        ),
        Some(IniCategoryType::GfxPattern) => Ok(
            IniCategory::GfxPattern(parse_GfxPattern(section.items)?),
        ),
        Some(IniCategoryType::Transition) => Ok(
            IniCategory::Transition(parse_Transition(section.items)?),
        ),
    }
}

/// The sections in the opposite order.
fn reversed(sections: Vec<Section>) -> (rest: Vec<Section>)
    ensures
        rest@.len() == sections@.len(),
        forall|j: int| 0 <= j < rest@.len() ==> rest@[j] == sections@[sections@.len() - 1 - j],
{
    let ghost all = sections@;
    let mut sections = sections;
    let mut rest: Vec<Section> = Vec::new();
    while sections.len() > 0
        invariant
            rest@.len() + sections@.len() == all.len(),
            forall|j: int| 0 <= j < sections@.len() ==> sections@[j] == all[j],
            forall|j: int| 0 <= j < rest@.len() ==> rest@[j] == all[all.len() - 1 - j],
        decreases sections@.len(),
    {
        match sections.pop() {
            Some(last) => {
                rest.push(last);
            },
            None => {},
        }
    }
    rest
}

/// Builds a record from every section, in order. The first section that
/// cannot be built ends the building with its error.
pub fn reduce_sections(sections: Vec<Section>) -> (r: Result<Vec<IniCategory>, DecodeError>)
    ensures
        match records_of(sections_view(sections@)) {
            Ok(records) => r is Ok && records_view(r.unwrap()@) == records,
            Err(e) => r == Err::<Vec<IniCategory>, DecodeError>(e),
        },
{
    let ghost all = sections_view(sections@);
    let n: usize = sections.len();
    let mut rest: Vec<Section> = reversed(sections);
    let mut records: Vec<IniCategory> = Vec::new();
    let mut i: usize = 0;
    assert(records_view(records@) =~= Seq::<IniCategoryView>::empty());
    while i < n
        invariant
            i <= n,
            n == all.len(),
            all == sections_view(sections@),
            rest@.len() == n - i,
            forall|j: int| 0 <= j < rest@.len() ==> (#[trigger] rest@[j])@ == all[n - 1 - j],
            match records_from(all, i as int) {
                Ok(tail) => records_of(all) == Ok::<Seq<IniCategoryView>, DecodeError>(
                    records_view(records@) + tail,
                ),
                Err(e) => records_of(all) == Err::<Seq<IniCategoryView>, DecodeError>(e),
            },
        decreases n - i,
    {
        let ghost before = records_view(records@);
        let ghost last = rest@[rest@.len() - 1];
        assert(last@ == all[i as int]);
        let popped: Option<Section> = rest.pop();
        match popped {
            Some(section) => {
                let record: IniCategory = parse_section(section)?;
                records.push(record);
                proof {
                    assert(records_view(records@) =~= before + seq![record@]);
                    match records_from(all, i + 1) {
                        Ok(tail) => {
                            assert((before + seq![record@]) + tail =~= before + (seq![record@]
                                + tail));
                        },
                        Err(e) => {},
                    }
                }
            },
            None => {},
        }
        i = i + 1;
    }
    assert(records_view(records@) + Seq::<IniCategoryView>::empty() =~= records_view(records@));
    Ok(records)
}

} // verus!
