//! The map data that a container yields, once every mandatory section has
//! been found.

use vstd::prelude::*;
use vstd::slice::slice_to_vec;
use crate::codec::HoixzislData;
use crate::codec::texts_of;
use crate::error::DecodeError;
use crate::error::MissingElement;
use crate::map::container::DecodedSection;
use crate::map::container::DecodedView;
use crate::map::container::MapSections;
use crate::map::container::after_record;
use crate::map::container::demux_from;
use crate::map::container::demux_of;
use crate::map::container::holds_section;
use crate::map::container::read_sections;
use crate::map::container::record_fits;
use crate::map::container::section_header_of;
use crate::map::tags::MapSectionName;
use crate::map::tags::name_of_tag;

verus! {

/// The data of a map: its size and its channels.
#[derive(Debug, Clone, PartialEq, Eq)]
pub struct CulturesMapData {
    pub width: u32,
    pub height: u32,
    pub elevation: Vec<u8>,
    pub lighting: Vec<u8>,
    pub tiles_index: Vec<String>,
    pub tiles_a: Vec<u16>,
    pub tiles_b: Vec<u16>,
    pub transitions_index: Vec<String>,
    pub trans_a1: Vec<u8>,
    pub trans_b1: Vec<u8>,
    pub trans_a2: Vec<u8>,
    pub trans_b2: Vec<u8>,
    pub landscape_index: Vec<String>,
    pub landscape_levels: Vec<u8>,
    pub landscape_types: Vec<u8>,
    pub landscape_job_types: Vec<u8>,
}

/// The mathematical value of a `CulturesMapData`.
pub struct MapDataView {
    pub width: u32,
    pub height: u32,
    pub elevation: Seq<u8>,
    pub lighting: Seq<u8>,
    pub tiles_index: Seq<Seq<char>>,
    pub tiles_a: Seq<u16>,
    pub tiles_b: Seq<u16>,
    pub transitions_index: Seq<Seq<char>>,
    pub trans_a1: Seq<u8>,
    pub trans_b1: Seq<u8>,
    pub trans_a2: Seq<u8>,
    pub trans_b2: Seq<u8>,
    pub landscape_index: Seq<Seq<char>>,
    pub landscape_levels: Seq<u8>,
    pub landscape_types: Seq<u8>,
    pub landscape_job_types: Seq<u8>,
}

impl View for CulturesMapData {
    type V = MapDataView;

    open spec fn view(&self) -> MapDataView {
        MapDataView {
            width: self.width,
            height: self.height,
            elevation: self.elevation@,
            lighting: self.lighting@,
            tiles_index: texts_of(self.tiles_index@),
            tiles_a: self.tiles_a@,
            tiles_b: self.tiles_b@,
            transitions_index: texts_of(self.transitions_index@),
            trans_a1: self.trans_a1@,
            trans_b1: self.trans_b1@,
            trans_a2: self.trans_a2@,
            trans_b2: self.trans_b2@,
            landscape_index: texts_of(self.landscape_index@),
            landscape_levels: self.landscape_levels@,
            landscape_types: self.landscape_types@,
            landscape_job_types: self.landscape_job_types@,
        }
    }
}

/// The error of a container that lacks a mandatory section.
pub open spec fn missing_section(name: MapSectionName) -> DecodeError {
    DecodeError::MissingSection(MissingElement::MapSection(name))
}

/// The number of mandatory sections.
pub const MANDATORY_COUNT: usize = 15;

/// The sections that every container must hold, in the order in which they
/// are looked for.
pub open spec fn mandatory() -> Seq<MapSectionName> {
    seq![
        MapSectionName::hoixzisl,
        MapSectionName::hoixehml,
        MapSectionName::hoixrbme,
        MapSectionName::hoixdpae,
        MapSectionName::hoixapme,
        MapSectionName::hoixbpme,
        MapSectionName::hoixdtae,
        MapSectionName::hoix1tme,
        MapSectionName::hoix2tme,
        MapSectionName::hoix3tme,
        MapSectionName::hoix4tme,
        MapSectionName::hoixdlae,
        MapSectionName::hoixtlml,
        MapSectionName::hoixalme,
        MapSectionName::hoixvlml,
    ]
}

/// The first mandatory section from place `i` on that is not kept.
pub open spec fn first_missing(kept: Map<MapSectionName, DecodedView>, i: int) -> Option<
    MapSectionName,
>
    decreases mandatory().len() - i,
{
    if i < 0 || i >= mandatory().len() {
        None
    } else if !kept.dom().contains(mandatory()[i]) {
        Some(mandatory()[i])
    } else {
        first_missing(kept, i + 1)
    }
}

/// The bytes of a kept channel; none where the section holds no bytes.
pub open spec fn bytes_in(kept: Map<MapSectionName, DecodedView>, name: MapSectionName) -> Seq<u8> {
    if kept.dom().contains(name) {
        match kept[name] {
            DecodedView::Bytes(c) => c.data,
            DecodedView::Raw(c) => c.data,
            _ => Seq::empty(),
        }
    } else {
        Seq::empty()
    }
}

/// The words of a kept channel; none where the section holds no words.
pub open spec fn words_in(kept: Map<MapSectionName, DecodedView>, name: MapSectionName) -> Seq<
    u16,
> {
    if kept.dom().contains(name) {
        match kept[name] {
            DecodedView::Words(c) => c.data,
            _ => Seq::empty(),
        }
    } else {
        Seq::empty()
    }
}

/// The entries of a kept dictionary; none where the section is no dictionary.
pub open spec fn texts_in(kept: Map<MapSectionName, DecodedView>, name: MapSectionName) -> Seq<
    Seq<char>,
> {
    if kept.dom().contains(name) {
        match kept[name] {
            DecodedView::Dictionary(t) => t,
            _ => Seq::empty(),
        }
    } else {
        Seq::empty()
    }
}

/// The size that a kept section holds; zero where it holds none.
pub open spec fn size_in(kept: Map<MapSectionName, DecodedView>, name: MapSectionName)
    -> HoixzislData {
    if kept.dom().contains(name) {
        match kept[name] {
            DecodedView::Size(d) => d,
            _ => HoixzislData { width: 0, height: 0 },
        }
    } else {
        HoixzislData { width: 0, height: 0 }
    }
}

/// The map data that the kept sections make up, or the first mandatory
/// section that is missing.
pub open spec fn map_data_from(kept: Map<MapSectionName, DecodedView>) -> Result<
    MapDataView,
    DecodeError,
> {
    match first_missing(kept, 0) {
        Some(name) => Err(missing_section(name)),
        None => Ok(
            MapDataView {
                width: size_in(kept, MapSectionName::hoixzisl).width,
                height: size_in(kept, MapSectionName::hoixzisl).height,
                elevation: bytes_in(kept, MapSectionName::hoixehml),
                lighting: bytes_in(kept, MapSectionName::hoixrbme),
                tiles_index: texts_in(kept, MapSectionName::hoixdpae),
                tiles_a: words_in(kept, MapSectionName::hoixapme),
                tiles_b: words_in(kept, MapSectionName::hoixbpme),
                transitions_index: texts_in(kept, MapSectionName::hoixdtae),
                trans_a1: bytes_in(kept, MapSectionName::hoix1tme),
                trans_b1: bytes_in(kept, MapSectionName::hoix2tme),
                trans_a2: bytes_in(kept, MapSectionName::hoix3tme),
                trans_b2: bytes_in(kept, MapSectionName::hoix4tme),
                landscape_index: texts_in(kept, MapSectionName::hoixdlae),
                landscape_levels: bytes_in(kept, MapSectionName::hoixvlml),
                landscape_types: bytes_in(kept, MapSectionName::hoixalme),
                landscape_job_types: bytes_in(kept, MapSectionName::hoixtlml),
            },
        ),
    }
}

/// The map data that a container holds.
pub open spec fn map_data_of(s: Seq<u8>) -> Result<MapDataView, DecodeError> {
    match demux_of(s) {
        Err(e) => Err(e),
        Ok(kept) => map_data_from(kept),
    }
}

/// The mandatory section at place `i`.
fn mandatory_at(i: usize) -> (name: MapSectionName)
    requires
        i < MANDATORY_COUNT,
    ensures
        name == mandatory()[i as int],
{
    if i == 0 {
        MapSectionName::hoixzisl
    } else if i == 1 {
        MapSectionName::hoixehml
    } else if i == 2 {
        MapSectionName::hoixrbme
    } else if i == 3 {
        MapSectionName::hoixdpae
    } else if i == 4 {
        MapSectionName::hoixapme
    } else if i == 5 {
        MapSectionName::hoixbpme
    } else if i == 6 {
        MapSectionName::hoixdtae
    } else if i == 7 {
        MapSectionName::hoix1tme
    } else if i == 8 {
        MapSectionName::hoix2tme
    } else if i == 9 {
        MapSectionName::hoix3tme
    } else if i == 10 {
        MapSectionName::hoix4tme
    } else if i == 11 {
        MapSectionName::hoixdlae
    } else if i == 12 {
        MapSectionName::hoixtlml
    } else if i == 13 {
        MapSectionName::hoixalme
    } else {
        MapSectionName::hoixvlml
    }
}

/// A copy of the bytes of a kept channel.
fn bytes_at(sections: &MapSections, name: MapSectionName) -> (data: Vec<u8>)
    requires
        sections.wf(),
    ensures
        data@ == bytes_in(sections@, name),
{
    match sections.get(name) {
        Some(DecodedSection::Bytes(c)) => slice_to_vec(c.data.as_slice()),
        Some(DecodedSection::Raw(c)) => slice_to_vec(c.data.as_slice()),
        _ => Vec::new(),
    }
}

/// A copy of the words of a kept channel.
fn words_at(sections: &MapSections, name: MapSectionName) -> (data: Vec<u16>)
    requires
        sections.wf(),
    ensures
        data@ == words_in(sections@, name),
{
    match sections.get(name) {
        Some(DecodedSection::Words(c)) => slice_to_vec(c.data.as_slice()),
        _ => Vec::new(),
    }
}

/// A copy of the entries of a kept dictionary.
fn texts_at(sections: &MapSections, name: MapSectionName) -> (data: Vec<String>)
    requires
        sections.wf(),
    ensures
        texts_of(data@) == texts_in(sections@, name),
{
    let mut data: Vec<String> = Vec::new();
    match sections.get(name) {
        Some(DecodedSection::Dictionary(entries)) => {
            let mut i: usize = 0;
            while i < entries.len()
                invariant
                    i <= entries@.len(),
                    data@.len() == i,
                    forall|j: int| 0 <= j < i ==> data@[j]@ == entries@[j]@,
                decreases entries@.len() - i,
            {
                data.push(entries[i].clone());
                i = i + 1;
            }
            assert(texts_of(data@) =~= texts_of(entries@));
        },
        _ => {
            assert(texts_of(data@) =~= Seq::<Seq<char>>::empty());
        },
    }
    data
}

/// The size that a kept section holds.
fn size_at(sections: &MapSections, name: MapSectionName) -> (size: HoixzislData)
    requires
        sections.wf(),
    ensures
        size == size_in(sections@, name),
{
    match sections.get(name) {
        Some(DecodedSection::Size(d)) => *d,
        _ => HoixzislData { width: 0, height: 0 },
    }
}

/// Puts the map data together from the sections that were kept. The first
/// mandatory section that is missing is named in the error.
pub fn assemble_map_data(sections: &MapSections) -> (r: Result<CulturesMapData, DecodeError>)
    requires
        sections.wf(),
    ensures
        match map_data_from(sections@) {
            Ok(data) => r is Ok && r.unwrap()@ == data,
            Err(e) => r == Err::<CulturesMapData, DecodeError>(e),
        },
{
    let mut i: usize = 0;
    while i < MANDATORY_COUNT
        invariant
            i <= MANDATORY_COUNT,
            sections.wf(),
            mandatory().len() == MANDATORY_COUNT,
            first_missing(sections@, i as int) == first_missing(sections@, 0),
        decreases MANDATORY_COUNT - i,
    {
        let name: MapSectionName = mandatory_at(i);
        if sections.get(name).is_none() {
            return Err(DecodeError::MissingSection(MissingElement::MapSection(name)));
        }
        i = i + 1;
    }
    let hoixzisl: HoixzislData = size_at(sections, MapSectionName::hoixzisl);
    Ok(
        CulturesMapData {
            width: hoixzisl.width,
            height: hoixzisl.height,
            elevation: bytes_at(sections, MapSectionName::hoixehml),
            lighting: bytes_at(sections, MapSectionName::hoixrbme),
            tiles_index: texts_at(sections, MapSectionName::hoixdpae),
            tiles_a: words_at(sections, MapSectionName::hoixapme),
            tiles_b: words_at(sections, MapSectionName::hoixbpme),
            transitions_index: texts_at(sections, MapSectionName::hoixdtae),
            trans_a1: bytes_at(sections, MapSectionName::hoix1tme),
            trans_b1: bytes_at(sections, MapSectionName::hoix2tme),
            trans_a2: bytes_at(sections, MapSectionName::hoix3tme),
            trans_b2: bytes_at(sections, MapSectionName::hoix4tme),
            landscape_index: texts_at(sections, MapSectionName::hoixdlae),
            landscape_job_types: bytes_at(sections, MapSectionName::hoixtlml),
            landscape_types: bytes_at(sections, MapSectionName::hoixalme),
            landscape_levels: bytes_at(sections, MapSectionName::hoixvlml),
        },
    )
}

/// Decodes a map container: scans its records, decodes the sections with a
/// known tag, skips the others, and puts the map data together.
pub fn read_map_data(data: Vec<u8>) -> (r: Result<CulturesMapData, DecodeError>)
    ensures
        match map_data_of(data@) {
            Ok(map) => r is Ok && r.unwrap()@ == map,
            Err(e) => r == Err::<CulturesMapData, DecodeError>(e),
        },
{
    let sections: MapSections = read_sections(data)?;
    assemble_map_data(&sections)
}

/// A section is kept after a scan exactly where it was kept before or a
/// record of the container carries its tag.
pub proof fn lemma_kept_sections(
    s: Seq<u8>,
    kept: Map<MapSectionName, DecodedView>,
    name: MapSectionName,
)
    requires
        demux_from(s, kept) is Ok,
    ensures
        demux_from(s, kept).unwrap().dom().contains(name) <==> kept.dom().contains(name)
            || holds_section(s, name),
    decreases s.len(),
{
    if s.len() != 0 {
        match name_of_tag(section_header_of(s).tag) {
            None => {
                lemma_kept_sections(after_record(s), kept, name);
            },
            Some(found) => {
                let section = crate::map::container::decoded_of(
                    found,
                    crate::map::container::record_payload(s),
                ).unwrap();
                lemma_kept_sections(after_record(s), kept.insert(found, section), name);
            },
        }
    }
}

/// A container whose records all decode, and none of which is the size
/// section, fails with an error that names the size section.
pub proof fn lemma_missing_size_section(s: Seq<u8>)
    requires
        demux_of(s) is Ok,
        !holds_section(s, MapSectionName::hoixzisl),
    ensures
        map_data_of(s) == Err::<MapDataView, DecodeError>(
            missing_section(MapSectionName::hoixzisl),
        ),
{
    lemma_kept_sections(s, Map::empty(), MapSectionName::hoixzisl);
}

/// A container that holds every mandatory section, and whose records all
/// decode, yields map data.
pub proof fn lemma_complete_container_decodes(s: Seq<u8>)
    requires
        demux_of(s) is Ok,
        forall|i: int| 0 <= i < mandatory().len() ==> holds_section(s, #[trigger] mandatory()[i]),
    ensures
        map_data_of(s) is Ok,
{
    let kept = demux_of(s).unwrap();
    assert forall|i: int| 0 <= i < mandatory().len() implies kept.dom().contains(
        #[trigger] mandatory()[i],
    ) by {
        lemma_kept_sections(s, Map::empty(), mandatory()[i]);
    }
    lemma_none_missing(kept, 0);
}

/// Where every mandatory section is kept, none is missing.
proof fn lemma_none_missing(kept: Map<MapSectionName, DecodedView>, i: int)
    requires
        0 <= i,
        forall|j: int| 0 <= j < mandatory().len() ==> kept.dom().contains(#[trigger] mandatory()[j]),
    ensures
        first_missing(kept, i) is None,
    decreases mandatory().len() - i,
{
    if i < mandatory().len() {
        lemma_none_missing(kept, i + 1);
    }
}

/// A record with a tag that is not known is skipped: the scan goes on right
/// behind its payload, as long as its header declares, and keeps what it
/// kept before.
pub proof fn lemma_unknown_section_is_skipped(s: Seq<u8>, kept: Map<MapSectionName, DecodedView>)
    requires
        record_fits(s),
        name_of_tag(section_header_of(s).tag) is None,
    ensures
        demux_from(s, kept) == demux_from(after_record(s), kept),
        after_record(s) == s.skip(32 + section_header_of(s).section_length),
        after_record(s).len() == s.len() - 32 - section_header_of(s).section_length,
{
}

} // verus!
