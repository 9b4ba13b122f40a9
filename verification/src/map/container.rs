//! The scan of a map container.
//!
//! A container is a sequence of records. A record is a header of 32 bytes,
//! which holds the section's tag and the length of its payload, and the
//! payload. A section with a known tag is decoded and kept under its tag; of
//! two sections with one tag the later one is kept. A section with any other
//! tag is skipped. The scan ends where the buffer ends.

use vstd::prelude::*;
use crate::codec::ChannelView;
use crate::codec::CommonDecoded;
use crate::codec::CommonDecoded2;
use crate::codec::HoixzislData;
use crate::codec::RawDecoded;
use crate::codec::common_decoded2_of;
use crate::codec::common_decoded_of;
use crate::codec::common_decoding;
use crate::codec::common_decoding2;
use crate::codec::dictionary;
use crate::codec::dictionary_of;
use crate::codec::hoixzisl_of;
use crate::codec::hoixzisl_parse;
use crate::codec::raw;
use crate::codec::raw_decoded_of;
use crate::codec::texts_of;
use crate::endian::le_u32_of;
use crate::error::DecodeError;
use crate::error::StructuralError;
use crate::map::tags::Codec;
use crate::map::tags::MapSectionName;
use crate::map::tags::SECTION_COUNT;
use crate::map::tags::codec_of;
use crate::map::tags::index_of;
use crate::map::tags::name_of_tag;
use crate::reader::ByteCursor;
use crate::reader::is_eof;
use crate::reader::truncated;

verus! {

/// The header of a record.
#[derive(Debug, Clone, PartialEq, Eq)]
pub struct SectionHeader {
    /// The section's tag: eight bytes.
    pub tag: Vec<u8>,
    pub unk1: u32,
    /// The length of the payload in bytes.
    pub section_length: u32,
    pub unk2: u32,
    pub unk3: u32,
    pub unk4: u32,
    pub unk5: u32,
}

/// The mathematical value of a `SectionHeader`.
pub struct SectionHeaderView {
    pub tag: Seq<u8>,
    pub unk1: u32,
    pub section_length: u32,
    pub unk2: u32,
    pub unk3: u32,
    pub unk4: u32,
    pub unk5: u32,
}

impl View for SectionHeader {
    type V = SectionHeaderView;

    open spec fn view(&self) -> SectionHeaderView {
        SectionHeaderView {
            tag: self.tag@,
            unk1: self.unk1,
            section_length: self.section_length,
            unk2: self.unk2,
            unk3: self.unk3,
            unk4: self.unk4,
            unk5: self.unk5,
        }
    }
}

/// The size of a record's header in bytes.
pub open spec fn header_size() -> int {
    32
}

/// The header that the first 32 bytes of `s` hold.
pub open spec fn section_header_of(s: Seq<u8>) -> SectionHeaderView {
    SectionHeaderView {
        tag: s.take(8),
        unk1: le_u32_of(s.skip(8)) as u32,
        section_length: le_u32_of(s.skip(12)) as u32,
        unk2: le_u32_of(s.skip(16)) as u32,
        unk3: le_u32_of(s.skip(20)) as u32,
        unk4: le_u32_of(s.skip(24)) as u32,
        unk5: le_u32_of(s.skip(28)) as u32,
    }
}

/// Whether a whole record stands at the head of `s`.
pub open spec fn record_fits(s: Seq<u8>) -> bool {
    s.len() >= 32 && s.len() - 32 >= section_header_of(s).section_length
}

/// The payload of the record at the head of `s`.
pub open spec fn record_payload(s: Seq<u8>) -> Seq<u8> {
    s.subrange(32, 32 + section_header_of(s).section_length)
}

/// The bytes that follow the record at the head of `s`.
pub open spec fn after_record(s: Seq<u8>) -> Seq<u8> {
    s.skip(32 + section_header_of(s).section_length)
}

/// A decoded section.
#[derive(Debug, Clone, PartialEq, Eq)]
pub enum DecodedSection {
    Bytes(CommonDecoded),
    Words(CommonDecoded2),
    Dictionary(Vec<String>),
    Raw(RawDecoded),
    Size(HoixzislData),
}

/// The mathematical value of a `DecodedSection`.
pub enum DecodedView {
    Bytes(ChannelView<u8>),
    Words(ChannelView<u16>),
    Dictionary(Seq<Seq<char>>),
    Raw(ChannelView<u8>),
    Size(HoixzislData),
}

impl View for DecodedSection {
    type V = DecodedView;

    open spec fn view(&self) -> DecodedView {
        match self {
            DecodedSection::Bytes(c) => DecodedView::Bytes(c@),
            DecodedSection::Words(c) => DecodedView::Words(c@),
            DecodedSection::Dictionary(t) => DecodedView::Dictionary(texts_of(t@)),
            DecodedSection::Raw(c) => DecodedView::Raw(c@),
            DecodedSection::Size(d) => DecodedView::Size(*d),
        }
    }
}

/// What the payload of a known section decodes to, by the codec of its tag.
pub open spec fn decoded_of(name: MapSectionName, payload: Seq<u8>) -> Result<
    DecodedView,
    DecodeError,
> {
    match codec_of(name) {
        Codec::ByteRle => match common_decoded_of(payload) {
            Ok(c) => Ok(DecodedView::Bytes(c)),
            Err(e) => Err(e),
        },
        Codec::WordRle => match common_decoded2_of(payload) {
            Ok(c) => Ok(DecodedView::Words(c)),
            Err(e) => Err(e),
        },
        Codec::Dictionary => match dictionary_of(payload) {
            Ok(t) => Ok(DecodedView::Dictionary(t)),
            Err(e) => Err(e),
        },
        Codec::Raw => match raw_decoded_of(payload) {
            Ok(c) => Ok(DecodedView::Raw(c)),
            Err(e) => Err(e),
        },
        Codec::Size => match hoixzisl_of(payload) {
            Ok(d) => Ok(DecodedView::Size(d)),
            Err(e) => Err(e),
        },
    }
}

/// The sections that are kept after the records of `s` are scanned, with
/// `kept` held before. The first record that is cut short, or whose known
/// section does not decode, ends the scan with its error.
pub open spec fn demux_from(s: Seq<u8>, kept: Map<MapSectionName, DecodedView>) -> Result<
    Map<MapSectionName, DecodedView>,
    DecodeError,
>
    decreases s.len(),
{
    if s.len() == 0 {
        Ok(kept)
    } else if !record_fits(s) {
        Err(truncated())
    } else {
        match name_of_tag(section_header_of(s).tag) {
            None => demux_from(after_record(s), kept),
            Some(name) => match decoded_of(name, record_payload(s)) {
                Err(e) => Err(e),
                Ok(section) => demux_from(after_record(s), kept.insert(name, section)),
            },
        }
    }
}

/// The sections of a container, each under its tag.
pub open spec fn demux_of(s: Seq<u8>) -> Result<Map<MapSectionName, DecodedView>, DecodeError> {
    demux_from(s, Map::empty())
}

/// Whether a record with the tag of `name` stands in the container `s`.
pub open spec fn holds_section(s: Seq<u8>, name: MapSectionName) -> bool
    decreases s.len(),
{
    if s.len() == 0 || !record_fits(s) {
        false
    } else {
        name_of_tag(section_header_of(s).tag) == Some(name) || holds_section(after_record(s), name)
    }
}

/// The decoded sections of a container, each under its tag.
pub struct MapSections {
    slots: Vec<Option<DecodedSection>>,
}

impl View for MapSections {
    type V = Map<MapSectionName, DecodedView>;

    closed spec fn view(&self) -> Map<MapSectionName, DecodedView> {
        Map::new(
            |name: MapSectionName| self.slots@[index_of(name)] is Some,
            |name: MapSectionName| self.slots@[index_of(name)].unwrap()@,
        )
    }
}

impl MapSections {
    /// Whether there is one place for every known section.
    pub closed spec fn wf(&self) -> bool {
        self.slots@.len() == SECTION_COUNT
    }

    /// No section.
    pub fn new() -> (sections: MapSections)
        ensures
            sections.wf(),
            sections@ == Map::<MapSectionName, DecodedView>::empty(),
    {
        let mut slots: Vec<Option<DecodedSection>> = Vec::new();
        let mut i: usize = 0;
        while i < SECTION_COUNT
            invariant
                i <= SECTION_COUNT,
                slots@.len() == i,
                forall|j: int| 0 <= j < i ==> slots@[j] is None,
            decreases SECTION_COUNT - i,
        {
            slots.push(None);
            i = i + 1;
        }
        let sections = MapSections { slots };
        assert(sections@ =~= Map::<MapSectionName, DecodedView>::empty());
        sections
    }

    /// Keeps a section under its tag, in place of the one kept before.
    pub fn insert(&mut self, name: MapSectionName, section: DecodedSection)
        requires
            old(self).wf(),
        ensures
            final(self).wf(),
            final(self)@ == old(self)@.insert(name, section@),
    {
        let i: usize = name.index();
        self.slots.set(i, Some(section));
        assert(self@ =~= old(self)@.insert(name, section@)) by {
            assert forall|other: MapSectionName| other != name implies index_of(other) != index_of(
                name,
            ) by {}
        }
    }

    /// The section that is kept under a tag.
    pub fn get(&self, name: MapSectionName) -> (section: Option<&DecodedSection>)
        requires
            self.wf(),
        ensures
            section is Some <==> self@.dom().contains(name),
            section matches Some(found) ==> found@ == self@[name],
    {
        let i: usize = name.index();
        self.slots[i].as_ref()
    }
}

/// Reads the header of a record.
pub fn read_header(view: &mut ByteCursor) -> (r: Result<SectionHeader, DecodeError>)
    ensures
        r is Ok <==> old(view)@.len() >= 32,
        r matches Ok(header) ==> header@ == section_header_of(old(view)@) && final(view)@ == old(
            view,
        )@.skip(32),
        r is Err ==> r == Err::<SectionHeader, DecodeError>(truncated()),
{
    if view.remaining() < 32 {
        return Err(DecodeError::Malformed(StructuralError::Truncated));
    }
    let ghost s = view@;
    let tag: Vec<u8> = view.read_vec(8)?;
    assert(view@ =~= s.skip(8));
    let unk1: u32 = view.read_u32()?;
    assert(view@ =~= s.skip(12));
    let section_length: u32 = view.read_u32()?;
    assert(view@ =~= s.skip(16));
    let unk2: u32 = view.read_u32()?;
    assert(view@ =~= s.skip(20));
    let unk3: u32 = view.read_u32()?;
    assert(view@ =~= s.skip(24));
    let unk4: u32 = view.read_u32()?;
    assert(view@ =~= s.skip(28));
    let unk5: u32 = view.read_u32()?;
    assert(view@ =~= s.skip(32));
    Ok(SectionHeader { tag, unk1, section_length, unk2, unk3, unk4, unk5 })
}

/// Decodes the payload of a known section with the codec of its tag.
pub fn decode_section(name: MapSectionName, payload: Vec<u8>) -> (r: Result<
    DecodedSection,
    DecodeError,
>)
    ensures
        match decoded_of(name, payload@) {
            Ok(section) => r is Ok && r.unwrap()@ == section,
            Err(e) => r == Err::<DecodedSection, DecodeError>(e),
        },
{
    let mut view: ByteCursor = ByteCursor::new(payload);
    match name.codec() {
        Codec::ByteRle => Ok(DecodedSection::Bytes(common_decoding(&mut view)?)),
        Codec::WordRle => Ok(DecodedSection::Words(common_decoding2(&mut view)?)),
        Codec::Dictionary => Ok(DecodedSection::Dictionary(dictionary(&mut view)?)),
        Codec::Raw => Ok(DecodedSection::Raw(raw(&mut view)?)),
        Codec::Size => Ok(DecodedSection::Size(hoixzisl_parse(&mut view)?)),
    }
}

/// Scans a container and decodes every section with a known tag.
pub fn read_sections(data: Vec<u8>) -> (r: Result<MapSections, DecodeError>)
    ensures
        match demux_of(data@) {
            Ok(kept) => r is Ok && r.unwrap().wf() && r.unwrap()@ == kept,
            Err(e) => r == Err::<MapSections, DecodeError>(e),
        },
{
    let ghost target = demux_of(data@);
    let mut cursor: ByteCursor = ByteCursor::new(data);
    let mut sections: MapSections = MapSections::new();
    while !is_eof(&cursor)
        invariant
            target == demux_of(data@),
            sections.wf(),
            demux_from(cursor@, sections@) == target,
        decreases cursor@.len(),
    {
        let ghost s = cursor@;
        let header: SectionHeader = read_header(&mut cursor)?;
        let payload: Vec<u8> = cursor.read_vec(header.section_length as usize)?;
        assert(payload@ =~= record_payload(s));
        assert(cursor@ =~= after_record(s));
        match MapSectionName::from_tag(header.tag.as_slice()) {
            Some(section_name) => {
                let section: DecodedSection = decode_section(section_name, payload)?;
                sections.insert(section_name, section);
            },
            None => {},
        }
    }
    Ok(sections)
}

} // verus!
