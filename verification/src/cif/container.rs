//! The byte layout of a definition container.
//!
//! Behind the magic number stand twelve bytes that are passed over, a header
//! of seven 32-bit fields, the enciphered index table, thirteen bytes that
//! are passed over, the enciphered text table, and the entries. An entry is
//! a level byte and a zero-terminated text. An entry of level 1 starts a
//! section, whose name is the text; any other entry is a line of the section
//! that was started last.

use vstd::prelude::*;
use crate::cif::definitions::IniCategory;
use crate::cif::definitions::IniCategoryView;
use crate::cif::parsed::records_of;
use crate::cif::parsed::records_view;
use crate::cif::parsed::reduce_sections;
use crate::cif::parsed::sections_view;
use crate::cif::section::ItemView;
use crate::cif::section::Section;
use crate::cif::section::SectionView;
use crate::cif::section::item_of;
use crate::cif::section::items_view;
use crate::cif::section::parse;
use crate::cipher::decode_cif;
use crate::cipher::deciphered;
use crate::codec::header_mismatch;
use crate::endian::le_u16_of;
use crate::endian::field_at;
use crate::error::DecodeError;
use crate::error::StructuralError;
use crate::reader::ByteCursor;
use crate::reader::first_zero;
use crate::reader::read_zero_terminated_string;
use crate::reader::truncated;
use crate::reader::zero_terminated_string_of;

verus! {

/// The magic number of the one kind of container that this library reads.
pub const CIF_MAGIC: u16 = 0x03FD;

/// The header of a container.
#[allow(non_snake_case)]
#[derive(Debug, Clone, Copy, PartialEq, Eq, Structural)]
pub struct Header {
    pub NrOfEntries: u32,
    pub NrOfEntries_dup1: u32,
    pub NrOfEntries_dup2: u32,
    pub SizeOfTextTable: u32,
    pub Unk2: u32,
    pub Unk3: u32,
    pub SizeOfIndexTable: u32,
}

/// A container, taken apart: its header, its two tables made plain, and its
/// sections.
#[derive(Debug, Clone, PartialEq, Eq)]
pub struct CifFile {
    pub header: Header,
    pub index_table: Vec<u8>,
    pub text_table: Vec<u8>,
    pub sections: Vec<Section>,
}

/// The mathematical value of a `CifFile`.
pub struct CifFileView {
    pub header: Header,
    pub index_table: Seq<u8>,
    pub text_table: Seq<u8>,
    pub sections: Seq<SectionView>,
}

impl View for CifFile {
    type V = CifFileView;

    open spec fn view(&self) -> CifFileView {
        CifFileView {
            header: self.header,
            index_table: self.index_table@,
            text_table: self.text_table@,
            sections: sections_view(self.sections@),
        }
    }
}

/// The error of a container with another magic number.
pub open spec fn bad_magic() -> DecodeError {
    DecodeError::Malformed(StructuralError::BadMagic)
}

/// The error of a line that stands before the first section.
pub open spec fn orphan_item() -> DecodeError {
    DecodeError::Malformed(StructuralError::OrphanItem)
}

/// The header of the container whose bytes behind the magic number are `s`.
pub open spec fn header_of(s: Seq<u8>) -> Header {
    Header {
        NrOfEntries: field_at(s, 12),
        NrOfEntries_dup1: field_at(s, 16),
        NrOfEntries_dup2: field_at(s, 20),
        SizeOfTextTable: field_at(s, 24),
        Unk2: field_at(s, 28),
        Unk3: field_at(s, 32),
        SizeOfIndexTable: field_at(s, 36),
    }
}

/// Whether the three entry counts of a header agree.
pub open spec fn counts_agree(h: Header) -> bool {
    h.NrOfEntries == h.NrOfEntries_dup1 && h.NrOfEntries == h.NrOfEntries_dup2
}

/// Where the text table starts in `s`, the bytes behind the magic number.
pub open spec fn text_table_start(s: Seq<u8>) -> int {
    40 + header_of(s).SizeOfIndexTable + 13
}

/// Where the entries start in `s`, the bytes behind the magic number.
pub open spec fn entries_start(s: Seq<u8>) -> int {
    text_table_start(s) + header_of(s).SizeOfTextTable
}

/// What is wrong with the part of a container that stands before its
/// entries, if anything is: the header is cut short, its entry counts
/// disagree, or a table is cut short.
pub open spec fn tables_error(s: Seq<u8>) -> Option<DecodeError> {
    if s.len() < 40 {
        Some(truncated())
    } else if !counts_agree(header_of(s)) {
        Some(header_mismatch())
    } else if s.len() < text_table_start(s) {
        Some(truncated())
    } else if s.len() < entries_start(s) {
        Some(truncated())
    } else {
        None
    }
}

/// The sections with one more line in the last of them.
pub open spec fn with_item(sections: Seq<SectionView>, item: ItemView) -> Seq<SectionView> {
    sections.update(
        sections.len() - 1,
        SectionView { name: sections.last().name, items: sections.last().items.push(item) },
    )
}

/// The sections after `count` entries are read from `s`, with `sections`
/// read before. A line that holds no item is passed over.
pub open spec fn entries_from(s: Seq<u8>, count: nat, sections: Seq<SectionView>) -> Result<
    Seq<SectionView>,
    DecodeError,
>
    decreases count,
{
    if count == 0 {
        Ok(sections)
    } else if s.len() < 1 {
        Err(truncated())
    } else {
        match zero_terminated_string_of(s.skip(1)) {
            Err(e) => Err(e),
            Ok(text) => {
                let rest = s.skip(1).skip(first_zero(s.skip(1)) + 1);
                if s[0] == 1 {
                    entries_from(
                        rest,
                        (count - 1) as nat,
                        sections.push(SectionView { name: text, items: Seq::empty() }),
                    )
                } else if sections.len() == 0 {
                    Err(orphan_item())
                } else {
                    match item_of(text) {
                        None => entries_from(rest, (count - 1) as nat, sections),
                        Some(item) => entries_from(
                            rest,
                            (count - 1) as nat,
                            with_item(sections, item),
                        ),
                    }
                }
            },
        }
    }
}

/// The container whose bytes behind the magic number are `s`.
pub open spec fn cif_file_of(s: Seq<u8>) -> Result<CifFileView, DecodeError> {
    match tables_error(s) {
        Some(e) => Err(e),
        None => match entries_from(
            s.skip(entries_start(s)),
            header_of(s).NrOfEntries as nat,
            Seq::empty(),
        ) {
            Err(e) => Err(e),
            Ok(sections) => Ok(
                CifFileView {
                    header: header_of(s),
                    index_table: deciphered(s.subrange(40, 40 + header_of(s).SizeOfIndexTable)),
                    text_table: deciphered(s.subrange(text_table_start(s), entries_start(s))),
                    sections,
                },
            ),
        },
    }
}

/// The records of the container whose bytes behind the magic number are `s`.
pub open spec fn cif_records_of(s: Seq<u8>) -> Result<Seq<IniCategoryView>, DecodeError> {
    match cif_file_of(s) {
        Err(e) => Err(e),
        Ok(file) => records_of(file.sections),
    }
}

/// The records of a container.
pub open spec fn cif_of(data: Seq<u8>) -> Result<Seq<IniCategoryView>, DecodeError> {
    if data.len() < 2 {
        Err(truncated())
    } else if le_u16_of(data) != 0x03FD {
        Err(bad_magic())
    } else {
        cif_records_of(data.skip(2))
    }
}

/// The sections that were closed and the one that is open, as one sequence.
pub open spec fn sections_so_far(done: Seq<Section>, open: Option<Section>) -> Seq<SectionView> {
    match open {
        Some(section) => sections_view(done).push(section@),
        None => sections_view(done),
    }
}

/// Reads `count` entries and gathers them into sections.
pub fn read_entries(view: &mut ByteCursor, count: u32) -> (r: Result<Vec<Section>, DecodeError>)
    ensures
        match entries_from(old(view)@, count as nat, Seq::empty()) {
            Ok(sections) => r is Ok && sections_view(r.unwrap()@) == sections,
            Err(e) => r == Err::<Vec<Section>, DecodeError>(e),
        },
{
    let ghost target = entries_from(view@, count as nat, Seq::empty());
    let mut sections: Vec<Section> = Vec::new();
    let mut current: Option<Section> = None;
    let mut i: u32 = 0;
    assert(sections_so_far(sections@, current) =~= Seq::<SectionView>::empty());
    while i < count
        invariant
            i <= count,
            target == entries_from(old(view)@, count as nat, Seq::empty()),
            current is None ==> sections@.len() == 0,
            entries_from(view@, (count - i) as nat, sections_so_far(sections@, current)) == target,
        decreases count - i,
    {
        let ghost s = view@;
        let ghost before = sections_so_far(sections@, current);
        let level: u8 = view.read_u8()?;
        let text: String = read_zero_terminated_string(view)?;
        if level == 1 {
            match current {
                Some(section) => {
                    sections.push(section);
                },
                None => {},
            }
            assert(sections_view(sections@) =~= before);
            current = Some(Section { name: text, items: Vec::new() });
            assert(items_view(current.unwrap().items@) =~= Seq::<ItemView>::empty());
        } else {
            match current {
                None => {
                    return Err(DecodeError::Malformed(StructuralError::OrphanItem));
                },
                Some(section) => {
                    let mut section = section;
                    let ghost items_before = items_view(section.items@);
                    match parse(text) {
                        Some(line) => {
                            section.items.push(line);
                            assert(items_view(section.items@) =~= items_before.push(line@));
                            assert(sections_view(sections@).push(section@) =~= with_item(
                                before,
                                line@,
                            ));
                        },
                        None => {},
                    }
                    current = Some(section);
                },
            }
        }
        i = i + 1;
    }
    match current {
        Some(section) => {
            sections.push(section);
        },
        None => {},
    }
    assert(sections_view(sections@) =~= target.unwrap());
    Ok(sections)
}

/// Takes a container apart, from behind its magic number on: reads the
/// header, makes the two tables plain, and gathers the entries into
/// sections.
pub fn tokenize_3fd_cif(view: &mut ByteCursor) -> (r: Result<CifFile, DecodeError>)
    ensures
        match cif_file_of(old(view)@) {
            Ok(file) => r is Ok && r.unwrap()@ == file,
            Err(e) => r == Err::<CifFile, DecodeError>(e),
        },
{
    let ghost s = view@;
    if view.remaining() < 40 {
        return Err(DecodeError::Malformed(StructuralError::Truncated));
    }
    view.skip(12)?;
    #[allow(non_snake_case)]
    let NrOfEntries: u32 = view.read_u32()?;
    #[allow(non_snake_case)]
    let NrOfEntries_dup1: u32 = view.read_u32()?;
    #[allow(non_snake_case)]
    let NrOfEntries_dup2: u32 = view.read_u32()?;
    assert(view@ =~= s.skip(24));
    #[allow(non_snake_case)]
    let SizeOfTextTable: u32 = view.read_u32()?;
    #[allow(non_snake_case)]
    let Unk2: u32 = view.read_u32()?;
    #[allow(non_snake_case)]
    let Unk3: u32 = view.read_u32()?;
    assert(view@ =~= s.skip(36));
    #[allow(non_snake_case)]
    let SizeOfIndexTable: u32 = view.read_u32()?;
    assert(view@ =~= s.skip(40));
    proof {
        assert(s.skip(12).skip(4) =~= s.skip(16));
        assert(s.skip(16).skip(4) =~= s.skip(20));
        assert(s.skip(24).skip(4) =~= s.skip(28));
        assert(s.skip(28).skip(4) =~= s.skip(32));
    }
    let header = Header {
        NrOfEntries,
        NrOfEntries_dup1,
        NrOfEntries_dup2,
        SizeOfTextTable,
        Unk2,
        Unk3,
        SizeOfIndexTable,
    };
    assert(header == header_of(s));
    if NrOfEntries != NrOfEntries_dup1 || NrOfEntries != NrOfEntries_dup2 {
        return Err(DecodeError::Malformed(StructuralError::HeaderMismatch));
    }
    let left: usize = view.remaining();
    if left < 13 || left - 13 < SizeOfIndexTable as usize {
        return Err(DecodeError::Malformed(StructuralError::Truncated));
    }
    let mut index_table: Vec<u8> = view.read_vec(SizeOfIndexTable as usize)?;
    assert(index_table@ =~= s.subrange(40, 40 + SizeOfIndexTable));
    decode_cif(&mut index_table);
    view.skip(13)?;
    assert(view@ =~= s.skip(text_table_start(s)));
    if view.remaining() < SizeOfTextTable as usize {
        return Err(DecodeError::Malformed(StructuralError::Truncated));
    }
    let mut text_table: Vec<u8> = view.read_vec(SizeOfTextTable as usize)?;
    assert(text_table@ =~= s.subrange(text_table_start(s), entries_start(s)));
    decode_cif(&mut text_table);
    assert(view@ =~= s.skip(entries_start(s)));
    let sections: Vec<Section> = read_entries(view, NrOfEntries)?;
    Ok(CifFile { header, index_table, text_table, sections })
}

/// Reads a container from behind its magic number on, and builds a record
/// from every section of it.
pub fn read_3fd_cif(view: &mut ByteCursor) -> (r: Result<Vec<IniCategory>, DecodeError>)
    ensures
        match cif_records_of(old(view)@) {
            Ok(records) => r is Ok && records_view(r.unwrap()@) == records,
            Err(e) => r == Err::<Vec<IniCategory>, DecodeError>(e),
        },
{
    let file: CifFile = tokenize_3fd_cif(view)?;
    reduce_sections(file.sections)
}

/// Reads a definition container. The only magic number that is known is
/// `0x03FD`; a container with another one is rejected.
pub fn read_cif(data: Vec<u8>) -> (r: Result<Vec<IniCategory>, DecodeError>)
    ensures
        match cif_of(data@) {
            Ok(records) => r is Ok && records_view(r.unwrap()@) == records,
            Err(e) => r == Err::<Vec<IniCategory>, DecodeError>(e),
        },
{
    let mut view: ByteCursor = ByteCursor::new(data);
    let magic: u16 = view.read_u16()?;
    if magic != CIF_MAGIC {
        return Err(DecodeError::Malformed(StructuralError::BadMagic));
    }
    read_3fd_cif(&mut view)
}

} // verus!
