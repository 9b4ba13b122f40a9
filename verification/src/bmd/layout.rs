//! The byte layout of a sprite container.
//!
//! A file is a header of nine 32-bit fields and three sections. Every section
//! starts with a header of three 32-bit fields, the last of which is the
//! length of the section's body in bytes. All integers are little-endian.

use vstd::prelude::*;
use crate::endian::field_at;
use crate::error::DecodeError;
use crate::error::StructuralError;
use crate::reader::ByteCursor;
use crate::reader::truncated;

verus! {

/// How the pixels of a frame are stored and coloured.
#[derive(Debug, Clone, Copy, PartialEq, Eq, Structural)]
pub enum BmdFrameType {
    /// One palette index for each pixel; the pixel is opaque.
    Normal,
    /// Nothing stored for a pixel; every pixel is a half-transparent black.
    Shadow,
    /// A palette index and a second byte for each pixel.
    Extended,
}

/// One entry of the frame directory.
#[derive(Debug, Clone, Copy, PartialEq, Eq, Structural)]
pub struct BmdFrameInfo {
    /// The frame's kind.
    pub type_: BmdFrameType,
    /// The horizontal offset at which the frame is drawn.
    pub dx: u8,
    /// The vertical offset at which the frame is drawn.
    pub dy: u8,
    /// The number of pixels in a row.
    pub width: u8,
    /// The number of rows.
    pub len: u8,
    /// The index of the frame's first row in the row directory.
    pub off: u8,
}

/// One entry of the row directory: where a row's runs start in the pixel
/// pool, and how far the row is indented.
#[derive(Debug, Clone, Copy, PartialEq, Eq, Structural)]
pub struct BmdFrameRow {
    /// The low 22 bits of the packed word.
    pub offset: u32,
    /// The high 10 bits of the packed word.
    pub indent: u32,
}

/// The header in front of each of the three sections.
#[derive(Debug, Clone, Copy, PartialEq, Eq, Structural)]
pub struct BmdFileSectionHeader {
    pub magic: u32,
    pub zero0: u32,
    pub length: u32,
}

/// The header of a sprite container.
#[derive(Debug, Clone, Copy, PartialEq, Eq, Structural)]
pub struct BmdFileHeader {
    pub magic: u32,
    pub zero0: u32,
    pub zero1: u32,
    pub num_frames: u32,
    pub num_pixels: u32,
    pub num_rows: u32,
    pub unknown0: u32,
    pub unknown1: u32,
    pub zero2: u32,
}

/// A sprite container, taken apart but not decoded.
#[derive(Debug, Clone, PartialEq, Eq)]
pub struct RawBmdFile {
    pub header: BmdFileHeader,
    pub frame_infos: Vec<BmdFrameInfo>,
    pub pixels: Vec<u8>,
    pub row_infos: Vec<BmdFrameRow>,
}

/// The mathematical value of a `RawBmdFile`.
pub struct RawBmdFileView {
    pub header: BmdFileHeader,
    pub frame_infos: Seq<BmdFrameInfo>,
    pub pixels: Seq<u8>,
    pub row_infos: Seq<BmdFrameRow>,
}

impl View for RawBmdFile {
    type V = RawBmdFileView;

    open spec fn view(&self) -> RawBmdFileView {
        RawBmdFileView {
            header: self.header,
            frame_infos: self.frame_infos@,
            pixels: self.pixels@,
            row_infos: self.row_infos@,
        }
    }
}

/// The error of a frame whose kind tag is not known.
pub open spec fn unknown_frame_kind() -> DecodeError {
    DecodeError::Malformed(StructuralError::UnknownFrameKind)
}

/// The kind that a tag byte stands for.
pub open spec fn frame_type_of(id: u8) -> Result<BmdFrameType, DecodeError> {
    if id == 1 {
        Ok(BmdFrameType::Normal)
    } else if id == 2 {
        Ok(BmdFrameType::Shadow)
    } else if id == 4 {
        Ok(BmdFrameType::Extended)
    } else {
        Err(unknown_frame_kind())
    }
}

/// The file header that the first 36 bytes of `s` hold.
pub open spec fn file_header_of(s: Seq<u8>) -> BmdFileHeader {
    BmdFileHeader {
        magic: field_at(s, 0),
        zero0: field_at(s, 4),
        zero1: field_at(s, 8),
        num_frames: field_at(s, 12),
        num_pixels: field_at(s, 16),
        num_rows: field_at(s, 20),
        unknown0: field_at(s, 24),
        unknown1: field_at(s, 28),
        zero2: field_at(s, 32),
    }
}

/// The section header that the first 12 bytes of `s` hold.
pub open spec fn section_header_of(s: Seq<u8>) -> BmdFileSectionHeader {
    BmdFileSectionHeader { magic: field_at(s, 0), zero0: field_at(s, 4), length: field_at(s, 8) }
}

/// The body of the section at the head of `s`: the bytes after its header, as
/// many as the header declares.
pub open spec fn section_body_of(s: Seq<u8>) -> Result<Seq<u8>, DecodeError> {
    if s.len() < 12 || s.len() - 12 < section_header_of(s).length {
        Err(truncated())
    } else {
        Ok(s.subrange(12, 12 + section_header_of(s).length))
    }
}

/// The bytes that follow the section at the head of `s`.
pub open spec fn after_section(s: Seq<u8>) -> Seq<u8> {
    s.skip(12 + section_header_of(s).length)
}

/// The frame directory entry that the first six bytes of `s` hold.
pub open spec fn frame_info_of(s: Seq<u8>) -> Result<BmdFrameInfo, DecodeError> {
    match frame_type_of(s[0]) {
        Ok(kind) => Ok(BmdFrameInfo { type_: kind, dx: s[1], dy: s[2], width: s[3], len: s[4], off: s[5] }),
        Err(e) => Err(e),
    }
}

/// Entry `i` of a frame directory.
pub open spec fn frame_info_at(body: Seq<u8>, i: int) -> Result<BmdFrameInfo, DecodeError> {
    frame_info_of(body.skip(6 * i))
}

/// The frame directory that a section body holds: one entry for every six
/// bytes; bytes left over at the end belong to no entry.
pub open spec fn frame_infos_of(body: Seq<u8>) -> Result<Seq<BmdFrameInfo>, DecodeError> {
    if forall|i: int| 0 <= i < body.len() / 6 ==> (#[trigger] frame_info_at(body, i)) is Ok {
        Ok(Seq::new((body.len() / 6) as nat, |i: int| frame_info_at(body, i).unwrap()))
    } else {
        Err(unknown_frame_kind())
    }
}

/// The row directory entry that a packed word holds.
pub open spec fn frame_row_of(word: u32) -> BmdFrameRow {
    BmdFrameRow { offset: word & 0x3F_FFFFu32, indent: (word >> 22) & 0x3FFu32 }
}

/// The row directory that a section body holds: one entry for every four
/// bytes; bytes left over at the end belong to no entry.
pub open spec fn frame_rows_of(body: Seq<u8>) -> Seq<BmdFrameRow> {
    Seq::new((body.len() / 4) as nat, |i: int| frame_row_of(field_at(body, 4 * i)))
}

/// The container that `s` holds: the file header, then the frame directory,
/// the pixel pool and the row directory, each in a section of its own.
pub open spec fn bmd_file_of(s: Seq<u8>) -> Result<RawBmdFileView, DecodeError> {
    if s.len() < 36 {
        Err(truncated())
    } else {
        let s1 = s.skip(36);
        match section_body_of(s1) {
            Err(e) => Err(e),
            Ok(frames) => match frame_infos_of(frames) {
                Err(e) => Err(e),
                Ok(frame_infos) => {
                    let s2 = after_section(s1);
                    match section_body_of(s2) {
                        Err(e) => Err(e),
                        Ok(pixels) => {
                            let s3 = after_section(s2);
                            match section_body_of(s3) {
                                Err(e) => Err(e),
                                Ok(rows) => Ok(
                                    RawBmdFileView {
                                        header: file_header_of(s),
                                        frame_infos,
                                        pixels,
                                        row_infos: frame_rows_of(rows),
                                    },
                                ),
                            }
                        },
                    }
                },
            }
        }
    }
}

/// The kind that a tag byte stands for; any other tag is an error.
pub fn get_bmd_frame_type(id: u8) -> (r: Result<BmdFrameType, DecodeError>)
    ensures
        r == frame_type_of(id),
{
    if id == 1 {
        Ok(BmdFrameType::Normal)
    } else if id == 2 {
        Ok(BmdFrameType::Shadow)
    } else if id == 4 {
        Ok(BmdFrameType::Extended)
    } else {
        Err(DecodeError::Malformed(StructuralError::UnknownFrameKind))
    }
}

/// Reads the header of a section.
pub fn read_bmd_section_header(cursor: &mut ByteCursor) -> (r: Result<
    BmdFileSectionHeader,
    DecodeError,
>)
    ensures
        r is Ok <==> old(cursor)@.len() >= 12,
        r matches Ok(h) ==> h == section_header_of(old(cursor)@) && final(cursor)@ == old(
            cursor,
        )@.skip(12),
        r is Err ==> r == Err::<BmdFileSectionHeader, DecodeError>(truncated()),
{
    if cursor.remaining() < 12 {
        return Err(DecodeError::Malformed(StructuralError::Truncated));
    }
    let ghost s = cursor@;
    let magic: u32 = cursor.read_u32()?;
    let zero0: u32 = cursor.read_u32()?;
    let length: u32 = cursor.read_u32()?;
    assert(cursor@ =~= s.skip(12));
    assert(s.skip(0) =~= s);
    assert(s.skip(4).skip(4) =~= s.skip(8));
    Ok(BmdFileSectionHeader { magic, zero0, length })
}

/// Reads the header of a container.
pub fn read_bmd_file_header(cursor: &mut ByteCursor) -> (r: Result<BmdFileHeader, DecodeError>)
    ensures
        r is Ok <==> old(cursor)@.len() >= 36,
        r matches Ok(h) ==> h == file_header_of(old(cursor)@) && final(cursor)@ == old(
            cursor,
        )@.skip(36),
        r is Err ==> r == Err::<BmdFileHeader, DecodeError>(truncated()),
{
    if cursor.remaining() < 36 {
        return Err(DecodeError::Malformed(StructuralError::Truncated));
    }
    let ghost s = cursor@;
    let magic: u32 = cursor.read_u32()?;
    let zero0: u32 = cursor.read_u32()?;
    let zero1: u32 = cursor.read_u32()?;
    assert(cursor@ =~= s.skip(12));
    let num_frames: u32 = cursor.read_u32()?;
    let num_pixels: u32 = cursor.read_u32()?;
    let num_rows: u32 = cursor.read_u32()?;
    assert(cursor@ =~= s.skip(24));
    let unknown0: u32 = cursor.read_u32()?;
    let unknown1: u32 = cursor.read_u32()?;
    let zero2: u32 = cursor.read_u32()?;
    assert(cursor@ =~= s.skip(36));
    assert(s.skip(0) =~= s);
    assert(s.skip(4).skip(4) =~= s.skip(8));
    assert(s.skip(12).skip(4) =~= s.skip(16));
    assert(s.skip(16).skip(4) =~= s.skip(20));
    assert(s.skip(24).skip(4) =~= s.skip(28));
    assert(s.skip(28).skip(4) =~= s.skip(32));
    Ok(
        BmdFileHeader {
            magic,
            zero0,
            zero1,
            num_frames,
            num_pixels,
            num_rows,
            unknown0,
            unknown1,
            zero2,
        },
    )
}

/// Reads one entry of the frame directory. Nothing is consumed where the
/// entry is incomplete or its kind is unknown.
pub fn read_frame_info(cursor: &mut ByteCursor) -> (r: Result<BmdFrameInfo, DecodeError>)
    ensures
        r == (if old(cursor)@.len() < 6 {
            Err::<BmdFrameInfo, DecodeError>(truncated())
        } else {
            frame_info_of(old(cursor)@)
        }),
        r is Ok ==> final(cursor)@ == old(cursor)@.skip(6),
        r is Err ==> final(cursor)@ == old(cursor)@,
{
    match cursor.peek_vec(0, 6) {
        None => Err(DecodeError::Malformed(StructuralError::Truncated)),
        Some(entry) => {
            let kind: BmdFrameType = get_bmd_frame_type(entry[0])?;
            cursor.skip(6)?;
            Ok(
                BmdFrameInfo {
                    type_: kind,
                    dx: entry[1],
                    dy: entry[2],
                    width: entry[3],
                    len: entry[4],
                    off: entry[5],
                },
            )
        },
    }
}

/// Reads the body of the section at the cursor, header first.
fn read_section_body(cursor: &mut ByteCursor) -> (r: Result<Vec<u8>, DecodeError>)
    ensures
        r is Ok <==> section_body_of(old(cursor)@) is Ok,
        r matches Ok(body) ==> Ok::<Seq<u8>, DecodeError>(body@) == section_body_of(
            old(cursor)@,
        ) && final(cursor)@ == after_section(old(cursor)@),
        r matches Err(e) ==> Err::<Seq<u8>, DecodeError>(e) == section_body_of(old(cursor)@),
{
    let ghost s = cursor@;
    let header: BmdFileSectionHeader = read_bmd_section_header(cursor)?;
    let body: Vec<u8> = cursor.read_vec(header.length as usize)?;
    assert(body@ =~= s.subrange(12, 12 + header.length));
    assert(cursor@ =~= s.skip(12 + header.length));
    Ok(body)
}

/// Reads the frame directory: a section whose body holds six bytes for
/// every frame.
pub fn read_frame_infos(cursor: &mut ByteCursor) -> (r: Result<Vec<BmdFrameInfo>, DecodeError>)
    ensures
        match section_body_of(old(cursor)@) {
            Err(e) => r == Err::<Vec<BmdFrameInfo>, DecodeError>(e),
            Ok(body) => match frame_infos_of(body) {
                Err(e) => r == Err::<Vec<BmdFrameInfo>, DecodeError>(e),
                Ok(infos) => r is Ok && r.unwrap()@ == infos && final(cursor)@ == after_section(
                    old(cursor)@,
                ),
            },
        },
{
    let body: Vec<u8> = read_section_body(cursor)?;
    let ghost b = body@;
    let n_frames: usize = body.len() / 6;
    let mut entries: ByteCursor = ByteCursor::new(body);
    let mut frame_infos: Vec<BmdFrameInfo> = Vec::new();
    let mut i: usize = 0;
    while i < n_frames
        invariant
            i <= n_frames,
            n_frames == b.len() / 6,
            section_body_of(old(cursor)@) == Ok::<Seq<u8>, DecodeError>(b),
            cursor@ == after_section(old(cursor)@),
            entries@ == b.skip(6 * i),
            frame_infos@.len() == i,
            forall|j: int| 0 <= j < i ==> frame_info_at(b, j) == Ok::<BmdFrameInfo, DecodeError>(frame_infos@[j]),
        decreases n_frames - i,
    {
        assert(6 * i + 6 <= b.len());
        assert(entries@.len() >= 6);
        match read_frame_info(&mut entries) {
            Ok(info) => {
                frame_infos.push(info);
                assert(b.skip(6 * i).skip(6) =~= b.skip(6 * (i + 1)));
            },
            Err(e) => {
                assert(frame_info_at(b, i as int) == Err::<BmdFrameInfo, DecodeError>(e));
                assert(e == unknown_frame_kind());
                assert(frame_infos_of(b) is Err);
                return Err(e);
            },
        }
        i = i + 1;
    }
    assert(frame_infos@ =~= frame_infos_of(b).unwrap());
    Ok(frame_infos)
}

/// Reads the pixel pool: a section whose body is taken as it stands.
pub fn read_pixels(cursor: &mut ByteCursor) -> (r: Result<Vec<u8>, DecodeError>)
    ensures
        r is Ok <==> section_body_of(old(cursor)@) is Ok,
        r matches Ok(body) ==> Ok::<Seq<u8>, DecodeError>(body@) == section_body_of(
            old(cursor)@,
        ) && final(cursor)@ == after_section(old(cursor)@),
        r matches Err(e) ==> Err::<Seq<u8>, DecodeError>(e) == section_body_of(old(cursor)@),
{
    read_section_body(cursor)
}

/// Reads one entry of the row directory: a packed word, of which the low 22
/// bits are the offset and the high 10 bits the indent.
pub fn read_frame_row(cursor: &mut ByteCursor) -> (r: Result<BmdFrameRow, DecodeError>)
    ensures
        r is Ok <==> old(cursor)@.len() >= 4,
        r matches Ok(row) ==> row == frame_row_of(field_at(old(cursor)@, 0)) && final(cursor)@
            == old(cursor)@.skip(4),
        r is Err ==> r == Err::<BmdFrameRow, DecodeError>(truncated()) && final(cursor)@ == old(
            cursor,
        )@,
{
    let ghost s = cursor@;
    let data: u32 = cursor.read_u32()?;
    assert(s.skip(0) =~= s);
    Ok(BmdFrameRow { offset: data & 0x3F_FFFFu32, indent: (data >> 22) & 0x3FFu32 })
}

/// Reads the row directory: a section whose body holds four bytes for every
/// row.
pub fn read_frame_rows(cursor: &mut ByteCursor) -> (r: Result<Vec<BmdFrameRow>, DecodeError>)
    ensures
        r is Ok <==> section_body_of(old(cursor)@) is Ok,
        r matches Ok(rows) ==> rows@ == frame_rows_of(section_body_of(old(cursor)@).unwrap())
            && final(cursor)@ == after_section(old(cursor)@),
        r matches Err(e) ==> Err::<Seq<u8>, DecodeError>(e) == section_body_of(old(cursor)@),
{
    let body: Vec<u8> = read_section_body(cursor)?;
    let ghost b = body@;
    let n_rows: usize = body.len() / 4;
    let mut entries: ByteCursor = ByteCursor::new(body);
    let mut rows: Vec<BmdFrameRow> = Vec::new();
    let mut i: usize = 0;
    while i < n_rows
        invariant
            i <= n_rows,
            n_rows == b.len() / 4,
            section_body_of(old(cursor)@) == Ok::<Seq<u8>, DecodeError>(b),
            cursor@ == after_section(old(cursor)@),
            entries@ == b.skip(4 * i),
            rows@.len() == i,
            forall|j: int| 0 <= j < i ==> rows@[j] == frame_row_of(field_at(b, 4 * j)),
        decreases n_rows - i,
    {
        match read_frame_row(&mut entries) {
            Ok(row) => {
                rows.push(row);
                assert(b.skip(4 * i).skip(4) =~= b.skip(4 * (i + 1)));
                assert(b.skip(4 * i).skip(0) =~= b.skip(4 * i));
            },
            Err(e) => {
                return Err(e);
            },
        }
        i = i + 1;
    }
    assert(rows@ =~= frame_rows_of(b));
    Ok(rows)
}

/// Takes a sprite container apart: the header, the frame directory, the
/// pixel pool and the row directory, in that order.
pub fn read_bmd_file_raw(cursor: &mut ByteCursor) -> (r: Result<RawBmdFile, DecodeError>)
    ensures
        match bmd_file_of(old(cursor)@) {
            Ok(file) => r is Ok && r.unwrap()@ == file,
            Err(e) => r == Err::<RawBmdFile, DecodeError>(e),
        },
{
    let header: BmdFileHeader = read_bmd_file_header(cursor)?;
    let frame_infos: Vec<BmdFrameInfo> = read_frame_infos(cursor)?;
    let pixels: Vec<u8> = read_pixels(cursor)?;
    let row_infos: Vec<BmdFrameRow> = read_frame_rows(cursor)?;
    Ok(RawBmdFile { header, frame_infos, pixels, row_infos })
}

} // verus!
