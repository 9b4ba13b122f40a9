use cultures_assets::bmd::frame::extract_frame;
use cultures_assets::bmd::frame::get_from_palette;
use cultures_assets::bmd::frame::is_empty;
use cultures_assets::bmd::frame::read_bmd;
use cultures_assets::bmd::frame::read_bmd_;
use cultures_assets::bmd::frame::Color;
use cultures_assets::bmd::frame::Type4AlphaInterpretation;
use cultures_assets::bmd::layout::get_bmd_frame_type;
use cultures_assets::bmd::layout::read_bmd_file_header;
use cultures_assets::bmd::layout::read_bmd_file_raw;
use cultures_assets::bmd::layout::read_bmd_section_header;
use cultures_assets::bmd::layout::read_frame_info;
use cultures_assets::bmd::layout::read_frame_infos;
use cultures_assets::bmd::layout::read_frame_row;
use cultures_assets::bmd::layout::read_frame_rows;
use cultures_assets::bmd::layout::read_pixels;
use cultures_assets::bmd::layout::BmdFileHeader;
use cultures_assets::bmd::layout::BmdFrameInfo;
use cultures_assets::bmd::layout::BmdFrameRow;
use cultures_assets::bmd::layout::BmdFrameType;
use cultures_assets::bmd::layout::RawBmdFile;
use cultures_assets::error::DecodeError;
use cultures_assets::error::StructuralError;
use cultures_assets::reader::ByteCursor;

const SENTINEL: BmdFrameRow = BmdFrameRow { offset: 0x3F_FFFF, indent: 0x3FF };
const T: [u8; 4] = [0, 0, 0, 0];
const S: [u8; 4] = [0, 0, 0, 0x80];

fn malformed(kind: StructuralError) -> DecodeError {
    DecodeError::Malformed(kind)
}

fn palette() -> Vec<u8> {
    let mut p = Vec::new();
    for i in 0..256u32 {
        p.push(i as u8);
        p.push((255 - i) as u8);
        p.push((i as u8) ^ 0x0F);
    }
    p
}

fn header() -> BmdFileHeader {
    BmdFileHeader {
        magic: 0,
        zero0: 0,
        zero1: 0,
        num_frames: 0,
        num_pixels: 0,
        num_rows: 0,
        unknown0: 0,
        unknown1: 0,
        zero2: 0,
    }
}

fn file(pool: &[u8], rows: &[BmdFrameRow]) -> RawBmdFile {
    RawBmdFile {
        header: header(),
        frame_infos: Vec::new(),
        pixels: pool.to_vec(),
        row_infos: rows.to_vec(),
    }
}

fn frame(kind: BmdFrameType, width: u8, len: u8, off: u8) -> BmdFrameInfo {
    BmdFrameInfo { type_: kind, dx: 0, dy: 0, width, len, off }
}

fn row(offset: u32, indent: u32) -> BmdFrameRow {
    BmdFrameRow { offset, indent }
}

fn flat(pixels: &[[u8; 4]]) -> Vec<u8> {
    pixels.iter().flat_map(|p| p.iter().copied()).collect()
}

fn section(body: &[u8]) -> Vec<u8> {
    let mut v = vec![0xAA, 0xBB, 0xCC, 0xDD, 0, 0, 0, 0];
    v.extend_from_slice(&(body.len() as u32).to_le_bytes());
    v.extend_from_slice(body);
    v
}

fn container(frames: &[u8], pool: &[u8], rows: &[u32]) -> Vec<u8> {
    let mut v = Vec::new();
    for field in 1..=9u32 {
        v.extend_from_slice(&(field * 0x0101).to_le_bytes());
    }
    v.extend(section(frames));
    v.extend(section(pool));
    let mut row_bytes = Vec::new();
    for r in rows {
        row_bytes.extend_from_slice(&r.to_le_bytes());
    }
    v.extend(section(&row_bytes));
    v
}

#[test]
fn normal_frame_takes_one_index_for_each_pixel() {
    // row 0: indent 1, two pixels, a gap of one, end; row 1: sentinel
    let pool = [2u8, 5, 6, 0x81, 0];
    let raw = file(&pool, &[row(0, 1), SENTINEL]);
    let info = frame(BmdFrameType::Normal, 4, 2, 0);
    let f = extract_frame(&raw, &info, &palette(), Type4AlphaInterpretation::Alpha).unwrap();
    assert_eq!(f.width, 4);
    assert_eq!(f.height, 2);
    assert_eq!(f.data, flat(&[T, [5, 250, 10, 255], [6, 249, 9, 255], T, T, T, T, T]));
}

#[test]
fn sentinel_row_is_transparent_whatever_the_pool_holds() {
    let info = frame(BmdFrameType::Normal, 3, 2, 0);
    for pool in [vec![], vec![1u8, 2, 3, 4], vec![0x7F; 64], vec![0u8; 8]] {
        let mut rows = vec![SENTINEL, SENTINEL];
        let f =
            extract_frame(&file(&pool, &rows), &info, &palette(), Type4AlphaInterpretation::Alpha)
                .unwrap();
        assert_eq!(f.data, vec![0u8; 3 * 2 * 4]);
        assert!(f.data.chunks(4).all(|p| p[3] == 0));
        // a sentinel row between two drawn rows stays transparent
        if pool.len() == 4 {
            rows = vec![row(0, 0), SENTINEL, row(0, 0)];
            let three = frame(BmdFrameType::Shadow, 3, 3, 0);
            let pooled = [2u8, 0];
            let f = extract_frame(
                &file(&pooled, &rows),
                &three,
                &palette(),
                Type4AlphaInterpretation::Alpha,
            )
            .unwrap();
            assert_eq!(f.data, flat(&[S, S, T, T, T, T, S, S, T]));
        }
    }
    assert!(is_empty(&SENTINEL));
    assert!(!is_empty(&row(0x3F_FFFF, 0x3FE)));
    assert!(!is_empty(&row(0x3F_FFFE, 0x3FF)));
}

#[test]
fn shadow_frame_draws_without_reading_the_pool() {
    // the byte behind the first control byte is the next control byte
    let pool = [3u8, 2, 0];
    let raw = file(&pool, &[row(0, 0)]);
    let info = frame(BmdFrameType::Shadow, 5, 1, 0);
    let f = extract_frame(&raw, &info, &[], Type4AlphaInterpretation::Ignore).unwrap();
    assert_eq!(f.data, flat(&[S, S, S, S, S]));
    // read as a normal frame, the same pool takes 2, 0 and what follows as indices
    let normal = frame(BmdFrameType::Normal, 5, 1, 0);
    assert_eq!(
        extract_frame(&raw, &normal, &palette(), Type4AlphaInterpretation::Ignore),
        Err(malformed(StructuralError::Truncated))
    );
}

#[test]
fn shadow_run_still_moves_the_cursor() {
    // three shadow pixels, a gap of one, one more pixel: at place 4
    let pool = [3u8, 0x81, 1, 0];
    let raw = file(&pool, &[row(0, 0)]);
    let info = frame(BmdFrameType::Shadow, 5, 1, 0);
    let f = extract_frame(&raw, &info, &[], Type4AlphaInterpretation::Alpha).unwrap();
    assert_eq!(f.data, flat(&[S, S, S, T, S]));
}

#[test]
fn extended_frame_takes_two_bytes_for_each_pixel() {
    let pool = [2u8, 7, 0x40, 8, 0x00, 0];
    let raw = file(&pool, &[row(0, 0)]);
    let info = frame(BmdFrameType::Extended, 2, 1, 0);
    let with_alpha =
        extract_frame(&raw, &info, &palette(), Type4AlphaInterpretation::Alpha).unwrap();
    assert_eq!(with_alpha.data, flat(&[[7, 248, 8, 0x40], [8, 247, 7, 0x00]]));
    let opaque = extract_frame(&raw, &info, &palette(), Type4AlphaInterpretation::Ignore).unwrap();
    assert_eq!(opaque.data, flat(&[[7, 248, 8, 0xFF], [8, 247, 7, 0xFF]]));
}

#[test]
fn each_row_starts_at_its_own_offset() {
    let pool = [1u8, 1, 0, 1, 2, 0];
    let raw = file(&pool, &[row(3, 1), row(0, 0)]);
    let info = frame(BmdFrameType::Normal, 2, 2, 0);
    let f = extract_frame(&raw, &info, &palette(), Type4AlphaInterpretation::Alpha).unwrap();
    assert_eq!(f.data, flat(&[T, [2, 253, 13, 255], [1, 254, 14, 255], T]));
    // a frame may start in the middle of the row directory
    let second = frame(BmdFrameType::Normal, 2, 1, 1);
    let f = extract_frame(&raw, &second, &palette(), Type4AlphaInterpretation::Alpha).unwrap();
    assert_eq!(f.data, flat(&[[1, 254, 14, 255], T]));
}

#[test]
fn frame_without_rows_or_width_is_empty() {
    let raw = file(&[], &[]);
    let none = frame(BmdFrameType::Normal, 4, 0, 0);
    let f = extract_frame(&raw, &none, &palette(), Type4AlphaInterpretation::Alpha).unwrap();
    assert_eq!((f.width, f.height, f.data.len()), (4, 0, 0));
    let narrow = frame(BmdFrameType::Normal, 0, 1, 0);
    let raw = file(&[0x85, 0], &[row(0, 9)]);
    let f = extract_frame(&raw, &narrow, &palette(), Type4AlphaInterpretation::Alpha).unwrap();
    assert_eq!((f.width, f.height, f.data.len()), (0, 1, 0));
}

#[test]
fn rows_outside_the_directory_are_an_error() {
    let raw = file(&[0], &[row(0, 0)]);
    let info = frame(BmdFrameType::Normal, 1, 2, 0);
    assert_eq!(
        extract_frame(&raw, &info, &palette(), Type4AlphaInterpretation::Alpha),
        Err(malformed(StructuralError::RowOutOfRange))
    );
    let late = frame(BmdFrameType::Normal, 1, 1, 1);
    assert_eq!(
        extract_frame(&raw, &late, &palette(), Type4AlphaInterpretation::Alpha),
        Err(malformed(StructuralError::RowOutOfRange))
    );
}

#[test]
fn drawing_past_the_row_is_an_error() {
    let info = frame(BmdFrameType::Shadow, 3, 1, 0);
    for pool in [vec![4u8, 0], vec![0x82, 2, 0], vec![0x83, 1, 0]] {
        assert_eq!(
            extract_frame(&file(&pool, &[row(0, 0)]), &info, &[], Type4AlphaInterpretation::Alpha),
            Err(malformed(StructuralError::RowOverrun))
        );
    }
    // the indent alone may lie past the row, and so may a gap
    let far = file(&[0x90, 0xFF, 0], &[row(0, 1000)]);
    let f = extract_frame(&far, &info, &[], Type4AlphaInterpretation::Alpha).unwrap();
    assert_eq!(f.data, flat(&[T, T, T]));
    let far_draw = file(&[1, 0], &[row(0, 3)]);
    assert_eq!(
        extract_frame(&far_draw, &info, &[], Type4AlphaInterpretation::Alpha),
        Err(malformed(StructuralError::RowOverrun))
    );
}

#[test]
fn runs_that_leave_the_pool_are_truncated() {
    let info = frame(BmdFrameType::Normal, 4, 1, 0);
    for (pool, offset) in [(vec![], 0u32), (vec![1u8, 2], 0), (vec![2, 1], 0), (vec![0], 1)] {
        assert_eq!(
            extract_frame(
                &file(&pool, &[row(offset, 0)]),
                &info,
                &palette(),
                Type4AlphaInterpretation::Alpha
            ),
            Err(malformed(StructuralError::Truncated))
        );
    }
    let extended = frame(BmdFrameType::Extended, 4, 1, 0);
    assert_eq!(
        extract_frame(
            &file(&[1, 2], &[row(0, 0)]),
            &extended,
            &palette(),
            Type4AlphaInterpretation::Ignore
        ),
        Err(malformed(StructuralError::Truncated))
    );
}

#[test]
fn palette_index_without_an_entry_is_out_of_range() {
    let p = palette();
    assert_eq!(get_from_palette(&p, 0), Ok(Color { r: 0, g: 255, b: 15 }));
    assert_eq!(get_from_palette(&p, 255), Ok(Color { r: 255, g: 0, b: 0xF0 }));
    assert_eq!(get_from_palette(&p, 256), Err(DecodeError::OutOfRange));
    assert_eq!(get_from_palette(&p, u32::MAX), Err(DecodeError::OutOfRange));
    assert_eq!(get_from_palette(&p[..30], 9), Ok(Color { r: 9, g: 246, b: 6 }));
    assert_eq!(get_from_palette(&p[..30], 10), Err(DecodeError::OutOfRange));
    assert_eq!(get_from_palette(&p[..29], 9), Err(DecodeError::OutOfRange));
    assert_eq!(get_from_palette(&[], 0), Err(DecodeError::OutOfRange));
    let info = frame(BmdFrameType::Normal, 1, 1, 0);
    assert_eq!(
        extract_frame(&file(&[1, 10, 0], &[row(0, 0)]), &info, &p[..30], Type4AlphaInterpretation::Alpha),
        Err(DecodeError::OutOfRange)
    );
}

#[test]
fn frame_kinds_are_one_two_and_four() {
    assert_eq!(get_bmd_frame_type(1), Ok(BmdFrameType::Normal));
    assert_eq!(get_bmd_frame_type(2), Ok(BmdFrameType::Shadow));
    assert_eq!(get_bmd_frame_type(4), Ok(BmdFrameType::Extended));
    for id in [0u8, 3, 5, 255] {
        assert_eq!(get_bmd_frame_type(id), Err(malformed(StructuralError::UnknownFrameKind)));
    }
}

#[test]
fn row_word_is_unpacked_into_offset_and_indent() {
    let word: u32 = (0x155 << 22) | 0x12_3456;
    let mut c = ByteCursor::new(word.to_le_bytes().to_vec());
    assert_eq!(read_frame_row(&mut c), Ok(row(0x12_3456, 0x155)));
    let mut c = ByteCursor::new(vec![0xFF; 4]);
    assert_eq!(read_frame_row(&mut c), Ok(SENTINEL));
    let mut c = ByteCursor::new(vec![0xFF; 3]);
    assert_eq!(read_frame_row(&mut c), Err(malformed(StructuralError::Truncated)));
}

#[test]
fn headers_are_read_field_by_field() {
    let bytes = container(&[], &[], &[]);
    let mut c = ByteCursor::new(bytes);
    let h = read_bmd_file_header(&mut c).unwrap();
    assert_eq!(h.magic, 0x0101);
    assert_eq!(h.num_frames, 4 * 0x0101);
    assert_eq!(h.num_pixels, 5 * 0x0101);
    assert_eq!(h.num_rows, 6 * 0x0101);
    assert_eq!(h.zero2, 9 * 0x0101);
    let s = read_bmd_section_header(&mut c).unwrap();
    assert_eq!((s.magic, s.zero0, s.length), (0xDDCC_BBAA, 0, 0));
    let mut short = ByteCursor::new(vec![0; 35]);
    assert_eq!(read_bmd_file_header(&mut short), Err(malformed(StructuralError::Truncated)));
    let mut short = ByteCursor::new(vec![0; 11]);
    assert_eq!(read_bmd_section_header(&mut short), Err(malformed(StructuralError::Truncated)));
}

#[test]
fn bmd_container_is_taken_apart() {
    let frames = [1u8, 10, 20, 4, 2, 0, 2, 11, 21, 5, 1, 1, 0xEE];
    let pool = [2u8, 5, 6, 0x81, 0, 9];
    let rows = [1u32 << 22, 0xFFFF_FFFF];
    let bytes = container(&frames, &pool, &rows);
    let raw = read_bmd_file_raw(&mut ByteCursor::new(bytes.clone())).unwrap();
    assert_eq!(
        raw.frame_infos,
        vec![
            BmdFrameInfo { type_: BmdFrameType::Normal, dx: 10, dy: 20, width: 4, len: 2, off: 0 },
            BmdFrameInfo { type_: BmdFrameType::Shadow, dx: 11, dy: 21, width: 5, len: 1, off: 1 },
        ]
    );
    assert_eq!(raw.pixels, pool.to_vec());
    assert_eq!(raw.row_infos, vec![row(0, 1), SENTINEL]);
    assert_eq!(raw.header.unknown1, 8 * 0x0101);

    let decoded =
        read_bmd(&mut ByteCursor::new(bytes), &palette(), Type4AlphaInterpretation::Alpha).unwrap();
    assert_eq!(decoded.len(), 2);
    assert_eq!(decoded[0].data, flat(&[T, [5, 250, 10, 255], [6, 249, 9, 255], T, T, T, T, T]));
    assert_eq!(decoded[1].data, vec![0u8; 5 * 4]);
    assert_eq!(read_bmd_(&raw, &palette(), Type4AlphaInterpretation::Alpha), Ok(decoded));
}

#[test]
fn sections_are_read_one_after_another() {
    let mut bytes = section(&[1, 0, 0, 1, 1, 0]);
    bytes.extend(section(&[7, 8, 9]));
    bytes.extend(section(&[0, 0, 0x40, 0, 1, 2]));
    let mut c = ByteCursor::new(bytes);
    assert_eq!(read_frame_infos(&mut c).unwrap().len(), 1);
    assert_eq!(read_pixels(&mut c), Ok(vec![7, 8, 9]));
    assert_eq!(read_frame_rows(&mut c), Ok(vec![row(0, 1)]));
    assert_eq!(c.remaining(), 0);
    let mut one = ByteCursor::new(vec![4, 1, 2, 3, 4, 5, 6]);
    assert_eq!(
        read_frame_info(&mut one),
        Ok(BmdFrameInfo { type_: BmdFrameType::Extended, dx: 1, dy: 2, width: 3, len: 4, off: 5 })
    );
    assert_eq!(read_frame_info(&mut one), Err(malformed(StructuralError::Truncated)));
}

#[test]
fn unknown_frame_kind_is_an_error() {
    let frames = [1u8, 0, 0, 1, 1, 0, 3, 0, 0, 1, 1, 0];
    let bytes = container(&frames, &[0], &[0]);
    assert_eq!(
        read_bmd_file_raw(&mut ByteCursor::new(bytes.clone())),
        Err(malformed(StructuralError::UnknownFrameKind))
    );
    assert_eq!(
        read_bmd(&mut ByteCursor::new(bytes), &palette(), Type4AlphaInterpretation::Alpha),
        Err(malformed(StructuralError::UnknownFrameKind))
    );
    let mut c = ByteCursor::new(vec![3, 0, 0, 0, 0, 0]);
    assert_eq!(read_frame_info(&mut c), Err(malformed(StructuralError::UnknownFrameKind)));
    assert_eq!(c.remaining(), 6);
}

#[test]
fn bmd_container_cut_short_is_truncated() {
    let bytes = container(&[1, 0, 0, 1, 1, 0], &[0, 0], &[0]);
    for cut in [0, 10, 36, 47, 50, 54, 66, 68, 80, bytes.len() - 1] {
        assert_eq!(
            read_bmd_file_raw(&mut ByteCursor::new(bytes[..cut].to_vec())),
            Err(malformed(StructuralError::Truncated)),
            "cut at {}",
            cut
        );
    }
    assert!(read_bmd_file_raw(&mut ByteCursor::new(bytes)).is_ok());
}

#[test]
fn first_failing_frame_ends_the_decoding() {
    let mut raw = file(&[1, 0], &[row(0, 0)]);
    raw.frame_infos = vec![
        frame(BmdFrameType::Shadow, 1, 1, 0),
        frame(BmdFrameType::Shadow, 1, 2, 0),
        frame(BmdFrameType::Shadow, 0, 1, 0),
    ];
    assert_eq!(
        read_bmd_(&raw, &[], Type4AlphaInterpretation::Alpha),
        Err(malformed(StructuralError::RowOutOfRange))
    );
    raw.frame_infos.remove(1);
    assert_eq!(
        read_bmd_(&raw, &[], Type4AlphaInterpretation::Alpha),
        Err(malformed(StructuralError::RowOverrun))
    );
    raw.frame_infos.pop();
    assert_eq!(read_bmd_(&raw, &[], Type4AlphaInterpretation::Alpha).unwrap().len(), 1);
}
