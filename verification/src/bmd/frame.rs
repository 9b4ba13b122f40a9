//! The decoding of one sprite frame.
//!
//! A frame is a range of the row directory. Every row names a place in the
//! pixel pool where its runs start, and an indent. A run is a control byte
//! `c`: zero ends the row; below `0x80` it draws `c` pixels at the cursor;
//! from `0x80` on it moves the cursor `c - 0x80` places without drawing.
//! What a drawn pixel takes from the pool depends on the frame's kind.
//!
//! The canvas of a frame holds `width * rows` pixels, row by row, and starts
//! out transparent. A pixel is never drawn outside its own row: a run that
//! would do so is an error. The cursor itself may move past the row's end.

use vstd::prelude::*;
use crate::error::DecodeError;
use crate::error::StructuralError;
use crate::reader::ByteCursor;
use crate::reader::truncated;
use crate::bmd::layout::BmdFrameInfo;
use crate::bmd::layout::BmdFrameRow;
use crate::bmd::layout::BmdFrameType;
use crate::bmd::layout::RawBmdFile;
use crate::bmd::layout::RawBmdFileView;
use crate::bmd::layout::bmd_file_of;
use crate::bmd::layout::read_bmd_file_raw;

verus! {

/// What the second byte of a pixel of an `Extended` frame means.
#[derive(Debug, Clone, Copy, PartialEq, Eq, Structural)]
pub enum Type4AlphaInterpretation {
    /// The second byte is the pixel's alpha value.
    Alpha,
    /// The second byte is a placeholder; the pixel is opaque.
    Ignore,
}

/// An entry of a palette.
#[derive(Debug, Clone, Copy, PartialEq, Eq, Structural)]
pub struct Color {
    pub r: u8,
    pub g: u8,
    pub b: u8,
}

/// A pixel of a decoded frame.
#[derive(Debug, Clone, Copy, PartialEq, Eq, Structural)]
pub struct Rgba {
    pub r: u8,
    pub g: u8,
    pub b: u8,
    pub a: u8,
}

/// A decoded frame: four bytes for each pixel, red, green, blue and alpha in
/// that order, row by row.
#[derive(Debug, Clone, PartialEq, Eq)]
pub struct ExtractedFrame {
    pub width: u32,
    pub height: u32,
    pub data: Vec<u8>,
}

/// The pixels that a buffer of RGBA bytes holds.
pub open spec fn pixels_of(data: Seq<u8>) -> Seq<Rgba> {
    Seq::new(
        (data.len() / 4) as nat,
        |k: int| Rgba { r: data[4 * k], g: data[4 * k + 1], b: data[4 * k + 2], a: data[4 * k + 3] },
    )
}

/// The pixel that nothing was drawn on.
pub open spec fn transparent() -> Rgba {
    Rgba { r: 0, g: 0, b: 0, a: 0 }
}

/// The pixel of a shadow.
pub open spec fn shadow() -> Rgba {
    Rgba { r: 0, g: 0, b: 0, a: 0x80 }
}

/// A canvas of `n` transparent pixels.
pub open spec fn blank(n: int) -> Seq<Rgba> {
    Seq::new(n as nat, |k: int| transparent())
}

/// The error of a row whose run would draw outside the row.
pub open spec fn row_overrun() -> DecodeError {
    DecodeError::Malformed(StructuralError::RowOverrun)
}

/// The error of a frame whose rows the row directory does not hold.
pub open spec fn row_out_of_range() -> DecodeError {
    DecodeError::Malformed(StructuralError::RowOutOfRange)
}

/// The sentinel of the row directory: a row on which nothing is drawn.
pub open spec fn is_sentinel(row: BmdFrameRow) -> bool {
    row.offset == 0x3F_FFFF && row.indent == 0x3FF
}

/// Entry `idx` of a palette of RGB triplets. An index from 256 on, or one
/// whose triplet the palette does not hold, is out of range.
pub open spec fn color_of(palette: Seq<u8>, idx: int) -> Result<Color, DecodeError> {
    if idx < 0 || idx >= 256 || 3 * idx + 2 >= palette.len() {
        Err(DecodeError::OutOfRange)
    } else {
        Ok(Color { r: palette[3 * idx], g: palette[3 * idx + 1], b: palette[3 * idx + 2] })
    }
}

/// The number of pool bytes that one drawn pixel takes.
pub open spec fn pixel_size(kind: BmdFrameType) -> int {
    match kind {
        BmdFrameType::Normal => 1,
        BmdFrameType::Shadow => 0,
        BmdFrameType::Extended => 2,
    }
}

/// The number of pool bytes that a run of `count` drawn pixels takes.
pub open spec fn run_bytes(kind: BmdFrameType, count: nat) -> nat {
    match kind {
        BmdFrameType::Normal => count,
        BmdFrameType::Shadow => 0,
        BmdFrameType::Extended => 2 * count,
    }
}

/// The pixel whose bytes start at `at` in the pool.
pub open spec fn pixel_of(
    kind: BmdFrameType,
    t4i: Type4AlphaInterpretation,
    palette: Seq<u8>,
    pool: Seq<u8>,
    at: int,
) -> Result<Rgba, DecodeError> {
    match kind {
        BmdFrameType::Shadow => Ok(shadow()),
        BmdFrameType::Normal => if at < 0 || at >= pool.len() {
            Err(truncated())
        } else {
            match color_of(palette, pool[at] as int) {
                Err(e) => Err(e),
                Ok(c) => Ok(Rgba { r: c.r, g: c.g, b: c.b, a: 0xFF }),
            }
        },
        BmdFrameType::Extended => if at < 0 || at + 1 >= pool.len() {
            Err(truncated())
        } else {
            match color_of(palette, pool[at] as int) {
                Err(e) => Err(e),
                Ok(c) => Ok(
                    Rgba {
                        r: c.r,
                        g: c.g,
                        b: c.b,
                        a: if t4i == Type4AlphaInterpretation::Alpha {
                            pool[at + 1]
                        } else {
                            0xFFu8
                        },
                    },
                ),
            }
        },
    }
}

/// The canvas after a run of `count` pixels is drawn on the row that starts
/// at `base`, from the cursor on, with the pixels' bytes starting at `at`.
pub open spec fn draw_run(
    kind: BmdFrameType,
    t4i: Type4AlphaInterpretation,
    palette: Seq<u8>,
    pool: Seq<u8>,
    width: int,
    base: int,
    at: int,
    cursor: int,
    count: nat,
    canvas: Seq<Rgba>,
) -> Result<Seq<Rgba>, DecodeError>
    decreases count,
{
    if count == 0 {
        Ok(canvas)
    } else if cursor >= width {
        Err(row_overrun())
    } else {
        match pixel_of(kind, t4i, palette, pool, at) {
            Err(e) => Err(e),
            Ok(p) => draw_run(
                kind,
                t4i,
                palette,
                pool,
                width,
                base,
                at + pixel_size(kind),
                cursor + 1,
                (count - 1) as nat,
                canvas.update(base + cursor, p),
            ),
        }
    }
}

/// The canvas after the runs that start at `pos` in the pool are drawn on the
/// row that starts at `base`, with the cursor at `cursor`.
pub open spec fn row_runs(
    kind: BmdFrameType,
    t4i: Type4AlphaInterpretation,
    palette: Seq<u8>,
    pool: Seq<u8>,
    width: int,
    base: int,
    pos: int,
    cursor: int,
    canvas: Seq<Rgba>,
) -> Result<Seq<Rgba>, DecodeError>
    decreases
            (if pos < pool.len() {
                pool.len() - pos
            } else {
                0
            }),
{
    if pos < 0 || pos >= pool.len() {
        Err(truncated())
    } else {
        let c = pool[pos];
        if c == 0 {
            Ok(canvas)
        } else if c < 0x80 {
            match draw_run(kind, t4i, palette, pool, width, base, pos + 1, cursor, c as nat, canvas) {
                Err(e) => Err(e),
                Ok(drawn) => row_runs(
                    kind,
                    t4i,
                    palette,
                    pool,
                    width,
                    base,
                    pos + 1 + run_bytes(kind, c as nat),
                    cursor + c,
                    drawn,
                ),
            }
        } else {
            row_runs(kind, t4i, palette, pool, width, base, pos + 1, cursor + (c - 0x80), canvas)
        }
    }
}

/// The canvas after one row is drawn: a sentinel row leaves it as it is, and
/// the pool is not read.
pub open spec fn row_of(
    kind: BmdFrameType,
    t4i: Type4AlphaInterpretation,
    palette: Seq<u8>,
    pool: Seq<u8>,
    width: int,
    base: int,
    row: BmdFrameRow,
    canvas: Seq<Rgba>,
) -> Result<Seq<Rgba>, DecodeError> {
    if is_sentinel(row) {
        Ok(canvas)
    } else {
        row_runs(kind, t4i, palette, pool, width, base, row.offset as int, row.indent as int, canvas)
    }
}

/// The canvas after the rows from `r` on are drawn, in order. The first row
/// that fails ends the decoding.
pub open spec fn frame_rows(
    file: RawBmdFileView,
    info: BmdFrameInfo,
    palette: Seq<u8>,
    t4i: Type4AlphaInterpretation,
    r: int,
    canvas: Seq<Rgba>,
) -> Result<Seq<Rgba>, DecodeError>
    decreases info.len - r,
{
    if r < 0 || r >= info.len {
        Ok(canvas)
    } else {
        match row_of(
            info.type_,
            t4i,
            palette,
            file.pixels,
            info.width as int,
            r * info.width,
            file.row_infos[info.off + r],
            canvas,
        ) {
            Err(e) => Err(e),
            Ok(drawn) => frame_rows(file, info, palette, t4i, r + 1, drawn),
        }
    }
}

/// The pixels of a frame: `info.width * info.len` of them, row by row.
pub open spec fn frame_of(
    file: RawBmdFileView,
    info: BmdFrameInfo,
    palette: Seq<u8>,
    t4i: Type4AlphaInterpretation,
) -> Result<Seq<Rgba>, DecodeError> {
    if info.off + info.len > file.row_infos.len() {
        Err(row_out_of_range())
    } else {
        frame_rows(file, info, palette, t4i, 0, blank(info.width * info.len))
    }
}

/// Whether an extracted frame holds exactly the pixels `px` of the frame
/// that `info` describes: four bytes for every place of every row.
pub open spec fn frame_holds(frame: ExtractedFrame, info: BmdFrameInfo, px: Seq<Rgba>) -> bool {
    &&& frame.width == info.width
    &&& frame.height == info.len
    &&& frame.data@.len() == 4 * (info.width * info.len)
    &&& frame.data@.len() == 4 * px.len()
    &&& pixels_of(frame.data@) == px
}

/// Whether a row is the sentinel, on which nothing is drawn.
pub fn is_empty(row: &BmdFrameRow) -> (empty: bool)
    ensures
        empty == is_sentinel(*row),
{
    row.offset == 0x3F_FFFF && row.indent == 0x3FF
}

/// Looks an index up in a palette of RGB triplets.
pub fn get_from_palette(palette: &[u8], idx: u32) -> (r: Result<Color, DecodeError>)
    ensures
        r == color_of(palette@, idx as int),
{
    if idx >= 256 {
        return Err(DecodeError::OutOfRange);
    }
    let pointer: usize = (idx * 3) as usize;
    if palette.len() < 3 || pointer > palette.len() - 3 {
        return Err(DecodeError::OutOfRange);
    }
    Ok(Color { r: palette[pointer], g: palette[pointer + 1], b: palette[pointer + 2] })
}

/// Once the cursor is at or past the row's end, its exact place no longer
/// matters: every later run that draws fails, and no other run looks at it.
pub proof fn lemma_cursor_past_width(
    kind: BmdFrameType,
    t4i: Type4AlphaInterpretation,
    palette: Seq<u8>,
    pool: Seq<u8>,
    width: int,
    base: int,
    pos: int,
    c1: int,
    c2: int,
    canvas: Seq<Rgba>,
)
    requires
        c1 >= width,
        c2 >= width,
    ensures
        row_runs(kind, t4i, palette, pool, width, base, pos, c1, canvas) == row_runs(
            kind,
            t4i,
            palette,
            pool,
            width,
            base,
            pos,
            c2,
            canvas,
        ),
    decreases
            (if pos < pool.len() {
                pool.len() - pos
            } else {
                0
            }),
{
    if 0 <= pos < pool.len() {
        let c = pool[pos];
        if c >= 0x80 {
            lemma_cursor_past_width(
                kind,
                t4i,
                palette,
                pool,
                width,
                base,
                pos + 1,
                c1 + (c - 0x80),
                c2 + (c - 0x80),
                canvas,
            );
        }
    }
}

/// Writes one pixel into a buffer of RGBA bytes.
fn put_pixel(data: &mut Vec<u8>, index: usize, p: Rgba)
    requires
        4 * index + 3 < old(data)@.len(),
    ensures
        final(data)@.len() == old(data)@.len(),
        pixels_of(final(data)@) == pixels_of(old(data)@).update(index as int, p),
{
    let total: usize = data.len();
    data.set(4 * index, p.r);
    data.set(4 * index + 1, p.g);
    data.set(4 * index + 2, p.b);
    data.set(4 * index + 3, p.a);
    assert(pixels_of(data@) =~= pixels_of(old(data)@).update(index as int, p));
}

/// A buffer of `n` transparent pixels.
fn blank_canvas(n: usize) -> (data: Vec<u8>)
    requires
        4 * n <= usize::MAX,
    ensures
        data@.len() == 4 * n,
        pixels_of(data@) == blank(n as int),
{
    let mut data: Vec<u8> = Vec::new();
    let mut i: usize = 0;
    while i < 4 * n
        invariant
            i <= 4 * n,
            4 * n <= usize::MAX,
            data@.len() == i,
            forall|j: int| 0 <= j < i ==> data@[j] == 0,
        decreases 4 * n - i,
    {
        data.push(0u8);
        i = i + 1;
    }
    assert(pixels_of(data@) =~= blank(n as int));
    data
}

/// Reads the pixel whose bytes start at `at` in the pool.
fn read_pixel(
    pool: &[u8],
    kind: BmdFrameType,
    t4i: Type4AlphaInterpretation,
    palette: &[u8],
    at: usize,
) -> (r: Result<Rgba, DecodeError>)
    requires
        at <= pool@.len(),
    ensures
        r == pixel_of(kind, t4i, palette@, pool@, at as int),
{
    match kind {
        BmdFrameType::Shadow => Ok(Rgba { r: 0, g: 0, b: 0, a: 0x80 }),
        BmdFrameType::Normal => {
            if at >= pool.len() {
                return Err(DecodeError::Malformed(StructuralError::Truncated));
            }
            let color: Color = get_from_palette(palette, pool[at] as u32)?;
            Ok(Rgba { r: color.r, g: color.g, b: color.b, a: 0xFF })
        },
        BmdFrameType::Extended => {
            if pool.len() < 2 || at > pool.len() - 2 {
                return Err(DecodeError::Malformed(StructuralError::Truncated));
            }
            let color: Color = get_from_palette(palette, pool[at] as u32)?;
            let alpha: u8 = match t4i {
                Type4AlphaInterpretation::Alpha => pool[at + 1],
                Type4AlphaInterpretation::Ignore => 0xFF,
            };
            Ok(Rgba { r: color.r, g: color.g, b: color.b, a: alpha })
        },
    }
}

/// Draws a run of `count` pixels, and fails as `draw_run` does.
fn paint_run(
    pool: &[u8],
    kind: BmdFrameType,
    t4i: Type4AlphaInterpretation,
    palette: &[u8],
    width: usize,
    base: usize,
    at: usize,
    cursor: usize,
    count: u8,
    data: &mut Vec<u8>,
) -> (r: Result<(), DecodeError>)
    requires
        4 * (base + width) <= old(data)@.len(),
        width <= 255,
        cursor <= width,
        at <= pool@.len(),
    ensures
        final(data)@.len() == old(data)@.len(),
        match draw_run(
            kind,
            t4i,
            palette@,
            pool@,
            width as int,
            base as int,
            at as int,
            cursor as int,
            count as nat,
            pixels_of(old(data)@),
        ) {
            Ok(drawn) => r is Ok && pixels_of(final(data)@) == drawn && at + run_bytes(
                kind,
                count as nat,
            ) <= pool@.len() && cursor + count <= width,
            Err(e) => r == Err::<(), DecodeError>(e),
        },
{
    let ghost target = draw_run(
        kind,
        t4i,
        palette@,
        pool@,
        width as int,
        base as int,
        at as int,
        cursor as int,
        count as nat,
        pixels_of(data@),
    );
    let size: usize = match kind {
        BmdFrameType::Normal => 1,
        BmdFrameType::Shadow => 0,
        BmdFrameType::Extended => 2,
    };
    let total: usize = data.len();
    let limit: usize = pool.len();
    let mut from: usize = at;
    let mut x: usize = cursor;
    let mut z: u8 = 0;
    while z < count
        invariant
            z <= count,
            size == pixel_size(kind),
            data@.len() == total,
            pool@.len() == limit,
            target == draw_run(
                kind,
                t4i,
                palette@,
                pool@,
                width as int,
                base as int,
                at as int,
                cursor as int,
                count as nat,
                pixels_of(old(data)@),
            ),
            data@.len() == old(data)@.len(),
            4 * (base + width) <= data@.len(),
            width <= 255,
            x == cursor + z,
            x <= width,
            from == at + run_bytes(kind, z as nat),
            from <= pool@.len(),
            draw_run(
                kind,
                t4i,
                palette@,
                pool@,
                width as int,
                base as int,
                from as int,
                x as int,
                (count - z) as nat,
                pixels_of(data@),
            ) == target,
        decreases count - z,
    {
        if x >= width {
            return Err(DecodeError::Malformed(StructuralError::RowOverrun));
        }
        let p: Rgba = read_pixel(pool, kind, t4i, palette, from)?;
        assert(pixel_of(kind, t4i, palette@, pool@, from as int) is Ok);
        assert(from + size <= pool@.len());
        put_pixel(data, base + x, p);
        from = from + size;
        x = x + 1;
        z = z + 1;
    }
    Ok(())
}

/// Draws one row, and fails as `row_of` does.
fn paint_row(
    pool: &[u8],
    kind: BmdFrameType,
    t4i: Type4AlphaInterpretation,
    palette: &[u8],
    width: usize,
    base: usize,
    row: &BmdFrameRow,
    data: &mut Vec<u8>,
) -> (r: Result<(), DecodeError>)
    requires
        4 * (base + width) <= old(data)@.len(),
        width <= 255,
    ensures
        final(data)@.len() == old(data)@.len(),
        match row_of(
            kind,
            t4i,
            palette@,
            pool@,
            width as int,
            base as int,
            *row,
            pixels_of(old(data)@),
        ) {
            Ok(drawn) => r is Ok && pixels_of(final(data)@) == drawn,
            Err(e) => r == Err::<(), DecodeError>(e),
        },
{
    if is_empty(row) {
        return Ok(());
    }
    let ghost target = row_of(
        kind,
        t4i,
        palette@,
        pool@,
        width as int,
        base as int,
        *row,
        pixels_of(data@),
    );
    let mut pos: usize = row.offset as usize;
    let mut i: usize = if row.indent as usize >= width {
        width
    } else {
        row.indent as usize
    };
    proof {
        if row.indent >= width {
            lemma_cursor_past_width(
                kind,
                t4i,
                palette@,
                pool@,
                width as int,
                base as int,
                pos as int,
                row.indent as int,
                width as int,
                pixels_of(data@),
            );
        }
    }
    let total: usize = data.len();
    while pos < pool.len()
        invariant
            data@.len() == old(data)@.len(),
            data@.len() == total,
            4 * (base + width) <= data@.len(),
            width <= 255,
            i <= width,
            target == row_of(
                kind,
                t4i,
                palette@,
                pool@,
                width as int,
                base as int,
                *row,
                pixels_of(old(data)@),
            ),
            !is_sentinel(*row),
            row_runs(
                kind,
                t4i,
                palette@,
                pool@,
                width as int,
                base as int,
                pos as int,
                i as int,
                pixels_of(data@),
            ) == target,
        decreases pool@.len() - pos,
    {
        let pixel_block_length: u8 = pool[pos];
        if pixel_block_length == 0 {
            return Ok(());
        }
        if pixel_block_length < 0x80 {
            paint_run(pool, kind, t4i, palette, width, base, pos + 1, i, pixel_block_length, data)?;
            let used: usize = match kind {
                BmdFrameType::Normal => pixel_block_length as usize,
                BmdFrameType::Shadow => 0,
                BmdFrameType::Extended => 2 * (pixel_block_length as usize),
            };
            pos = pos + 1 + used;
            i = i + pixel_block_length as usize;
        } else {
            let gap: usize = (pixel_block_length - 0x80) as usize;
            proof {
                if i + gap >= width {
                    lemma_cursor_past_width(
                        kind,
                        t4i,
                        palette@,
                        pool@,
                        width as int,
                        base as int,
                        pos + 1,
                        i + gap,
                        width as int,
                        pixels_of(data@),
                    );
                }
            }
            i = if i + gap >= width {
                width
            } else {
                i + gap
            };
            pos = pos + 1;
        }
    }
    Err(DecodeError::Malformed(StructuralError::Truncated))
}

/// Decodes one frame of a sprite container into RGBA pixels.
///
/// The frame holds `width` pixels in each of its `len` rows. A row of the
/// sentinel value stays transparent. The decoding fails where the frame's
/// rows are not all in the row directory, where a row's runs leave the pixel
/// pool or draw outside the row, and where a palette index has no entry.
pub fn extract_frame(
    raw_bmd_file: &RawBmdFile,
    bmd_frame_info: &BmdFrameInfo,
    palette: &[u8],
    t4i: Type4AlphaInterpretation,
) -> (r: Result<ExtractedFrame, DecodeError>)
    ensures
        match frame_of(raw_bmd_file@, *bmd_frame_info, palette@, t4i) {
            Ok(px) => r is Ok && frame_holds(r.unwrap(), *bmd_frame_info, px),
            Err(e) => r == Err::<ExtractedFrame, DecodeError>(e),
        },
{
    let frame_type: BmdFrameType = bmd_frame_info.type_;
    let frame_start: usize = bmd_frame_info.off as usize;
    let frame_count: usize = bmd_frame_info.len as usize;
    let width: usize = bmd_frame_info.width as usize;
    if frame_start + frame_count > raw_bmd_file.row_infos.len() {
        return Err(DecodeError::Malformed(StructuralError::RowOutOfRange));
    }
    assert(width * frame_count <= 255 * 255) by (nonlinear_arith)
        requires
            width <= 255,
            frame_count <= 255,
    ;
    let mut data: Vec<u8> = blank_canvas(width * frame_count);
    let ghost target = frame_of(raw_bmd_file@, *bmd_frame_info, palette@, t4i);
    let mut row_number: usize = 0;
    let mut base: usize = 0;
    while row_number < frame_count
        invariant
            row_number <= frame_count,
            frame_type == bmd_frame_info.type_,
            frame_start == bmd_frame_info.off,
            frame_count == bmd_frame_info.len,
            width == bmd_frame_info.width,
            frame_start + frame_count <= raw_bmd_file.row_infos@.len(),
            base == row_number * width,
            width * frame_count <= 255 * 255,
            target == frame_of(raw_bmd_file@, *bmd_frame_info, palette@, t4i),
            data@.len() == 4 * (width * frame_count),
            frame_rows(
                raw_bmd_file@,
                *bmd_frame_info,
                palette@,
                t4i,
                row_number as int,
                pixels_of(data@),
            ) == target,
        decreases frame_count - row_number,
    {
        assert((row_number + 1) * width <= frame_count * width && (row_number + 1) * width
            == row_number * width + width && frame_count * width == width * frame_count)
            by (nonlinear_arith)
            requires
                row_number < frame_count,
        ;
        let row: &BmdFrameRow = &raw_bmd_file.row_infos[row_number + frame_start];
        paint_row(
            raw_bmd_file.pixels.as_slice(),
            frame_type,
            t4i,
            palette,
            width,
            base,
            row,
            &mut data,
        )?;
        base = base + width;
        row_number = row_number + 1;
    }
    assert(pixels_of(data@).len() == width * frame_count);
    Ok(ExtractedFrame { width: width as u32, height: frame_count as u32, data })
}

/// Decodes every frame of a container that was taken apart, in the order of
/// the frame directory. The first frame that fails ends the decoding.
pub fn read_bmd_(
    raw_bmd_file: &RawBmdFile,
    palette: &[u8],
    t4i: Type4AlphaInterpretation,
) -> (r: Result<Vec<ExtractedFrame>, DecodeError>)
    ensures
        r is Ok <==> forall|i: int|
            0 <= i < raw_bmd_file.frame_infos@.len() ==> (#[trigger] frame_of(
                raw_bmd_file@,
                raw_bmd_file.frame_infos@[i],
                palette@,
                t4i,
            )) is Ok,
        r matches Ok(frames) ==> frames@.len() == raw_bmd_file.frame_infos@.len() && forall|
            i: int,
        |
            0 <= i < frames@.len() ==> frame_holds(
                #[trigger] frames@[i],
                raw_bmd_file.frame_infos@[i],
                frame_of(raw_bmd_file@, raw_bmd_file.frame_infos@[i], palette@, t4i).unwrap(),
            ),
        r matches Err(e) ==> exists|i: int|
            0 <= i < raw_bmd_file.frame_infos@.len() && (#[trigger] frame_of(
                raw_bmd_file@,
                raw_bmd_file.frame_infos@[i],
                palette@,
                t4i,
            )) == Err::<Seq<Rgba>, DecodeError>(e) && forall|j: int|
                0 <= j < i ==> (#[trigger] frame_of(
                    raw_bmd_file@,
                    raw_bmd_file.frame_infos@[j],
                    palette@,
                    t4i,
                )) is Ok,
{
    let n: usize = raw_bmd_file.frame_infos.len();
    let mut frames: Vec<ExtractedFrame> = Vec::new();
    let mut i: usize = 0;
    while i < n
        invariant
            i <= n,
            n == raw_bmd_file.frame_infos@.len(),
            frames@.len() == i,
            forall|j: int|
                0 <= j < i ==> (#[trigger] frame_of(
                    raw_bmd_file@,
                    raw_bmd_file.frame_infos@[j],
                    palette@,
                    t4i,
                )) is Ok,
            forall|j: int|
                0 <= j < i ==> frame_holds(
                    #[trigger] frames@[j],
                    raw_bmd_file.frame_infos@[j],
                    frame_of(raw_bmd_file@, raw_bmd_file.frame_infos@[j], palette@, t4i).unwrap(),
                ),
        decreases n - i,
    {
        match extract_frame(raw_bmd_file, &raw_bmd_file.frame_infos[i], palette, t4i) {
            Ok(frame) => {
                frames.push(frame);
            },
            Err(e) => {
                assert(frame_of(raw_bmd_file@, raw_bmd_file.frame_infos@[i as int], palette@, t4i)
                    == Err::<Seq<Rgba>, DecodeError>(e));
                return Err(e);
            },
        }
        i = i + 1;
    }
    Ok(frames)
}

/// Takes a sprite container apart and decodes every frame of it.
pub fn read_bmd(
    cursor: &mut ByteCursor,
    palette: &[u8],
    t4i: Type4AlphaInterpretation,
) -> (r: Result<Vec<ExtractedFrame>, DecodeError>)
    ensures
        match bmd_file_of(old(cursor)@) {
            Err(e) => r == Err::<Vec<ExtractedFrame>, DecodeError>(e),
            Ok(file) => {
                &&& r is Ok <==> forall|i: int|
                    0 <= i < file.frame_infos.len() ==> (#[trigger] frame_of(
                        file,
                        file.frame_infos[i],
                        palette@,
                        t4i,
                    )) is Ok
                &&& r matches Ok(frames) ==> frames@.len() == file.frame_infos.len() && forall|
                    i: int,
                |
                    0 <= i < frames@.len() ==> frame_holds(
                        #[trigger] frames@[i],
                        file.frame_infos[i],
                        frame_of(file, file.frame_infos[i], palette@, t4i).unwrap(),
                    )
                &&& r matches Err(e) ==> exists|i: int|
                    0 <= i < file.frame_infos.len() && (#[trigger] frame_of(
                        file,
                        file.frame_infos[i],
                        palette@,
                        t4i,
                    )) == Err::<Seq<Rgba>, DecodeError>(e) && forall|j: int|
                        0 <= j < i ==> (#[trigger] frame_of(
                            file,
                            file.frame_infos[j],
                            palette@,
                            t4i,
                        )) is Ok
            },
        },
{
    let raw_bmd_file: RawBmdFile = read_bmd_file_raw(cursor)?;
    read_bmd_(&raw_bmd_file, palette, t4i)
}

} // verus!
