//! What holds of every decoded frame.

use vstd::prelude::*;
use crate::error::DecodeError;
use crate::bmd::layout::BmdFrameInfo;
use crate::bmd::layout::BmdFrameRow;
use crate::bmd::layout::BmdFrameType;
use crate::bmd::layout::RawBmdFileView;
use crate::bmd::frame::Rgba;
use crate::bmd::frame::Type4AlphaInterpretation;
use crate::bmd::frame::blank;
use crate::bmd::frame::draw_run;
use crate::bmd::frame::frame_of;
use crate::bmd::frame::frame_rows;
use crate::bmd::frame::is_sentinel;
use crate::bmd::frame::row_of;
use crate::bmd::frame::row_runs;
use crate::bmd::frame::run_bytes;
use crate::bmd::frame::shadow;
use crate::bmd::frame::transparent;

verus! {

/// A run of a shadow frame is drawn without a look at the pool: whatever the
/// pool, the palette and the alpha mode are, and wherever the run's bytes
/// would start, the canvas comes out the same. Where the run fits into the
/// row it succeeds, and every pixel of it is the shadow pixel.
pub proof fn lemma_shadow_run_ignores_pool(
    t4i: Type4AlphaInterpretation,
    palette: Seq<u8>,
    pool: Seq<u8>,
    at: int,
    other_t4i: Type4AlphaInterpretation,
    other_palette: Seq<u8>,
    other_pool: Seq<u8>,
    other_at: int,
    width: int,
    base: int,
    cursor: int,
    count: nat,
    canvas: Seq<Rgba>,
)
    ensures
        draw_run(BmdFrameType::Shadow, t4i, palette, pool, width, base, at, cursor, count, canvas)
            == draw_run(
            BmdFrameType::Shadow,
            other_t4i,
            other_palette,
            other_pool,
            width,
            base,
            other_at,
            cursor,
            count,
            canvas,
        ),
        cursor + count <= width ==> draw_run(
            BmdFrameType::Shadow,
            t4i,
            palette,
            pool,
            width,
            base,
            at,
            cursor,
            count,
            canvas,
        ) is Ok,
    decreases count,
{
    if count > 0 && cursor < width {
        lemma_shadow_run_ignores_pool(
            t4i,
            palette,
            pool,
            at,
            other_t4i,
            other_palette,
            other_pool,
            other_at,
            width,
            base,
            cursor + 1,
            (count - 1) as nat,
            canvas.update(base + cursor, shadow()),
        );
    }
}

/// In a shadow frame a run that draws takes nothing from the pool and still
/// moves the cursor: after a control byte `c` below `0x80` the next control
/// byte is the very next byte of the pool, and the cursor stands `c` places
/// further.
pub proof fn lemma_shadow_run_consumes_nothing(
    t4i: Type4AlphaInterpretation,
    palette: Seq<u8>,
    pool: Seq<u8>,
    width: int,
    base: int,
    pos: int,
    cursor: int,
    canvas: Seq<Rgba>,
)
    requires
        0 <= pos < pool.len(),
        0 < pool[pos] < 0x80,
        cursor + pool[pos] <= width,
    ensures
        run_bytes(BmdFrameType::Shadow, pool[pos] as nat) == 0,
        draw_run(
            BmdFrameType::Shadow,
            t4i,
            palette,
            pool,
            width,
            base,
            pos + 1,
            cursor,
            pool[pos] as nat,
            canvas,
        ) is Ok,
        row_runs(BmdFrameType::Shadow, t4i, palette, pool, width, base, pos, cursor, canvas)
            == row_runs(
            BmdFrameType::Shadow,
            t4i,
            palette,
            pool,
            width,
            base,
            pos + 1,
            cursor + pool[pos],
            draw_run(
                BmdFrameType::Shadow,
                t4i,
                palette,
                pool,
                width,
                base,
                pos + 1,
                cursor,
                pool[pos] as nat,
                canvas,
            ).unwrap(),
        ),
{
    lemma_shadow_run_ignores_pool(
        t4i,
        palette,
        pool,
        pos + 1,
        t4i,
        palette,
        pool,
        pos + 1,
        width,
        base,
        cursor,
        pool[pos] as nat,
        canvas,
    );
}

/// A run draws on its own row only: the canvas keeps its size, and every
/// pixel outside the row stays as it was.
pub proof fn lemma_run_stays_in_row(
    kind: BmdFrameType,
    t4i: Type4AlphaInterpretation,
    palette: Seq<u8>,
    pool: Seq<u8>,
    width: int,
    base: int,
    at: int,
    cursor: int,
    count: nat,
    canvas: Seq<Rgba>,
)
    requires
        0 <= base,
        0 <= cursor,
        base + width <= canvas.len(),
        draw_run(kind, t4i, palette, pool, width, base, at, cursor, count, canvas) is Ok,
    ensures
        ({
            let drawn = draw_run(
                kind,
                t4i,
                palette,
                pool,
                width,
                base,
                at,
                cursor,
                count,
                canvas,
            ).unwrap();
            &&& drawn.len() == canvas.len()
            &&& forall|k: int|
                0 <= k < canvas.len() && !(base <= k < base + width) ==> drawn[k] == canvas[k]
        }),
    decreases count,
{
    if count > 0 {
        let p = crate::bmd::frame::pixel_of(kind, t4i, palette, pool, at).unwrap();
        lemma_run_stays_in_row(
            kind,
            t4i,
            palette,
            pool,
            width,
            base,
            at + crate::bmd::frame::pixel_size(kind),
            cursor + 1,
            (count - 1) as nat,
            canvas.update(base + cursor, p),
        );
    }
}

/// The runs of a row draw on that row only.
pub proof fn lemma_row_stays_in_row(
    kind: BmdFrameType,
    t4i: Type4AlphaInterpretation,
    palette: Seq<u8>,
    pool: Seq<u8>,
    width: int,
    base: int,
    pos: int,
    cursor: int,
    canvas: Seq<Rgba>,
)
    requires
        0 <= base,
        0 <= cursor,
        base + width <= canvas.len(),
        row_runs(kind, t4i, palette, pool, width, base, pos, cursor, canvas) is Ok,
    ensures
        ({
            let drawn = row_runs(kind, t4i, palette, pool, width, base, pos, cursor, canvas).unwrap();
            &&& drawn.len() == canvas.len()
            &&& forall|k: int|
                0 <= k < canvas.len() && !(base <= k < base + width) ==> drawn[k] == canvas[k]
        }),
    decreases
            (if pos < pool.len() {
                pool.len() - pos
            } else {
                0
            }),
{
    if 0 <= pos < pool.len() {
        let c = pool[pos];
        if c == 0 {
        } else if c < 0x80 {
            lemma_run_stays_in_row(
                kind,
                t4i,
                palette,
                pool,
                width,
                base,
                pos + 1,
                cursor,
                c as nat,
                canvas,
            );
            let drawn = draw_run(
                kind,
                t4i,
                palette,
                pool,
                width,
                base,
                pos + 1,
                cursor,
                c as nat,
                canvas,
            ).unwrap();
            lemma_row_stays_in_row(
                kind,
                t4i,
                palette,
                pool,
                width,
                base,
                pos + 1 + run_bytes(kind, c as nat),
                cursor + c,
                drawn,
            );
        } else {
            lemma_row_stays_in_row(
                kind,
                t4i,
                palette,
                pool,
                width,
                base,
                pos + 1,
                cursor + (c - 0x80),
                canvas,
            );
        }
    }
}

/// Two different rows of a canvas share no pixel, and every row lies within
/// the canvas.
proof fn lemma_rows_apart(r: int, other: int, rows: int, width: int, x: int)
    requires
        0 <= r < rows,
        0 <= other < rows,
        0 <= x < width,
    ensures
        0 <= r * width,
        r * width + width <= width * rows,
        0 <= other * width + x < width * rows,
        r != other ==> !(r * width <= other * width + x < r * width + width),
{
    assert(0 <= r * width && r * width + width <= width * rows) by (nonlinear_arith)
        requires
            0 <= r < rows,
            0 < width,
    ;
    assert(0 <= other * width + x < width * rows) by (nonlinear_arith)
        requires
            0 <= other < rows,
            0 <= x < width,
    ;
    if r < other {
        assert(r * width + width <= other * width) by (nonlinear_arith)
            requires
                r < other,
                0 < width,
        ;
    } else if other < r {
        assert(other * width + width <= r * width) by (nonlinear_arith)
            requires
                other < r,
                0 < width,
        ;
    }
}

/// Drawing the rows from `r` on leaves a pixel as it is where its row is
/// before `r` or is a sentinel row.
proof fn lemma_rows_keep_pixel(
    file: RawBmdFileView,
    info: BmdFrameInfo,
    palette: Seq<u8>,
    t4i: Type4AlphaInterpretation,
    r: int,
    canvas: Seq<Rgba>,
    row: int,
    x: int,
)
    requires
        0 <= r <= info.len,
        canvas.len() == info.width * info.len,
        0 <= row < info.len,
        0 <= x < info.width,
        row < r || is_sentinel(file.row_infos[info.off + row]),
        frame_rows(file, info, palette, t4i, r, canvas) is Ok,
    ensures
        ({
            let px = frame_rows(file, info, palette, t4i, r, canvas).unwrap();
            &&& px.len() == canvas.len()
            &&& px[row * info.width + x] == canvas[row * info.width + x]
        }),
    decreases info.len - r,
{
    if r < info.len {
        let width = info.width as int;
        let base = r * info.width;
        lemma_rows_apart(r, row, info.len as int, width, x);
        let this_row = file.row_infos[info.off + r];
        let drawn = row_of(info.type_, t4i, palette, file.pixels, width, base, this_row, canvas).unwrap();
        if !is_sentinel(this_row) {
            lemma_row_stays_in_row(
                info.type_,
                t4i,
                palette,
                file.pixels,
                width,
                base,
                this_row.offset as int,
                this_row.indent as int,
                canvas,
            );
        }
        lemma_rows_keep_pixel(file, info, palette, t4i, r + 1, drawn, row, x);
    }
}

/// A row of the sentinel value is drawn without a look at the pixel pool:
/// whatever the pool holds, the canvas stays as it is and the row succeeds.
pub proof fn lemma_sentinel_row_ignores_pool(
    kind: BmdFrameType,
    t4i: Type4AlphaInterpretation,
    palette: Seq<u8>,
    pool: Seq<u8>,
    width: int,
    base: int,
    row: BmdFrameRow,
    canvas: Seq<Rgba>,
)
    requires
        is_sentinel(row),
    ensures
        row_of(kind, t4i, palette, pool, width, base, row, canvas) == Ok::<Seq<Rgba>, DecodeError>(
            canvas,
        ),
{
}

/// A row of the sentinel value is transparent in the decoded frame, whatever
/// the pixel pool holds.
pub proof fn lemma_sentinel_row_is_transparent(
    file: RawBmdFileView,
    info: BmdFrameInfo,
    palette: Seq<u8>,
    t4i: Type4AlphaInterpretation,
    row: int,
    x: int,
)
    requires
        frame_of(file, info, palette, t4i) is Ok,
        0 <= row < info.len,
        0 <= x < info.width,
        is_sentinel(file.row_infos[info.off + row]),
    ensures
        frame_of(file, info, palette, t4i).unwrap().len() == info.width * info.len,
        frame_of(file, info, palette, t4i).unwrap()[row * info.width + x] == transparent(),
        frame_of(file, info, palette, t4i).unwrap()[row * info.width + x].a == 0,
{
    let canvas = blank(info.width * info.len);
    lemma_rows_apart(row, row, info.len as int, info.width as int, x);
    lemma_rows_keep_pixel(file, info, palette, t4i, 0, canvas, row, x);
}

} // verus!
