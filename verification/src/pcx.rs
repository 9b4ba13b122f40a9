//! The indexed-colour image.
//!
//! An image is a header of 128 bytes, the run-length coded pixels, a marker
//! byte `0x0C` and a palette of 256 RGB triplets. A pixel is an index into
//! the palette. A control byte above 192 is followed by one index, which is
//! repeated `c - 192` times; any other byte is one index itself. A second
//! image may give the alpha value of every pixel; without it every pixel is
//! opaque.

use vstd::prelude::*;
use vstd::slice::slice_to_vec;
use crate::codec::length_mismatch;
use crate::codec::run_of;
use crate::endian::half_at;
use crate::error::DecodeError;
use crate::error::StructuralError;
use crate::reader::ByteCursor;
use crate::reader::truncated;

verus! {

/// The header of an image.
#[derive(Debug, Clone, PartialEq, Eq)]
pub struct PcxHeader {
    pub magic: u8,
    pub version: u8,
    pub encoding_method: u8,
    pub bits_per_pixel: u8,
    pub x0: usize,
    pub y0: usize,
    pub x1: usize,
    pub y1: usize,
    pub h_dpi: u16,
    pub v_dpi: u16,
    /// The palette of 16 colours that the header holds: 48 bytes.
    pub palette: Vec<u8>,
    pub reserved: u8,
    pub color_planes: u8,
    pub bytes_per_color_plane: u16,
    pub palette_type: u16,
    pub h_res: u16,
    pub v_res: u16,
}

/// The mathematical value of a `PcxHeader`.
pub struct PcxHeaderView {
    pub magic: u8,
    pub version: u8,
    pub encoding_method: u8,
    pub bits_per_pixel: u8,
    pub x0: int,
    pub y0: int,
    pub x1: int,
    pub y1: int,
    pub h_dpi: u16,
    pub v_dpi: u16,
    pub palette: Seq<u8>,
    pub reserved: u8,
    pub color_planes: u8,
    pub bytes_per_color_plane: u16,
    pub palette_type: u16,
    pub h_res: u16,
    pub v_res: u16,
}

impl View for PcxHeader {
    type V = PcxHeaderView;

    open spec fn view(&self) -> PcxHeaderView {
        PcxHeaderView {
            magic: self.magic,
            version: self.version,
            encoding_method: self.encoding_method,
            bits_per_pixel: self.bits_per_pixel,
            x0: self.x0 as int,
            y0: self.y0 as int,
            x1: self.x1 as int,
            y1: self.y1 as int,
            h_dpi: self.h_dpi,
            v_dpi: self.v_dpi,
            palette: self.palette@,
            reserved: self.reserved,
            color_planes: self.color_planes,
            bytes_per_color_plane: self.bytes_per_color_plane,
            palette_type: self.palette_type,
            h_res: self.h_res,
            v_res: self.v_res,
        }
    }
}

/// A colour of a palette.
#[derive(Debug, Clone, Copy, PartialEq, Eq, Structural)]
pub struct RgbColor {
    pub red: u8,
    pub green: u8,
    pub blue: u8,
}

/// A colour with its alpha value.
#[derive(Debug, Clone, Copy, PartialEq, Eq, Structural)]
pub struct RGBAColor {
    pub red: u8,
    pub green: u8,
    pub blue: u8,
    pub alpha: u8,
}

/// The size of an image.
#[derive(Debug, Clone, Copy, PartialEq, Eq, Structural)]
pub struct Image {
    pub width: u32,
    pub height: u32,
}

/// A decoded image: four bytes for each pixel, red, green, blue and alpha in
/// that order, row by row.
#[derive(Debug, Clone, PartialEq, Eq)]
pub struct Pcx {
    pub width: u32,
    pub height: u32,
    pub data: Vec<u8>,
}

/// The mathematical value of a `Pcx`.
pub struct PcxView {
    pub width: u32,
    pub height: u32,
    pub pixels: Seq<RGBAColor>,
}

impl View for Pcx {
    type V = PcxView;

    open spec fn view(&self) -> PcxView {
        PcxView { width: self.width, height: self.height, pixels: colours_of(self.data@) }
    }
}

/// The error of an image without the marker of its palette.
pub open spec fn palette_not_found() -> DecodeError {
    DecodeError::Malformed(StructuralError::PaletteNotFound)
}

/// The error of an image whose bounding box is inverted, or whose pixels
/// would not fit in memory.
pub open spec fn bad_dimensions() -> DecodeError {
    DecodeError::Malformed(StructuralError::BadDimensions)
}

/// The error of a buffer that cannot hold the decoded image.
pub open spec fn buffer_too_small() -> DecodeError {
    DecodeError::Malformed(StructuralError::BufferTooSmall)
}

/// The size of the header in bytes.
pub open spec fn pcx_header_size() -> int {
    128
}

/// The header that the first 128 bytes of `s` hold.
pub open spec fn pcx_header_of(s: Seq<u8>) -> PcxHeaderView {
    PcxHeaderView {
        magic: s[0],
        version: s[1],
        encoding_method: s[2],
        bits_per_pixel: s[3],
        x0: half_at(s, 4) as int,
        y0: half_at(s, 6) as int,
        x1: half_at(s, 8) as int,
        y1: half_at(s, 10) as int,
        h_dpi: half_at(s, 12),
        v_dpi: half_at(s, 14),
        palette: s.subrange(16, 64),
        reserved: s[64],
        color_planes: s[65],
        bytes_per_color_plane: half_at(s, 66),
        palette_type: half_at(s, 68),
        h_res: half_at(s, 70),
        v_res: half_at(s, 72),
    }
}

/// The number of pixels in a row.
pub open spec fn width_of(h: PcxHeaderView) -> int {
    h.x1 - h.x0 + 1
}

/// The number of rows.
pub open spec fn height_of(h: PcxHeaderView) -> int {
    h.y1 - h.y0 + 1
}

/// The first `need` pixels that the runs at the head of `s` stand for, and
/// the bytes behind those runs. A run that yields more pixels than are
/// still needed is an error.
pub open spec fn pcx_pixels(s: Seq<u8>, need: nat) -> Result<(Seq<u8>, Seq<u8>), DecodeError>
    decreases need,
{
    if need == 0 {
        Ok((Seq::empty(), s))
    } else if s.len() < 1 {
        Err(truncated())
    } else if s[0] > 192 {
        if s.len() < 2 {
            Err(truncated())
        } else if s[0] - 192 > need {
            Err(length_mismatch())
        } else {
            match pcx_pixels(s.skip(2), (need - (s[0] - 192)) as nat) {
                Err(e) => Err(e),
                Ok((pixels, rest)) => Ok((run_of(s[1], s[0] - 192) + pixels, rest)),
            }
        }
    } else {
        match pcx_pixels(s.skip(1), (need - 1) as nat) {
            Err(e) => Err(e),
            Ok((pixels, rest)) => Ok((seq![s[0]] + pixels, rest)),
        }
    }
}

/// Entry `i` of a palette of RGB triplets.
pub open spec fn palette_entry(palette: Seq<u8>, i: int) -> RgbColor {
    RgbColor { red: palette[3 * i], green: palette[3 * i + 1], blue: palette[3 * i + 2] }
}

/// The palette that the first 768 bytes of `s` hold.
pub open spec fn palette_of(s: Seq<u8>) -> Seq<RgbColor> {
    Seq::new(256, |i: int| palette_entry(s, i))
}

/// The alpha values of `count` pixels: taken from the pixels of the mask
/// behind its header, or opaque throughout where there is no mask.
pub open spec fn alpha_of(mask: Option<Seq<u8>>, count: nat) -> Result<Seq<u8>, DecodeError> {
    match mask {
        None => Ok(run_of(0xFFu8, count as int)),
        Some(m) => if m.len() < 128 {
            Err(truncated())
        } else {
            match pcx_pixels(m.skip(128), count) {
                Err(e) => Err(e),
                Ok((alpha, _)) => Ok(alpha),
            }
        },
    }
}

/// The pixel of a colour and an alpha value.
pub open spec fn coloured(c: RgbColor, alpha: u8) -> RGBAColor {
    RGBAColor { red: c.red, green: c.green, blue: c.blue, alpha }
}

/// The pixels that a buffer of RGBA bytes holds.
pub open spec fn colours_of(data: Seq<u8>) -> Seq<RGBAColor> {
    Seq::new(
        (data.len() / 4) as nat,
        |k: int|
            RGBAColor {
                red: data[4 * k],
                green: data[4 * k + 1],
                blue: data[4 * k + 2],
                alpha: data[4 * k + 3],
            },
    )
}

/// The size of the image that a header describes, or the error of a
/// bounding box that is inverted or wider than 32 bits can say.
pub open spec fn image_size(h: PcxHeaderView) -> Result<Image, DecodeError> {
    if h.x1 < h.x0 || h.y1 < h.y0 || width_of(h) > 0xFFFF_FFFF || height_of(h) > 0xFFFF_FFFF {
        Err(bad_dimensions())
    } else {
        Ok(Image { width: width_of(h) as u32, height: height_of(h) as u32 })
    }
}

/// The image that `s` holds, with the alpha values of `mask`.
pub open spec fn pcx_image_of(s: Seq<u8>, mask: Option<Seq<u8>>) -> Result<PcxView, DecodeError> {
    if s.len() < 128 {
        Err(truncated())
    } else {
        let h = pcx_header_of(s);
        let count = width_of(h) * height_of(h);
        if image_size(h) is Err || 4 * count > usize::MAX {
            Err(bad_dimensions())
        } else {
            match pcx_pixels(s.skip(128), count as nat) {
                Err(e) => Err(e),
                Ok((pixels, rest)) => if rest.len() < 1 || rest[0] != 0x0C {
                    Err(palette_not_found())
                } else if rest.len() < 769 {
                    Err(truncated())
                } else {
                    match alpha_of(mask, count as nat) {
                        Err(e) => Err(e),
                        Ok(alpha) => Ok(
                            PcxView {
                                width: width_of(h) as u32,
                                height: height_of(h) as u32,
                                pixels: Seq::new(
                                    count as nat,
                                    |k: int|
                                        coloured(
                                            palette_of(rest.skip(1))[pixels[k] as int],
                                            alpha[k],
                                        ),
                                ),
                            },
                        ),
                    }
                },
            }
        }
    }
}

/// Reads the header of an image.
pub fn read_header(c: &mut ByteCursor) -> (r: Result<PcxHeader, DecodeError>)
    ensures
        r is Ok <==> old(c)@.len() >= 128,
        r matches Ok(h) ==> h@ == pcx_header_of(old(c)@) && final(c)@ == old(c)@.skip(128),
        r is Err ==> r == Err::<PcxHeader, DecodeError>(truncated()),
{
    if c.remaining() < 128 {
        return Err(DecodeError::Malformed(StructuralError::Truncated));
    }
    let ghost s = c@;
    let magic: u8 = c.read_u8()?;
    let version: u8 = c.read_u8()?;
    let encoding_method: u8 = c.read_u8()?;
    let bits_per_pixel: u8 = c.read_u8()?;
    assert(c@ =~= s.skip(4));
    let x0: u16 = c.read_u16()?;
    assert(c@ =~= s.skip(6));
    let y0: u16 = c.read_u16()?;
    assert(c@ =~= s.skip(8));
    let x1: u16 = c.read_u16()?;
    assert(c@ =~= s.skip(10));
    let y1: u16 = c.read_u16()?;
    assert(c@ =~= s.skip(12));
    let h_dpi: u16 = c.read_u16()?;
    assert(c@ =~= s.skip(14));
    let v_dpi: u16 = c.read_u16()?;
    assert(c@ =~= s.skip(16));
    let palette: Vec<u8> = c.read_vec(48)?;
    assert(palette@ =~= s.subrange(16, 64));
    assert(c@ =~= s.skip(64));
    let reserved: u8 = c.read_u8()?;
    let color_planes: u8 = c.read_u8()?;
    assert(c@ =~= s.skip(66));
    let bytes_per_color_plane: u16 = c.read_u16()?;
    assert(c@ =~= s.skip(68));
    let palette_type: u16 = c.read_u16()?;
    assert(c@ =~= s.skip(70));
    let h_res: u16 = c.read_u16()?;
    assert(c@ =~= s.skip(72));
    let v_res: u16 = c.read_u16()?;
    assert(c@ =~= s.skip(74));
    c.skip(54)?;
    assert(c@ =~= s.skip(128));
    Ok(
        PcxHeader {
            magic,
            version,
            encoding_method,
            bits_per_pixel,
            x0: x0 as usize,
            y0: y0 as usize,
            x1: x1 as usize,
            y1: y1 as usize,
            h_dpi,
            v_dpi,
            palette,
            reserved,
            color_planes,
            bytes_per_color_plane,
            palette_type,
            h_res,
            v_res,
        },
    )
}

/// The size of the image that a header describes: the bounding box with
/// both of its edges.
pub fn dimensions(header: &PcxHeader) -> (r: Result<Image, DecodeError>)
    ensures
        r == image_size(header@),
{
    if header.x1 < header.x0 || header.y1 < header.y0 {
        return Err(DecodeError::Malformed(StructuralError::BadDimensions));
    }
    if header.x1 - header.x0 >= 0xFFFF_FFFF || header.y1 - header.y0 >= 0xFFFF_FFFF {
        return Err(DecodeError::Malformed(StructuralError::BadDimensions));
    }
    Ok(
        Image {
            width: (header.x1 - header.x0 + 1) as u32,
            height: (header.y1 - header.y0 + 1) as u32,
        },
    )
}

/// Reads the runs that stand for `count` pixels.
pub fn read_pixels(cursor: &mut ByteCursor, count: usize) -> (r: Result<Vec<u8>, DecodeError>)
    ensures
        match pcx_pixels(old(cursor)@, count as nat) {
            Ok((pixels, rest)) => r is Ok && r.unwrap()@ == pixels && final(cursor)@ == rest,
            Err(e) => r == Err::<Vec<u8>, DecodeError>(e),
        },
{
    let ghost target = pcx_pixels(cursor@, count as nat);
    let mut pixels: Vec<u8> = Vec::new();
    let mut i: usize = 0;
    while i < count
        invariant
            i <= count,
            pixels@.len() == i,
            target == pcx_pixels(old(cursor)@, count as nat),
            match pcx_pixels(cursor@, (count - i) as nat) {
                Ok((more, rest)) => target == Ok::<(Seq<u8>, Seq<u8>), DecodeError>(
                    (pixels@ + more, rest),
                ),
                Err(e) => target == Err::<(Seq<u8>, Seq<u8>), DecodeError>(e),
            },
        decreases count - i,
    {
        let ghost s = cursor@;
        let ghost before = pixels@;
        let first: u8 = cursor.read_u8()?;
        if first > 192 {
            let len: u8 = first - 192;
            let val: u8 = cursor.read_u8()?;
            assert(cursor@ =~= s.skip(2));
            if len as usize > count - i {
                return Err(DecodeError::Malformed(StructuralError::LengthMismatch));
            }
            let mut u: u8 = 0;
            while u < len
                invariant
                    u <= len,
                    pixels@ == before + run_of(val, u as int),
                decreases len - u,
            {
                pixels.push(val);
                u = u + 1;
                assert(pixels@ =~= before + run_of(val, u as int));
            }
            proof {
                match pcx_pixels(s.skip(2), (count - i - len) as nat) {
                    Ok((more, rest)) => {
                        assert((before + run_of(val, len as int)) + more =~= before + (run_of(
                            val,
                            len as int,
                        ) + more));
                    },
                    Err(e) => {},
                }
            }
            i = i + len as usize;
        } else {
            pixels.push(first);
            proof {
                match pcx_pixels(s.skip(1), (count - i - 1) as nat) {
                    Ok((more, rest)) => {
                        assert((before + seq![first]) + more =~= before + (seq![first] + more));
                        assert(pixels@ =~= before + seq![first]);
                    },
                    Err(e) => {},
                }
            }
            i = i + 1;
        }
    }
    assert(pixels@ + Seq::<u8>::empty() =~= pixels@);
    Ok(pixels)
}

/// Reads a palette of 256 RGB triplets.
pub fn read_palette(view: &mut ByteCursor) -> (r: Result<Vec<RgbColor>, DecodeError>)
    ensures
        r is Ok <==> old(view)@.len() >= 768,
        r matches Ok(palette) ==> palette@ == palette_of(old(view)@) && final(view)@ == old(
            view,
        )@.skip(768),
        r is Err ==> r == Err::<Vec<RgbColor>, DecodeError>(truncated()),
{
    let bytes: Vec<u8> = view.read_vec(768)?;
    let mut palette: Vec<RgbColor> = Vec::new();
    let mut i: usize = 0;
    while i < 256
        invariant
            i <= 256,
            bytes@.len() == 768,
            old(view)@.len() >= 768,
            bytes@ == old(view)@.take(768),
            palette@.len() == i,
            forall|j: int| 0 <= j < i ==> palette@[j] == palette_entry(old(view)@, j),
        decreases 256 - i,
    {
        let entry = RgbColor { red: bytes[3 * i], green: bytes[3 * i + 1], blue: bytes[3 * i + 2] };
        proof {
            let s = old(view)@;
            assert(s.take(768)[3 * i] == s[3 * i]);
            assert(s.take(768)[3 * i + 1] == s[3 * i + 1]);
            assert(s.take(768)[3 * i + 2] == s[3 * i + 2]);
            assert(entry == palette_entry(s, i as int));
        }
        palette.push(entry);
        i = i + 1;
    }
    assert(palette@ =~= palette_of(old(view)@));
    Ok(palette)
}

/// The bytes of a mask, where there is one.
pub open spec fn mask_bytes(mask: Option<Vec<u8>>) -> Option<Seq<u8>> {
    match mask {
        Some(m) => Some(m@),
        None => None,
    }
}

/// Reads the alpha values of `count` pixels from a mask, or makes every
/// pixel opaque where there is no mask.
fn read_alpha(mask: Option<Vec<u8>>, count: usize) -> (r: Result<Vec<u8>, DecodeError>)
    ensures
        match alpha_of(mask_bytes(mask), count as nat) {
            Ok(alpha) => r is Ok && r.unwrap()@ == alpha,
            Err(e) => r == Err::<Vec<u8>, DecodeError>(e),
        },
{
    match mask {
        Some(m) => {
            let mut mask_view: ByteCursor = ByteCursor::new(m);
            mask_view.skip(128)?;
            read_pixels(&mut mask_view, count)
        },
        None => {
            let mut alpha: Vec<u8> = Vec::new();
            let mut i: usize = 0;
            while i < count
                invariant
                    i <= count,
                    alpha@ == run_of(0xFFu8, i as int),
                decreases count - i,
            {
                alpha.push(0xFF);
                i = i + 1;
                assert(alpha@ =~= run_of(0xFFu8, i as int));
            }
            Ok(alpha)
        },
    }
}

/// Decodes an image, with the alpha values of a mask where one is given.
pub fn pcx_read_masked(image: Vec<u8>, mask: Option<Vec<u8>>) -> (r: Result<Pcx, DecodeError>)
    ensures
        match pcx_image_of(image@, mask_bytes(mask)) {
            Ok(decoded) => r is Ok && r.unwrap()@ == decoded && r.unwrap().data@.len() == 4
                * decoded.pixels.len(),
            Err(e) => r == Err::<Pcx, DecodeError>(e),
        },
{
    let mut cursor: ByteCursor = ByteCursor::new(image);
    let header: PcxHeader = read_header(&mut cursor)?;
    let size: Image = dimensions(&header)?;
    let width: usize = size.width as usize;
    let height: usize = size.height as usize;
    assert(width * height <= 65536 * 65536) by (nonlinear_arith)
        requires
            width <= 65536,
            height <= 65536,
    ;
    let wide: u64 = width as u64 * height as u64;
    if wide > (usize::MAX / 4) as u64 {
        return Err(DecodeError::Malformed(StructuralError::BadDimensions));
    }
    let count: usize = wide as usize;
    let pixels: Vec<u8> = read_pixels(&mut cursor, count)?;
    let ghost rest = cursor@;
    let extended_palette_indicator: Option<u8> = cursor.peek(0);
    if extended_palette_indicator != Some(0x0Cu8) {
        return Err(DecodeError::Malformed(StructuralError::PaletteNotFound));
    }
    cursor.skip(1)?;
    let palette: Vec<RgbColor> = read_palette(&mut cursor)?;
    let ghost masked = mask_bytes(mask);
    let alpha: Vec<u8> = read_alpha(mask, count)?;
    proof {
        lemma_pcx_pixels_count(image@.skip(128), count as nat);
        match masked {
            Some(m) => {
                lemma_pcx_pixels_count(m.skip(128), count as nat);
            },
            None => {},
        }
    }
    let mut img_data: Vec<u8> = Vec::new();
    let mut i: usize = 0;
    while i < count
        invariant
            i <= count,
            4 * count <= usize::MAX,
            pixels@.len() == count,
            alpha@.len() == count,
            palette@.len() == 256,
            img_data@.len() == 4 * i,
            forall|k: int|
                0 <= k < i ==> #[trigger] colours_of(img_data@)[k] == coloured(
                    palette@[pixels@[k] as int],
                    alpha@[k],
                ),
        decreases count - i,
    {
        let color: RgbColor = palette[pixels[i] as usize];
        let ghost before = img_data@;
        img_data.push(color.red);
        img_data.push(color.green);
        img_data.push(color.blue);
        img_data.push(alpha[i]);
        proof {
            assert forall|k: int| 0 <= k < i + 1 implies #[trigger] colours_of(img_data@)[k]
                == coloured(palette@[pixels@[k] as int], alpha@[k]) by {
                if k < i {
                    assert(colours_of(before)[k] == coloured(palette@[pixels@[k] as int], alpha@[k]));
                    assert(img_data@[4 * k] == before[4 * k]);
                    assert(img_data@[4 * k + 1] == before[4 * k + 1]);
                    assert(img_data@[4 * k + 2] == before[4 * k + 2]);
                    assert(img_data@[4 * k + 3] == before[4 * k + 3]);
                }
            }
        }
        i = i + 1;
    }
    let decoded = Pcx { width: width as u32, height: height as u32, data: img_data };
    assert(decoded@.pixels =~= pcx_image_of(image@, masked).unwrap().pixels);
    Ok(decoded)
}

/// The runs yield as many pixels as were asked for.
pub proof fn lemma_pcx_pixels_count(s: Seq<u8>, need: nat)
    requires
        pcx_pixels(s, need) is Ok,
    ensures
        pcx_pixels(s, need).unwrap().0.len() == need,
    decreases need,
{
    if need > 0 {
        if s[0] > 192 {
            lemma_pcx_pixels_count(s.skip(2), (need - (s[0] - 192)) as nat);
        } else {
            lemma_pcx_pixels_count(s.skip(1), (need - 1) as nat);
        }
    }
}

/// Decodes an image without a mask into the front of a buffer that the
/// caller hands in. The buffer keeps its length, and what stands behind the
/// image stays as it was. Nothing is written where the image does not
/// decode or the buffer is too small for it.
pub fn pcx_read(buf: &[u8], out: &mut Vec<u8>) -> (r: Result<(), DecodeError>)
    ensures
        final(out)@.len() == old(out)@.len(),
        match pcx_image_of(buf@, None) {
            Err(e) => r == Err::<(), DecodeError>(e) && final(out)@ == old(out)@,
            Ok(image) => if old(out)@.len() < 4 * image.pixels.len() {
                r == Err::<(), DecodeError>(buffer_too_small()) && final(out)@ == old(out)@
            } else {
                &&& r is Ok
                &&& colours_of(final(out)@.take(4 * image.pixels.len() as int)) == image.pixels
                &&& final(out)@.skip(4 * image.pixels.len() as int) == old(out)@.skip(
                    4 * image.pixels.len() as int,
                )
            },
        },
{
    let decoded: Pcx = pcx_read_masked(slice_to_vec(buf), None)?;
    let n: usize = decoded.data.len();
    if out.len() < n {
        return Err(DecodeError::Malformed(StructuralError::BufferTooSmall));
    }
    let mut i: usize = 0;
    while i < n
        invariant
            i <= n,
            n == decoded.data@.len(),
            n <= out@.len(),
            out@.len() == old(out)@.len(),
            forall|j: int| 0 <= j < i ==> out@[j] == decoded.data@[j],
            forall|j: int| i <= j < out@.len() ==> out@[j] == old(out)@[j],
        decreases n - i,
    {
        out.set(i, decoded.data[i]);
        i = i + 1;
    }
    assert(out@.take(n as int) =~= decoded.data@);
    assert(out@.skip(n as int) =~= old(out)@.skip(n as int));
    Ok(())
}

/// Leaves the buffer as it is: texture arrays are put together by the
/// caller, from images that `pcx_read` decodes.
pub fn pcx_texture_array(buf: &[u8], out: &mut Vec<u8>)
    ensures
        final(out)@ == old(out)@,
{
}

} // verus!
