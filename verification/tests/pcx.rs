use cultures_assets::error::DecodeError;
use cultures_assets::error::StructuralError;
use cultures_assets::pcx::dimensions;
use cultures_assets::pcx::pcx_read;
use cultures_assets::pcx::Image;
use cultures_assets::pcx::pcx_read_masked;
use cultures_assets::pcx::pcx_texture_array;
use cultures_assets::pcx::read_header;
use cultures_assets::pcx::read_palette;
use cultures_assets::pcx::read_pixels;
use cultures_assets::pcx::RgbColor;
use cultures_assets::reader::ByteCursor;

fn malformed(kind: StructuralError) -> DecodeError {
    DecodeError::Malformed(kind)
}

fn header(x0: u16, y0: u16, x1: u16, y1: u16) -> Vec<u8> {
    let mut v = vec![0x0A, 0x05, 0x01, 0x08];
    for half in [x0, y0, x1, y1, 300, 301] {
        v.extend_from_slice(&half.to_le_bytes());
    }
    v.extend((0..48u8).map(|b| b + 100));
    v.extend_from_slice(&[0x77, 0x01]);
    for half in [256u16, 1, 640, 480] {
        v.extend_from_slice(&half.to_le_bytes());
    }
    v.extend_from_slice(&[0xEE; 54]);
    assert_eq!(v.len(), 128);
    v
}

fn palette() -> Vec<u8> {
    let mut p = Vec::new();
    for i in 0..256u32 {
        p.push(i as u8);
        p.push((i as u8).wrapping_mul(3));
        p.push(255 - i as u8);
    }
    p
}

fn image(x1: u16, y1: u16, runs: &[u8]) -> Vec<u8> {
    let mut v = header(0, 0, x1, y1);
    v.extend_from_slice(runs);
    v.push(0x0C);
    v.extend(palette());
    v
}

fn rgba(index: u8, alpha: u8) -> [u8; 4] {
    [index, index.wrapping_mul(3), 255 - index, alpha]
}

fn flat(pixels: &[[u8; 4]]) -> Vec<u8> {
    pixels.iter().flat_map(|p| p.iter().copied()).collect()
}

#[test]
fn test_read_pcx_header() {
    let mut buffer = header(0, 0, 255, 255);
    buffer.extend_from_slice(&[0xC1, 0x00]);
    let mut cursor = ByteCursor::new(buffer);
    let header = read_header(&mut cursor).unwrap();
    assert_eq!(header.magic, 0x0A);
    assert_eq!(header.version, 0x05);
    assert_eq!(header.encoding_method, 0x01);
    assert_eq!(header.bits_per_pixel, 0x08);
    assert_eq!(header.x0, 0);
    assert_eq!(header.y0, 0);
    assert_eq!(header.x1, 255);
    assert_eq!(header.y1, 255);
    assert_eq!(cursor.remaining(), 2);
}

#[test]
fn test_pcx_read() {
    // 256 rows of 256 pixels: each row is four runs of 63 and four single pixels
    let mut runs = Vec::new();
    for row in 0..256u32 {
        for _ in 0..4 {
            runs.extend_from_slice(&[192 + 63, row as u8]);
        }
        runs.extend_from_slice(&[1, 2, 3, 4]);
    }
    let buffer = image(255, 255, &runs);
    let mut out = vec![0u8; 256 * 256 * 4];
    assert_eq!(pcx_read(&buffer, &mut out), Ok(()));
    assert_eq!(out.len(), 256 * 256 * 4);
    assert_eq!(out[..4], rgba(0, 255));
    let at = (200 * 256 + 251) * 4;
    assert_eq!(out[at..at + 8], flat(&[rgba(200, 255), rgba(1, 255)])[..]);
    assert_eq!(out[out.len() - 4..], rgba(4, 255));
}

#[test]
fn header_holds_every_field() {
    let mut cursor = ByteCursor::new(header(1, 2, 3, 4));
    let h = read_header(&mut cursor).unwrap();
    assert_eq!((h.x0, h.y0, h.x1, h.y1), (1, 2, 3, 4));
    assert_eq!((h.h_dpi, h.v_dpi), (300, 301));
    assert_eq!(h.palette, (100..148u8).collect::<Vec<u8>>());
    assert_eq!((h.reserved, h.color_planes), (0x77, 1));
    assert_eq!(h.bytes_per_color_plane, 256);
    assert_eq!(h.palette_type, 1);
    assert_eq!((h.h_res, h.v_res), (640, 480));
    assert_eq!(cursor.remaining(), 0);
    let mut short = ByteCursor::new(header(0, 0, 0, 0)[..127].to_vec());
    assert_eq!(read_header(&mut short), Err(malformed(StructuralError::Truncated)));
}

#[test]
fn control_byte_above_192_is_a_run() {
    let mut c = ByteCursor::new(vec![0xC3, 9, 192, 0xC1, 0xFF, 5, 7]);
    assert_eq!(read_pixels(&mut c, 6), Ok(vec![9, 9, 9, 192, 0xFF, 5]));
    assert_eq!(c.remaining(), 1);
    assert_eq!(read_pixels(&mut c, 0), Ok(Vec::new()));
    assert_eq!(c.remaining(), 1);
    assert_eq!(read_pixels(&mut c, 2), Err(malformed(StructuralError::Truncated)));
}

#[test]
fn run_past_the_last_pixel_is_a_length_mismatch() {
    let mut c = ByteCursor::new(vec![1, 0xC3, 9]);
    assert_eq!(read_pixels(&mut c, 3), Err(malformed(StructuralError::LengthMismatch)));
    let mut c = ByteCursor::new(vec![1, 0xC3, 9]);
    assert_eq!(read_pixels(&mut c, 4), Ok(vec![1, 9, 9, 9]));
    let mut c = ByteCursor::new(vec![0xC2]);
    assert_eq!(read_pixels(&mut c, 2), Err(malformed(StructuralError::Truncated)));
}

#[test]
fn palette_is_256_triplets() {
    let mut bytes = palette();
    bytes.push(0xAA);
    let mut c = ByteCursor::new(bytes.clone());
    let p = read_palette(&mut c).unwrap();
    assert_eq!(p.len(), 256);
    assert_eq!(p[0], RgbColor { red: 0, green: 0, blue: 255 });
    assert_eq!(p[100], RgbColor { red: 100, green: 44, blue: 155 });
    assert_eq!(p[255], RgbColor { red: 255, green: 253, blue: 0 });
    assert_eq!(c.remaining(), 1);
    let mut short = ByteCursor::new(bytes[..767].to_vec());
    assert_eq!(read_palette(&mut short), Err(malformed(StructuralError::Truncated)));
}

#[test]
fn image_without_a_mask_is_opaque() {
    let decoded = pcx_read_masked(image(2, 1, &[0xC2, 7, 0, 0xC3, 200]), None).unwrap();
    assert_eq!((decoded.width, decoded.height), (3, 2));
    assert_eq!(
        decoded.data,
        flat(&[rgba(7, 255), rgba(7, 255), rgba(0, 255), rgba(200, 255), rgba(200, 255), rgba(200, 255)])
    );
}

#[test]
fn mask_gives_the_alpha_of_each_pixel() {
    let mut mask = vec![0x55; 128];
    mask.extend_from_slice(&[0xC2, 0x10, 0x00, 0xC1, 0xFF]);
    let decoded = pcx_read_masked(image(1, 1, &[1, 2, 3, 4]), Some(mask.clone())).unwrap();
    assert_eq!(decoded.data, flat(&[rgba(1, 0x10), rgba(2, 0x10), rgba(3, 0), rgba(4, 0xFF)]));
    mask.pop();
    mask.pop();
    assert_eq!(
        pcx_read_masked(image(1, 1, &[1, 2, 3, 4]), Some(mask)),
        Err(malformed(StructuralError::Truncated))
    );
    assert_eq!(
        pcx_read_masked(image(1, 1, &[1, 2, 3, 4]), Some(vec![0; 127])),
        Err(malformed(StructuralError::Truncated))
    );
}

#[test]
fn bounding_box_gives_width_and_height() {
    let mut bytes = header(10, 20, 12, 20);
    bytes.extend_from_slice(&[0xC3, 1, 0x0C]);
    bytes.extend(palette());
    let decoded = pcx_read_masked(bytes, None).unwrap();
    assert_eq!((decoded.width, decoded.height), (3, 1));
    for (x0, y0, x1, y1) in [(1, 0, 0, 0), (0, 1, 0, 0), (65535, 0, 0, 0)] {
        assert_eq!(
            pcx_read_masked(header(x0, y0, x1, y1), None),
            Err(malformed(StructuralError::BadDimensions))
        );
    }
}

#[test]
fn missing_palette_marker_is_an_error() {
    let mut bytes = image(0, 0, &[5]);
    assert!(pcx_read_masked(bytes.clone(), None).is_ok());
    bytes[129] = 0x0D;
    assert_eq!(
        pcx_read_masked(bytes.clone(), None),
        Err(malformed(StructuralError::PaletteNotFound))
    );
    bytes.truncate(129);
    assert_eq!(
        pcx_read_masked(bytes.clone(), None),
        Err(malformed(StructuralError::PaletteNotFound))
    );
    bytes.push(0x0C);
    bytes.extend(palette()[..767].iter());
    assert_eq!(pcx_read_masked(bytes, None), Err(malformed(StructuralError::Truncated)));
}

#[test]
fn pixels_cut_short_are_truncated() {
    let mut bytes = header(0, 0, 3, 0);
    bytes.extend_from_slice(&[1, 2, 3]);
    assert_eq!(pcx_read_masked(bytes, None), Err(malformed(StructuralError::Truncated)));
    assert_eq!(
        pcx_read_masked(vec![0; 100], None),
        Err(malformed(StructuralError::Truncated))
    );
}

#[test]
fn buffer_keeps_what_lies_behind_the_image() {
    let buf = image(1, 0, &[8, 9]);
    let mut out = vec![0xEE; 10];
    assert_eq!(pcx_read(&buf, &mut out), Ok(()));
    assert_eq!(out, [&flat(&[rgba(8, 255), rgba(9, 255)])[..], &[0xEE, 0xEE]].concat());
    let mut exact = vec![0; 8];
    assert_eq!(pcx_read(&buf, &mut exact), Ok(()));
    assert_eq!(exact, flat(&[rgba(8, 255), rgba(9, 255)]));
}

#[test]
fn buffer_is_left_alone_on_failure() {
    let buf = image(1, 0, &[8, 9]);
    let mut small = vec![0xEE; 7];
    assert_eq!(pcx_read(&buf, &mut small), Err(malformed(StructuralError::BufferTooSmall)));
    assert_eq!(small, vec![0xEE; 7]);
    let mut out = vec![0xEE; 8];
    assert_eq!(pcx_read(&buf[..200], &mut out), Err(malformed(StructuralError::Truncated)));
    assert_eq!(out, vec![0xEE; 8]);
    pcx_texture_array(&buf, &mut out);
    assert_eq!(out, vec![0xEE; 8]);
}

#[test]
fn dimensions_count_both_edges_of_the_box() {
    let mut cursor = ByteCursor::new(header(3, 5, 3, 9));
    let mut h = read_header(&mut cursor).unwrap();
    assert_eq!(dimensions(&h), Ok(Image { width: 1, height: 5 }));
    h.x1 = 2;
    assert_eq!(dimensions(&h), Err(malformed(StructuralError::BadDimensions)));
    h.x1 = 3;
    h.y0 = 10;
    assert_eq!(dimensions(&h), Err(malformed(StructuralError::BadDimensions)));
    h.y0 = 0;
    h.y1 = 0xFFFF_FFFE;
    assert_eq!(dimensions(&h), Ok(Image { width: 1, height: 0xFFFF_FFFF }));
    h.y1 = 0xFFFF_FFFF;
    assert_eq!(dimensions(&h), Err(malformed(StructuralError::BadDimensions)));
}
