use cultures_assets::error::DecodeError;
use cultures_assets::error::StructuralError;
use cultures_assets::reader::is_eof;
use cultures_assets::reader::read_bytes;
use cultures_assets::reader::read_fixed_string;
use cultures_assets::reader::read_normal_string;
use cultures_assets::reader::read_short_string;
use cultures_assets::reader::read_zero_terminated_string;
use cultures_assets::reader::ByteCursor;

fn truncated() -> DecodeError {
    DecodeError::Malformed(StructuralError::Truncated)
}

fn invalid_text() -> DecodeError {
    DecodeError::Malformed(StructuralError::InvalidText)
}

#[test]
fn integers_are_little_endian() {
    let mut c = ByteCursor::new(vec![0x34, 0x12, 0x78, 0x56, 0x34, 0x12, 0xFF]);
    assert_eq!(c.read_u16(), Ok(0x1234));
    assert_eq!(c.read_u32(), Ok(0x1234_5678));
    assert_eq!(c.read_u8(), Ok(0xFF));
    assert!(is_eof(&c));
}

#[test]
fn a_short_read_fails_and_consumes_nothing() {
    let mut c = ByteCursor::new(vec![1, 2, 3]);
    assert_eq!(c.read_u32(), Err(truncated()));
    assert_eq!(c.remaining(), 3);
    assert_eq!(c.read_u16(), Ok(0x0201));
    assert_eq!(c.read_u16(), Err(truncated()));
    assert_eq!(c.read_u8(), Ok(3));
    assert_eq!(c.read_u8(), Err(truncated()));
}

#[test]
fn peek_and_skip() {
    let mut c = ByteCursor::new(vec![10, 20, 30, 40]);
    assert_eq!(c.peek(0), Some(10));
    assert_eq!(c.peek(3), Some(40));
    assert_eq!(c.peek(4), None);
    assert_eq!(c.peek_vec(1, 2), Some(vec![20, 30]));
    assert_eq!(c.peek_vec(1, 4), None);
    assert_eq!(c.skip(5), Err(truncated()));
    assert_eq!(c.skip(3), Ok(()));
    assert_eq!(c.remaining(), 1);
    assert_eq!(c.peek(0), Some(40));
}

#[test]
fn fixed_string_keeps_zero_bytes() {
    let mut c = ByteCursor::new(vec![b'a', 0, b'b', b'c']);
    assert_eq!(read_fixed_string(&mut c, 3), Ok(String::from("a\0b")));
    assert_eq!(c.remaining(), 1);
    assert_eq!(read_fixed_string(&mut c, 2), Err(truncated()));
    assert_eq!(read_fixed_string(&mut c, 0), Ok(String::new()));
}

#[test]
fn fixed_string_decodes_utf8() {
    let mut c = ByteCursor::new(vec![0xC3, 0xA9, b'!']);
    assert_eq!(read_fixed_string(&mut c, 3), Ok(String::from("\u{e9}!")));
}

#[test]
fn invalid_utf8_is_rejected_and_not_consumed() {
    let mut c = ByteCursor::new(vec![0xFF, b'a']);
    assert_eq!(read_fixed_string(&mut c, 2), Err(invalid_text()));
    assert_eq!(c.remaining(), 2);
    assert_eq!(read_fixed_string(&mut c, 0), Ok(String::new()));
}

#[test]
fn short_string_has_one_length_byte() {
    let mut c = ByteCursor::new(vec![3, b'a', b'b', b'c', 0, 9]);
    assert_eq!(read_short_string(&mut c), Ok(String::from("abc")));
    assert_eq!(read_short_string(&mut c), Ok(String::new()));
    assert_eq!(read_short_string(&mut c), Err(truncated()));
    assert_eq!(c.remaining(), 1);
    let mut empty = ByteCursor::new(Vec::new());
    assert_eq!(read_short_string(&mut empty), Err(truncated()));
}

#[test]
fn normal_string_has_four_length_bytes() {
    let mut c = ByteCursor::new(vec![2, 0, 0, 0, b'h', b'i', 1, 0, 0]);
    assert_eq!(read_normal_string(&mut c), Ok(String::from("hi")));
    assert_eq!(read_normal_string(&mut c), Err(truncated()));
    assert_eq!(c.remaining(), 3);
    let mut long = ByteCursor::new(vec![0xFF, 0xFF, 0xFF, 0xFF, b'x']);
    assert_eq!(read_normal_string(&mut long), Err(truncated()));
}

#[test]
fn zero_terminated_string_ends_at_first_zero() {
    let mut c = ByteCursor::new(vec![b'o', b'n', b'e', 0, 0, b't', b'w', b'o']);
    assert_eq!(read_zero_terminated_string(&mut c), Ok(String::from("one")));
    assert_eq!(read_zero_terminated_string(&mut c), Ok(String::new()));
    assert_eq!(read_zero_terminated_string(&mut c), Err(truncated()));
    assert_eq!(c.remaining(), 3);
}

#[test]
fn zero_terminated_string_must_be_utf8() {
    let mut c = ByteCursor::new(vec![0x80, 0]);
    assert_eq!(read_zero_terminated_string(&mut c), Err(invalid_text()));
    assert_eq!(c.remaining(), 2);
}

#[test]
fn read_bytes_takes_exactly_the_size() {
    let mut c = ByteCursor::new(vec![1, 2, 3, 4, 5]);
    assert_eq!(read_bytes(&mut c, 2), Ok(vec![1, 2]));
    assert_eq!(read_bytes(&mut c, 4), Err(truncated()));
    assert_eq!(read_bytes(&mut c, 3), Ok(vec![3, 4, 5]));
    assert!(is_eof(&c));
    assert_eq!(read_bytes(&mut c, 0), Ok(Vec::new()));
}

#[test]
fn eof_only_when_nothing_is_left() {
    let mut c = ByteCursor::new(vec![7]);
    assert!(!is_eof(&c));
    assert_eq!(c.read_u8(), Ok(7));
    assert!(is_eof(&c));
    assert!(is_eof(&ByteCursor::new(Vec::new())));
}
