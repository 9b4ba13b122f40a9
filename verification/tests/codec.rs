use cultures_assets::codec::common_decoding;
use cultures_assets::codec::common_decoding2;
use cultures_assets::codec::dictionary;
use cultures_assets::codec::expand_bytes;
use cultures_assets::codec::expand_words;
use cultures_assets::codec::hoixzisl_parse;
use cultures_assets::codec::raw;
use cultures_assets::codec::read_preamble;
use cultures_assets::codec::HoixzislData;
use cultures_assets::error::DecodeError;
use cultures_assets::error::StructuralError;
use cultures_assets::reader::ByteCursor;

fn truncated() -> DecodeError {
    DecodeError::Malformed(StructuralError::Truncated)
}

fn length_mismatch() -> DecodeError {
    DecodeError::Malformed(StructuralError::LengthMismatch)
}

fn preamble(declared: u32, count: u32) -> Vec<u8> {
    let mut v = vec![7u8];
    v.extend_from_slice(&declared.to_le_bytes());
    v.extend_from_slice(b"12345678");
    v.extend_from_slice(&count.to_le_bytes());
    v.extend_from_slice(&declared.to_le_bytes());
    v
}

fn channel(count: u32, payload: &[u8]) -> ByteCursor {
    let mut v = preamble(payload.len() as u32, count);
    v.extend_from_slice(payload);
    ByteCursor::new(v)
}

#[test]
fn byte_rle_three_literals_then_a_run_of_five() {
    let payload = [0x03, 0x41, 0x41, 0x41, 0x85, 0x42];
    let expected = vec![0x41, 0x41, 0x41, 0x42, 0x42, 0x42, 0x42, 0x42];
    assert_eq!(expand_bytes(&payload), Ok(expected.clone()));
    let decoded = common_decoding(&mut channel(8, &payload)).unwrap();
    assert_eq!(decoded.data, expected);
    assert_eq!(decoded.data.len(), 8);
    assert_eq!(decoded.length, 8);
    assert_eq!(decoded.unk1, 7);
    assert_eq!(decoded.unk_len, 6);
    assert_eq!(decoded.unk_len_dup, 6);
    assert_eq!(decoded.unk_magic, "12345678");
}

#[test]
fn byte_rle_control_bytes_at_the_boundary() {
    // 0x80 is a literal run of 128 bytes; 0x81 is a run of one; 0 is empty.
    let mut payload = vec![0x80u8];
    payload.extend((0..128u8).map(|b| b ^ 0x55));
    payload.extend_from_slice(&[0x00, 0x81, 0x09, 0xFF, 0x01]);
    let mut expected: Vec<u8> = (0..128u8).map(|b| b ^ 0x55).collect();
    expected.push(0x09);
    expected.extend(std::iter::repeat(0x01).take(127));
    assert_eq!(expand_bytes(&payload), Ok(expected));
    assert_eq!(expand_bytes(&[]), Ok(Vec::new()));
}

#[test]
fn byte_rle_cut_short_is_truncated() {
    assert_eq!(expand_bytes(&[0x85]), Err(truncated()));
    assert_eq!(expand_bytes(&[0x03, 1, 2]), Err(truncated()));
    assert_eq!(expand_bytes(&[0x01, 1, 0x02, 5]), Err(truncated()));
}

#[test]
fn byte_rle_with_a_wrong_count_fails() {
    let payload = [0x03, 0x41, 0x41, 0x41, 0x85, 0x42];
    assert_eq!(common_decoding(&mut channel(7, &payload)), Err(length_mismatch()));
    assert_eq!(common_decoding(&mut channel(9, &payload)), Err(length_mismatch()));
    assert_eq!(common_decoding(&mut channel(0, &payload)), Err(length_mismatch()));
    assert!(common_decoding(&mut channel(0, &[])).is_ok());
}

#[test]
fn word_rle_reads_little_endian_words() {
    let payload = [0x02, 0x34, 0x12, 0xFF, 0x00, 0x83, 0xCD, 0xAB];
    let expected = vec![0x1234u16, 0x00FF, 0xABCD, 0xABCD, 0xABCD];
    assert_eq!(expand_words(&payload), Ok(expected.clone()));
    // the preamble counts bytes: ten bytes are five words
    let decoded = common_decoding2(&mut channel(10, &payload)).unwrap();
    assert_eq!(decoded.data, expected);
    assert_eq!(decoded.length, 5);
    // an odd count is halved downwards
    assert!(common_decoding2(&mut channel(11, &payload)).is_ok());
}

#[test]
fn word_rle_cut_short_is_truncated() {
    assert_eq!(expand_words(&[0x81, 0x01]), Err(truncated()));
    assert_eq!(expand_words(&[0x02, 1, 2, 3]), Err(truncated()));
    assert_eq!(expand_words(&[0x81]), Err(truncated()));
}

#[test]
fn word_rle_with_a_wrong_count_fails() {
    let payload = [0x02, 0x34, 0x12, 0xFF, 0x00, 0x83, 0xCD, 0xAB];
    assert_eq!(common_decoding2(&mut channel(8, &payload)), Err(length_mismatch()));
    assert_eq!(common_decoding2(&mut channel(12, &payload)), Err(length_mismatch()));
}

#[test]
fn raw_copies_the_payload() {
    let payload = [9u8, 8, 7, 0x85, 0x00];
    let decoded = raw(&mut channel(5, &payload)).unwrap();
    assert_eq!(decoded.data, payload.to_vec());
    assert_eq!(decoded.length, 5);
    assert_eq!(decoded.data_len, 5);
}

#[test]
fn raw_with_a_wrong_count_fails() {
    let payload = [9u8, 8, 7];
    assert_eq!(raw(&mut channel(2, &payload)), Err(length_mismatch()));
    assert_eq!(raw(&mut channel(4, &payload)), Err(length_mismatch()));
}

#[test]
fn dictionary_reads_counted_short_strings() {
    let mut v = 2u32.to_le_bytes().to_vec();
    v.extend_from_slice(&[5]);
    v.extend_from_slice(b"grass");
    v.push(0xEE);
    v.extend_from_slice(&[0]);
    v.push(0xEE);
    let entries = dictionary(&mut ByteCursor::new(v)).unwrap();
    assert_eq!(entries, vec![String::from("grass"), String::new()]);
    assert_eq!(dictionary(&mut ByteCursor::new(vec![0, 0, 0, 0])), Ok(Vec::new()));
}

#[test]
fn dictionary_with_a_wrong_count_fails() {
    let mut v = 2u32.to_le_bytes().to_vec();
    v.extend_from_slice(&[1, b'a', 0]);
    // one entry where two are declared
    assert_eq!(dictionary(&mut ByteCursor::new(v.clone())), Err(truncated()));
    // the padding of the last entry is missing
    v.extend_from_slice(&[1, b'b']);
    assert_eq!(dictionary(&mut ByteCursor::new(v.clone())), Err(truncated()));
    // three entries where two are declared
    v.extend_from_slice(&[0, 1, b'c', 0]);
    assert_eq!(dictionary(&mut ByteCursor::new(v)), Err(length_mismatch()));
    assert_eq!(dictionary(&mut ByteCursor::new(vec![1, 0, 0])), Err(truncated()));
}

#[test]
fn dictionary_entry_must_be_utf8() {
    let mut v = 1u32.to_le_bytes().to_vec();
    v.extend_from_slice(&[1, 0xFF, 0]);
    assert_eq!(
        dictionary(&mut ByteCursor::new(v)),
        Err(DecodeError::Malformed(StructuralError::InvalidText))
    );
}

#[test]
fn preamble_is_checked() {
    let mut short = ByteCursor::new(preamble(0, 0)[..20].to_vec());
    assert_eq!(read_preamble(&mut short), Err(truncated()));
    let mut differ = preamble(3, 0);
    differ[17] = 4;
    assert_eq!(
        read_preamble(&mut ByteCursor::new(differ.clone())),
        Err(DecodeError::Malformed(StructuralError::HeaderMismatch))
    );
    assert_eq!(
        common_decoding(&mut ByteCursor::new(differ)),
        Err(DecodeError::Malformed(StructuralError::HeaderMismatch))
    );
    let mut bad_tag = preamble(3, 0);
    bad_tag[5] = 0xFF;
    assert_eq!(
        read_preamble(&mut ByteCursor::new(bad_tag)),
        Err(DecodeError::Malformed(StructuralError::InvalidText))
    );
    let mut cursor = ByteCursor::new(preamble(0x0102_0304, 0x0A0B_0C0D));
    let p = read_preamble(&mut cursor).unwrap();
    assert_eq!(p.unk_len, 0x0102_0304);
    assert_eq!(p.length, 0x0A0B_0C0D);
    assert_eq!(cursor.remaining(), 0);
}

#[test]
fn size_section_holds_width_and_height() {
    let mut v = 300u32.to_le_bytes().to_vec();
    v.extend_from_slice(&200u32.to_le_bytes());
    assert_eq!(
        hoixzisl_parse(&mut ByteCursor::new(v.clone())),
        Ok(HoixzislData { width: 300, height: 200 })
    );
    v.pop();
    assert_eq!(hoixzisl_parse(&mut ByteCursor::new(v)), Err(truncated()));
}
