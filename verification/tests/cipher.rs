use cultures_assets::cipher::decode_cif;
use cultures_assets::cipher::encode_cif;

#[test]
fn decipher_first_bytes_follow_keystream() {
    // mask bytes: 71, 71 + 126 = 197, 197 + 159 = 356 mod 256 = 100
    let mut data = vec![1u8, 1, 1, 0];
    decode_cif(&mut data);
    assert_eq!(data, vec![0 ^ 71, 0 ^ 197, 0 ^ 100, 255 ^ ((100u16 + 192) % 256) as u8]);
}

#[test]
fn decipher_undoes_encipher() {
    let plain: Vec<u8> = (0..=255u8).chain(0..=255u8).collect();
    let mut data = plain.clone();
    encode_cif(&mut data);
    assert_ne!(data, plain);
    decode_cif(&mut data);
    assert_eq!(data, plain);
}

#[test]
fn encipher_undoes_decipher() {
    let raw: Vec<u8> = vec![0, 255, 1, 2, 3, 128, 127, 64, 0, 0, 0];
    let mut data = raw.clone();
    decode_cif(&mut data);
    encode_cif(&mut data);
    assert_eq!(data, raw);
}

#[test]
fn decipher_of_nothing_is_nothing() {
    let mut data: Vec<u8> = Vec::new();
    decode_cif(&mut data);
    assert!(data.is_empty());
}
