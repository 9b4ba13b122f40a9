use cultures_assets::error::DecodeError;
use cultures_assets::error::MissingElement;
use cultures_assets::error::StructuralError;
use cultures_assets::map::container::decode_section;
use cultures_assets::map::container::read_header;
use cultures_assets::map::container::read_sections;
use cultures_assets::map::container::DecodedSection;
use cultures_assets::map::container::MapSections;
use cultures_assets::map::data::assemble_map_data;
use cultures_assets::map::data::read_map_data;
use cultures_assets::map::tags::Codec;
use cultures_assets::map::tags::MapSectionName;
use cultures_assets::reader::ByteCursor;

fn missing(name: MapSectionName) -> DecodeError {
    DecodeError::MissingSection(MissingElement::MapSection(name))
}

fn record(tag: &[u8; 8], payload: &[u8]) -> Vec<u8> {
    let mut v = tag.to_vec();
    v.extend_from_slice(&0x1111_1111u32.to_le_bytes());
    v.extend_from_slice(&(payload.len() as u32).to_le_bytes());
    for unk in 2..=5u32 {
        v.extend_from_slice(&unk.to_le_bytes());
    }
    v.extend_from_slice(payload);
    v
}

fn channel(count: u32, payload: &[u8]) -> Vec<u8> {
    let mut v = vec![1u8];
    v.extend_from_slice(&(payload.len() as u32).to_le_bytes());
    v.extend_from_slice(b"magicmag");
    v.extend_from_slice(&count.to_le_bytes());
    v.extend_from_slice(&(payload.len() as u32).to_le_bytes());
    v.extend_from_slice(payload);
    v
}

fn bytes_of(value: u8) -> Vec<u8> {
    // a run of four and one literal
    channel(5, &[0x84, value, 0x01, value + 1])
}

fn words_of(value: u8) -> Vec<u8> {
    // a run of two words: four bytes of elements
    channel(4, &[0x82, value, 0x01])
}

fn dict_of(names: &[&str]) -> Vec<u8> {
    let mut v = (names.len() as u32).to_le_bytes().to_vec();
    for n in names {
        v.push(n.len() as u8);
        v.extend_from_slice(n.as_bytes());
        v.push(0);
    }
    v
}

fn size_of(width: u32, height: u32) -> Vec<u8> {
    let mut v = width.to_le_bytes().to_vec();
    v.extend_from_slice(&height.to_le_bytes());
    v
}

fn mandatory() -> Vec<(&'static [u8; 8], Vec<u8>)> {
    vec![
        (b"hoixzisl", size_of(5, 1)),
        (b"hoixehml", bytes_of(10)),
        (b"hoixrbme", bytes_of(20)),
        (b"hoixdpae", dict_of(&["grass", "sand"])),
        (b"hoixapme", words_of(30)),
        (b"hoixbpme", words_of(40)),
        (b"hoixdtae", dict_of(&["coast"])),
        (b"hoix1tme", bytes_of(50)),
        (b"hoix2tme", bytes_of(60)),
        (b"hoix3tme", bytes_of(70)),
        (b"hoix4tme", bytes_of(80)),
        (b"hoixdlae", dict_of(&[])),
        (b"hoixtlml", bytes_of(90)),
        (b"hoixalme", channel(3, &[0x85, 0x00, 0x42])),
        (b"hoixvlml", bytes_of(100)),
    ]
}

fn container(records: &[(&[u8; 8], Vec<u8>)]) -> Vec<u8> {
    records.iter().flat_map(|(tag, payload)| record(tag, payload)).collect()
}

fn run(value: u8) -> Vec<u8> {
    vec![value, value, value, value, value + 1]
}

#[test]
fn complete_container_yields_map_data() {
    let map = read_map_data(container(&mandatory())).unwrap();
    assert_eq!((map.width, map.height), (5, 1));
    assert_eq!(map.elevation, run(10));
    assert_eq!(map.lighting, run(20));
    assert_eq!(map.tiles_index, vec![String::from("grass"), String::from("sand")]);
    assert_eq!(map.tiles_a, vec![0x011E, 0x011E]);
    assert_eq!(map.tiles_b, vec![0x0128, 0x0128]);
    assert_eq!(map.transitions_index, vec![String::from("coast")]);
    assert_eq!(map.trans_a1, run(50));
    assert_eq!(map.trans_b1, run(60));
    assert_eq!(map.trans_a2, run(70));
    assert_eq!(map.trans_b2, run(80));
    assert_eq!(map.landscape_index, Vec::<String>::new());
    assert_eq!(map.landscape_job_types, run(90));
    // the raw channel is not run-length coded
    assert_eq!(map.landscape_types, vec![0x85, 0x00, 0x42]);
    assert_eq!(map.landscape_levels, run(100));
}

#[test]
fn missing_size_section_is_named() {
    let mut records = mandatory();
    records.remove(0);
    assert_eq!(read_map_data(container(&records)), Err(missing(MapSectionName::hoixzisl)));
    // an empty container lacks the size section first of all
    assert_eq!(read_map_data(Vec::new()), Err(missing(MapSectionName::hoixzisl)));
}

#[test]
fn each_missing_mandatory_section_is_named() {
    let names = [
        MapSectionName::hoixzisl,
        MapSectionName::hoixehml,
        MapSectionName::hoixrbme,
        MapSectionName::hoixdpae,
        MapSectionName::hoixapme,
        MapSectionName::hoixbpme,
        MapSectionName::hoixdtae,
        MapSectionName::hoix1tme,
        MapSectionName::hoix2tme,
        MapSectionName::hoix3tme,
        MapSectionName::hoix4tme,
        MapSectionName::hoixdlae,
        MapSectionName::hoixtlml,
        MapSectionName::hoixalme,
        MapSectionName::hoixvlml,
    ];
    for (i, name) in names.iter().enumerate() {
        let mut records = mandatory();
        assert_eq!(name.as_str().as_bytes(), records[i].0);
        records.remove(i);
        assert_eq!(read_map_data(container(&records)), Err(missing(*name)));
    }
    // of two that are missing, the one that is looked for first is named
    let mut records = mandatory();
    records.remove(9);
    records.remove(3);
    assert_eq!(read_map_data(container(&records)), Err(missing(MapSectionName::hoixdpae)));
}

#[test]
fn unknown_section_is_skipped_by_its_declared_length() {
    let expected = read_map_data(container(&mandatory())).unwrap();
    let junk: Vec<u8> = (0..100u8).collect();
    for at in [0usize, 1, 7, 15] {
        let mut records = mandatory();
        records.insert(at, (b"hoixfhml", junk.clone()));
        assert_eq!(read_map_data(container(&records)), Ok(expected.clone()));
    }
    // a payload that looks like a record is skipped all the same
    let mut records = mandatory();
    records.insert(2, (b"nothoix!", record(b"hoixzisl", &size_of(9, 9))));
    records.insert(5, (b"\xFF\xFE\x00\x01\x02\x03\x04\x05", Vec::new()));
    assert_eq!(read_map_data(container(&records)), Ok(expected));
}

#[test]
fn later_section_with_the_same_tag_is_kept() {
    let mut records = mandatory();
    records.push((b"hoixzisl", size_of(5, 77)));
    records.push((b"hoixehml", bytes_of(1)));
    let map = read_map_data(container(&records)).unwrap();
    assert_eq!((map.width, map.height), (5, 77));
    assert_eq!(map.elevation, run(1));
}

#[test]
fn known_section_that_is_not_mandatory_is_decoded_too() {
    let mut records = mandatory();
    records.push((b"hoixplml", bytes_of(3)));
    assert!(read_map_data(container(&records)).is_ok());
    // its payload must decode, though nothing of the map data comes from it
    records.push((b"hoixplml", channel(6, &[0x84, 3, 0x01, 4])));
    assert_eq!(
        read_map_data(container(&records)),
        Err(DecodeError::Malformed(StructuralError::LengthMismatch))
    );
    let sections = read_sections(container(&mandatory()[..2])).unwrap();
    assert!(sections.get(MapSectionName::hoixzisl).is_some());
    assert!(sections.get(MapSectionName::hoixehml).is_some());
    assert!(sections.get(MapSectionName::hoixplml).is_none());
}

#[test]
fn record_cut_short_is_truncated() {
    let bytes = container(&mandatory());
    let truncated = Err(DecodeError::Malformed(StructuralError::Truncated));
    assert_eq!(read_map_data(bytes[..bytes.len() - 1].to_vec()), truncated.clone());
    assert_eq!(read_map_data(bytes[..31].to_vec()), truncated.clone());
    assert_eq!(read_map_data(bytes[..33].to_vec()), truncated.clone());
    let mut with_tail = bytes.clone();
    with_tail.extend_from_slice(&[0; 31]);
    assert_eq!(read_map_data(with_tail), truncated.clone());
    // an unknown section that is cut short is an error as well
    let mut unknown = bytes;
    unknown.extend(record(b"whatever", &[1, 2, 3]));
    unknown.pop();
    assert_eq!(read_map_data(unknown), truncated);
}

#[test]
fn section_with_a_wrong_count_fails_the_container() {
    let mut records = mandatory();
    records[1].1 = channel(4, &[0x84, 10, 0x01, 11]);
    assert_eq!(
        read_map_data(container(&records)),
        Err(DecodeError::Malformed(StructuralError::LengthMismatch))
    );
}

#[test]
fn header_is_read_field_by_field() {
    let bytes = record(b"hoixzisl", &size_of(1, 2));
    let mut c = ByteCursor::new(bytes);
    let h = read_header(&mut c).unwrap();
    assert_eq!(h.tag, b"hoixzisl".to_vec());
    assert_eq!(h.unk1, 0x1111_1111);
    assert_eq!(h.section_length, 8);
    assert_eq!((h.unk2, h.unk3, h.unk4, h.unk5), (2, 3, 4, 5));
    assert_eq!(c.remaining(), 8);
    assert_eq!(read_header(&mut c), Err(DecodeError::Malformed(StructuralError::Truncated)));
}

#[test]
fn tags_and_names() {
    assert_eq!(MapSectionName::from_tag(b"hoixzisl"), Some(MapSectionName::hoixzisl));
    assert_eq!(MapSectionName::from_str("hoix1tme"), Some(MapSectionName::hoix1tme));
    assert_eq!(MapSectionName::from_str("hoixfhml"), None);
    assert_eq!(MapSectionName::from_str("HOIXZISL"), None);
    assert_eq!(MapSectionName::from_tag(b"hoixzis"), None);
    assert_eq!(MapSectionName::from_tag(b"hoixzisl\0"), None);
    assert_eq!(MapSectionName::from_tag(b"xoixzisl"), None);
    assert_eq!(MapSectionName::hoixoaml.as_str(), "hoixoaml");
    assert_eq!(MapSectionName::hoixoaml.codec(), Codec::WordRle);
    assert_eq!(MapSectionName::hoixehml.codec(), Codec::ByteRle);
    assert_eq!(MapSectionName::hoixdlae.codec(), Codec::Dictionary);
    assert_eq!(MapSectionName::hoixalme.codec(), Codec::Raw);
    assert_eq!(MapSectionName::hoixzisl.codec(), Codec::Size);
    assert_eq!(MapSectionName::hoixehml.index(), 0);
    assert_eq!(MapSectionName::hoixzisl.index(), 28);
}

#[test]
fn every_name_is_found_under_its_own_tag() {
    let all = [
        "hoixehml", "hoixapml", "hoixbpml", "hoixtlml", "hoixvlml", "hoixplml", "hoixocml",
        "hoixwtml", "hoixsmml", "hoixrpml", "hoixbwml", "hoixbbml", "hoixorml", "hoixbsml",
        "hoixoaml", "hoixrbme", "hoix1mme", "hoiximme", "hoixdpae", "hoixapme", "hoixbpme",
        "hoixdtae", "hoix1tme", "hoix2tme", "hoix3tme", "hoix4tme", "hoixdlae", "hoixalme",
        "hoixzisl",
    ];
    for (i, tag) in all.iter().enumerate() {
        let name = MapSectionName::from_str(tag).unwrap();
        assert_eq!(name.as_str(), *tag);
        assert_eq!(name.index(), i);
        assert_eq!(MapSectionName::from_tag(tag.as_bytes()), Some(name));
    }
}

#[test]
fn sections_are_decoded_by_the_codec_of_their_tag() {
    let payload = channel(3, &[0x83, 0x07]);
    match decode_section(MapSectionName::hoixehml, payload.clone()).unwrap() {
        DecodedSection::Bytes(c) => assert_eq!(c.data, vec![7, 7, 7]),
        other => panic!("{:?}", other),
    }
    match decode_section(MapSectionName::hoixalme, channel(2, &[0x83, 0x07])).unwrap() {
        DecodedSection::Raw(c) => assert_eq!(c.data, vec![0x83, 0x07]),
        other => panic!("{:?}", other),
    }
    assert_eq!(
        decode_section(MapSectionName::hoixapme, payload),
        Err(DecodeError::Malformed(StructuralError::Truncated))
    );
}

#[test]
fn assembling_from_no_section_names_the_size_section() {
    let sections = MapSections::new();
    assert_eq!(assemble_map_data(&sections), Err(missing(MapSectionName::hoixzisl)));
}
