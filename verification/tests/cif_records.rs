use cultures_assets::cif::container::read_3fd_cif;
use cultures_assets::cif::container::read_cif;
use cultures_assets::cif::container::read_entries;
use cultures_assets::cif::container::tokenize_3fd_cif;
use cultures_assets::cif::definitions::GfxBobLibs;
use cultures_assets::cif::definitions::IniCategory;
use cultures_assets::cif::fields::FieldName;
use cultures_assets::cif::landscape::parse_GfxBobLibs;
use cultures_assets::cif::landscape::parse_GfxFrames;
use cultures_assets::cif::landscape::parse_GfxFrames_parts;
use cultures_assets::cif::landscape::parse_GfxLandscape;
use cultures_assets::cif::landscape::parse_GfxPalette;
use cultures_assets::cif::landscape::parse_GfxTransition;
use cultures_assets::cif::landscape::GfxLandscapeBuilder;
use cultures_assets::cif::palette::parse_GfxPalette256;
use cultures_assets::cif::parsed::category_of;
use cultures_assets::cif::parsed::parse_section;
use cultures_assets::cif::parsed::reduce_sections;
use cultures_assets::cif::pattern::parse_GfxPattern;
use cultures_assets::cif::section::Item;
use cultures_assets::cif::section::Section;
use cultures_assets::cif::texts::parse_Text;
use cultures_assets::cif::transition::parse_Transition;
use cultures_assets::cif::definitions::IniCategoryType;
use cultures_assets::cipher::decode_cif;
use cultures_assets::cipher::encode_cif;
use cultures_assets::error::DecodeError;
use cultures_assets::error::MissingElement;
use cultures_assets::error::StructuralError;
use cultures_assets::reader::ByteCursor;
use std::collections::HashMap;

fn malformed_value() -> DecodeError {
    DecodeError::Malformed(StructuralError::MalformedValue)
}

fn missing(field: FieldName) -> DecodeError {
    DecodeError::MissingSection(MissingElement::Field(field))
}

fn item(key: &str, value: &str) -> Item {
    Item { key: String::from(key), value: String::from(value) }
}

fn items(pairs: &[(&str, &str)]) -> Vec<Item> {
    pairs.iter().map(|(k, v)| item(k, v)).collect()
}

fn landscape_items() -> Vec<(&'static str, &'static str)> {
    vec![
        ("EditName", "\"player01 sign 01\""),
        ("EditGroups", "\"misc_signs\""),
        ("LogicType", "1"),
        ("LogicMaximumValency", "2"),
        ("LogicIsWorkable", "0"),
        ("logicispileableonmap", "1"),
        ("LogicWalkBlockArea", "-1 -2 3 4"),
        ("LogicBuildBlockArea", "0 0 0 0"),
        ("LogicWorkArea", "5 6 7 8"),
        ("GfxBobLibs", "\"data\\bobs\\ls_temp.bmd\" \"data\\bobs\\ls_temp_s.bmd\""),
        ("GfxPalette", "\"human_Player01\""),
        ("GfxFrames", "1 33"),
        ("GfxStatic", "0"),
        ("GfxLoopAnimation", "1"),
        ("GfxShadingFactor", "1.000000"),
        ("GfxUserFXMatrix", "0"),
        ("GfxDynamicBackground", "0"),
        ("gfxdrawvoidever", "1"),
        ("GfxTransition", "3 \"tree trunk 01\""),
        ("GfxTransition", "2 \"tree debris small\""),
    ]
}

#[test]
fn landscape_is_built_from_its_items() {
    let l = parse_GfxLandscape(items(&landscape_items())).unwrap();
    assert_eq!(l.EditName, "player01 sign 01");
    assert_eq!(l.EditGroups, "misc_signs");
    assert_eq!(l.LogicType, 1);
    assert_eq!(l.LogicMaximumValency, 2);
    assert!(!l.LogicIsWorkable);
    assert!(l.logicispileableonmap);
    assert_eq!(l.LogicWalkBlockArea, ((-1, -2), (3, 4)));
    assert_eq!(l.LogicBuildBlockArea, ((0, 0), (0, 0)));
    assert_eq!(l.LogicWorkArea, ((5, 6), (7, 8)));
    assert_eq!(
        l.GfxBobLibs,
        GfxBobLibs {
            bmd: String::from("data\\bobs\\ls_temp.bmd"),
            shadow: Some(String::from("data\\bobs\\ls_temp_s.bmd")),
        }
    );
    assert_eq!(l.GfxPalette, Some(vec![String::from("human_Player01")]));
    assert_eq!(l.GfxFrames, HashMap::from([(1u8, vec![33u8])]));
    assert!(!l.GfxStatic);
    assert!(l.GfxLoopAnimation);
    assert_eq!(l.GfxShadingFactor, "1.000000");
    assert_eq!(l.GfxShadingFactor.parse::<f32>(), Ok(1.0f32));
    assert_eq!(l.GfxUserFXMatrix, 0);
    assert!(!l.GfxDynamicBackground);
    assert!(l.gfxdrawvoidever);
    assert_eq!(
        l.GfxTransition,
        HashMap::from([
            (3u8, String::from("tree trunk 01")),
            (2u8, String::from("tree debris small")),
        ])
    );
}

#[test]
fn first_transition_for_a_number_wins() {
    let mut pairs = landscape_items();
    pairs.truncate(18);
    pairs.push(("GfxTransition", "3 \"a\""));
    pairs.push(("GfxTransition", "3 \"b\""));
    let l = parse_GfxLandscape(items(&pairs)).unwrap();
    assert_eq!(l.GfxTransition, HashMap::from([(3u8, String::from("a"))]));

    let mut builder = GfxLandscapeBuilder::new();
    assert_eq!(parse_GfxTransition(&mut builder, "3 \"a\""), Ok(()));
    assert_eq!(parse_GfxTransition(&mut builder, "3 \"b\""), Ok(()));
    assert_eq!(parse_GfxTransition(&mut builder, "4 \"c\""), Ok(()));
    assert_eq!(parse_GfxTransition(&mut builder, "4 \"a\""), Ok(()));
    assert_eq!(
        builder.GfxTransition,
        Some(HashMap::from([(3u8, String::from("a")), (4u8, String::from("c"))]))
    );
    assert_eq!(parse_GfxTransition(&mut builder, "4"), Err(malformed_value()));
}

#[test]
fn first_frames_for_a_number_win() {
    let mut builder = GfxLandscapeBuilder::new();
    assert_eq!(parse_GfxFrames(&mut builder, "1 33 34"), Ok(()));
    assert_eq!(parse_GfxFrames(&mut builder, "0 1"), Ok(()));
    assert_eq!(parse_GfxFrames(&mut builder, "1 99"), Ok(()));
    assert_eq!(parse_GfxFrames(&mut builder, "2"), Ok(()));
    assert_eq!(
        builder.GfxFrames,
        Some(HashMap::from([(1u8, vec![33u8, 34]), (0, vec![1]), (2, vec![])]))
    );
    assert_eq!(parse_GfxFrames(&mut builder, "\"1\" 2"), Err(malformed_value()));
    assert_eq!(parse_GfxFrames_parts("1 33 34"), Some((1, vec![33, 34])));
    assert_eq!(parse_GfxFrames_parts("9"), Some((9, vec![])));
    assert_eq!(parse_GfxFrames_parts(""), None);
    assert_eq!(parse_GfxFrames_parts("1 300"), None);
}

#[test]
fn later_scalar_takes_the_place_of_an_earlier_one() {
    let mut pairs = landscape_items();
    pairs.push(("EDITNAME", "\"renamed\""));
    pairs.push(("logictype", "7"));
    let l = parse_GfxLandscape(items(&pairs)).unwrap();
    assert_eq!(l.EditName, "renamed");
    assert_eq!(l.LogicType, 7);
}

#[test]
fn unknown_key_is_passed_over() {
    let mut pairs = landscape_items();
    pairs.insert(0, ("SomethingElse", "this is \"not\" a value"));
    pairs.push(("GfxTexture", "\"of another record\""));
    assert!(parse_GfxLandscape(items(&pairs)).is_ok());
}

#[test]
fn each_missing_field_is_named() {
    let names = [
        FieldName::EditName,
        FieldName::EditGroups,
        FieldName::LogicType,
        FieldName::LogicMaximumValency,
        FieldName::LogicIsWorkable,
        FieldName::LogicIsPileableOnMap,
        FieldName::LogicWalkBlockArea,
        FieldName::LogicBuildBlockArea,
        FieldName::LogicWorkArea,
        FieldName::GfxBobLibs,
        FieldName::GfxPalette,
        FieldName::GfxFrames,
        FieldName::GfxStatic,
        FieldName::GfxLoopAnimation,
        FieldName::GfxShadingFactor,
        FieldName::GfxUserFXMatrix,
        FieldName::GfxDynamicBackground,
        FieldName::GfxDrawVoidEver,
    ];
    for (i, name) in names.iter().enumerate() {
        let mut pairs = landscape_items();
        pairs.remove(i);
        assert_eq!(parse_GfxLandscape(items(&pairs)), Err(missing(*name)));
    }
    let mut pairs = landscape_items();
    pairs.truncate(18);
    assert_eq!(parse_GfxLandscape(items(&pairs)), Err(missing(FieldName::GfxTransition)));
    assert_eq!(parse_GfxLandscape(Vec::new()), Err(missing(FieldName::EditName)));
    // of two that are missing, the first of the record is named
    let mut pairs = landscape_items();
    pairs.remove(12);
    pairs.remove(4);
    assert_eq!(parse_GfxLandscape(items(&pairs)), Err(missing(FieldName::LogicIsWorkable)));
}

#[test]
fn value_that_its_field_cannot_take_is_an_error() {
    for (key, value) in [
        ("EditName", "border"),
        ("LogicType", "256"),
        ("LogicIsWorkable", "2"),
        ("LogicWorkArea", "1 2 3"),
        ("GfxBobLibs", "\"a\" \"b\" \"c\""),
        ("GfxPalette", "1"),
        ("GfxFrames", "\"x\""),
        ("GfxShadingFactor", "one"),
        ("GfxTransition", "3 4"),
    ] {
        let mut pairs = landscape_items();
        pairs.push((key, value));
        assert_eq!(parse_GfxLandscape(items(&pairs)), Err(malformed_value()), "{}", key);
    }
    // the first item that fails decides, before any field is missed
    assert_eq!(parse_GfxLandscape(items(&[("LogicType", "x")])), Err(malformed_value()));
}

#[test]
fn bob_libs_are_one_path_or_two() {
    assert_eq!(
        parse_GfxBobLibs("\"a.bmd\""),
        Some(GfxBobLibs { bmd: String::from("a.bmd"), shadow: None })
    );
    assert_eq!(
        parse_GfxBobLibs("\"a b.bmd\" \"s.bmd\""),
        Some(GfxBobLibs { bmd: String::from("a b.bmd"), shadow: Some(String::from("s.bmd")) })
    );
    assert_eq!(parse_GfxBobLibs(""), None);
    assert_eq!(parse_GfxBobLibs("\"a\" \"b\" \"c\""), None);
    assert_eq!(parse_GfxBobLibs("a.bmd"), None);
    assert_eq!(parse_GfxPalette("\"p\" \"q\""), Some(vec![String::from("p"), String::from("q")]));
    assert_eq!(parse_GfxPalette("p"), None);
}

#[test]
fn palette_record() {
    let p = parse_GfxPalette256(items(&[
        ("editname", "\"Ship_house\""),
        ("gfxfile", "\"data\\palettes\\Ship_house.pcx\""),
    ]))
    .unwrap();
    assert_eq!(p.editname, "Ship_house");
    assert_eq!(p.gfxfile, "data\\palettes\\Ship_house.pcx");
    assert!(!p.gfxpreshade);
    assert_eq!(p.gfxremaptopreshaded, None);
    let p = parse_GfxPalette256(items(&[
        ("GfxPreshade", "1"),
        ("GfxFile", "\"f\""),
        ("GfxRemapToPreshaded", "\"other\""),
        ("EditName", "\"n\""),
    ]))
    .unwrap();
    assert!(p.gfxpreshade);
    assert_eq!(p.gfxremaptopreshaded, Some(String::from("other")));
    assert_eq!(
        parse_GfxPalette256(items(&[("gfxfile", "\"f\"")])),
        Err(missing(FieldName::EditName))
    );
    assert_eq!(
        parse_GfxPalette256(items(&[("editname", "\"n\"")])),
        Err(missing(FieldName::GfxFile))
    );
    assert_eq!(parse_GfxPalette256(items(&[("gfxpreshade", "yes")])), Err(malformed_value()));
}

#[test]
fn pattern_record() {
    let pairs = [
        ("EditName", "\"block mountain 00 01 02\""),
        ("EditGroups", "\"mountain 3x3\" \"mountain all\" \"mountain 3x3\""),
        ("LogicType", "3"),
        ("GfxTexture", "\"data\\textures\\text_200.pcx\""),
        ("GfxCoordsA", "64 128 127 191 64 191"),
        ("GfxCoordsB", "64 128 127 128 127 191"),
    ];
    let p = parse_GfxPattern(items(&pairs)).unwrap();
    assert_eq!(p.EditName, "block mountain 00 01 02");
    assert_eq!(p.EditGroups, vec![String::from("mountain 3x3"), String::from("mountain all")]);
    assert_eq!(p.LogicType, 3);
    assert_eq!(p.GfxTexture, "data\\textures\\text_200.pcx");
    assert_eq!(p.GfxCoordsA, vec![64, 128, 127, 191, 64, 191]);
    assert_eq!(p.GfxCoordsB, vec![64, 128, 127, 128, 127, 191]);
    let names = [
        FieldName::EditName,
        FieldName::EditGroups,
        FieldName::LogicType,
        FieldName::GfxTexture,
        FieldName::GfxCoordsA,
        FieldName::GfxCoordsB,
    ];
    for (i, name) in names.iter().enumerate() {
        let mut fewer = pairs.to_vec();
        fewer.remove(i);
        assert_eq!(parse_GfxPattern(items(&fewer)), Err(missing(*name)));
    }
    assert_eq!(parse_GfxPattern(items(&[("GfxCoordsA", "1 2 300")])), Err(malformed_value()));
}

#[test]
fn transition_record() {
    let pairs = [
        ("name", "\"coast 2\""),
        ("pointtype", "\"meadow\""),
        ("GfxTexture", "\"tran_water_coast.pcx\""),
        ("GfxTextureAlpha", "\"tran_water_coast_a.pcx\""),
        ("GfxCoordsA", "0 128 63 191 0 191"),
        ("GfxCoordsB", "0 128 63 128 63 191"),
        ("GfxCoordsA", "64 128 127 191 64 191"),
    ];
    let t = parse_Transition(items(&pairs)).unwrap();
    assert_eq!(t.name, "coast 2");
    assert_eq!(t.pointtype, "meadow");
    assert_eq!(t.GfxTexture, "tran_water_coast.pcx");
    assert_eq!(t.GfxTextureAlpha, "tran_water_coast_a.pcx");
    assert_eq!(t.GfxCoordsA, vec![vec![0, 128, 63, 191, 0, 191], vec![64, 128, 127, 191, 64, 191]]);
    assert_eq!(t.GfxCoordsB, vec![vec![0, 128, 63, 128, 63, 191]]);
    let t = parse_Transition(items(&pairs[..4])).unwrap();
    assert!(t.GfxCoordsA.is_empty() && t.GfxCoordsB.is_empty());
    assert_eq!(parse_Transition(items(&pairs[1..])), Err(missing(FieldName::Name)));
    assert_eq!(parse_Transition(items(&pairs[..1])), Err(missing(FieldName::PointType)));
    assert_eq!(parse_Transition(items(&pairs[..2])), Err(missing(FieldName::GfxTexture)));
    assert_eq!(parse_Transition(items(&pairs[..3])), Err(missing(FieldName::GfxTextureAlpha)));
    assert_eq!(parse_Transition(items(&[("GfxCoordsB", "")])), Err(malformed_value()));
}

#[test]
fn text_record_numbers_its_strings() {
    let t = parse_Text(items(&[
        ("stringn", "1 \"Small nourishing potion\""),
        ("string", "\"Big nourishing potion\""),
        ("string", "\"Small stamina potion\""),
        ("stringn", "10 \"ten\""),
        ("string", "\"eleven\""),
        ("stringn", "2 \"second again\""),
        ("string", "\"third again\""),
        ("other", "1"),
    ]))
    .unwrap();
    assert_eq!(
        t.strings,
        HashMap::from([
            (1u32, String::from("Small nourishing potion")),
            (2, String::from("Big nourishing potion")),
            (3, String::from("Small stamina potion")),
            (10, String::from("ten")),
            (11, String::from("eleven")),
        ])
    );
    let t = parse_Text(items(&[("string", "\"first\"")])).unwrap();
    assert_eq!(t.strings, HashMap::from([(1u32, String::from("first"))]));
    assert_eq!(parse_Text(Vec::new()).unwrap().strings, HashMap::new());
    assert_eq!(parse_Text(items(&[("stringn", "\"x\"")])), Err(malformed_value()));
    assert_eq!(parse_Text(items(&[("string", "1 \"x\"")])), Err(malformed_value()));
    assert_eq!(
        parse_Text(items(&[("stringn", "4294967295 \"last\""), ("string", "\"none\"")])),
        Err(malformed_value())
    );
}

#[test]
fn section_name_stands_for_the_kind_of_record() {
    assert_eq!(category_of("GfxLandscape"), Some(IniCategoryType::GfxLandscape));
    assert_eq!(category_of("gfxlandscape"), Some(IniCategoryType::GfxLandscape));
    assert_eq!(category_of("TEXT"), Some(IniCategoryType::Text));
    assert_eq!(category_of("GfxPalette256"), Some(IniCategoryType::GfxPalette256));
    assert_eq!(category_of("GfxPattern"), Some(IniCategoryType::GfxPattern));
    assert_eq!(category_of("transition"), Some(IniCategoryType::Transition));
    assert_eq!(category_of("GfxPalette"), None);
    assert_eq!(category_of(" text"), None);
    assert_eq!(category_of(""), None);
}

#[test]
fn section_with_another_name_is_kept_whole() {
    let section = Section {
        name: String::from("LogicControl"),
        items: items(&[("EditName", "not even a value"), ("x", "1")]),
    };
    assert_eq!(parse_section(section.clone()), Ok(IniCategory::Unknown(section)));
}

#[test]
fn sections_become_records_in_order() {
    let sections = vec![
        Section { name: String::from("text"), items: items(&[("string", "\"a\"")]) },
        Section { name: String::from("nothing"), items: Vec::new() },
        Section { name: String::from("GFXLANDSCAPE"), items: items(&landscape_items()) },
        Section {
            name: String::from("GfxPalette256"),
            items: items(&[("editname", "\"n\""), ("gfxfile", "\"f\"")]),
        },
    ];
    let records = reduce_sections(sections.clone()).unwrap();
    assert_eq!(records.len(), 4);
    assert!(matches!(&records[0], IniCategory::Text(t) if t.strings.len() == 1));
    assert!(matches!(&records[1], IniCategory::Unknown(s) if s.name == "nothing"));
    assert!(matches!(&records[2], IniCategory::GfxLandscape(l) if l.LogicType == 1));
    assert!(matches!(&records[3], IniCategory::GfxPalette256(p) if p.editname == "n"));
    assert_eq!(reduce_sections(Vec::new()), Ok(Vec::new()));

    let mut failing = sections;
    failing.insert(1, Section { name: String::from("transition"), items: Vec::new() });
    failing.push(Section { name: String::from("gfxpattern"), items: Vec::new() });
    assert_eq!(reduce_sections(failing), Err(missing(FieldName::Name)));
}

fn entries(list: &[(u8, &str)]) -> Vec<u8> {
    let mut v = Vec::new();
    for (level, text) in list {
        v.push(*level);
        v.extend_from_slice(text.as_bytes());
        v.push(0);
    }
    v
}

fn cif(counts: [u32; 3], index: &[u8], text: &[u8], body: &[u8]) -> Vec<u8> {
    let mut v = vec![0xFD, 0x03];
    v.extend_from_slice(&[0xAB; 12]);
    for c in counts {
        v.extend_from_slice(&c.to_le_bytes());
    }
    v.extend_from_slice(&(text.len() as u32).to_le_bytes());
    v.extend_from_slice(&0x2222_2222u32.to_le_bytes());
    v.extend_from_slice(&0x3333_3333u32.to_le_bytes());
    v.extend_from_slice(&(index.len() as u32).to_le_bytes());
    let mut table = index.to_vec();
    encode_cif(&mut table);
    v.extend(table);
    v.extend_from_slice(&[0xCD; 13]);
    let mut table = text.to_vec();
    encode_cif(&mut table);
    v.extend(table);
    v.extend_from_slice(body);
    v
}

fn sample() -> Vec<(u8, &'static str)> {
    vec![
        (1, "text"),
        (2, "stringn 5 \"five\""),
        (2, "not a line of the grammar"),
        (3, "string \"six\""),
        (1, "Whatever Else"),
        (0, "key 1 2 3"),
        (1, "GfxPalette256"),
        (2, "editname \"n\""),
        (2, "gfxfile \"f\""),
    ]
}

#[test]
fn cif_container_is_taken_apart() {
    let list = sample();
    let n = list.len() as u32;
    let mut bytes = cif([n, n, n], b"index table", b"the text table", &entries(&list));
    bytes.extend_from_slice(b"bytes behind the last entry");
    let mut view = ByteCursor::new(bytes[2..].to_vec());
    let file = tokenize_3fd_cif(&mut view).unwrap();
    assert_eq!(file.header.NrOfEntries, n);
    assert_eq!(file.header.SizeOfIndexTable, 11);
    assert_eq!(file.header.SizeOfTextTable, 14);
    assert_eq!(file.header.Unk2, 0x2222_2222);
    assert_eq!(file.header.Unk3, 0x3333_3333);
    assert_eq!(file.index_table, b"index table".to_vec());
    assert_eq!(file.text_table, b"the text table".to_vec());
    assert_eq!(
        file.sections,
        vec![
            Section {
                name: String::from("text"),
                items: items(&[("stringn", "5 \"five\""), ("string", "\"six\"")]),
            },
            Section { name: String::from("Whatever Else"), items: items(&[("key", "1 2 3")]) },
            Section {
                name: String::from("GfxPalette256"),
                items: items(&[("editname", "\"n\""), ("gfxfile", "\"f\"")]),
            },
        ]
    );

    let records = read_cif(bytes.clone()).unwrap();
    assert_eq!(records.len(), 3);
    match &records[0] {
        IniCategory::Text(t) => assert_eq!(
            t.strings,
            HashMap::from([(5u32, String::from("five")), (6, String::from("six"))])
        ),
        other => panic!("{:?}", other),
    }
    assert_eq!(records[1], IniCategory::Unknown(file.sections[1].clone()));
    assert!(matches!(&records[2], IniCategory::GfxPalette256(p) if p.gfxfile == "f"));
    assert_eq!(read_3fd_cif(&mut ByteCursor::new(bytes[2..].to_vec())), Ok(records));
}

#[test]
fn tables_are_deciphered_each_from_the_start_of_the_keystream() {
    let bytes = cif([0, 0, 0], &[1, 2, 3, 4], &[1, 2, 3, 4], &[]);
    // both tables hold the same plain bytes, so their enciphered bytes agree
    assert_eq!(bytes[42..46], bytes[59..63]);
    let mut table = bytes[42..46].to_vec();
    decode_cif(&mut table);
    assert_eq!(table, vec![1, 2, 3, 4]);
    let file = tokenize_3fd_cif(&mut ByteCursor::new(bytes[2..].to_vec())).unwrap();
    assert_eq!(file.index_table, file.text_table);
    assert!(file.sections.is_empty());
}

#[test]
fn unknown_magic_is_rejected() {
    let mut bytes = cif([0, 0, 0], &[], &[], &[]);
    assert_eq!(read_cif(bytes.clone()), Ok(Vec::new()));
    bytes[0] = 0xFC;
    assert_eq!(read_cif(bytes.clone()), Err(DecodeError::Malformed(StructuralError::BadMagic)));
    bytes[0] = 0x03;
    bytes[1] = 0xFD;
    assert_eq!(read_cif(bytes), Err(DecodeError::Malformed(StructuralError::BadMagic)));
    assert_eq!(read_cif(vec![0xFD]), Err(DecodeError::Malformed(StructuralError::Truncated)));
    assert_eq!(read_cif(Vec::new()), Err(DecodeError::Malformed(StructuralError::Truncated)));
}

#[test]
fn entry_counts_must_agree() {
    let body = entries(&[(1, "a")]);
    assert!(read_cif(cif([1, 1, 1], &[], &[], &body)).is_ok());
    for counts in [[1, 1, 2], [1, 2, 1], [2, 1, 1], [1, 0, 0]] {
        assert_eq!(
            read_cif(cif(counts, &[], &[], &body)),
            Err(DecodeError::Malformed(StructuralError::HeaderMismatch))
        );
    }
}

#[test]
fn item_before_the_first_section_is_an_error() {
    let orphan = DecodeError::Malformed(StructuralError::OrphanItem);
    assert_eq!(read_cif(cif([1, 1, 1], &[], &[], &entries(&[(2, "key 1")]))), Err(orphan));
    assert_eq!(read_cif(cif([2, 2, 2], &[], &[], &entries(&[(0, "x"), (1, "s")]))), Err(orphan));
    // a line outside the grammar is no exception
    assert_eq!(read_cif(cif([1, 1, 1], &[], &[], &entries(&[(2, "??")]))), Err(orphan));
}

#[test]
fn cif_container_cut_short_is_truncated() {
    let list = sample();
    let n = list.len() as u32;
    let bytes = cif([n, n, n], b"index", b"text", &entries(&list));
    let truncated = DecodeError::Malformed(StructuralError::Truncated);
    for cut in [2, 20, 41, 44, 47, 59, 60, 63, 64, 70, bytes.len() - 1] {
        assert_eq!(read_cif(bytes[..cut].to_vec()), Err(truncated), "cut at {}", cut);
    }
    assert!(read_cif(bytes.clone()).is_ok());
    // more entries are declared than there are
    let more = cif([n + 1, n + 1, n + 1], b"index", b"text", &entries(&list));
    assert_eq!(read_cif(more), Err(truncated));
    // fewer entries are read than there are
    let fewer = read_cif(cif([1, 1, 1], b"index", b"text", &entries(&list))).unwrap();
    assert_eq!(fewer.len(), 1);
}

#[test]
fn entry_must_be_utf8() {
    let body = vec![1, 0xFF, 0];
    assert_eq!(
        read_cif(cif([1, 1, 1], &[], &[], &body)),
        Err(DecodeError::Malformed(StructuralError::InvalidText))
    );
}

#[test]
fn entries_are_gathered_into_sections() {
    let mut view = ByteCursor::new(entries(&[(1, "a"), (1, "b"), (9, "k \"v\""), (1, "c")]));
    let sections = read_entries(&mut view, 3).unwrap();
    assert_eq!(
        sections,
        vec![
            Section { name: String::from("a"), items: Vec::new() },
            Section { name: String::from("b"), items: items(&[("k", "\"v\"")]) },
        ]
    );
    assert_eq!(view.remaining(), 3);
    assert_eq!(read_entries(&mut view, 0), Ok(Vec::new()));
}

#[test]
fn record_with_a_missing_field_fails_the_container() {
    let list = [(1u8, "GfxPattern"), (2, "EditName \"x\"")];
    assert_eq!(
        read_cif(cif([2, 2, 2], &[], &[], &entries(&list))),
        Err(missing(FieldName::EditGroups))
    );
}

#[test]
fn every_missing_field_is_reported_at_once() {
    let mut builder = GfxLandscapeBuilder::new();
    assert_eq!(builder.missing_fields().len(), 19);
    assert_eq!(builder.missing_fields()[0], FieldName::EditName);
    assert_eq!(builder.missing_fields()[18], FieldName::GfxTransition);
    for (key, value) in landscape_items() {
        if key != "LogicType" && key != "GfxStatic" && key != "GfxTransition" {
            assert_eq!(builder.apply(&item(key, value)), Ok(()));
        }
    }
    assert_eq!(
        builder.missing_fields(),
        vec![FieldName::LogicType, FieldName::GfxStatic, FieldName::GfxTransition]
    );
    assert!(builder.has(FieldName::EditName));
    assert!(!builder.has(FieldName::LogicType));
    assert!(!builder.has(FieldName::GfxTexture));
    assert_eq!(builder.apply(&item("GfxStatic", "1")), Ok(()));
    assert_eq!(builder.apply(&item("LogicType", "4")), Ok(()));
    assert_eq!(builder.apply(&item("GfxTransition", "1 \"x\"")), Ok(()));
    assert_eq!(builder.missing_fields(), Vec::new());
    assert!(builder.build().is_ok());
}

#[test]
fn failed_item_leaves_an_error_and_no_record() {
    let mut builder = GfxLandscapeBuilder::new();
    assert_eq!(builder.apply(&item("EditName", "\"kept\"")), Ok(()));
    assert_eq!(builder.apply(&item("EditName", "not quoted")), Err(malformed_value()));
    assert_eq!(builder.EditName, Some(String::from("kept")));
    assert_eq!(builder.build(), Err(missing(FieldName::EditGroups)));
}
