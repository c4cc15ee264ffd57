use wow_alchemy::dbd::{parse_column_line, parse_dbd_content, parse_field_line, TypeSize};
use wow_alchemy::game_build::{GameBuild, GameBuildSpec};

fn target(major: u32, minor: u32, patch: u32, build: u32) -> GameBuild {
    GameBuild { major, minor, patch, build }
}

#[test]
fn type_size_tokens() {
    assert_eq!(TypeSize::parse_type_size("8"), TypeSize::Int8);
    assert_eq!(TypeSize::parse_type_size("u8"), TypeSize::UInt8);
    assert_eq!(TypeSize::parse_type_size("16"), TypeSize::Int16);
    assert_eq!(TypeSize::parse_type_size("u16"), TypeSize::UInt16);
    assert_eq!(TypeSize::parse_type_size("32"), TypeSize::Int32);
    assert_eq!(TypeSize::parse_type_size("u32"), TypeSize::UInt32);
    assert_eq!(TypeSize::parse_type_size("64"), TypeSize::Int64);
    assert_eq!(TypeSize::parse_type_size("u64"), TypeSize::UInt64);
    assert_eq!(TypeSize::parse_type_size("48"), TypeSize::Unspecified);
    assert_eq!(TypeSize::parse_type_size(""), TypeSize::Unspecified);
}

#[test]
fn type_names() {
    assert_eq!(TypeSize::Int32.to_type_name("int"), "Int32");
    assert_eq!(TypeSize::Float.to_type_name("int"), "Float32");
    assert_eq!(TypeSize::Unspecified.to_type_name("float"), "Float32");
    assert_eq!(TypeSize::Unspecified.to_type_name("string"), "String");
    assert_eq!(TypeSize::Unspecified.to_type_name("locstring"), "String");
    assert_eq!(TypeSize::Unspecified.to_type_name("int"), "UInt32");
}

#[test]
fn column_lines() {
    let c = parse_column_line("int ID").unwrap();
    assert_eq!(c.name, "ID");
    assert_eq!(c.base_type, "int");
    assert!(c.foreign_key.is_none());
    assert!(c.comment.is_none());
    assert!(!c.is_optional);

    let c = parse_column_line("int<Map::ID> MapID // the home map").unwrap();
    assert_eq!(c.name, "MapID");
    assert_eq!(c.base_type, "int");
    let fk = c.foreign_key.unwrap();
    assert_eq!(fk.table, "Map");
    assert_eq!(fk.field, "ID");
    assert_eq!(c.comment.unwrap(), "the home map");

    let c = parse_column_line("string Description_lang?").unwrap();
    assert_eq!(c.name, "Description_lang");
    assert!(c.is_optional);

    assert!(parse_column_line("COLUMNS").is_none());
}

#[test]
fn field_lines() {
    let f = parse_field_line("$id$ID<32>");
    assert_eq!(f.name, "ID");
    assert_eq!(f.type_size, TypeSize::Int32);
    assert!(f.is_key);
    assert!(!f.is_array);
    assert!(!f.is_relation);
    assert!(!f.is_noninline);

    let f = parse_field_line("$noninline,id$ID<u32>");
    assert!(f.is_key);
    assert!(f.is_noninline);
    assert_eq!(f.type_size, TypeSize::UInt32);

    let f = parse_field_line("$relation$MapID<u16>");
    assert!(f.is_relation);
    assert_eq!(f.name, "MapID");

    let f = parse_field_line("Pos<32>[3]");
    assert_eq!(f.name, "Pos");
    assert!(f.is_array);
    assert_eq!(f.array_size, Some(3));
    assert_eq!(f.type_size, TypeSize::Int32);

    let f = parse_field_line("Name_lang");
    assert_eq!(f.name, "Name_lang");
    assert_eq!(f.type_size, TypeSize::Unspecified);

    let f = parse_field_line("Flags<u32> // trailing words dropped");
    assert_eq!(f.name, "Flags");
}

#[test]
fn definition_selects_matching_block() {
    let text = "COLUMNS\nint ID\nint Flags\n\nBUILD 3.3.5.12340\n$id$ID<32>\n\nBUILD 4.0.0.0-4.3.4.15595\n$id$ID<32>\nFlags<u32>\n\nBUILD 5.0.0.0\nID<32>\n";
    let dbd = parse_dbd_content(&target(4, 2, 0, 14333), text).unwrap();
    assert_eq!(dbd.build.fields.len(), 2);
    assert_eq!(dbd.build.fields[0].name, "ID");
    assert_eq!(dbd.build.fields[1].name, "Flags");
    assert_eq!(dbd.build.versions.len(), 1);
    match &dbd.build.versions[0] {
        GameBuildSpec::Range((lo, hi)) => {
            assert_eq!(*lo, target(4, 0, 0, 0));
            assert_eq!(*hi, target(4, 3, 4, 15595));
        },
        other => panic!("expected a range, got {:?}", other),
    }
    assert_eq!(dbd.columns.len(), 2);
}

#[test]
fn definition_without_matching_block() {
    let text = "COLUMNS\nint ID\n\nBUILD 1.12.1.5875\n$id$ID<32>\n";
    let r = parse_dbd_content(&target(4, 2, 0, 14333), text);
    assert!(matches!(r, Err(wow_alchemy::error::Error::NoFieldsForBuild)));
}

#[test]
fn definition_with_malformed_build_is_fatal() {
    let text = "COLUMNS\nint ID\n\nBUILD x.y.z\n$id$ID<32>\n";
    let r = parse_dbd_content(&target(4, 2, 0, 14333), text);
    assert!(matches!(r, Err(wow_alchemy::error::Error::GenericError(_))));
}

#[test]
fn definition_skips_layout_and_comment_lines() {
    let text = "COLUMNS\nint ID\n\nLAYOUT ABCD1234\nCOMMENT classic rows\nBUILD 3.3.5.12340\n$id$ID<32>\n";
    let dbd = parse_dbd_content(&target(3, 3, 5, 12340), text).unwrap();
    assert_eq!(dbd.build.fields.len(), 1);
    assert_eq!(dbd.build.fields[0].name, "ID");
}

#[test]
fn later_column_with_same_key_replaces_earlier() {
    let text = "COLUMNS\nint Value\nfloat Value\n\nBUILD 3.3.5.12340\nValue\n";
    let dbd = parse_dbd_content(&target(3, 3, 5, 12340), text).unwrap();
    assert_eq!(dbd.columns.len(), 1);
    assert_eq!(dbd.columns[0].base_type, "float");
}
