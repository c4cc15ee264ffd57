use wow_alchemy::driver::{process_table, TableOutcome};
use wow_alchemy::error::Error;
use wow_alchemy::game_build::GameBuild;
use wow_alchemy::record::LazyRecordIterator;
use wow_alchemy::sql::SqlValue;
use wow_alchemy::types::Value;
use wow_alchemy::wdb::parse_wdb;

fn build335() -> GameBuild {
    GameBuild { major: 3, minor: 3, patch: 5, build: 12340 }
}

fn wdbc_file(record_count: u32, field_count: u32, record_size: u32, body: &[u8], block: &[u8]) -> Vec<u8> {
    let mut v = Vec::new();
    v.extend_from_slice(b"WDBC");
    v.extend_from_slice(&record_count.to_le_bytes());
    v.extend_from_slice(&field_count.to_le_bytes());
    v.extend_from_slice(&record_size.to_le_bytes());
    v.extend_from_slice(&(block.len() as u32).to_le_bytes());
    v.extend_from_slice(body);
    v.extend_from_slice(block);
    v
}

const ID_DEF: &str = "COLUMNS\nint ID\n\nBUILD 3.3.5.12340\n$id$ID<32>\n";

#[test]
fn minimal_wdbc_loads_one_row() {
    let file = wdbc_file(1, 1, 4, &[0x2A, 0x00, 0x00, 0x00], &[]);
    match process_table(&build335(), "T.dbd", ID_DEF, &file) {
        TableOutcome::Load(load) => {
            assert_eq!(load.table_name, "t");
            assert_eq!(load.create_sql, "CREATE TABLE t (\"id\" integer primary key)");
            assert_eq!(load.insert_sql, "insert into t (\"id\") values (?)");
            assert_eq!(load.rows.len(), 1);
            let row = load.rows[0].as_ref().unwrap();
            assert_eq!(row, &vec![SqlValue::Integer(42)]);
        },
        _ => panic!("expected the table to load"),
    }
}

#[test]
fn string_offsets_resolve_against_the_block() {
    let def = "COLUMNS\nstring Name\n\nBUILD 3.3.5.12340\nName\n";
    let block = b"hello\0world\0";
    let mut body = Vec::new();
    body.extend_from_slice(&6u32.to_le_bytes());
    body.extend_from_slice(&11u32.to_le_bytes());
    let file = wdbc_file(2, 1, 4, &body, block);
    match process_table(&build335(), "T.dbd", def, &file) {
        TableOutcome::Load(load) => {
            assert_eq!(load.rows.len(), 2);
            assert_eq!(
                load.rows[0].as_ref().unwrap(),
                &vec![SqlValue::Text(String::from("world"))]
            );
            // offset 11 is the final terminator: no string starts there,
            // so the value is absent and binds as empty text
            assert_eq!(load.rows[1].as_ref().unwrap(), &vec![SqlValue::Text(String::new())]);
        },
        _ => panic!("expected the table to load"),
    }
}

#[test]
fn arrays_expand_to_one_column_per_element() {
    let def = "COLUMNS\nint Pos\n\nBUILD 3.3.5.12340\nPos<32>[3]\n";
    let mut body = Vec::new();
    body.extend_from_slice(&1i32.to_le_bytes());
    body.extend_from_slice(&2i32.to_le_bytes());
    body.extend_from_slice(&3i32.to_le_bytes());
    let file = wdbc_file(1, 1, 12, &body, &[]);
    match process_table(&build335(), "T.dbd", def, &file) {
        TableOutcome::Load(load) => {
            assert_eq!(
                load.create_sql,
                "CREATE TABLE t (\"pos_0\" integer,\"pos_1\" integer,\"pos_2\" integer)"
            );
            assert_eq!(
                load.insert_sql,
                "insert into t (\"pos_0\",\"pos_1\",\"pos_2\") values (?,?,?)"
            );
            assert_eq!(
                load.rows[0].as_ref().unwrap(),
                &vec![SqlValue::Integer(1), SqlValue::Integer(2), SqlValue::Integer(3)]
            );
        },
        _ => panic!("expected the table to load"),
    }
}

#[test]
fn bad_middle_row_is_isolated() {
    let def = "COLUMNS\nstring Name\n\nBUILD 3.3.5.12340\nName\n";
    let block = b"hello\0";
    let mut body = Vec::new();
    body.extend_from_slice(&0u32.to_le_bytes());
    body.extend_from_slice(&99u32.to_le_bytes());
    body.extend_from_slice(&0u32.to_le_bytes());
    let file = wdbc_file(3, 1, 4, &body, block);
    match process_table(&build335(), "T.dbd", def, &file) {
        TableOutcome::Load(load) => {
            assert_eq!(load.rows.len(), 3);
            assert!(load.rows[0].is_ok());
            assert!(matches!(load.rows[1], Err(Error::OutOfBounds(_))));
            assert!(load.rows[2].is_ok());
            assert_eq!(
                load.rows[0].as_ref().unwrap(),
                &vec![SqlValue::Text(String::from("hello"))]
            );
        },
        _ => panic!("expected the table to load"),
    }
}

#[test]
fn zero_records_yield_an_empty_table() {
    let file = wdbc_file(0, 1, 4, &[], &[]);
    match process_table(&build335(), "T.dbd", ID_DEF, &file) {
        TableOutcome::Load(load) => {
            assert_eq!(load.rows.len(), 0);
            assert_eq!(load.create_sql, "CREATE TABLE t (\"id\" integer primary key)");
        },
        _ => panic!("expected the table to load"),
    }
}

#[test]
fn empty_string_block_resolves_every_offset_as_absent() {
    let def = "COLUMNS\nstring Name\n\nBUILD 3.3.5.12340\nName\n";
    let mut body = Vec::new();
    body.extend_from_slice(&0u32.to_le_bytes());
    body.extend_from_slice(&123u32.to_le_bytes());
    let file = wdbc_file(2, 1, 4, &body, &[]);
    match process_table(&build335(), "T.dbd", def, &file) {
        TableOutcome::Load(load) => {
            assert_eq!(load.rows[0].as_ref().unwrap(), &vec![SqlValue::Text(String::new())]);
            assert_eq!(load.rows[1].as_ref().unwrap(), &vec![SqlValue::Text(String::new())]);
        },
        _ => panic!("expected the table to load"),
    }
}

#[test]
fn trailing_row_bytes_are_skipped() {
    // record_size is 8 but the single field consumes 4 bytes: the
    // iterator seeks each row absolutely, so the padding never shifts
    // later rows
    let mut body = Vec::new();
    body.extend_from_slice(&1i32.to_le_bytes());
    body.extend_from_slice(&[0xAA, 0xAA, 0xAA, 0xAA]);
    body.extend_from_slice(&2i32.to_le_bytes());
    body.extend_from_slice(&[0xBB, 0xBB, 0xBB, 0xBB]);
    let file = wdbc_file(2, 1, 8, &body, &[]);
    match process_table(&build335(), "T.dbd", ID_DEF, &file) {
        TableOutcome::Load(load) => {
            assert_eq!(load.rows[0].as_ref().unwrap(), &vec![SqlValue::Integer(1)]);
            assert_eq!(load.rows[1].as_ref().unwrap(), &vec![SqlValue::Integer(2)]);
        },
        _ => panic!("expected the table to load"),
    }
}

#[test]
fn zero_arity_array_contributes_nothing() {
    let def = "COLUMNS\nint ID\nint Pad\n\nBUILD 3.3.5.12340\n$id$ID<32>\nPad<32>[0]\n";
    let file = wdbc_file(1, 2, 4, &7i32.to_le_bytes(), &[]);
    match process_table(&build335(), "T.dbd", def, &file) {
        TableOutcome::Load(load) => {
            assert_eq!(load.create_sql, "CREATE TABLE t (\"id\" integer primary key)");
            assert_eq!(load.insert_sql, "insert into t (\"id\") values (?)");
            assert_eq!(load.rows[0].as_ref().unwrap(), &vec![SqlValue::Integer(7)]);
        },
        _ => panic!("expected the table to load"),
    }
}

#[test]
fn header_geometry_and_validation() {
    let file = wdbc_file(1, 1, 4, &[0u8; 4], b"x\0");
    let wdb = parse_wdb(&file).unwrap();
    assert_eq!(wdb.header.record_count, 1);
    assert_eq!(wdb.header.field_count, 1);
    assert_eq!(wdb.header.record_size, 4);
    assert_eq!(wdb.header.string_block_size, 2);
    assert_eq!(wdb.header_size, 20);
    assert_eq!(wdb.records_start_offset(), 20);
    assert_eq!(wdb.string_block_offset(), 24);

    // records declared but a zero record size: rejected
    let bad = wdbc_file(1, 1, 0, &[], &[]);
    assert!(matches!(parse_wdb(&bad), Err(Error::InvalidHeader(_))));
    // records declared but a zero field count: rejected
    let bad = wdbc_file(1, 0, 4, &[0u8; 4], &[]);
    assert!(matches!(parse_wdb(&bad), Err(Error::InvalidHeader(_))));
    // an unknown signature: rejected
    let mut junk = wdbc_file(0, 0, 0, &[], &[]);
    junk[3] = b'9';
    assert!(matches!(parse_wdb(&junk), Err(Error::InvalidHeader(_))));
    // a bad header skips the file in the driver
    match process_table(&build335(), "T.dbd", ID_DEF, &junk) {
        TableOutcome::SkipBadHeader(_) => {},
        _ => panic!("expected a header skip"),
    }
}

#[test]
fn iterator_decodes_rows_lazily() {
    let mut body = Vec::new();
    body.extend_from_slice(&5i32.to_le_bytes());
    body.extend_from_slice(&6i32.to_le_bytes());
    body.extend_from_slice(&7i32.to_le_bytes());
    let file = wdbc_file(3, 1, 4, &body, &[]);
    let wdb = parse_wdb(&file).unwrap();
    let dbd = wow_alchemy::dbd::parse_dbd_content(&build335(), ID_DEF).unwrap();

    let mut it = LazyRecordIterator::new(&file, &dbd, &wdb).unwrap();
    let mut seen = Vec::new();
    while let Some(item) = it.next() {
        let rec = item.unwrap();
        assert_eq!(rec.len(), 1);
        match &rec[0] {
            Value::Int32(v) => seen.push(*v),
            other => panic!("expected an Int32, got {:?}", other),
        }
    }
    assert_eq!(seen, vec![5, 6, 7]);

    // a windowed iterator takes the middle row only
    let mut it = LazyRecordIterator::new_from_start(&file, &dbd, &wdb, 1, 1).unwrap();
    let rec = it.next().unwrap().unwrap();
    assert!(matches!(rec[0], Value::Int32(6)));
    assert!(it.next().is_none());
}

#[test]
fn unspecified_width_is_a_row_error() {
    let def = "COLUMNS\nint ID\n\nBUILD 3.3.5.12340\nID\n";
    let file = wdbc_file(1, 1, 4, &[0u8; 4], &[]);
    match process_table(&build335(), "T.dbd", def, &file) {
        TableOutcome::Load(load) => {
            assert!(matches!(load.rows[0], Err(Error::GenericError(_))));
        },
        _ => panic!("expected the table to load"),
    }
}

#[test]
fn missing_column_fails_the_run() {
    let def = "COLUMNS\nint Other\n\nBUILD 3.3.5.12340\n$id$ID<32>\n";
    let file = wdbc_file(1, 1, 4, &[0u8; 4], &[]);
    match process_table(&build335(), "T.dbd", def, &file) {
        TableOutcome::Fatal(e) => {
            assert!(matches!(e, Error::SqliteTableDefinition(_)));
        },
        _ => panic!("expected a fatal outcome"),
    }
}

#[test]
fn no_fields_for_build_skips_the_file() {
    let def = "COLUMNS\nint ID\n\nBUILD 1.12.1.5875\n$id$ID<32>\n";
    let file = wdbc_file(1, 1, 4, &[0u8; 4], &[]);
    match process_table(&build335(), "T.dbd", def, &file) {
        TableOutcome::SkipNoFields => {},
        _ => panic!("expected a skip"),
    }
}

#[test]
fn wide_and_narrow_scalars_decode() {
    let def = "COLUMNS\nint A\nint B\nint C\nint D\nfloat E\n\nBUILD 3.3.5.12340\nA<8>\nB<u16>\nC<u64>\nD<u8>\nE\n";
    let mut body = Vec::new();
    body.push(0xFFu8); // A: i8 -1
    body.extend_from_slice(&513u16.to_le_bytes()); // B
    body.extend_from_slice(&10_000_000_000u64.to_le_bytes()); // C: binds as text
    body.push(7u8); // D
    body.extend_from_slice(&0x3F80_0000u32.to_le_bytes()); // E: the bits of 1.0
    let file = wdbc_file(1, 5, 16, &body, &[]);
    match process_table(&build335(), "T.dbd", def, &file) {
        TableOutcome::Load(load) => {
            assert_eq!(
                load.rows[0].as_ref().unwrap(),
                &vec![
                    SqlValue::Integer(-1),
                    SqlValue::Integer(513),
                    SqlValue::Text(String::from("10000000000")),
                    SqlValue::Integer(7),
                    SqlValue::RealBits(0x3F80_0000),
                ]
            );
        },
        _ => panic!("expected the table to load"),
    }
}
