use wow_alchemy::dbd::parse_dbd_content;
use wow_alchemy::error::Error;
use wow_alchemy::game_build::GameBuild;
use wow_alchemy::sql::{
    base_type_to_sqlite_type, flatten_values, make_insert_query, make_table_definition,
    to_sql_bind, SqlValue,
};
use wow_alchemy::types::Value;

fn build335() -> GameBuild {
    GameBuild { major: 3, minor: 3, patch: 5, build: 12340 }
}

#[test]
fn base_types_map_to_sql_types() {
    assert_eq!(base_type_to_sqlite_type("string").unwrap(), "text");
    assert_eq!(base_type_to_sqlite_type("locstring").unwrap(), "text");
    assert_eq!(base_type_to_sqlite_type("int").unwrap(), "integer");
    assert_eq!(base_type_to_sqlite_type("float").unwrap(), "real");
    assert!(matches!(
        base_type_to_sqlite_type("blob"),
        Err(Error::SqliteTableDefinition(_))
    ));
}

#[test]
fn table_definition_with_foreign_keys() {
    let text = "COLUMNS\nint ID\nint<Map::ID> MapID\nstring Name_lang\n\nBUILD 3.3.5.12340\n$id$ID<32>\nMapID<u16>\nName_lang\n";
    let dbd = parse_dbd_content(&build335(), text).unwrap();
    let ddl = make_table_definition(&dbd, "areatable").unwrap();
    assert_eq!(
        ddl,
        "CREATE TABLE areatable (\"id\" integer primary key,\"mapid\" integer,\"name_lang\" text,foreign key (\"mapid\") references map(\"id\"))"
    );
    let ins = make_insert_query(&dbd, "areatable").unwrap();
    assert_eq!(
        ins,
        "insert into areatable (\"id\",\"mapid\",\"name_lang\") values (?,?,?)"
    );
}

#[test]
fn array_fields_emit_one_fk_per_column() {
    let text = "COLUMNS\nint<Spell::ID> SpellID\n\nBUILD 3.3.5.12340\nSpellID<32>[2]\n";
    let dbd = parse_dbd_content(&build335(), text).unwrap();
    let ddl = make_table_definition(&dbd, "talent").unwrap();
    assert_eq!(
        ddl,
        "CREATE TABLE talent (\"spellid_0\" integer,\"spellid_1\" integer,foreign key (\"spellid_0\") references spell(\"id\"),foreign key (\"spellid_1\") references spell(\"id\"))"
    );
}

#[test]
fn unknown_base_type_fails_the_definition() {
    let text = "COLUMNS\nblob Data\n\nBUILD 3.3.5.12340\nData<32>\n";
    let dbd = parse_dbd_content(&build335(), text).unwrap();
    assert!(matches!(
        make_table_definition(&dbd, "t"),
        Err(Error::SqliteTableDefinition(_))
    ));
}

#[test]
fn scalar_binds() {
    assert_eq!(to_sql_bind(&Value::Int32(-5)), SqlValue::Integer(-5));
    assert_eq!(to_sql_bind(&Value::UInt32(4000000000)), SqlValue::Integer(4000000000));
    assert_eq!(to_sql_bind(&Value::Bool(true)), SqlValue::Boolean(true));
    assert_eq!(to_sql_bind(&Value::Int64(-9)), SqlValue::Integer(-9));
    assert_eq!(
        to_sql_bind(&Value::UInt64(18446744073709551615)),
        SqlValue::Text(String::from("18446744073709551615"))
    );
    assert_eq!(
        to_sql_bind(&Value::String(Some(String::from("hi")))),
        SqlValue::Text(String::from("hi"))
    );
    assert_eq!(to_sql_bind(&Value::String(None)), SqlValue::Text(String::new()));
    assert_eq!(to_sql_bind(&Value::Float32(0x4048F5C3)), SqlValue::RealBits(0x4048F5C3));
}

#[test]
fn rows_flatten_arrays_in_order() {
    let row = vec![
        Value::Int32(1),
        Value::Array(vec![Value::Int32(2), Value::Int32(3)]),
        Value::String(Some(String::from("x"))),
    ];
    let binds = flatten_values(&row);
    assert_eq!(
        binds,
        vec![
            SqlValue::Integer(1),
            SqlValue::Integer(2),
            SqlValue::Integer(3),
            SqlValue::Text(String::from("x")),
        ]
    );
    // the flattened width is the arity sum of the fields: 1 + 2 + 1
    assert_eq!(binds.len(), 4);
}
