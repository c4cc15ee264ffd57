use wow_alchemy::catalog::{get_db_file_map, get_dbd_name};
use wow_alchemy::error::Error;

#[test]
fn known_tables_resolve_case_insensitively() {
    let catalog = get_db_file_map().unwrap();
    assert_eq!(get_dbd_name(&catalog, "Achievement.dbc").unwrap(), "Achievement.dbd");
    assert_eq!(get_dbd_name(&catalog, "ACHIEVEMENT.DBC").unwrap(), "Achievement.dbd");
    assert_eq!(get_dbd_name(&catalog, "achievement").unwrap(), "Achievement.dbd");
    assert_eq!(get_dbd_name(&catalog, "AnimationData.dbc").unwrap(), "AnimationData.dbd");
    assert_eq!(
        get_dbd_name(&catalog, "Achievement_Category.dbc").unwrap(),
        "Achievement_Category.dbd"
    );
}

#[test]
fn unknown_tables_are_a_recoverable_miss() {
    let catalog = get_db_file_map().unwrap();
    match get_dbd_name(&catalog, "Foo.dbc") {
        Err(Error::SchemaValidation(_)) => {},
        other => panic!("expected a catalog miss, got {:?}", other),
    }
}

#[test]
fn canonical_names_are_idempotent() {
    let catalog = get_db_file_map().unwrap();
    let first = get_dbd_name(&catalog, "Achievement.dbc").unwrap();
    let mut again = String::from(first);
    again.push_str(".dbc");
    assert_eq!(get_dbd_name(&catalog, again.as_str()).unwrap(), first);

    let first = get_dbd_name(&catalog, "guildcoloremblem.dbc").unwrap();
    let mut again = String::from(first);
    again.push_str(".dbc");
    assert_eq!(get_dbd_name(&catalog, again.as_str()).unwrap(), first);
}

#[test]
fn catalog_holds_the_whole_embedded_table() {
    let catalog = get_db_file_map().unwrap();
    // the construction checks every embedded entry, so the build
    // succeeds with the full table and lookups run over all of it
    assert_eq!(catalog.entries.len(), 1234);
    for (k, v) in catalog.entries.iter() {
        let stem: &str = v.split('.').next().unwrap();
        assert_eq!(*k, stem.to_lowercase());
        assert!(v.ends_with(".dbd"));
    }
}
