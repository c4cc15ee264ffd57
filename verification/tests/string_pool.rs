use wow_alchemy::error::Error;
use wow_alchemy::stringblock::{CachedStringBlock, StringBlock};
use wow_alchemy::types::StringRef;
use wow_alchemy::driver::{plan_chunks, table_transition, TableEvent, TableState};

#[test]
fn string_block_reads_exact_ranges() {
    let mut file = Vec::new();
    file.extend_from_slice(&[0u8; 4]);
    file.extend_from_slice(b"hello\0world\0");
    let block = StringBlock::parse(&file, 4, 12).unwrap();
    assert_eq!(block.size(), 12);
    assert_eq!(block.data(), b"hello\0world\0");
    assert_eq!(block.get_string(StringRef::new(0)).unwrap(), "hello");
    assert_eq!(block.get_string(StringRef::new(6)).unwrap(), "world");
    // an offset inside a string reads its tail up to the terminator
    assert_eq!(block.get_string(StringRef::new(8)).unwrap(), "rld");
    assert!(matches!(
        block.get_string(StringRef::new(12)),
        Err(Error::OutOfBounds(_))
    ));
    assert!(matches!(StringBlock::parse(&file, 8, 12), Err(Error::OutOfBounds(_))));
}

#[test]
fn cached_block_matches_the_scan() {
    let mut file = Vec::new();
    file.extend_from_slice(b"hello\0world\0");
    let block = StringBlock::parse(&file, 0, 12).unwrap();
    let cached = CachedStringBlock::from_string_block(&block);
    // every offset registered as a string start during construction
    // yields the exact bytes up to the next terminator
    assert_eq!(cached.get_string(StringRef::new(0)).unwrap(), "hello");
    assert_eq!(cached.get_string(StringRef::new(6)).unwrap(), "world");
    // a mid-string offset falls back to the same scan the plain block uses
    assert_eq!(cached.get_string(StringRef::new(2)).unwrap(), "llo");
    assert!(matches!(
        cached.get_string(StringRef::new(40)),
        Err(Error::OutOfBounds(_))
    ));
}

#[test]
fn invalid_utf8_is_a_conversion_error() {
    let bytes = [0xFFu8, 0xFE, 0x00];
    let block = StringBlock::parse(&bytes, 0, 3).unwrap();
    assert!(matches!(
        block.get_string(StringRef::new(0)),
        Err(Error::TypeConversion(_))
    ));
}

#[test]
fn chunk_plans_cover_all_rows_in_order() {
    let plan = plan_chunks(10, 4);
    assert_eq!(plan.len(), 4);
    let cs = plan[0].1;
    assert!(cs >= 1);
    for (i, (start, size)) in plan.iter().enumerate() {
        assert_eq!(*start, i * cs);
        assert_eq!(*size, cs);
    }
    // the ranges cover every row at least once
    assert!(4 * cs >= 10);

    let plan = plan_chunks(0, 3);
    assert_eq!(plan.len(), 3);
}

#[test]
fn table_states_move_as_the_driver_decides() {
    type E = TableEvent;
    type S = TableState;
    assert_eq!(table_transition(S::Resolving, E::Resolved), S::Defining);
    assert_eq!(table_transition(S::Resolving, E::CatalogMiss), S::Skipped);
    assert_eq!(table_transition(S::Defining, E::NoFields), S::Skipped);
    assert_eq!(table_transition(S::Defining, E::HeaderBad), S::Skipped);
    assert_eq!(table_transition(S::Defining, E::DefinitionParsed), S::Creating);
    assert_eq!(table_transition(S::Creating, E::Created), S::Streaming);
    assert_eq!(table_transition(S::Creating, E::EngineError), S::Failed);
    assert_eq!(table_transition(S::Streaming, E::CommitOk), S::Committed);
    assert_eq!(table_transition(S::Streaming, E::EngineError), S::Failed);
    // anything else stays put
    assert_eq!(table_transition(S::Committed, E::Resolved), S::Committed);
}
