use vstd::prelude::*;
use vstd::string::StringExecFns;

use crate::dbd::{parse_dbd_content, scan_lines, DbdFile};
use crate::error::Error;
use crate::game_build::{split_char, GameBuild};
use crate::record::{fail_matches, spec_decode_fields, LazyRecordIterator};
use crate::sql::{
    ddl_state, ins_state, make_insert_query, make_table_definition, spec_flatten_binds,
    spec_insert_sql, spec_table_ddl, SqlValue,
};
use crate::text::{find_char, lower_of, lowercase};
use crate::wdb::{header_size, parse_wdb, spec_parse_header, spec_string_block_offset};

verus! {

// ---------------------------------------------------------------------------
// Table names
// ---------------------------------------------------------------------------

/// The part of a file name before its first dot, or all of it.
pub open spec fn stem_of(s: Seq<char>) -> Seq<char> {
    let i = find_char(s, '.');
    if i >= 0 {
        s.subrange(0, i)
    } else {
        s
    }
}

/// The table a definition file name maps to: its stem, lowercased.
pub fn table_name_of(dbd_name: &str) -> (r: String)
    ensures
        r@ == lower_of(stem_of(dbd_name@)),
{
    let cs = crate::text::str_chars(dbd_name);
    let to = match crate::text::find_char_in(cs.as_slice(), '.') {
        Some(i) => {
            proof {
                crate::text::lemma_find_char(cs@, '.');
            }
            i
        },
        None => cs.len(),
    };
    let stem = crate::text::chars_to_string(cs.as_slice(), 0, to);
    proof {
        assert(stem@ =~= stem_of(dbd_name@));
    }
    lowercase(stem.as_str())
}

// ---------------------------------------------------------------------------
// The per-table state machine
// ---------------------------------------------------------------------------

/// Where the driver stands with one file.
#[derive(Debug, Clone, Copy, PartialEq, Eq, Structural)]
pub enum TableState {
    /// Looking the file name up in the catalog.
    Resolving,
    /// Fetching and parsing its definition.
    Defining,
    /// Executing the `CREATE TABLE`.
    Creating,
    /// Decoding rows and binding inserts.
    Streaming,
    /// The table committed.
    Committed,
    /// The file was skipped; the run continues.
    Skipped,
    /// The engine failed; the run aborts.
    Failed,
}

/// What happened during one stage.
#[derive(Debug, Clone, Copy, PartialEq, Eq, Structural)]
pub enum TableEvent {
    /// The catalog resolved the name.
    Resolved,
    /// The catalog does not know the name.
    CatalogMiss,
    /// The definition text could not be fetched.
    FetchFailed,
    /// The definition parsed and selected fields.
    DefinitionParsed,
    /// No build block covered the target.
    NoFields,
    /// The binary header did not parse.
    HeaderBad,
    /// The table was created.
    Created,
    /// The SQL engine failed.
    EngineError,
    /// Every row was streamed.
    RowsDone,
    /// The transaction committed.
    CommitOk,
}

/// How one file moves between stages: a catalog miss, a fetch failure, a
/// build without fields or a bad header skip the file; only an engine
/// failure fails the run.
pub open spec fn spec_table_transition(s: TableState, e: TableEvent) -> TableState {
    match (s, e) {
        (TableState::Resolving, TableEvent::Resolved) => TableState::Defining,
        (TableState::Resolving, TableEvent::CatalogMiss) => TableState::Skipped,
        (TableState::Defining, TableEvent::FetchFailed) => TableState::Skipped,
        (TableState::Defining, TableEvent::DefinitionParsed) => TableState::Creating,
        (TableState::Defining, TableEvent::NoFields) => TableState::Skipped,
        (TableState::Defining, TableEvent::HeaderBad) => TableState::Skipped,
        (TableState::Creating, TableEvent::Created) => TableState::Streaming,
        (TableState::Creating, TableEvent::EngineError) => TableState::Failed,
        (TableState::Streaming, TableEvent::RowsDone) => TableState::Streaming,
        (TableState::Streaming, TableEvent::EngineError) => TableState::Failed,
        (TableState::Streaming, TableEvent::CommitOk) => TableState::Committed,
        (_, _) => s,
    }
}

/// Advances the per-table state by one event.
pub fn table_transition(s: TableState, e: TableEvent) -> (r: TableState)
    ensures
        r == spec_table_transition(s, e),
{
    match (s, e) {
        (TableState::Resolving, TableEvent::Resolved) => TableState::Defining,
        (TableState::Resolving, TableEvent::CatalogMiss) => TableState::Skipped,
        (TableState::Defining, TableEvent::FetchFailed) => TableState::Skipped,
        (TableState::Defining, TableEvent::DefinitionParsed) => TableState::Creating,
        (TableState::Defining, TableEvent::NoFields) => TableState::Skipped,
        (TableState::Defining, TableEvent::HeaderBad) => TableState::Skipped,
        (TableState::Creating, TableEvent::Created) => TableState::Streaming,
        (TableState::Creating, TableEvent::EngineError) => TableState::Failed,
        (TableState::Streaming, TableEvent::RowsDone) => TableState::Streaming,
        (TableState::Streaming, TableEvent::EngineError) => TableState::Failed,
        (TableState::Streaming, TableEvent::CommitOk) => TableState::Committed,
        (s2, _) => s2,
    }
}

// ---------------------------------------------------------------------------
// Processing one table
// ---------------------------------------------------------------------------

/// Everything the SQL engine needs to load one table: the statements and
/// the bound rows, a decode error standing in for each row that failed.
pub struct TableLoad {
    /// The table's name: the definition file's stem, lowercased.
    pub table_name: String,
    /// The `CREATE TABLE` statement.
    pub create_sql: String,
    /// The parameterized insert statement.
    pub insert_sql: String,
    /// One entry per row of the file, in file order.
    pub rows: Vec<Result<Vec<SqlValue>, Error>>,
}

/// What processing one file decides.
pub enum TableOutcome {
    /// No build block of the definition covers the target: skip the file.
    SkipNoFields,
    /// The binary header did not parse: skip the file.
    SkipBadHeader(Error),
    /// A hard error: abort the run.
    Fatal(Error),
    /// Load the table.
    Load(TableLoad),
}

/// Runs the whole in-memory pipeline for one file: parses the definition
/// against the target build, derives the SQL statements, parses the
/// binary file, and decodes and binds every row.
///
/// A definition whose build numbers are malformed, or that cannot be
/// turned into SQL, aborts the run; a definition without fields for the
/// build, or a file whose header does not parse, only skips the file.
#[verifier::rlimit(60)]
pub fn process_table(game_build: &GameBuild, dbd_name: &str, content: &str, file_bytes: &[u8]) -> (r:
    TableOutcome)
    ensures
        ({
            let st = scan_lines(split_char(content@, '\n'), *game_build);
            let hp = spec_parse_header(file_bytes@);
            &&& (st.failed ==> r is Fatal && r->Fatal_0 is GenericError)
            &&& (!st.failed && st.fields.len() == 0 ==> r is SkipNoFields)
            &&& (!st.failed && st.fields.len() > 0 && ddl_state(
                st.fields,
                st.columns,
                st.fields.len() as int,
            ) is Err ==> r is Fatal && r->Fatal_0 is SqliteTableDefinition)
            &&& (!st.failed && st.fields.len() > 0 && ddl_state(
                st.fields,
                st.columns,
                st.fields.len() as int,
            ) is Ok ==> {
                ||| (r is SkipBadHeader && !(hp is Some
                    && spec_string_block_offset(hp->Some_0.0, hp->Some_0.1)
                    + hp->Some_0.1.string_block_size <= file_bytes@.len()))
                ||| (r is Load && hp is Some && ({
                    let (v, h) = hp->Some_0;
                    let sbo = spec_string_block_offset(v, h);
                    let block = file_bytes@.subrange(sbo, sbo + h.string_block_size);
                    let load = r->Load_0;
                    &&& load.table_name@ == lower_of(stem_of(dbd_name@))
                    &&& load.create_sql@ == spec_table_ddl(
                        ddl_state(st.fields, st.columns, st.fields.len() as int)->Ok_0.0,
                        ddl_state(st.fields, st.columns, st.fields.len() as int)->Ok_0.1,
                        lower_of(stem_of(dbd_name@)),
                    )
                    &&& ins_state(st.fields, st.columns, st.fields.len() as int) is Ok
                    &&& load.insert_sql@ == spec_insert_sql(
                        ins_state(st.fields, st.columns, st.fields.len() as int)->Ok_0,
                        lower_of(stem_of(dbd_name@)),
                    )
                    &&& load.rows@.len() == h.record_count
                    &&& (forall|i: int|
                        0 <= i < h.record_count ==> {
                            let row = header_size(v) + i * h.record_size;
                            match spec_decode_fields(
                                file_bytes@,
                                row,
                                st.fields,
                                st.columns,
                                block,
                            ) {
                                Ok((vs, p)) => (#[trigger] load.rows@[i]) is Ok
                                    && load.rows@[i]->Ok_0.deep_view() == spec_flatten_binds(vs),
                                Err(f) => load.rows@[i] is Err && fail_matches(
                                    f,
                                    load.rows@[i]->Err_0,
                                ),
                            }
                        })
                }))
            })
        }),
{
    let dbd = match parse_dbd_content(game_build, content) {
        Ok(dbd) => dbd,
        Err(e) => {
            if matches!(e, Error::NoFieldsForBuild) {
                return TableOutcome::SkipNoFields;
            }
            return TableOutcome::Fatal(e);
        },
    };
    let table_name = table_name_of(dbd_name);
    let create_sql = match make_table_definition(&dbd, table_name.as_str()) {
        Ok(sql) => sql,
        Err(e) => {
            return TableOutcome::Fatal(e);
        },
    };
    let wdb = match parse_wdb(file_bytes) {
        Ok(wdb) => wdb,
        Err(e) => {
            return TableOutcome::SkipBadHeader(e);
        },
    };
    let insert_sql = match make_insert_query(&dbd, table_name.as_str()) {
        Ok(sql) => sql,
        Err(e) => {
            proof {
                let st = scan_lines(split_char(content@, '\n'), *game_build);
                crate::sql::lemma_ins_of_ddl(st.fields, st.columns, st.fields.len() as int);
                assert(false);
            }
            return TableOutcome::Fatal(e);
        },
    };
    let mut rows: Vec<Result<Vec<SqlValue>, Error>> = Vec::new();
    let mut it = match LazyRecordIterator::new(file_bytes, &dbd, &wdb) {
        Ok(it) => it,
        Err(e) => {
            return TableOutcome::Fatal(e);
        },
    };
    let ghost st = scan_lines(split_char(content@, '\n'), *game_build);
    let ghost hp = spec_parse_header(file_bytes@);
    let ghost blockv = wdb.block@;
    loop
        invariant
            it.wf(),
            it.data == file_bytes,
            it.dbd_file == &dbd,
            it.wdb == &wdb,
            it.count == wdb.header.record_count,
            it.start_offset == wdb.header_size as u64,
            0 <= it.current_index <= it.count,
            rows@.len() == it.current_index,
            dbd.build.fields.deep_view() == st.fields,
            dbd.columns.deep_view() == st.columns,
            wdb.wf(),
            blockv == wdb.block@,
            hp is Some && wdb.version == hp->Some_0.0 && wdb.header == hp->Some_0.1
                && wdb.header_size as int == header_size(wdb.version),
            forall|i: int|
                0 <= i < rows@.len() ==> {
                    let row = header_size(hp->Some_0.0) + i * hp->Some_0.1.record_size;
                    match spec_decode_fields(file_bytes@, row, st.fields, st.columns, blockv) {
                        Ok((vs, p)) => (#[trigger] rows@[i]) is Ok && rows@[i]->Ok_0.deep_view()
                            == spec_flatten_binds(vs),
                        Err(f) => rows@[i] is Err && fail_matches(f, rows@[i]->Err_0),
                    }
                },
        ensures
            rows@.len() == it.count,
        decreases it.count - it.current_index,
    {
        let ghost idx = it.current_index as int;
        match it.next() {
            Some(item) => {
                match item {
                    Ok(rec) => {
                        let binds = crate::sql::flatten_values(rec.as_slice());
                        rows.push(Ok(binds));
                    },
                    Err(e) => {
                        rows.push(Err(e));
                    },
                }
            },
            None => {
                break ;
            },
        }
    }
    TableOutcome::Load(TableLoad { table_name, create_sql, insert_sql, rows })
}

// ---------------------------------------------------------------------------
// Splitting a file into parallel chunks
// ---------------------------------------------------------------------------

/// The chunk size the driver uses to split `record_count` rows over
/// `chunks` workers.
pub open spec fn spec_chunk_size(record_count: int, chunks: int) -> int {
    (record_count + (chunks - record_count % chunks)) / chunks
}

/// The row ranges handed to parallel workers: worker `i` starts at row
/// `i * chunk_size` and takes up to `chunk_size` rows. Together the
/// ranges cover every row at least once, in order.
pub fn plan_chunks(record_count: usize, chunks: usize) -> (r: Vec<(usize, usize)>)
    requires
        chunks >= 1,
        record_count + chunks <= usize::MAX,
    ensures
        r@.len() == chunks,
        forall|i: int|
            0 <= i < chunks ==> (#[trigger] r@[i]) == (
                (i * spec_chunk_size(record_count as int, chunks as int)) as usize,
                spec_chunk_size(record_count as int, chunks as int) as usize,
            ),
        chunks * spec_chunk_size(record_count as int, chunks as int) >= record_count,
        spec_chunk_size(record_count as int, chunks as int) >= 1,
{
    let cs: usize = (record_count + (chunks - record_count % chunks)) / chunks;
    proof {
        let rc = record_count as int;
        let n = chunks as int;
        let c = cs as int;
        assert(n * c >= rc && c >= 1 && n * c <= rc + n) by (nonlinear_arith)
            requires
                n >= 1,
                rc >= 0,
                c == (rc + (n - rc % n)) / n,
        ;
    }
    let mut r: Vec<(usize, usize)> = Vec::new();
    let mut i: usize = 0;
    while i < chunks
        invariant
            0 <= i <= chunks,
            cs as int == spec_chunk_size(record_count as int, chunks as int),
            cs >= 1,
            chunks as int * cs as int <= record_count as int + chunks as int,
            record_count + chunks <= usize::MAX,
            r@.len() == i,
            forall|j: int| 0 <= j < i ==> (#[trigger] r@[j]) == (((j * cs as int)) as usize, cs),
        decreases chunks - i,
    {
        proof {
            assert((i as int) * (cs as int) <= (chunks as int) * (cs as int)) by (nonlinear_arith)
                requires
                    0 <= i as int <= chunks as int,
                    cs as int >= 0,
            ;
        }
        let start = i * cs;
        r.push((start, cs));
        i += 1;
    }
    r
}

/// Every row index below `record_count` falls in exactly one planned
/// chunk, and the chunks cover the rows in increasing order.
pub proof fn lemma_chunks_cover(record_count: int, chunks: int, row: int)
    requires
        chunks >= 1,
        record_count >= 0,
        0 <= row < record_count,
    ensures
        ({
            let cs = spec_chunk_size(record_count, chunks);
            exists|i: int|
                0 <= i < chunks && #[trigger] (i * cs) <= row && row < i * cs + cs
        }),
{
    let cs = spec_chunk_size(record_count, chunks);
    assert(chunks * cs >= record_count && cs >= 1) by (nonlinear_arith)
        requires
            chunks >= 1,
            record_count >= 0,
            cs == (record_count + (chunks - record_count % chunks)) / chunks,
    ;
    let i = row / cs;
    assert(i * cs <= row && row < i * cs + cs && 0 <= i) by (nonlinear_arith)
        requires
            cs >= 1,
            row >= 0,
            i == row / cs,
    ;
    assert(i < chunks) by (nonlinear_arith)
        requires
            cs >= 1,
            chunks * cs >= record_count,
            row < record_count,
            i * cs <= row,
            0 <= i,
    ;
}

} // verus!
