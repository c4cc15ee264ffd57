use vstd::prelude::*;
use vstd::string::StringExecFns;

use crate::dbd::{col_index, DbdColumnView, DbdFieldView, DbdFile, ForeignKeyView};
use crate::error::Error;
use crate::game_build::{dec_text, push_dec_u32, push_dec_u64};
use crate::text::{lower_of, lowercase, push_char};
use crate::types::{flatten_views, record_flat, Value, ValueView};

verus! {

// ---------------------------------------------------------------------------
// Scalar binds
// ---------------------------------------------------------------------------

/// A scalar parameter bound to one placeholder of the insert statement.
///
/// Integers up to 63 bits bind as SQL integers; a 64-bit unsigned value
/// binds as its decimal text, to avoid signed-range truncation; a 32-bit
/// float binds as a real, carried here by its IEEE 754 bits; a missing
/// string binds as empty text.
#[derive(Debug, Clone, PartialEq)]
pub enum SqlValue {
    Integer(i64),
    RealBits(u32),
    Text(String),
    Boolean(bool),
}

/// Mathematical model of a [`SqlValue`].
#[verifier::ext_equal]
pub enum SqlValueView {
    Integer(i64),
    RealBits(u32),
    Text(Seq<char>),
    Boolean(bool),
}

impl View for SqlValue {
    type V = SqlValueView;

    open spec fn view(&self) -> SqlValueView {
        match self {
            SqlValue::Integer(x) => SqlValueView::Integer(*x),
            SqlValue::RealBits(x) => SqlValueView::RealBits(*x),
            SqlValue::Text(s) => SqlValueView::Text(s@),
            SqlValue::Boolean(b) => SqlValueView::Boolean(*b),
        }
    }
}

impl DeepView for SqlValue {
    type V = SqlValueView;

    open spec fn deep_view(&self) -> SqlValueView {
        self.view()
    }
}

/// The bind of one scalar value: integers widen to 64 bits, a 64-bit
/// unsigned value becomes its decimal text, a missing string becomes
/// empty text. An array, which never reaches a single bind, is given an
/// arbitrary integer.
pub open spec fn spec_bind(v: ValueView) -> SqlValueView {
    match v {
        ValueView::Int32(x) => SqlValueView::Integer(x as i64),
        ValueView::UInt32(x) => SqlValueView::Integer(x as i64),
        ValueView::Float32(b) => SqlValueView::RealBits(b),
        ValueView::String(o) => SqlValueView::Text(
            match o {
                Some(s) => s,
                None => Seq::empty(),
            },
        ),
        ValueView::Bool(b) => SqlValueView::Boolean(b),
        ValueView::UInt8(x) => SqlValueView::Integer(x as i64),
        ValueView::Int8(x) => SqlValueView::Integer(x as i64),
        ValueView::UInt16(x) => SqlValueView::Integer(x as i64),
        ValueView::Int16(x) => SqlValueView::Integer(x as i64),
        ValueView::Int64(x) => SqlValueView::Integer(x),
        ValueView::UInt64(x) => SqlValueView::Text(dec_text(x as int)),
        ValueView::Array(_) => SqlValueView::Integer(0),
    }
}

/// Binds one scalar value.
pub fn to_sql_bind(v: &Value) -> (r: SqlValue)
    requires
        !(v is Array),
    ensures
        r@ == spec_bind(v@),
{
    match v {
        Value::Int32(x) => SqlValue::Integer(*x as i64),
        Value::UInt32(x) => SqlValue::Integer(*x as i64),
        Value::Float32(b) => SqlValue::RealBits(*b),
        Value::String(o) => SqlValue::Text(
            match o {
                Some(s) => s.clone(),
                None => String::new(),
            },
        ),
        Value::Bool(b) => SqlValue::Boolean(*b),
        Value::UInt8(x) => SqlValue::Integer(*x as i64),
        Value::Int8(x) => SqlValue::Integer(*x as i64),
        Value::UInt16(x) => SqlValue::Integer(*x as i64),
        Value::Int16(x) => SqlValue::Integer(*x as i64),
        Value::Int64(x) => SqlValue::Integer(*x),
        Value::UInt64(x) => {
            let mut s = String::new();
            push_dec_u64(&mut s, *x);
            SqlValue::Text(s)
        },
        Value::Array(_) => SqlValue::Integer(0),
    }
}

/// The binds of one row: each array spread into its elements, in order,
/// then each scalar bound.
pub open spec fn spec_flatten_binds(vs: Seq<ValueView>) -> Seq<SqlValueView> {
    flatten_views(vs).map_values(|v: ValueView| spec_bind(v))
}

/// Flattens a decoded row into its scalar binds: each array contributes
/// its elements in order, every other value itself.
pub fn flatten_values(item: &[Value]) -> (r: Vec<SqlValue>)
    requires
        record_flat(item@),
    ensures
        r.deep_view() == spec_flatten_binds(item.deep_view()),
{
    let n = item.len();
    let mut r: Vec<SqlValue> = Vec::new();
    let mut i: usize = 0;
    proof {
        assert(item.deep_view().skip(0) =~= item.deep_view());
    }
    while i < n
        invariant
            0 <= i <= n,
            n == item@.len(),
            record_flat(item@),
            r.deep_view() + spec_flatten_binds(item.deep_view().skip(i as int))
                =~= spec_flatten_binds(item.deep_view()),
        decreases n - i,
    {
        let ghost pre = r.deep_view();
        let ghost restv = item.deep_view().skip(i as int);
        proof {
            assert(restv[0] == item.deep_view()[i as int]);
            assert(restv.drop_first() =~= item.deep_view().skip(i + 1));
            assert(item.deep_view()[i as int] == item@[i as int]@);
        }
        match &item[i] {
            Value::Array(vs) => {
                let m = vs.len();
                let mut j: usize = 0;
                proof {
                    assert(crate::types::scalars_of(restv[0]) =~= item@[i as int]->Array_0.deep_view());
                }
                while j < m
                    invariant
                        0 <= j <= m,
                        0 <= i < n,
                        n == item@.len(),
                        record_flat(item@),
                        item@[i as int] is Array,
                        m == item@[i as int]->Array_0@.len(),
                        vs == item@[i as int]->Array_0,
                        r.deep_view() =~= pre + item@[i as int]->Array_0.deep_view().take(
                            j as int,
                        ).map_values(|v: ValueView| spec_bind(v)),
                    decreases m - j,
                {
                    let ghost r0 = r.deep_view();
                    let b = to_sql_bind(&vs[j]);
                    let ghost bv = b@;
                    r.push(b);
                    proof {
                        let av = item@[i as int]->Array_0.deep_view();
                        assert(av[j as int] == item@[i as int]->Array_0@[j as int]@);
                        assert(bv == spec_bind(av[j as int]));
                        assert(r.deep_view() =~= r0.push(bv));
                        assert(av.take(j + 1).map_values(|v: ValueView| spec_bind(v)) =~= av.take(
                            j as int,
                        ).map_values(|v: ValueView| spec_bind(v)).push(spec_bind(av[j as int])));
                        assert(r0.push(bv) =~= pre + av.take(j + 1).map_values(
                            |v: ValueView| spec_bind(v),
                        ));
                    }
                    j += 1;
                }
                proof {
                    let av = item@[i as int]->Array_0.deep_view();
                    assert(av.take(m as int) =~= av);
                    assert(flatten_views(restv) =~= av + flatten_views(restv.drop_first()));
                    assert((pre + av.map_values(|v: ValueView| spec_bind(v)))
                        + spec_flatten_binds(item.deep_view().skip(i + 1)) =~= pre
                        + spec_flatten_binds(restv));
                }
            },
            other => {
                let b = to_sql_bind(other);
                r.push(b);
                proof {
                    assert(crate::types::scalars_of(restv[0]) =~= seq![item@[i as int]@]);
                    assert(flatten_views(restv) =~= seq![item@[i as int]@] + flatten_views(
                        restv.drop_first(),
                    ));
                    assert(r.deep_view() =~= pre.push(spec_bind(item@[i as int]@)));
                    assert(pre.push(spec_bind(item@[i as int]@)) + spec_flatten_binds(
                        item.deep_view().skip(i + 1),
                    ) =~= pre + spec_flatten_binds(restv));
                }
            },
        }
        i += 1;
    }
    proof {
        assert(item.deep_view().skip(n as int) =~= Seq::<ValueView>::empty());
        assert(flatten_views(Seq::<ValueView>::empty()) =~= Seq::<ValueView>::empty());
        assert(r.deep_view() + Seq::<SqlValueView>::empty() =~= r.deep_view());
    }
    r
}


// ---------------------------------------------------------------------------
// SQL types and identifiers
// ---------------------------------------------------------------------------

/// The SQL column type of a base type, when it has one.
pub open spec fn sql_type_of(base: Seq<char>) -> Option<Seq<char>> {
    if base == "locstring"@ || base == "string"@ {
        Some("text"@)
    } else if base == "int"@ {
        Some("integer"@)
    } else if base == "float"@ {
        Some("real"@)
    } else {
        None
    }
}

/// Maps a base type to its SQL column type; a base type outside the
/// schema language cannot be stored.
pub fn base_type_to_sqlite_type(base_type: &str) -> (r: Result<&'static str, Error>)
    ensures
        match sql_type_of(base_type@) {
            Some(t) => r is Ok && r->Ok_0@ == t,
            None => r is Err && r->Err_0 is SqliteTableDefinition,
        },
{
    let cs = crate::text::str_chars(base_type);
    let c = cs.as_slice();
    if crate::dbd::chars_eq_lit(c, "locstring") || crate::dbd::chars_eq_lit(c, "string") {
        Ok("text")
    } else if crate::dbd::chars_eq_lit(c, "int") {
        Ok("integer")
    } else if crate::dbd::chars_eq_lit(c, "float") {
        Ok("real")
    } else {
        Err(
            Error::SqliteTableDefinition(
                <String as StringExecFns>::from_str("unsupported base type"),
            ),
        )
    }
}

/// An identifier in double quotes.
pub open spec fn quoted(name: Seq<char>) -> Seq<char> {
    seq!['"'] + name + seq!['"']
}

/// The definition of one column: its quoted name, its type, and the
/// primary-key clause when the field carries the key marker.
pub open spec fn scalar_col_def(name_l: Seq<char>, ty: Seq<char>, is_key: bool) -> Seq<char> {
    quoted(name_l) + seq![' '] + ty + (if is_key {
        " primary key"@
    } else {
        Seq::empty()
    })
}

/// The name of element `i` of an expanded array column.
pub open spec fn array_col_name(name_l: Seq<char>, i: int) -> Seq<char> {
    name_l + seq!['_'] + dec_text(i)
}

/// One foreign-key clause: the quoted column, the lowercased referenced
/// table (unquoted), and the lowercased referenced field (quoted).
pub open spec fn fk_def(col: Seq<char>, fk: ForeignKeyView) -> Seq<char> {
    "foreign key ("@ + quoted(col) + ") references "@ + lower_of(fk.table) + seq!['('] + quoted(
        lower_of(fk.field),
    ) + seq![')']
}

// ---------------------------------------------------------------------------
// Expanding one field
// ---------------------------------------------------------------------------

/// The column definitions of an array field's first `i` elements.
pub open spec fn array_cols(name_l: Seq<char>, ty: Seq<char>, i: int) -> Seq<Seq<char>>
    decreases i,
{
    if i <= 0 {
        Seq::empty()
    } else {
        array_cols(name_l, ty, i - 1).push(scalar_col_def(array_col_name(name_l, i - 1), ty, false))
    }
}

/// The foreign-key clauses of an array field's first `i` elements: one
/// per expanded column when the column declares a foreign key.
pub open spec fn array_fks(name_l: Seq<char>, fkopt: Option<ForeignKeyView>, i: int) -> Seq<
    Seq<char>,
>
    decreases i,
{
    match fkopt {
        None => Seq::empty(),
        Some(fk) => if i <= 0 {
            Seq::empty()
        } else {
            array_fks(name_l, fkopt, i - 1).push(fk_def(array_col_name(name_l, i - 1), fk))
        },
    }
}

/// What one field contributes to the table definition: its column
/// definitions and its foreign-key clauses. A field without a matching
/// column, with a base type outside the schema language, or an array
/// without a declared arity, contributes an error.
pub open spec fn field_ddl(f: DbdFieldView, columns: Seq<DbdColumnView>) -> Result<
    (Seq<Seq<char>>, Seq<Seq<char>>),
    (),
> {
    let ci = col_index(columns, f.name);
    if ci == -1 {
        Err(())
    } else {
        let c = columns[ci];
        match sql_type_of(c.base_type) {
            None => Err(()),
            Some(ty) => if f.is_array {
                match f.array_size {
                    None => Err(()),
                    Some(n) => Ok(
                        (
                            array_cols(lower_of(f.name), ty, n as int),
                            array_fks(lower_of(f.name), c.foreign_key, n as int),
                        ),
                    ),
                }
            } else {
                Ok(
                    (
                        seq![scalar_col_def(lower_of(f.name), ty, f.is_key)],
                        match c.foreign_key {
                            Some(fk) => seq![fk_def(lower_of(f.name), fk)],
                            None => Seq::empty(),
                        },
                    ),
                )
            },
        }
    }
}

/// The column definitions and foreign-key clauses of the first `i`
/// fields, in field order.
pub open spec fn ddl_state(fields: Seq<DbdFieldView>, columns: Seq<DbdColumnView>, i: int) -> Result<
    (Seq<Seq<char>>, Seq<Seq<char>>),
    (),
>
    decreases i,
{
    if i <= 0 {
        Ok((Seq::empty(), Seq::empty()))
    } else {
        match ddl_state(fields, columns, i - 1) {
            Err(e) => Err(e),
            Ok(acc) => match field_ddl(fields[i - 1], columns) {
                Err(e) => Err(e),
                Ok(d) => Ok((acc.0 + d.0, acc.1 + d.1)),
            },
        }
    }
}

/// Once a field has failed to expand, the whole expansion fails.
pub proof fn lemma_ddl_state_err(
    fields: Seq<DbdFieldView>,
    columns: Seq<DbdColumnView>,
    i: int,
    n: int,
)
    requires
        0 <= i <= n,
        ddl_state(fields, columns, i) is Err,
    ensures
        ddl_state(fields, columns, n) is Err,
    decreases n - i,
{
    if i < n {
        lemma_ddl_state_err(fields, columns, i + 1, n);
    }
}

/// An array field expands to exactly its arity of columns.
pub proof fn lemma_array_cols_len(name_l: Seq<char>, ty: Seq<char>, i: int)
    requires
        i >= 0,
    ensures
        array_cols(name_l, ty, i).len() == i,
    decreases i,
{
    if i > 0 {
        lemma_array_cols_len(name_l, ty, i - 1);
    }
}

/// An array field with a foreign key gets one clause per expanded
/// column, and none without one.
pub proof fn lemma_array_fks_len(name_l: Seq<char>, fkopt: Option<ForeignKeyView>, i: int)
    requires
        i >= 0,
    ensures
        array_fks(name_l, fkopt, i).len() == if fkopt is Some {
            i
        } else {
            0
        },
    decreases i,
{
    if i > 0 {
        lemma_array_fks_len(name_l, fkopt, i - 1);
    }
}

/// The emitted column count of one field is one, or the array's arity;
/// and there is one foreign-key clause per emitted column exactly when
/// the field's column declares a foreign key.
pub proof fn lemma_ddl_column_count(f: DbdFieldView, columns: Seq<DbdColumnView>)
    requires
        field_ddl(f, columns) is Ok,
    ensures
        ({
            let (cols, fks) = field_ddl(f, columns)->Ok_0;
            &&& cols.len() == if f.is_array {
                f.array_size->0 as int
            } else {
                1
            }
            &&& fks.len() == if columns[col_index(columns, f.name)].foreign_key is Some {
                cols.len()
            } else {
                0
            }
        }),
{
    let ci = col_index(columns, f.name);
    let c = columns[ci];
    if f.is_array {
        let n = f.array_size->0 as int;
        lemma_array_cols_len(lower_of(f.name), sql_type_of(c.base_type)->0, n);
        lemma_array_fks_len(lower_of(f.name), c.foreign_key, n);
    }
}

// ---------------------------------------------------------------------------
// Joining and assembling
// ---------------------------------------------------------------------------

/// The first `i` parts joined with commas.
pub open spec fn join_comma(parts: Seq<Seq<char>>, i: int) -> Seq<char>
    decreases i,
{
    if i <= 0 {
        Seq::empty()
    } else if i == 1 {
        parts[0]
    } else {
        join_comma(parts, i - 1) + seq![','] + parts[i - 1]
    }
}

/// Joins string parts with commas.
pub fn join_comma_exec(parts: &Vec<String>) -> (r: String)
    ensures
        r@ == join_comma(parts.deep_view(), parts@.len() as int),
{
    let mut r = String::new();
    let n = parts.len();
    let mut i: usize = 0;
    while i < n
        invariant
            0 <= i <= n,
            n == parts@.len(),
            r@ == join_comma(parts.deep_view(), i as int),
        decreases n - i,
    {
        if i > 0 {
            push_char(&mut r, ',');
        }
        r.append(parts[i].as_str());
        proof {
            assert(parts.deep_view()[i as int] == parts@[i as int]@);
            if i == 0 {
                assert(r@ =~= join_comma(parts.deep_view(), 1));
            } else {
                assert(r@ =~= join_comma(parts.deep_view(), i + 1));
            }
        }
        i += 1;
    }
    r
}

/// The whole `CREATE TABLE` statement over the expanded columns and
/// foreign-key clauses.
pub open spec fn spec_table_ddl(
    cols: Seq<Seq<char>>,
    fks: Seq<Seq<char>>,
    table_name: Seq<char>,
) -> Seq<char> {
    "CREATE TABLE "@ + table_name + " ("@ + join_comma(cols, cols.len() as int) + (if fks.len()
        == 0 {
        Seq::empty()
    } else {
        seq![',']
    }) + join_comma(fks, fks.len() as int) + seq![')']
}

/// An identifier in double quotes.
fn build_quoted(name: &str) -> (r: String)
    ensures
        r@ == quoted(name@),
{
    let mut r = String::new();
    push_char(&mut r, '"');
    r.append(name);
    push_char(&mut r, '"');
    proof {
        assert(r@ =~= quoted(name@));
    }
    r
}

/// One column definition.
fn build_scalar_col(name_l: &str, ty: &str, is_key: bool) -> (r: String)
    ensures
        r@ == scalar_col_def(name_l@, ty@, is_key),
{
    let mut r = build_quoted(name_l);
    push_char(&mut r, ' ');
    r.append(ty);
    if is_key {
        r.append(" primary key");
    }
    proof {
        assert(r@ =~= scalar_col_def(name_l@, ty@, is_key));
    }
    r
}

/// The name of one expanded array column.
fn build_array_col_name(name_l: &str, i: usize) -> (r: String)
    ensures
        r@ == array_col_name(name_l@, i as int),
{
    let mut r = <String as StringExecFns>::from_str(name_l);
    push_char(&mut r, '_');
    push_dec_u64(&mut r, i as u64);
    proof {
        assert(r@ =~= array_col_name(name_l@, i as int));
    }
    r
}

/// One foreign-key clause.
fn build_fk(col: &str, table_l: &str, field_l: &str, fk: Ghost<ForeignKeyView>) -> (r: String)
    requires
        table_l@ == lower_of(fk@.table),
        field_l@ == lower_of(fk@.field),
    ensures
        r@ == fk_def(col@, fk@),
{
    let mut r = <String as StringExecFns>::from_str("foreign key (");
    let q = build_quoted(col);
    r.append(q.as_str());
    r.append(") references ");
    r.append(table_l);
    push_char(&mut r, '(');
    let qf = build_quoted(field_l);
    r.append(qf.as_str());
    push_char(&mut r, ')');
    proof {
        assert(r@ =~= fk_def(col@, fk@));
    }
    r
}

/// Derives the `CREATE TABLE` statement of a definition: one column per
/// field, arrays expanded to one column per element, with a primary-key
/// clause on the key field and a foreign-key clause per covered column.
pub fn make_table_definition(dbd: &DbdFile, table_name: &str) -> (r: Result<String, Error>)
    ensures
        ({
            let st = ddl_state(
                dbd.build.fields.deep_view(),
                dbd.columns.deep_view(),
                dbd.build.fields@.len() as int,
            );
            &&& (r is Ok <==> st is Ok)
            &&& (r is Ok ==> r->Ok_0@ == spec_table_ddl(st->Ok_0.0, st->Ok_0.1, table_name@))
            &&& (r is Err ==> r->Err_0 is SqliteTableDefinition)
        }),
{
    let ghost fieldsv = dbd.build.fields.deep_view();
    let ghost colsv = dbd.columns.deep_view();
    let nf = dbd.build.fields.len();
    let mut cols: Vec<String> = Vec::new();
    let mut fks: Vec<String> = Vec::new();
    let mut i: usize = 0;
    proof {
        assert(cols.deep_view() =~~= Seq::<Seq<char>>::empty());
        assert(fks.deep_view() =~~= Seq::<Seq<char>>::empty());
    }
    while i < nf
        invariant
            0 <= i <= nf,
            nf == dbd.build.fields@.len(),
            fieldsv == dbd.build.fields.deep_view(),
            colsv == dbd.columns.deep_view(),
            ddl_state(fieldsv, colsv, i as int) == Ok::<_, ()>(
                (cols.deep_view(), fks.deep_view()),
            ),
        decreases nf - i,
    {
        let ghost fi = fieldsv[i as int];
        proof {
            assert(dbd.build.fields@[i as int]@ == fi);
        }
        let field = &dbd.build.fields[i];
        let ci = match dbd.find_column(field.name.as_str()) {
            Some(ci) => ci,
            None => {
                proof {
                    lemma_ddl_state_err(fieldsv, colsv, i + 1, nf as int);
                }
                return Err(
                    Error::SqliteTableDefinition(
                        <String as StringExecFns>::from_str("column not found"),
                    ),
                );
            },
        };
        proof {
            crate::dbd::lemma_col_index(colsv, fi.name);
            assert(dbd.columns@[ci as int]@ == colsv[ci as int]);
        }
        let column = &dbd.columns[ci];
        let ty = match base_type_to_sqlite_type(column.base_type.as_str()) {
            Ok(ty) => ty,
            Err(e) => {
                proof {
                    lemma_ddl_state_err(fieldsv, colsv, i + 1, nf as int);
                }
                return Err(e);
            },
        };
        let name_l = lowercase(field.name.as_str());
        if field.is_array {
            let arity: usize = match field.array_size {
                Some(n) => n,
                None => {
                    proof {
                        lemma_ddl_state_err(fieldsv, colsv, i + 1, nf as int);
                    }
                    return Err(
                        Error::SqliteTableDefinition(
                            <String as StringExecFns>::from_str(
                                "array field without a declared arity",
                            ),
                        ),
                    );
                },
            };
            let ghost cols0 = cols.deep_view();
            let ghost fks0 = fks.deep_view();
            let ghost ty_s = sql_type_of(colsv[ci as int].base_type)->Some_0;
            let mut k: usize = 0;
            while k < arity
                invariant
                    0 <= k <= arity,
                    name_l@ == lower_of(fi.name),
                    ty@ == ty_s,
                    ty_s == sql_type_of(colsv[ci as int].base_type)->Some_0,
                    sql_type_of(colsv[ci as int].base_type) is Some,
                    column@ == colsv[ci as int],
                    cols.deep_view() =~~= cols0 + array_cols(lower_of(fi.name), ty_s, k as int),
                    fks.deep_view() =~~= fks0 + array_fks(
                        lower_of(fi.name),
                        colsv[ci as int].foreign_key,
                        k as int,
                    ),
                decreases arity - k,
            {
                let cname = build_array_col_name(name_l.as_str(), k);
                let cdef = build_scalar_col(cname.as_str(), ty, false);
                let ghost colsk = cols.deep_view();
                let ghost cdefv = cdef@;
                cols.push(cdef);
                proof {
                    assert(cdefv == scalar_col_def(array_col_name(lower_of(fi.name), k as int), ty_s, false));
                    assert(cols.deep_view() =~~= colsk.push(cdefv));
                    assert(colsk.push(cdefv) =~~= cols0 + array_cols(
                        lower_of(fi.name),
                        ty_s,
                        k + 1,
                    ));
                }
                match &column.foreign_key {
                    Some(fk) => {
                        let tl = lowercase(fk.table.as_str());
                        let fl = lowercase(fk.field.as_str());
                        let fdef = build_fk(
                            cname.as_str(),
                            tl.as_str(),
                            fl.as_str(),
                            Ghost(colsv[ci as int].foreign_key->Some_0),
                        );
                        let ghost fksk = fks.deep_view();
                        let ghost fdefv = fdef@;
                        fks.push(fdef);
                        proof {
                            assert(fdefv == fk_def(
                                array_col_name(lower_of(fi.name), k as int),
                                colsv[ci as int].foreign_key->Some_0,
                            ));
                            assert(fks.deep_view() =~~= fksk.push(fdefv));
                            assert(fksk.push(fdefv) =~~= fks0 + array_fks(
                                lower_of(fi.name),
                                colsv[ci as int].foreign_key,
                                k + 1,
                            ));
                        }
                    },
                    None => {
                        proof {
                            assert(fks.deep_view() =~~= fks0 + array_fks(
                                lower_of(fi.name),
                                colsv[ci as int].foreign_key,
                                k + 1,
                            ));
                        }
                    },
                }
                k += 1;
            }
            proof {
                assert(cols.deep_view() =~~= cols0 + field_ddl(fi, colsv)->Ok_0.0);
                assert(fks.deep_view() =~~= fks0 + field_ddl(fi, colsv)->Ok_0.1);
            }
        } else {
            let cdef = build_scalar_col(name_l.as_str(), ty, field.is_key);
            let ghost cols0 = cols.deep_view();
            let ghost fks0 = fks.deep_view();
            let ghost cdefv = cdef@;
            cols.push(cdef);
            proof {
                assert(cols.deep_view() =~~= cols0.push(cdefv));
                assert(cols0.push(cdefv) =~~= cols0 + field_ddl(fi, colsv)->Ok_0.0);
            }
            match &column.foreign_key {
                Some(fk) => {
                    let tl = lowercase(fk.table.as_str());
                    let fl = lowercase(fk.field.as_str());
                    let fdef = build_fk(
                        name_l.as_str(),
                        tl.as_str(),
                        fl.as_str(),
                        Ghost(colsv[ci as int].foreign_key->Some_0),
                    );
                    let ghost fdefv = fdef@;
                    fks.push(fdef);
                    proof {
                        assert(fks.deep_view() =~~= fks0.push(fdefv));
                        assert(fks0.push(fdefv) =~~= fks0 + field_ddl(fi, colsv)->Ok_0.1);
                    }
                },
                None => {
                    proof {
                        assert(fks.deep_view() =~~= fks0 + field_ddl(fi, colsv)->Ok_0.1);
                    }
                },
            }
        }
        i += 1;
    }
    let cols_j = join_comma_exec(&cols);
    let fks_j = join_comma_exec(&fks);
    let mut out = <String as StringExecFns>::from_str("CREATE TABLE ");
    out.append(table_name);
    out.append(" (");
    out.append(cols_j.as_str());
    if fks.len() > 0 {
        push_char(&mut out, ',');
    }
    out.append(fks_j.as_str());
    push_char(&mut out, ')');
    proof {
        assert(out@ =~= spec_table_ddl(cols.deep_view(), fks.deep_view(), table_name@));
    }
    Ok(out)
}

// ---------------------------------------------------------------------------
// The insert statement
// ---------------------------------------------------------------------------

/// The quoted column names of an array field's first `i` elements.
pub open spec fn ins_array_cols(name_l: Seq<char>, i: int) -> Seq<Seq<char>>
    decreases i,
{
    if i <= 0 {
        Seq::empty()
    } else {
        ins_array_cols(name_l, i - 1).push(quoted(array_col_name(name_l, i - 1)))
    }
}

/// The quoted column names one field contributes to the insert
/// statement, arrays expanded as in the table definition.
pub open spec fn ins_field_cols(f: DbdFieldView, columns: Seq<DbdColumnView>) -> Result<
    Seq<Seq<char>>,
    (),
> {
    let ci = col_index(columns, f.name);
    if ci == -1 {
        Err(())
    } else if f.is_array {
        match f.array_size {
            None => Err(()),
            Some(n) => Ok(ins_array_cols(lower_of(f.name), n as int)),
        }
    } else {
        Ok(seq![quoted(lower_of(f.name))])
    }
}

/// The insert columns of the first `i` fields, in field order.
pub open spec fn ins_state(fields: Seq<DbdFieldView>, columns: Seq<DbdColumnView>, i: int) -> Result<
    Seq<Seq<char>>,
    (),
>
    decreases i,
{
    if i <= 0 {
        Ok(Seq::empty())
    } else {
        match ins_state(fields, columns, i - 1) {
            Err(e) => Err(e),
            Ok(acc) => match ins_field_cols(fields[i - 1], columns) {
                Err(e) => Err(e),
                Ok(d) => Ok(acc + d),
            },
        }
    }
}

/// Once a field has failed to expand, the whole expansion fails.
pub proof fn lemma_ins_state_err(
    fields: Seq<DbdFieldView>,
    columns: Seq<DbdColumnView>,
    i: int,
    n: int,
)
    requires
        0 <= i <= n,
        ins_state(fields, columns, i) is Err,
    ensures
        ins_state(fields, columns, n) is Err,
    decreases n - i,
{
    if i < n {
        lemma_ins_state_err(fields, columns, i + 1, n);
    }
}

/// `n` placeholders.
pub open spec fn placeholders(n: int) -> Seq<Seq<char>>
    decreases n,
{
    if n <= 0 {
        Seq::empty()
    } else {
        placeholders(n - 1).push("?"@)
    }
}

/// The whole insert statement over the expanded column names: one
/// placeholder per column, in the same order.
pub open spec fn spec_insert_sql(cols: Seq<Seq<char>>, table_name: Seq<char>) -> Seq<char> {
    "insert into "@ + table_name + " ("@ + join_comma(cols, cols.len() as int) + ") values ("@
        + join_comma(placeholders(cols.len() as int), cols.len() as int) + seq![')']
}

/// Derives the parameterized insert statement of a definition, its
/// columns expanded exactly as in the table definition and one
/// placeholder per column.
pub fn make_insert_query(dbd: &DbdFile, table_name: &str) -> (r: Result<String, Error>)
    ensures
        ({
            let st = ins_state(
                dbd.build.fields.deep_view(),
                dbd.columns.deep_view(),
                dbd.build.fields@.len() as int,
            );
            &&& (r is Ok <==> st is Ok)
            &&& (r is Ok ==> r->Ok_0@ == spec_insert_sql(st->Ok_0, table_name@))
            &&& (r is Err ==> r->Err_0 is SqliteTableDefinition)
        }),
{
    let ghost fieldsv = dbd.build.fields.deep_view();
    let ghost colsv = dbd.columns.deep_view();
    let nf = dbd.build.fields.len();
    let mut cols: Vec<String> = Vec::new();
    let mut params: Vec<String> = Vec::new();
    let mut i: usize = 0;
    proof {
        assert(cols.deep_view() =~~= Seq::<Seq<char>>::empty());
        assert(params.deep_view() =~~= Seq::<Seq<char>>::empty());
    }
    while i < nf
        invariant
            0 <= i <= nf,
            nf == dbd.build.fields@.len(),
            fieldsv == dbd.build.fields.deep_view(),
            colsv == dbd.columns.deep_view(),
            ins_state(fieldsv, colsv, i as int) == Ok::<_, ()>(cols.deep_view()),
            params.deep_view() =~~= placeholders(cols.deep_view().len() as int),
            params@.len() == cols@.len(),
        decreases nf - i,
    {
        let ghost fi = fieldsv[i as int];
        proof {
            assert(dbd.build.fields@[i as int]@ == fi);
        }
        let field = &dbd.build.fields[i];
        if dbd.find_column(field.name.as_str()).is_none() {
            proof {
                lemma_ins_state_err(fieldsv, colsv, i + 1, nf as int);
            }
            return Err(
                Error::SqliteTableDefinition(
                    <String as StringExecFns>::from_str("column not found"),
                ),
            );
        }
        let name_l = lowercase(field.name.as_str());
        if field.is_array {
            let arity: usize = match field.array_size {
                Some(n) => n,
                None => {
                    proof {
                        lemma_ins_state_err(fieldsv, colsv, i + 1, nf as int);
                    }
                    return Err(
                        Error::SqliteTableDefinition(
                            <String as StringExecFns>::from_str(
                                "array field without a declared arity",
                            ),
                        ),
                    );
                },
            };
            let ghost cols0 = cols.deep_view();
            let mut k: usize = 0;
            while k < arity
                invariant
                    0 <= k <= arity,
                    name_l@ == lower_of(fi.name),
                    cols.deep_view() =~~= cols0 + ins_array_cols(lower_of(fi.name), k as int),
                    params.deep_view() =~~= placeholders(cols.deep_view().len() as int),
                    params@.len() == cols@.len(),
                decreases arity - k,
            {
                let cname = build_array_col_name(name_l.as_str(), k);
                let q = build_quoted(cname.as_str());
                let ghost colsk = cols.deep_view();
                let ghost paramsk = params.deep_view();
                let ghost qv = q@;
                cols.push(q);
                params.push(<String as StringExecFns>::from_str("?"));
                proof {
                    assert(qv == quoted(array_col_name(lower_of(fi.name), k as int)));
                    assert(cols.deep_view() =~~= colsk.push(qv));
                    assert(colsk.push(qv) =~~= cols0 + ins_array_cols(
                        lower_of(fi.name),
                        k + 1,
                    ));
                    assert(params.deep_view() =~~= paramsk.push("?"@));
                    assert(paramsk.push("?"@) =~~= placeholders(cols.deep_view().len() as int));
                }
                k += 1;
            }
            proof {
                assert(cols.deep_view() =~~= cols0 + ins_field_cols(fi, colsv)->Ok_0);
            }
        } else {
            let q = build_quoted(name_l.as_str());
            let ghost cols0 = cols.deep_view();
            let ghost params0 = params.deep_view();
            let ghost qv = q@;
            cols.push(q);
            params.push(<String as StringExecFns>::from_str("?"));
            proof {
                assert(cols.deep_view() =~~= cols0.push(qv));
                assert(cols0.push(qv) =~~= cols0 + ins_field_cols(fi, colsv)->Ok_0);
                assert(params.deep_view() =~~= params0.push("?"@));
                assert(params0.push("?"@) =~~= placeholders(cols.deep_view().len() as int));
            }
        }
        i += 1;
    }
    let cols_j = join_comma_exec(&cols);
    let params_j = join_comma_exec(&params);
    let mut out = <String as StringExecFns>::from_str("insert into ");
    out.append(table_name);
    out.append(" (");
    out.append(cols_j.as_str());
    out.append(") values (");
    out.append(params_j.as_str());
    push_char(&mut out, ')');
    proof {
        assert(out@ =~= spec_insert_sql(cols.deep_view(), table_name@));
    }
    Ok(out)
}


/// A field list that expands for the table definition also expands for
/// the insert statement: the insert checks are a subset of the table
/// definition's.
pub proof fn lemma_ins_of_ddl(fields: Seq<DbdFieldView>, columns: Seq<DbdColumnView>, i: int)
    requires
        ddl_state(fields, columns, i) is Ok,
    ensures
        ins_state(fields, columns, i) is Ok,
    decreases i,
{
    if i > 0 {
        lemma_ins_of_ddl(fields, columns, i - 1);
    }
}

/// An array field names exactly its arity of insert columns.
pub proof fn lemma_ins_array_cols_len(name_l: Seq<char>, i: int)
    requires
        i >= 0,
    ensures
        ins_array_cols(name_l, i).len() == i,
    decreases i,
{
    if i > 0 {
        lemma_ins_array_cols_len(name_l, i - 1);
    }
}

/// The insert statement names as many columns as the table definition
/// emits, field by field and in the same order, so its placeholders
/// line up with the flattened rows.
pub proof fn lemma_insert_matches_ddl(
    fields: Seq<DbdFieldView>,
    columns: Seq<DbdColumnView>,
    i: int,
)
    requires
        i >= 0,
        ddl_state(fields, columns, i) is Ok,
    ensures
        ins_state(fields, columns, i) is Ok,
        ins_state(fields, columns, i)->Ok_0.len() == ddl_state(fields, columns, i)->Ok_0.0.len(),
    decreases i,
{
    lemma_ins_of_ddl(fields, columns, i);
    if i > 0 {
        lemma_insert_matches_ddl(fields, columns, i - 1);
        let f = fields[i - 1];
        let ci = col_index(columns, f.name);
        if f.is_array {
            let n = f.array_size->0 as int;
            lemma_array_cols_len(lower_of(f.name), sql_type_of(columns[ci].base_type)->0, n);
            lemma_ins_array_cols_len(lower_of(f.name), n);
        }
    }
}

} // verus!
