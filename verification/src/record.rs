use vstd::bytes::{
    spec_u16_from_le_bytes, spec_u64_from_le_bytes, u16_from_le_bytes, u64_from_le_bytes,
    u32_from_le_bytes,
};
use vstd::prelude::*;

use crate::dbd::{col_index, DbdColumn, DbdColumnView, DbdFieldView, DbdFile, TypeSize};
use crate::error::Error;
use crate::text::lossy_of;
use crate::types::{
    scalar_view, spec_field_size, FieldType, Record, Value, ValueView,
};
use crate::wdb::{find_zero, is_string_start, u32_at, WdbFile};

verus! {

// ---------------------------------------------------------------------------
// Reading one scalar
// ---------------------------------------------------------------------------

/// The little-endian half word at byte offset `i`.
pub open spec fn u16_at(b: Seq<u8>, i: int) -> u16 {
    spec_u16_from_le_bytes(b.subrange(i, i + 2))
}

/// The little-endian double word at byte offset `i`.
pub open spec fn u64_at(b: Seq<u8>, i: int) -> u64 {
    spec_u64_from_le_bytes(b.subrange(i, i + 8))
}

/// Why a row failed to decode.
#[derive(Debug, Clone, Copy, PartialEq, Eq, Structural)]
pub enum DecodeFail {
    /// A read reached past the end of the data.
    PastEnd,
    /// A string offset pointed past the end of the string block.
    BadStringOffset,
    /// An integer field whose definition does not pin a width.
    UnspecifiedWidth,
    /// A field naming a column the definition does not declare.
    MissingColumn,
}

/// The error each decode failure surfaces as.
pub open spec fn fail_matches(f: DecodeFail, e: Error) -> bool {
    match f {
        DecodeFail::PastEnd => e is OutOfBounds,
        DecodeFail::BadStringOffset => e is OutOfBounds,
        DecodeFail::UnspecifiedWidth => e is GenericError,
        DecodeFail::MissingColumn => e is SchemaValidation,
    }
}

/// What a 32-bit offset resolves to against a string block: with an
/// empty block every offset is an absent string; an offset past the
/// block's end is a decode error; the start of a string yields its text;
/// an offset inside a string is an absent string, to tolerate files
/// whose offsets point mid-string.
pub open spec fn spec_string_value(block: Seq<u8>, off: u32) -> Result<
    Option<Seq<char>>,
    DecodeFail,
> {
    if block.len() == 0 {
        Ok(None)
    } else if off >= block.len() {
        Err(DecodeFail::BadStringOffset)
    } else if is_string_start(block, off as int) {
        Ok(Some(lossy_of(block.subrange(off as int, find_zero(block, off as int)))))
    } else {
        Ok(None)
    }
}

/// What reading one scalar of type `ft` at `pos` yields: the decoded
/// value and the position after it, little-endian throughout; a read
/// past the end of the data fails.
pub open spec fn spec_decode_scalar(data: Seq<u8>, pos: int, ft: FieldType, block: Seq<u8>) -> Result<
    (ValueView, int),
    DecodeFail,
> {
    if pos < 0 || pos + spec_field_size(ft) > data.len() {
        Err(DecodeFail::PastEnd)
    } else {
        match ft {
            FieldType::Int32 => Ok((ValueView::Int32(u32_at(data, pos) as i32), pos + 4)),
            FieldType::UInt32 => Ok((ValueView::UInt32(u32_at(data, pos)), pos + 4)),
            FieldType::Float32 => Ok((ValueView::Float32(u32_at(data, pos)), pos + 4)),
            FieldType::String => match spec_string_value(block, u32_at(data, pos)) {
                Ok(o) => Ok((ValueView::String(o), pos + 4)),
                Err(e) => Err(e),
            },
            FieldType::Bool => Ok((ValueView::Bool(u32_at(data, pos) != 0), pos + 4)),
            FieldType::UInt8 => Ok((ValueView::UInt8(data[pos]), pos + 1)),
            FieldType::Int8 => Ok((ValueView::Int8(data[pos] as i8), pos + 1)),
            FieldType::UInt16 => Ok((ValueView::UInt16(u16_at(data, pos)), pos + 2)),
            FieldType::Int16 => Ok((ValueView::Int16(u16_at(data, pos) as i16), pos + 2)),
            FieldType::Int64 => Ok((ValueView::Int64(u64_at(data, pos) as i64), pos + 8)),
            FieldType::UInt64 => Ok((ValueView::UInt64(u64_at(data, pos)), pos + 8)),
        }
    }
}

/// Reads one scalar of type `field_type` at byte `pos` of `data`,
/// resolving string offsets against the file's string block.
pub fn parse_field_value(data: &[u8], pos: u64, wdb: &WdbFile, field_type: FieldType) -> (r:
    Result<(Value, u64), Error>)
    requires
        wdb.wf(),
    ensures
        match spec_decode_scalar(data@, pos as int, field_type, wdb.block@) {
            Ok((vv, p)) => r is Ok && r->Ok_0.0@ == vv && r->Ok_0.1 as int == p && !(r->Ok_0.0
                is Array),
            Err(f) => r is Err && fail_matches(f, r->Err_0),
        },
{
    let sz = field_type.size();
    let n = data.len();
    if sz as u64 > n as u64 || pos > n as u64 - sz as u64 {
        return Err(
            Error::OutOfBounds(str_lit_string("field read reaches past the end of the data")),
        );
    }
    let p = pos as usize;
    match field_type {
        FieldType::Int32 => Ok((Value::Int32(u32_from_le_bytes(&data[p..p + 4]) as i32), pos + 4)),
        FieldType::UInt32 => Ok((Value::UInt32(u32_from_le_bytes(&data[p..p + 4])), pos + 4)),
        FieldType::Float32 => Ok((Value::Float32(u32_from_le_bytes(&data[p..p + 4])), pos + 4)),
        FieldType::String => {
            let off = u32_from_le_bytes(&data[p..p + 4]);
            if wdb.header.string_block_size == 0 {
                Ok((Value::String(None), pos + 4))
            } else if off >= wdb.header.string_block_size {
                Err(
                    Error::OutOfBounds(
                        str_lit_string("string offset reaches past the end of the string block"),
                    ),
                )
            } else {
                match wdb.get_string_by_offset(off as usize) {
                    Some(s) => Ok((Value::String(Some(s.clone())), pos + 4)),
                    None => Ok((Value::String(None), pos + 4)),
                }
            }
        },
        FieldType::Bool => Ok((Value::Bool(u32_from_le_bytes(&data[p..p + 4]) != 0), pos + 4)),
        FieldType::UInt8 => Ok((Value::UInt8(data[p]), pos + 1)),
        FieldType::Int8 => Ok((Value::Int8(data[p] as i8), pos + 1)),
        FieldType::UInt16 => Ok((Value::UInt16(u16_from_le_bytes(&data[p..p + 2])), pos + 2)),
        FieldType::Int16 => Ok((Value::Int16(u16_from_le_bytes(&data[p..p + 2]) as i16), pos + 2)),
        FieldType::Int64 => Ok((Value::Int64(u64_from_le_bytes(&data[p..p + 8]) as i64), pos + 8)),
        FieldType::UInt64 => Ok((Value::UInt64(u64_from_le_bytes(&data[p..p + 8])), pos + 8)),
    }
}

/// A new string holding the given literal.
fn str_lit_string(s: &str) -> (r: String)
    ensures
        r@ == s@,
{
    <String as vstd::string::StringExecFns>::from_str(s)
}

// ---------------------------------------------------------------------------
// The effective type of a field
// ---------------------------------------------------------------------------

/// The wire type a column's base type and a field's size pin down:
/// strings and floats by the base type alone, integers by the explicit
/// size; an integer without one has no wire type.
pub open spec fn spec_effective_type(base: Seq<char>, ts: TypeSize) -> Option<FieldType> {
    if base == "string"@ || base == "locstring"@ {
        Some(FieldType::String)
    } else if base == "float"@ {
        Some(FieldType::Float32)
    } else {
        match ts {
            TypeSize::Unspecified => None,
            TypeSize::Int8 => Some(FieldType::Int8),
            TypeSize::UInt8 => Some(FieldType::UInt8),
            TypeSize::Int16 => Some(FieldType::Int16),
            TypeSize::UInt16 => Some(FieldType::UInt16),
            TypeSize::Int32 => Some(FieldType::Int32),
            TypeSize::UInt32 => Some(FieldType::UInt32),
            TypeSize::Int64 => Some(FieldType::Int64),
            TypeSize::UInt64 => Some(FieldType::UInt64),
            TypeSize::Float => Some(FieldType::Float32),
        }
    }
}

/// The wire type of a field over its column.
pub fn effective_field_type(column: &DbdColumn, ts: TypeSize) -> (r: Result<FieldType, Error>)
    ensures
        match spec_effective_type(column@.base_type, ts) {
            Some(ft) => r is Ok && r->Ok_0 == ft,
            None => r is Err && r->Err_0 is GenericError,
        },
{
    let bt = crate::text::str_chars(column.base_type.as_str());
    let b = bt.as_slice();
    if crate::dbd::chars_eq_lit(b, "string") || crate::dbd::chars_eq_lit(b, "locstring") {
        Ok(FieldType::String)
    } else if crate::dbd::chars_eq_lit(b, "float") {
        Ok(FieldType::Float32)
    } else {
        match ts {
            TypeSize::Unspecified => Err(
                Error::GenericError(str_lit_string("got unspecified field width for column")),
            ),
            TypeSize::Int8 => Ok(FieldType::Int8),
            TypeSize::UInt8 => Ok(FieldType::UInt8),
            TypeSize::Int16 => Ok(FieldType::Int16),
            TypeSize::UInt16 => Ok(FieldType::UInt16),
            TypeSize::Int32 => Ok(FieldType::Int32),
            TypeSize::UInt32 => Ok(FieldType::UInt32),
            TypeSize::Int64 => Ok(FieldType::Int64),
            TypeSize::UInt64 => Ok(FieldType::UInt64),
            TypeSize::Float => Ok(FieldType::Float32),
        }
    }
}

// ---------------------------------------------------------------------------
// Decoding a field and a row
// ---------------------------------------------------------------------------

/// How many scalars a field occupies on the wire: its arity if it is an
/// array (zero when the arity is missing), else one.
pub open spec fn arity_of(f: DbdFieldView) -> int {
    if f.is_array {
        match f.array_size {
            Some(n) => n as int,
            None => 0,
        }
    } else {
        1
    }
}

/// What reading `n` consecutive scalars of type `ft` yields.
pub open spec fn spec_decode_array(data: Seq<u8>, pos: int, n: int, ft: FieldType, block: Seq<u8>) -> Result<
    (Seq<ValueView>, int),
    DecodeFail,
>
    decreases n,
{
    if n <= 0 {
        Ok((Seq::empty(), pos))
    } else {
        match spec_decode_scalar(data, pos, ft, block) {
            Err(e) => Err(e),
            Ok((v, p2)) => match spec_decode_array(data, p2, n - 1, ft, block) {
                Err(e) => Err(e),
                Ok((vs, p3)) => Ok((seq![v] + vs, p3)),
            },
        }
    }
}

/// What decoding one field yields: its column is looked up by name, the
/// effective wire type determined, and one scalar read, or `array_size`
/// consecutive scalars wrapped in an array.
pub open spec fn spec_decode_field(
    data: Seq<u8>,
    pos: int,
    f: DbdFieldView,
    columns: Seq<DbdColumnView>,
    block: Seq<u8>,
) -> Result<(ValueView, int), DecodeFail> {
    let ci = col_index(columns, f.name);
    if ci == -1 {
        Err(DecodeFail::MissingColumn)
    } else {
        match spec_effective_type(columns[ci].base_type, f.type_size) {
            None => Err(DecodeFail::UnspecifiedWidth),
            Some(ft) => if f.is_array {
                match spec_decode_array(data, pos, arity_of(f), ft, block) {
                    Err(e) => Err(e),
                    Ok((vs, p)) => Ok((ValueView::Array(vs), p)),
                }
            } else {
                spec_decode_scalar(data, pos, ft, block)
            },
        }
    }
}

/// What decoding a row yields: one value per field, in declaration
/// order, each read where the previous one ended.
pub open spec fn spec_decode_fields(
    data: Seq<u8>,
    pos: int,
    fields: Seq<DbdFieldView>,
    columns: Seq<DbdColumnView>,
    block: Seq<u8>,
) -> Result<(Seq<ValueView>, int), DecodeFail>
    decreases fields.len(),
{
    if fields.len() == 0 {
        Ok((Seq::empty(), pos))
    } else {
        match spec_decode_field(data, pos, fields[0], columns, block) {
            Err(e) => Err(e),
            Ok((v, p2)) => match spec_decode_fields(data, p2, fields.drop_first(), columns, block) {
                Err(e) => Err(e),
                Ok((vs, p3)) => Ok((seq![v] + vs, p3)),
            },
        }
    }
}

/// Decodes one row of the file at byte `start`: one value per field of
/// the definition, in declaration order.
#[verifier::rlimit(60)]
#[verifier::loop_isolation(false)]
pub fn decode_record(data: &[u8], start: u64, dbd_file: &DbdFile, wdb: &WdbFile) -> (r: Result<
    Record,
    Error,
>)
    requires
        wdb.wf(),
    ensures
        match spec_decode_fields(
            data@,
            start as int,
            dbd_file.build.fields.deep_view(),
            dbd_file.columns.deep_view(),
            wdb.block@,
        ) {
            Ok((vs, p)) => r is Ok && r->Ok_0.deep_view() == vs,
            Err(f) => r is Err && fail_matches(f, r->Err_0),
        },
        r is Ok ==> crate::types::record_flat(r->Ok_0@),
{
    let ghost fieldsv = dbd_file.build.fields.deep_view();
    let ghost colsv = dbd_file.columns.deep_view();
    let ghost blockv = wdb.block@;
    let ghost full = spec_decode_fields(data@, start as int, fieldsv, colsv, blockv);
    let nf = dbd_file.build.fields.len();
    let mut values: Vec<Value> = Vec::new();
    let mut pos: u64 = start;
    let mut i: usize = 0;
    proof {
        assert(fieldsv.skip(0) =~= fieldsv);
        if spec_decode_fields(data@, start as int, fieldsv, colsv, blockv) is Ok {
            let (vs, p) = spec_decode_fields(data@, start as int, fieldsv, colsv, blockv)->Ok_0;
            assert(values.deep_view().add(vs) =~= vs);
        }
    }
    while i < nf
        invariant
            0 <= i <= nf,
            nf == dbd_file.build.fields@.len(),
            fieldsv == dbd_file.build.fields.deep_view(),
            colsv == dbd_file.columns.deep_view(),
            blockv == wdb.block@,
            full == spec_decode_fields(data@, start as int, fieldsv, colsv, blockv),
            wdb.wf(),
            values@.len() == i,
            crate::types::record_flat(values@),
            ({
                match spec_decode_fields(data@, pos as int, fieldsv.skip(i as int), colsv, blockv) {
                    Ok((vs, p)) => full == Ok::<_, DecodeFail>((values.deep_view().add(vs), p)),
                    Err(e) => full == Err::<(Seq<ValueView>, int), _>(e),
                }
            }),
        decreases nf - i,
    {
        let ghost pos0 = pos as int;
        let ghost valsv0 = values.deep_view();
        let ghost fi = fieldsv[i as int];
        proof {
            assert(fieldsv.skip(i as int).drop_first() =~= fieldsv.skip(i + 1));
            assert(fieldsv.skip(i as int)[0] == fi);
            assert(dbd_file.build.fields@[i as int]@ == fi);
        }
        let field = &dbd_file.build.fields[i];
        let ci = match dbd_file.find_column(field.name.as_str()) {
            Some(ci) => ci,
            None => {
                proof {
                    assert(spec_decode_field(data@, pos0, fi, colsv, blockv) == Err::<
                        (ValueView, int),
                        _,
                    >(DecodeFail::MissingColumn));
                }
                return Err(
                    Error::SchemaValidation(
                        str_lit_string("field references a column the definition does not declare"),
                    ),
                );
            },
        };
        proof {
            crate::dbd::lemma_col_index(colsv, fi.name);
            assert(dbd_file.columns@[ci as int]@ == colsv[ci as int]);
        }
        let ft = match effective_field_type(&dbd_file.columns[ci], field.type_size) {
            Ok(ft) => ft,
            Err(e) => {
                proof {
                    assert(spec_decode_field(data@, pos0, fi, colsv, blockv) == Err::<
                        (ValueView, int),
                        _,
                    >(DecodeFail::UnspecifiedWidth));
                }
                return Err(e);
            },
        };
        if field.is_array {
            let arity: usize = match field.array_size {
                Some(n) => n,
                None => 0,
            };
            let ghost afull = spec_decode_array(data@, pos0, arity as int, ft, blockv);
            proof {
                assert(arity as int == arity_of(fi));
            }
            let mut arr: Vec<Value> = Vec::new();
            let mut j: usize = 0;
            while j < arity
                invariant
                    0 <= j <= arity,
                    wdb.wf(),
                    blockv == wdb.block@,
                    arr@.len() == j,
                    forall|k: int| 0 <= k < j ==> !((#[trigger] arr@[k]) is Array),
                    afull == spec_decode_array(data@, pos0, arity as int, ft, blockv),
                    ({
                        let built = Seq::new(arr@.len(), |k: int| scalar_view(arr@[k]));
                        match spec_decode_array(data@, pos as int, arity - j, ft, blockv) {
                            Ok((vs, p)) => afull == Ok::<_, DecodeFail>((built.add(vs), p)),
                            Err(e) => afull == Err::<(Seq<ValueView>, int), _>(e),
                        }
                    }),
                decreases arity - j,
            {
                let ghost built0 = Seq::new(arr@.len(), |k: int| scalar_view(arr@[k]));
                match parse_field_value(data, pos, wdb, ft) {
                    Ok((v, p2)) => {
                        let ghost vv = v@;
                        arr.push(v);
                        pos = p2;
                        proof {
                            assert(Seq::new(arr@.len(), |k: int| scalar_view(arr@[k]))
                                =~= built0.push(vv));
                            if spec_decode_array(data@, p2 as int, arity - j - 1, ft, blockv)
                                is Ok {
                                let (vs2, p3) = spec_decode_array(
                                    data@,
                                    p2 as int,
                                    arity - j - 1,
                                    ft,
                                    blockv,
                                )->Ok_0;
                                assert(built0.add(seq![vv] + vs2) =~= built0.push(vv).add(vs2));
                            }
                        }
                    },
                    Err(e) => {
                        proof {
                            let sf = spec_decode_scalar(data@, pos as int, ft, blockv);
                            assert(sf is Err);
                            assert(spec_decode_array(data@, pos as int, arity - j, ft, blockv)
                                == Err::<(Seq<ValueView>, int), _>(sf->Err_0));
                            assert(afull == Err::<(Seq<ValueView>, int), _>(sf->Err_0));
                            assert(spec_decode_field(data@, pos0, fi, colsv, blockv) == Err::<
                                (ValueView, int),
                                _,
                            >(sf->Err_0));
                            assert(full == Err::<(Seq<ValueView>, int), _>(sf->Err_0));
                        }
                        return Err(e);
                    },
                }
                j += 1;
            }
            let v = Value::Array(arr);
            proof {
                assert(spec_decode_array(data@, pos as int, 0, ft, blockv) == Ok::<_, DecodeFail>(
                    (Seq::<ValueView>::empty(), pos as int),
                ));
                let built = Seq::new(v->Array_0@.len(), |k: int| scalar_view(v->Array_0@[k]));
                assert(built.add(Seq::<ValueView>::empty()) =~= built);
                assert(afull == Ok::<_, DecodeFail>((built, pos as int)));
                assert(v@ == ValueView::Array(built));
            }
            values.push(v);
            proof {
                assert(values.deep_view() =~= valsv0.push(
                    spec_decode_field(data@, pos0, fi, colsv, blockv)->Ok_0.0,
                ));
            }
        } else {
            match parse_field_value(data, pos, wdb, ft) {
                Ok((v, p2)) => {
                    let ghost vv = v@;
                    values.push(v);
                    pos = p2;
                    proof {
                        assert(spec_decode_field(data@, pos0, fi, colsv, blockv) == Ok::<
                            _,
                            DecodeFail,
                        >((vv, p2 as int)));
                        assert(values.deep_view() =~= valsv0.push(vv));
                    }
                },
                Err(e) => {
                    proof {
                        assert(spec_decode_field(data@, pos0, fi, colsv, blockv)
                            == spec_decode_scalar(data@, pos0, ft, blockv));
                    }
                    return Err(e);
                },
            }
        }
        i += 1;
        proof {
            let fd = spec_decode_field(data@, pos0, fi, colsv, blockv);
            assert(fd is Ok);
            let (fv, fp) = fd->Ok_0;
            assert(values.deep_view() =~= valsv0.push(fv));
            if spec_decode_fields(data@, fp, fieldsv.skip(i as int), colsv, blockv) is Ok {
                let (vs2, p3) = spec_decode_fields(
                    data@,
                    fp,
                    fieldsv.skip(i as int),
                    colsv,
                    blockv,
                )->Ok_0;
                assert(valsv0.add(seq![fv] + vs2) =~= valsv0.push(fv).add(vs2));
            }
        }
    }
    proof {
        assert(fieldsv.skip(nf as int) =~= Seq::<DbdFieldView>::empty());
        assert(values.deep_view().add(Seq::<ValueView>::empty()) =~= values.deep_view());
    }
    Ok(values)
}


// ---------------------------------------------------------------------------
// The row iterator
// ---------------------------------------------------------------------------

/// A lazy iterator over the rows of a table file held in memory. Row `i`
/// decodes at the absolute byte `start_offset + i * record_size`, so
/// trailing bytes of a row that the fields do not cover are skipped when
/// the next row is read. The index advances whether the row decoded or
/// failed, so iteration continues past a bad row.
pub struct LazyRecordIterator<'a> {
    /// The whole file.
    pub data: &'a [u8],
    /// The definition the rows are decoded against.
    pub dbd_file: &'a DbdFile,
    /// The parsed file, for the header and the string block.
    pub wdb: &'a WdbFile,
    /// The next row to yield, relative to this iterator's range.
    pub current_index: u32,
    /// Where row 0 of this iterator's range begins.
    pub start_offset: u64,
    /// How many rows this iterator yields.
    pub count: u32,
}

impl<'a> LazyRecordIterator<'a> {
    /// The iterator's file is well formed and its range lies within the
    /// addressable bytes.
    pub open spec fn wf(self) -> bool {
        &&& self.wdb.wf()
        &&& self.start_offset as int + self.count as int * self.wdb.header.record_size as int + 8
            < u64::MAX as int
    }

    /// An iterator over every row of the file, from the first.
    pub fn new(data: &'a [u8], dbd_file: &'a DbdFile, wdb: &'a WdbFile) -> (r: Result<Self, Error>)
        requires
            wdb.wf(),
        ensures
            r is Ok,
            ({
                let it = r->Ok_0;
                &&& it.wf()
                &&& it.data == data
                &&& it.dbd_file == dbd_file
                &&& it.wdb == wdb
                &&& it.current_index == 0
                &&& it.start_offset == wdb.header_size as u64
                &&& it.count == wdb.header.record_count
            }),
    {
        proof {
            assert((wdb.header.record_count as int) * (wdb.header.record_size as int) <= 0xffffffff
                * 0xffffffff) by (nonlinear_arith)
                requires
                    wdb.header.record_count as int <= 0xffffffff,
                    wdb.header.record_size as int <= 0xffffffff,
            ;
        }
        Ok(
            Self {
                data,
                dbd_file,
                wdb,
                current_index: 0,
                start_offset: wdb.records_start_offset(),
                count: wdb.header.record_count,
            },
        )
    }

    /// An iterator over at most `count` rows beginning at row `start` of
    /// the file; rows past the end of the file's range are not yielded.
    pub fn new_from_start(
        data: &'a [u8],
        dbd_file: &'a DbdFile,
        wdb: &'a WdbFile,
        start: usize,
        count: usize,
    ) -> (r: Result<Self, Error>)
        requires
            wdb.wf(),
        ensures
            r is Ok,
            ({
                let it = r->Ok_0;
                &&& it.wf()
                &&& it.data == data
                &&& it.dbd_file == dbd_file
                &&& it.wdb == wdb
                &&& it.current_index == 0
                &&& (start as int) < wdb.header.record_count as int ==> it.start_offset as int
                    == wdb.header_size as int + start * wdb.header.record_size as int
                    && it.count as int == vstd::math::min(
                    count as int,
                    wdb.header.record_count as int - start,
                )
                &&& (start as int) >= wdb.header.record_count as int ==> it.count == 0
            }),
    {
        if start >= wdb.header.record_count as usize {
            return Ok(
                Self {
                    data,
                    dbd_file,
                    wdb,
                    current_index: 0,
                    start_offset: wdb.records_start_offset(),
                    count: 0,
                },
            );
        }
        let remaining: u32 = wdb.header.record_count - start as u32;
        let n: u32 = if count as u64 <= remaining as u64 {
            count as u32
        } else {
            remaining
        };
        proof {
            assert((start as int + n as int) * (wdb.header.record_size as int) <= 0xffffffff
                * 0xffffffff) by (nonlinear_arith)
                requires
                    start as int + n as int <= 0xffffffff,
                    wdb.header.record_size as int <= 0xffffffff,
            ;
            assert((start as int) * (wdb.header.record_size as int) + (n as int)
                * (wdb.header.record_size as int) == (start as int + n as int)
                * (wdb.header.record_size as int)) by (nonlinear_arith);
            assert((n as int) * (wdb.header.record_size as int) >= 0) by (nonlinear_arith)
                requires
                    0 <= n as int,
                    0 <= wdb.header.record_size as int,
            ;
            assert((start as int) * (wdb.header.record_size as int) >= 0) by (nonlinear_arith)
                requires
                    0 <= start as int,
                    0 <= wdb.header.record_size as int,
            ;
        }
        let start_offset: u64 = wdb.records_start_offset() + (start as u64)
            * (wdb.header.record_size as u64);
        Ok(Self { data, dbd_file, wdb, current_index: 0, start_offset, count: n })
    }

    /// Yields the next row, or nothing when the range is exhausted. A row
    /// that fails to decode is yielded as the error, and the iterator
    /// moves on to the following row either way.
    pub fn next(&mut self) -> (r: Option<Result<Record, Error>>)
        requires
            old(self).wf(),
        ensures
            final (self).wf(),
            final (self).data == old(self).data,
            final (self).dbd_file == old(self).dbd_file,
            final (self).wdb == old(self).wdb,
            final (self).start_offset == old(self).start_offset,
            final (self).count == old(self).count,
            old(self).current_index >= old(self).count ==> r is None && final (self).current_index
                == old(self).current_index,
            old(self).current_index < old(self).count ==> {
                &&& final (self).current_index == old(self).current_index + 1
                &&& r is Some
                &&& ({
                    let row = old(self).start_offset as int + old(self).current_index as int * old(
                        self,
                    ).wdb.header.record_size as int;
                    match spec_decode_fields(
                        old(self).data@,
                        row,
                        old(self).dbd_file.build.fields.deep_view(),
                        old(self).dbd_file.columns.deep_view(),
                        old(self).wdb.block@,
                    ) {
                        Ok((vs, p)) => r->Some_0 is Ok && r->Some_0->Ok_0.deep_view() == vs
                            && crate::types::record_flat(r->Some_0->Ok_0@),
                        Err(f) => r->Some_0 is Err && fail_matches(f, r->Some_0->Err_0),
                    }
                })
            },
    {
        if self.current_index >= self.count {
            return None;
        }
        proof {
            assert((self.current_index as int) * (self.wdb.header.record_size as int) <= (
            self.count as int) * (self.wdb.header.record_size as int)) by (nonlinear_arith)
                requires
                    0 <= self.current_index as int <= self.count as int,
                    0 <= self.wdb.header.record_size as int,
            ;
        }
        let row: u64 = self.start_offset + (self.current_index as u64) * (
        self.wdb.header.record_size as u64);
        let rec = decode_record(self.data, row, self.dbd_file, self.wdb);
        self.current_index = self.current_index + 1;
        Some(rec)
    }
}

// ---------------------------------------------------------------------------
// How much a row holds
// ---------------------------------------------------------------------------

/// The number of scalars a field list occupies on the wire: each array
/// counts its arity, every other field one.
pub open spec fn arity_sum(fields: Seq<DbdFieldView>) -> int
    decreases fields.len(),
{
    if fields.len() == 0 {
        0
    } else {
        arity_of(fields[0]) + arity_sum(fields.drop_first())
    }
}

/// A successful array decode yields exactly as many scalars as it was
/// asked for.
pub proof fn lemma_decode_array_len(data: Seq<u8>, pos: int, n: int, ft: FieldType, block: Seq<u8>)
    requires
        spec_decode_array(data, pos, n, ft, block) is Ok,
    ensures
        spec_decode_array(data, pos, n, ft, block)->Ok_0.0.len() == if n <= 0 {
            0
        } else {
            n
        },
    decreases n,
{
    if n > 0 {
        let p2 = spec_decode_scalar(data, pos, ft, block)->Ok_0.1;
        lemma_decode_array_len(data, p2, n - 1, ft, block);
    }
}

/// A decoded row, flattened, holds exactly one scalar per unit of each
/// field's arity: arrays spread to their arity, other fields count one.
pub proof fn lemma_record_flat_len(
    data: Seq<u8>,
    pos: int,
    fields: Seq<DbdFieldView>,
    columns: Seq<DbdColumnView>,
    block: Seq<u8>,
)
    requires
        spec_decode_fields(data, pos, fields, columns, block) is Ok,
    ensures
        crate::types::flatten_views(
            spec_decode_fields(data, pos, fields, columns, block)->Ok_0.0,
        ).len() == arity_sum(fields),
    decreases fields.len(),
{
    if fields.len() > 0 {
        let fd = spec_decode_field(data, pos, fields[0], columns, block);
        let (v, p2) = fd->Ok_0;
        lemma_record_flat_len(data, p2, fields.drop_first(), columns, block);
        let ci = col_index(columns, fields[0].name);
        let ft = spec_effective_type(columns[ci].base_type, fields[0].type_size)->Some_0;
        if fields[0].is_array {
            lemma_decode_array_len(data, pos, arity_of(fields[0]), ft, block);
        } else {
            assert(!(spec_decode_scalar(data, pos, ft, block)->Ok_0.0 is Array));
        }
        let rest = spec_decode_fields(data, p2, fields.drop_first(), columns, block)->Ok_0.0;
        let full = spec_decode_fields(data, pos, fields, columns, block)->Ok_0.0;
        assert(full =~= seq![v] + rest);
        assert(full[0] == v);
        assert(full.drop_first() =~= rest);
        assert(crate::types::flatten_views(full) == crate::types::scalars_of(v)
            + crate::types::flatten_views(rest));
    }
}


// ---------------------------------------------------------------------------
// Degenerate shapes
// ---------------------------------------------------------------------------

/// With an empty string block, every string offset resolves to an
/// absent string, never an error.
pub proof fn lemma_empty_block_absent(block: Seq<u8>, off: u32)
    requires
        block.len() == 0,
    ensures
        spec_string_value(block, off) == Ok::<Option<Seq<char>>, DecodeFail>(None),
{
}

/// An array of arity zero decodes to zero values and consumes nothing.
pub proof fn lemma_zero_arity_values(data: Seq<u8>, pos: int, ft: FieldType, block: Seq<u8>)
    ensures
        spec_decode_array(data, pos, 0, ft, block) == Ok::<_, DecodeFail>(
            (Seq::<ValueView>::empty(), pos),
        ),
{
}

// ---------------------------------------------------------------------------
// Field order
// ---------------------------------------------------------------------------

/// A decoded row holds exactly one value per field.
pub proof fn lemma_decode_fields_len(
    data: Seq<u8>,
    pos: int,
    fields: Seq<DbdFieldView>,
    columns: Seq<DbdColumnView>,
    block: Seq<u8>,
)
    requires
        spec_decode_fields(data, pos, fields, columns, block) is Ok,
    ensures
        spec_decode_fields(data, pos, fields, columns, block)->Ok_0.0.len() == fields.len(),
    decreases fields.len(),
{
    if fields.len() > 0 {
        let p2 = spec_decode_field(data, pos, fields[0], columns, block)->Ok_0.1;
        lemma_decode_fields_len(data, p2, fields.drop_first(), columns, block);
    }
}

/// Where field `i` of a row begins: where the fields before it ended.
pub open spec fn spec_field_start(
    data: Seq<u8>,
    pos: int,
    fields: Seq<DbdFieldView>,
    columns: Seq<DbdColumnView>,
    block: Seq<u8>,
    i: int,
) -> int
    decreases i,
{
    if i <= 0 {
        pos
    } else {
        let prev = spec_field_start(data, pos, fields, columns, block, i - 1);
        match spec_decode_field(data, prev, fields[i - 1], columns, block) {
            Ok((v, p)) => p,
            Err(_) => prev,
        }
    }
}

/// Dropping a decoded first field moves every later field's start back
/// by one position in the list, not in the data.
proof fn lemma_field_start_shift(
    data: Seq<u8>,
    pos: int,
    fields: Seq<DbdFieldView>,
    columns: Seq<DbdColumnView>,
    block: Seq<u8>,
    i: int,
)
    requires
        fields.len() > 0,
        spec_decode_field(data, pos, fields[0], columns, block) is Ok,
        1 <= i <= fields.len(),
    ensures
        spec_field_start(data, pos, fields, columns, block, i) == spec_field_start(
            data,
            spec_decode_field(data, pos, fields[0], columns, block)->Ok_0.1,
            fields.drop_first(),
            columns,
            block,
            i - 1,
        ),
    decreases i,
{
    assert(spec_field_start(data, pos, fields, columns, block, 0) == pos);
    if i > 1 {
        lemma_field_start_shift(data, pos, fields, columns, block, i - 1);
        assert(fields.drop_first()[i - 2] == fields[i - 1]);
    } else {
        let p2 = spec_decode_field(data, pos, fields[0], columns, block)->Ok_0.1;
        assert(spec_field_start(data, p2, fields.drop_first(), columns, block, 0) == p2);
    }
}

/// The decoded row keeps the declaration order: its `i`-th value is the
/// decode of the `i`-th field, read exactly where the fields before it
/// ended.
pub proof fn lemma_record_field_order(
    data: Seq<u8>,
    pos: int,
    fields: Seq<DbdFieldView>,
    columns: Seq<DbdColumnView>,
    block: Seq<u8>,
    i: int,
)
    requires
        spec_decode_fields(data, pos, fields, columns, block) is Ok,
        0 <= i < fields.len(),
    ensures
        ({
            let vs = spec_decode_fields(data, pos, fields, columns, block)->Ok_0.0;
            let fd = spec_decode_field(
                data,
                spec_field_start(data, pos, fields, columns, block, i),
                fields[i],
                columns,
                block,
            );
            &&& vs.len() == fields.len()
            &&& fd is Ok
            &&& vs[i] == fd->Ok_0.0
        }),
    decreases fields.len(),
{
    lemma_decode_fields_len(data, pos, fields, columns, block);
    let (v, p2) = spec_decode_field(data, pos, fields[0], columns, block)->Ok_0;
    let rest = spec_decode_fields(data, p2, fields.drop_first(), columns, block)->Ok_0.0;
    let vs = spec_decode_fields(data, pos, fields, columns, block)->Ok_0.0;
    assert(vs =~= seq![v] + rest);
    if i == 0 {
    } else {
        lemma_record_field_order(data, p2, fields.drop_first(), columns, block, i - 1);
        lemma_field_start_shift(data, pos, fields, columns, block, i);
        assert(fields.drop_first()[i - 1] == fields[i]);
        assert(vs[i] == rest[i - 1]);
    }
}

} // verus!
