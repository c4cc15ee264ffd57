use vstd::prelude::*;

use vstd::string::StringExecFns;

use crate::error::Error;
use crate::game_build::{
    build_le, parse_build_spec, split_char, GameBuild, GameBuildSpec, parse_u32_spec,
};
use crate::text::{find_char, find_pair, trim_end_spec, trim_spec};

verus! {

// ---------------------------------------------------------------------------
// The data model of a definition
// ---------------------------------------------------------------------------

/// A foreign-key reference `(table, field)` declared on a column.
#[derive(Debug, Clone)]
pub struct ForeignKey {
    pub table: String,
    pub field: String,
}

/// Mathematical model of a [`ForeignKey`].
#[verifier::ext_equal]
pub struct ForeignKeyView {
    pub table: Seq<char>,
    pub field: Seq<char>,
}

impl View for ForeignKey {
    type V = ForeignKeyView;

    open spec fn view(&self) -> ForeignKeyView {
        ForeignKeyView { table: self.table@, field: self.field@ }
    }
}

/// A column declared in the `COLUMNS` section of a definition.
#[derive(Debug, Clone)]
pub struct DbdColumn {
    pub name: String,
    pub base_type: String,
    pub foreign_key: Option<ForeignKey>,
    pub comment: Option<String>,
    pub is_optional: bool,
}

/// Mathematical model of a [`DbdColumn`].
#[verifier::ext_equal]
pub struct DbdColumnView {
    pub name: Seq<char>,
    pub base_type: Seq<char>,
    pub foreign_key: Option<ForeignKeyView>,
    pub comment: Option<Seq<char>>,
    pub is_optional: bool,
}

impl View for DbdColumn {
    type V = DbdColumnView;

    open spec fn view(&self) -> DbdColumnView {
        DbdColumnView {
            name: self.name@,
            base_type: self.base_type@,
            foreign_key: match self.foreign_key {
                Some(fk) => Some(fk@),
                None => None,
            },
            comment: match self.comment {
                Some(c) => Some(c@),
                None => None,
            },
            is_optional: self.is_optional,
        }
    }
}

impl DeepView for DbdColumn {
    type V = DbdColumnView;

    open spec fn deep_view(&self) -> DbdColumnView {
        self.view()
    }
}

/// The explicit width and signedness a field may pin for its column.
#[derive(Debug, Clone, Copy, PartialEq, Eq, Structural)]
pub enum TypeSize {
    Unspecified,
    Int8,
    UInt8,
    Int16,
    UInt16,
    Int32,
    UInt32,
    Int64,
    UInt64,
    Float,
}

/// What [`TypeSize::parse_type_size`] yields for each size token.
pub open spec fn spec_parse_type_size(s: Seq<char>) -> TypeSize {
    if s == "8"@ {
        TypeSize::Int8
    } else if s == "u8"@ {
        TypeSize::UInt8
    } else if s == "16"@ {
        TypeSize::Int16
    } else if s == "u16"@ {
        TypeSize::UInt16
    } else if s == "32"@ {
        TypeSize::Int32
    } else if s == "u32"@ {
        TypeSize::UInt32
    } else if s == "64"@ {
        TypeSize::Int64
    } else if s == "u64"@ {
        TypeSize::UInt64
    } else {
        TypeSize::Unspecified
    }
}

/// The display name [`TypeSize::to_type_name`] yields, given the column's
/// base type for the unspecified case.
pub open spec fn spec_type_name(ts: TypeSize, base_type: Seq<char>) -> Seq<char> {
    match ts {
        TypeSize::Int8 => "Int8"@,
        TypeSize::UInt8 => "UInt8"@,
        TypeSize::Int16 => "Int16"@,
        TypeSize::UInt16 => "UInt16"@,
        TypeSize::Int32 => "Int32"@,
        TypeSize::UInt32 => "UInt32"@,
        TypeSize::Int64 => "Int64"@,
        TypeSize::UInt64 => "UInt64"@,
        TypeSize::Float => "Float32"@,
        TypeSize::Unspecified => if base_type == "float"@ {
            "Float32"@
        } else if base_type == "string"@ || base_type == "locstring"@ {
            "String"@
        } else {
            "UInt32"@
        },
    }
}

impl TypeSize {
    /// Reads a size token: `8`, `u8`, `16`, `u16`, `32`, `u32`, and the
    /// 64-bit forms a definition may declare; anything else is unspecified.
    pub fn parse_type_size(s: &str) -> (r: Self)
        ensures
            r == spec_parse_type_size(s@),
    {
        let cs = crate::text::str_chars(s);
        parse_type_size_chars(cs.as_slice())
    }

    /// The display name of the effective type, given the column's base type.
    pub fn to_type_name(&self, base_type: &str) -> (r: &'static str)
        ensures
            r@ == spec_type_name(*self, base_type@),
    {
        match self {
            TypeSize::Int8 => "Int8",
            TypeSize::UInt8 => "UInt8",
            TypeSize::Int16 => "Int16",
            TypeSize::UInt16 => "UInt16",
            TypeSize::Int32 => "Int32",
            TypeSize::UInt32 => "UInt32",
            TypeSize::Int64 => "Int64",
            TypeSize::UInt64 => "UInt64",
            TypeSize::Float => "Float32",
            TypeSize::Unspecified => {
                let cs = crate::text::str_chars(base_type);
                let c = cs.as_slice();
                if chars_eq_lit(c, "float") {
                    "Float32"
                } else if chars_eq_lit(c, "string") || chars_eq_lit(c, "locstring") {
                    "String"
                } else {
                    "UInt32"
                }
            },
        }
    }
}

/// Compares a character slice against a literal string.
pub(crate) fn chars_eq_lit(s: &[char], lit: &str) -> (r: bool)
    ensures
        r == (s@ == lit@),
{
    let lv = crate::text::str_chars(lit);
    let r = crate::text::chars_eq(s, lv.as_slice());
    proof {
        if s@ =~= lit@ {
            assert(s@ == lit@);
        }
    }
    r
}

/// A field declared inside a build block: a column's per-build usage.
#[derive(Debug, Clone)]
pub struct DbdField {
    pub name: String,
    pub type_size: TypeSize,
    pub is_array: bool,
    pub array_size: Option<usize>,
    pub is_key: bool,
    pub is_relation: bool,
    pub is_noninline: bool,
}

/// Mathematical model of a [`DbdField`].
#[verifier::ext_equal]
pub struct DbdFieldView {
    pub name: Seq<char>,
    pub type_size: TypeSize,
    pub is_array: bool,
    pub array_size: Option<usize>,
    pub is_key: bool,
    pub is_relation: bool,
    pub is_noninline: bool,
}

impl View for DbdField {
    type V = DbdFieldView;

    open spec fn view(&self) -> DbdFieldView {
        DbdFieldView {
            name: self.name@,
            type_size: self.type_size,
            is_array: self.is_array,
            array_size: self.array_size,
            is_key: self.is_key,
            is_relation: self.is_relation,
            is_noninline: self.is_noninline,
        }
    }
}

impl DeepView for DbdField {
    type V = DbdFieldView;

    open spec fn deep_view(&self) -> DbdFieldView {
        self.view()
    }
}

/// The build blocks that were collected for the target, with their fields.
#[derive(Debug, Clone)]
pub struct DbdBuild {
    pub versions: Vec<GameBuildSpec>,
    pub fields: Vec<DbdField>,
}

/// A parsed definition: the declared columns and the field list selected
/// for the target build. Columns are keyed by their name with trailing
/// `?` stripped, and the keys are unique.
#[derive(Debug, Clone)]
pub struct DbdFile {
    pub columns: Vec<DbdColumn>,
    pub build: DbdBuild,
}

/// A column name with every trailing `?` removed: the key it is indexed
/// under.
pub open spec fn strip_query(s: Seq<char>) -> Seq<char>
    decreases s.len(),
{
    if s.len() > 0 && s.last() == '?' {
        strip_query(s.drop_last())
    } else {
        s
    }
}

/// Removes every trailing `?` from a character slice, returning the new
/// end bound.
pub fn strip_query_bound(s: &[char], to: usize) -> (r: usize)
    requires
        to <= s@.len(),
    ensures
        r <= to,
        s@.subrange(0, r as int) =~= strip_query(s@.subrange(0, to as int)),
    decreases to,
{
    if to > 0 && s[to - 1] == '?' {
        proof {
            assert(s@.subrange(0, to as int).drop_last() =~= s@.subrange(0, to - 1));
        }
        strip_query_bound(s, to - 1)
    } else {
        to
    }
}

/// Index of the first column whose stripped name is `key`, or `-1`.
pub open spec fn col_index(columns: Seq<DbdColumnView>, key: Seq<char>) -> int
    decreases columns.len(),
{
    if columns.len() == 0 {
        -1
    } else if strip_query(columns[0].name) == key {
        0
    } else {
        let r = col_index(columns.drop_first(), key);
        if r == -1 {
            -1
        } else {
            r + 1
        }
    }
}

/// What [`col_index`] returns: the first matching position, if any.
pub proof fn lemma_col_index(columns: Seq<DbdColumnView>, key: Seq<char>)
    ensures
        col_index(columns, key) == -1 ==> (forall|i: int|
            0 <= i < columns.len() ==> strip_query(#[trigger] columns[i].name) != key),
        col_index(columns, key) != -1 ==> 0 <= col_index(columns, key) < columns.len()
            && strip_query(columns[col_index(columns, key)].name) == key,
    decreases columns.len(),
{
    if columns.len() > 0 && strip_query(columns[0].name) != key {
        lemma_col_index(columns.drop_first(), key);
        if col_index(columns, key) == -1 {
            assert forall|i: int| 0 <= i < columns.len() implies strip_query(
                #[trigger] columns[i].name,
            ) != key by {
                if i > 0 {
                    assert(columns.drop_first()[i - 1] == columns[i]);
                }
            }
        } else {
            assert(columns.drop_first()[col_index(columns, key) - 1] == columns[col_index(
                columns,
                key,
            )]);
        }
    }
}

impl DbdFile {
    /// The position of the column that `name` (a field name) refers to:
    /// the first column whose stripped name equals `name`.
    pub fn find_column(&self, name: &str) -> (r: Option<usize>)
        ensures
            match r {
                Some(i) => col_index(self.columns.deep_view(), name@) == i as int,
                None => col_index(self.columns.deep_view(), name@) == -1,
            },
    {
        let key = crate::text::str_chars(name);
        let n = self.columns.len();
        let mut i: usize = 0;
        while i < n
            invariant
                0 <= i <= n,
                n == self.columns@.len(),
                key@ == name@,
                forall|j: int|
                    0 <= j < i ==> strip_query(
                        #[trigger] self.columns.deep_view()[j].name,
                    ) != name@,
            decreases n - i,
        {
            let cname = crate::text::str_chars(self.columns[i].name.as_str());
            let cs = cname.as_slice();
            let stripped = strip_query_bound(cs, cname.len());
            proof {
                assert(cs@.subrange(0, cs@.len() as int) =~= cs@);
                assert(self.columns.deep_view()[i as int].name == self.columns@[i as int]@.name);
            }
            if crate::text::chars_eq(&cs[0..stripped], key.as_slice()) {
                proof {
                    lemma_col_index_at(self.columns.deep_view(), name@, i as int);
                }
                return Some(i);
            }
            i += 1;
        }
        proof {
            lemma_col_index_none(self.columns.deep_view(), name@);
        }
        None
    }
}

/// A position whose stripped name matches, with none before it, is what
/// [`col_index`] returns.
pub proof fn lemma_col_index_at(columns: Seq<DbdColumnView>, key: Seq<char>, i: int)
    requires
        0 <= i < columns.len(),
        strip_query(columns[i].name) == key,
        forall|j: int| 0 <= j < i ==> strip_query(#[trigger] columns[j].name) != key,
    ensures
        col_index(columns, key) == i,
    decreases i,
{
    if i > 0 {
        assert forall|j: int| 0 <= j < i - 1 implies strip_query(
            #[trigger] columns.drop_first()[j].name,
        ) != key by {
            assert(columns.drop_first()[j] == columns[j + 1]);
        }
        assert(columns.drop_first()[i - 1] == columns[i]);
        lemma_col_index_at(columns.drop_first(), key, i - 1);
    }
}

/// When no stripped name matches, [`col_index`] reports absence.
pub proof fn lemma_col_index_none(columns: Seq<DbdColumnView>, key: Seq<char>)
    requires
        forall|j: int| 0 <= j < columns.len() ==> strip_query(#[trigger] columns[j].name) != key,
    ensures
        col_index(columns, key) == -1,
    decreases columns.len(),
{
    if columns.len() > 0 {
        assert forall|j: int| 0 <= j < columns.drop_first().len() implies strip_query(
            #[trigger] columns.drop_first()[j].name,
        ) != key by {
            assert(columns.drop_first()[j] == columns[j + 1]);
        }
        lemma_col_index_none(columns.drop_first(), key);
    }
}


// ---------------------------------------------------------------------------
// Parsing one column line
// ---------------------------------------------------------------------------

/// Reads a size token from a character slice.
pub fn parse_type_size_chars(s: &[char]) -> (r: TypeSize)
    ensures
        r == spec_parse_type_size(s@),
{
    if chars_eq_lit(s, "8") {
        TypeSize::Int8
    } else if chars_eq_lit(s, "u8") {
        TypeSize::UInt8
    } else if chars_eq_lit(s, "16") {
        TypeSize::Int16
    } else if chars_eq_lit(s, "u16") {
        TypeSize::UInt16
    } else if chars_eq_lit(s, "32") {
        TypeSize::Int32
    } else if chars_eq_lit(s, "u32") {
        TypeSize::UInt32
    } else if chars_eq_lit(s, "64") {
        TypeSize::Int64
    } else if chars_eq_lit(s, "u64") {
        TypeSize::UInt64
    } else {
        TypeSize::Unspecified
    }
}

/// Splits a column's first token into the base type and the optional
/// foreign key written as `Base<Table::Field>`.
pub open spec fn split_fk_spec(head: Seq<char>) -> (Seq<char>, Option<ForeignKeyView>) {
    let a = find_char(head, '<');
    if a == -1 {
        (head, None)
    } else {
        let b = find_char(head, '>');
        if b >= a + 1 {
            let fks = head.subrange(a + 1, b);
            let p = find_pair(fks, ':', ':');
            let fk = if p >= 0 {
                Some(
                    ForeignKeyView {
                        table: fks.subrange(0, p),
                        field: fks.subrange(p + 2, fks.len() as int),
                    },
                )
            } else {
                None
            };
            (head.subrange(0, a), fk)
        } else {
            (head, None)
        }
    }
}

/// What parsing a column line yields: the first token gives the base type
/// and optional foreign key; the rest, with a trailing `?` marking an
/// optional column and an optional `//` comment stripped, gives the name.
/// A line without a space declares nothing.
pub open spec fn spec_parse_column_line(line: Seq<char>) -> Option<DbdColumnView> {
    let sp = find_char(line, ' ');
    if sp == -1 {
        None
    } else {
        let head = line.subrange(0, sp);
        let rest = line.subrange(sp + 1, line.len() as int);
        let btfk = split_fk_spec(head);
        let r1 = trim_end_spec(rest);
        let is_opt = r1.len() > 0 && r1.last() == '?';
        let r2 = if is_opt {
            strip_query(r1)
        } else {
            r1
        };
        let cpos = find_pair(r2, '/', '/');
        let name = if cpos >= 0 {
            trim_spec(r2.subrange(0, cpos))
        } else {
            trim_spec(r2)
        };
        let comment = if cpos >= 0 {
            Some(trim_spec(r2.subrange(cpos + 2, r2.len() as int)))
        } else {
            None
        };
        Some(
            DbdColumnView {
                name,
                base_type: btfk.0,
                foreign_key: btfk.1,
                comment,
                is_optional: is_opt,
            },
        )
    }
}

/// Parses one line of the `COLUMNS` section from a character slice.
pub fn parse_column_chars(line: &[char]) -> (r: Option<DbdColumn>)
    ensures
        match r {
            Some(c) => spec_parse_column_line(line@) == Some(c@),
            None => spec_parse_column_line(line@) is None,
        },
{
    let n = line.len();
    let sp = match crate::text::find_char_in(line, ' ') {
        Some(i) => i,
        None => {
            return None;
        },
    };
    proof {
        crate::text::lemma_find_char(line@, ' ');
        assert(sp < n);
    }
    let head = &line[0..sp];
    let rest = &line[sp + 1..n];
    let (bt_from, bt_to, fk): (usize, usize, Option<ForeignKey>) = match crate::text::find_char_in(
        head,
        '<',
    ) {
        Some(a) => {
            proof {
                crate::text::lemma_find_char(head@, '<');
            }
            match crate::text::find_char_in(head, '>') {
                Some(b) if b >= a + 1 => {
                    proof {
                        crate::text::lemma_find_char(head@, '>');
                    }
                    let fks = &head[a + 1..b];
                    let fk = match crate::text::find_pair_in(fks, ':', ':') {
                        Some(q) => {
                            proof {
                                crate::text::lemma_find_pair(fks@, ':', ':');
                            }
                            Some(
                                ForeignKey {
                                    table: crate::text::chars_to_string(fks, 0, q),
                                    field: crate::text::chars_to_string(fks, q + 2, fks.len()),
                                },
                            )
                        },
                        None => None,
                    };
                    (0usize, a, fk)
                },
                _ => (0usize, head.len(), None),
            }
        },
        None => (0usize, head.len(), None),
    };
    let r1 = crate::text::trim_end_bound(rest);
    let is_opt = r1 > 0 && rest[r1 - 1] == '?';
    proof {
        if r1 > 0 {
            assert(rest@.subrange(0, r1 as int).last() == rest@[r1 - 1]);
        }
    }
    let r2 = if is_opt {
        strip_query_bound(rest, r1)
    } else {
        r1
    };
    let sub = &rest[0..r2];
    let (nm, cm): (String, Option<String>) = match crate::text::find_pair_in(sub, '/', '/') {
        Some(q) => {
            proof {
                crate::text::lemma_find_pair(sub@, '/', '/');
            }
            let name_part = &sub[0..q];
            let (nf, nt) = crate::text::trim_bounds(name_part);
            let comment_part = &sub[q + 2..sub.len()];
            let (cf, ct) = crate::text::trim_bounds(comment_part);
            (
                crate::text::chars_to_string(name_part, nf, nt),
                Some(crate::text::chars_to_string(comment_part, cf, ct)),
            )
        },
        None => {
            let (nf, nt) = crate::text::trim_bounds(sub);
            (crate::text::chars_to_string(sub, nf, nt), None)
        },
    };
    let col = DbdColumn {
        name: nm,
        base_type: crate::text::chars_to_string(head, bt_from, bt_to),
        foreign_key: fk,
        comment: cm,
        is_optional: is_opt,
    };
    proof {
        assert(head@ =~= line@.subrange(0, sp as int));
        assert(rest@ =~= line@.subrange(sp + 1, line@.len() as int));
        assert(spec_parse_column_line(line@) == Some(col@));
    }
    Some(col)
}

/// Parses one line of the `COLUMNS` section.
pub fn parse_column_line(line: &str) -> (r: Option<DbdColumn>)
    ensures
        match r {
            Some(c) => spec_parse_column_line(line@) == Some(c@),
            None => spec_parse_column_line(line@) is None,
        },
{
    let cs = crate::text::str_chars(line);
    parse_column_chars(cs.as_slice())
}

// ---------------------------------------------------------------------------
// Parsing one field line
// ---------------------------------------------------------------------------

/// Strips the optional leading marker of a field line, yielding the rest
/// of the line and the key, relation and non-inline flags.
pub open spec fn marker_split(line: Seq<char>) -> (Seq<char>, bool, bool, bool) {
    if crate::text::has_prefix(line, "$id$"@) {
        (line.subrange("$id$"@.len() as int, line.len() as int), true, false, false)
    } else if crate::text::has_prefix(line, "$noninline,id$"@) {
        (line.subrange("$noninline,id$"@.len() as int, line.len() as int), true, false, true)
    } else if crate::text::has_prefix(line, "$relation$"@) {
        (line.subrange("$relation$"@.len() as int, line.len() as int), false, true, false)
    } else {
        (line, false, false, false)
    }
}

/// Removes a well-formed `[K]` array suffix, yielding the line without it,
/// whether one was present, and its parsed arity.
pub open spec fn array_split(l: Seq<char>) -> (Seq<char>, bool, Option<usize>) {
    let p = find_char(l, '[');
    let q = find_char(l, ']');
    if p >= 0 && q >= p + 1 {
        (
            l.subrange(0, p) + l.subrange(q + 1, l.len() as int),
            true,
            match parse_u32_spec(l.subrange(p + 1, q)) {
                Some(v) => Some(v as usize),
                None => None,
            },
        )
    } else {
        (l, false, None)
    }
}

/// What parsing a field line yields: an optional marker, the column name,
/// an optional `<N>` type size, an optional `[K]` array suffix, and any
/// trailing tokens after the first space discarded.
pub open spec fn spec_parse_field_line(line: Seq<char>) -> DbdFieldView {
    let m = marker_split(line);
    let arr = array_split(m.0);
    let base = arr.0;
    let a = find_char(base, '<');
    let named: (Seq<char>, TypeSize) = if a >= 0 {
        let b = find_char(base, '>');
        (
            base.subrange(0, a),
            if b >= a + 1 {
                spec_parse_type_size(base.subrange(a + 1, b))
            } else {
                TypeSize::Unspecified
            },
        )
    } else {
        (trim_spec(base), TypeSize::Unspecified)
    };
    let spx = find_char(named.0, ' ');
    let nm = if spx >= 0 {
        named.0.subrange(0, spx)
    } else {
        named.0
    };
    DbdFieldView {
        name: nm,
        type_size: named.1,
        is_array: arr.1,
        array_size: arr.2,
        is_key: m.1,
        is_relation: m.2,
        is_noninline: m.3,
    }
}

/// Parses one field line of a build block from a character slice.
#[verifier::rlimit(60)]
pub fn parse_field_chars(line: &[char]) -> (r: DbdField)
    ensures
        r@ == spec_parse_field_line(line@),
{
    let kw_id = crate::text::str_chars("$id$");
    let kw_nid = crate::text::str_chars("$noninline,id$");
    let kw_rel = crate::text::str_chars("$relation$");
    let mut is_key = false;
    let mut is_relation = false;
    let mut is_noninline = false;
    let mstart: usize;
    if crate::text::starts_with_chars(line, kw_id.as_slice()) {
        is_key = true;
        mstart = kw_id.len();
    } else if crate::text::starts_with_chars(line, kw_nid.as_slice()) {
        is_key = true;
        is_noninline = true;
        mstart = kw_nid.len();
    } else if crate::text::starts_with_chars(line, kw_rel.as_slice()) {
        is_relation = true;
        mstart = kw_rel.len();
    } else {
        mstart = 0;
    }
    let l1 = &line[mstart..line.len()];
    proof {
        assert(l1@ =~= marker_split(line@).0);
    }
    let mut is_array = false;
    let mut array_size: Option<usize> = None;
    let base: Vec<char> = match crate::text::find_char_in(l1, '[') {
        Some(p) => {
            proof {
                crate::text::lemma_find_char(l1@, '[');
            }
            match crate::text::find_char_in(l1, ']') {
                Some(q) if q >= p + 1 => {
                    proof {
                        crate::text::lemma_find_char(l1@, ']');
                    }
                    is_array = true;
                    array_size = match crate::game_build::parse_u32_chars(&l1[p + 1..q]) {
                        Some(v) => Some(v as usize),
                        None => None,
                    };
                    let mut b = crate::text::chars_to_vec(l1, 0, p);
                    let mut tail = crate::text::chars_to_vec(l1, q + 1, l1.len());
                    b.append(&mut tail);
                    b
                },
                _ => crate::text::chars_to_vec(l1, 0, l1.len()),
            }
        },
        None => crate::text::chars_to_vec(l1, 0, l1.len()),
    };
    proof {
        assert(base@ =~= array_split(marker_split(line@).0).0);
        assert(is_array == array_split(marker_split(line@).0).1);
        assert(array_size == array_split(marker_split(line@).0).2);
    }
    let bs = base.as_slice();
    let mut type_size = TypeSize::Unspecified;
    let (nm_from, nm_to): (usize, usize) = match crate::text::find_char_in(bs, '<') {
        Some(a) => {
            proof {
                crate::text::lemma_find_char(bs@, '<');
            }
            match crate::text::find_char_in(bs, '>') {
                Some(b) if b >= a + 1 => {
                    proof {
                        crate::text::lemma_find_char(bs@, '>');
                    }
                    type_size = parse_type_size_chars(&bs[a + 1..b]);
                },
                _ => {},
            }
            (0usize, a)
        },
        None => crate::text::trim_bounds(bs),
    };
    let nm_slice = &bs[nm_from..nm_to];
    let name: String = match crate::text::find_char_in(nm_slice, ' ') {
        Some(idx) => {
            proof {
                crate::text::lemma_find_char(nm_slice@, ' ');
            }
            crate::text::chars_to_string(nm_slice, 0, idx)
        },
        None => crate::text::chars_to_string(nm_slice, 0, nm_slice.len()),
    };
    let f = DbdField { name, type_size, is_array, array_size, is_key, is_relation, is_noninline };
    proof {
        assert(f@ =~= spec_parse_field_line(line@));
    }
    f
}

/// Parses one field line of a build block.
pub fn parse_field_line(line: &str) -> (r: DbdField)
    ensures
        r@ == spec_parse_field_line(line@),
{
    let cs = crate::text::str_chars(line);
    parse_field_chars(cs.as_slice())
}


// ---------------------------------------------------------------------------
// Splitting on a two-character separator
// ---------------------------------------------------------------------------

/// The pieces of `s` between occurrences of the adjacent pair `c0 c1`.
pub open spec fn split_pair_seq(s: Seq<char>, c0: char, c1: char) -> Seq<Seq<char>>
    decreases s.len(),
{
    let i = find_pair(s, c0, c1);
    if 0 <= i < s.len() - 1 {
        seq![s.subrange(0, i)] + split_pair_seq(s.subrange(i + 2, s.len() as int), c0, c1)
    } else {
        seq![s]
    }
}

/// Splits a character slice on every occurrence of the pair `c0 c1`.
pub fn split_pair_in(s: &[char], c0: char, c1: char) -> (r: Vec<Vec<char>>)
    ensures
        r.deep_view() == split_pair_seq(s@, c0, c1),
    decreases s@.len(),
{
    let n = s.len();
    match crate::text::find_pair_in(s, c0, c1) {
        Some(i) => {
            proof {
                crate::text::lemma_find_pair(s@, c0, c1);
            }
            let head = crate::text::chars_to_vec(s, 0, i);
            let mut rest = split_pair_in(&s[i + 2..n], c0, c1);
            let mut r: Vec<Vec<char>> = Vec::new();
            r.push(head);
            r.append(&mut rest);
            proof {
                assert(r.deep_view() =~~= split_pair_seq(s@, c0, c1));
            }
            r
        },
        None => {
            let whole = crate::text::chars_to_vec(s, 0, n);
            let mut r: Vec<Vec<char>> = Vec::new();
            r.push(whole);
            proof {
                assert(r.deep_view() =~~= split_pair_seq(s@, c0, c1));
            }
            r
        },
    }
}

// ---------------------------------------------------------------------------
// One BUILD line
// ---------------------------------------------------------------------------

/// Reads the comma-separated specifications of one `BUILD` line: each is a
/// single build or an inclusive `lo-hi` range. Yields the specifications
/// and whether any of them covers the target; a malformed build number
/// yields nothing.
pub open spec fn scan_specs(parts: Seq<Seq<char>>, target: GameBuild) -> Option<
    (Seq<GameBuildSpec>, bool),
>
    decreases parts.len(),
{
    if parts.len() == 0 {
        Some((Seq::empty(), false))
    } else {
        let part = parts[0];
        let d = find_char(part, '-');
        let head: Option<(GameBuildSpec, bool)> = if d >= 0 {
            let a = parse_build_spec(part.subrange(0, d));
            let b = parse_build_spec(part.subrange(d + 1, part.len() as int));
            if a is Some && b is Some {
                Some(
                    (
                        GameBuildSpec::Range((a->Some_0, b->Some_0)),
                        build_le(a->Some_0, target) && build_le(target, b->Some_0),
                    ),
                )
            } else {
                None
            }
        } else {
            let a = parse_build_spec(part);
            if a is Some {
                Some((GameBuildSpec::Single(a->Some_0), a->Some_0 == target))
            } else {
                None
            }
        };
        match head {
            None => None,
            Some(h) => match scan_specs(parts.drop_first(), target) {
                None => None,
                Some(rest) => Some((seq![h.0] + rest.0, h.1 || rest.1)),
            },
        }
    }
}

/// A `BUILD` line's matched flag holds exactly when one of its
/// collected specifications covers the target: a single build by
/// equality, a range inclusively at both ends.
pub proof fn lemma_scan_specs_matched(parts: Seq<Seq<char>>, target: GameBuild)
    requires
        scan_specs(parts, target) is Some,
    ensures
        ({
            let (specs, matched) = scan_specs(parts, target)->Some_0;
            matched <==> exists|i: int|
                0 <= i < specs.len() && (#[trigger] specs[i]).spec_matches(target)
        }),
    decreases parts.len(),
{
    if parts.len() > 0 {
        lemma_scan_specs_matched(parts.drop_first(), target);
        let (specs, matched) = scan_specs(parts, target)->Some_0;
        let (ss, ms) = scan_specs(parts.drop_first(), target)->Some_0;
        assert(specs =~= seq![specs[0]] + ss);
        if matched {
            if ms {
                let j = choose|j: int| 0 <= j < ss.len() && (#[trigger] ss[j]).spec_matches(
                    target,
                );
                assert(specs[j + 1] == ss[j]);
                assert((specs[j + 1]).spec_matches(target));
            } else {
                assert((specs[0]).spec_matches(target));
            }
        }
        if exists|i: int| 0 <= i < specs.len() && (#[trigger] specs[i]).spec_matches(target) {
            let i = choose|i: int|
                0 <= i < specs.len() && (#[trigger] specs[i]).spec_matches(target);
            if i > 0 {
                assert(ss[i - 1] == specs[i]);
                assert((ss[i - 1]).spec_matches(target));
            }
        }
    }
}

/// Reads the specifications of one `BUILD` line from parsed pieces.
pub fn scan_specs_in(parts: &[Vec<char>], target: &GameBuild) -> (r: Option<
    (Vec<GameBuildSpec>, bool),
>)
    ensures
        match r {
            Some(t) => scan_specs(parts.deep_view(), *target) == Some((t.0@, t.1)),
            None => scan_specs(parts.deep_view(), *target) is None,
        },
    decreases parts@.len(),
{
    let np = parts.len();
    if np == 0 {
        return Some((Vec::new(), false));
    }
    let part = parts[0].as_slice();
    proof {
        assert(part@ == parts.deep_view()[0]);
    }
    let n = part.len();
    let head: (GameBuildSpec, bool) = match crate::text::find_char_in(part, '-') {
        Some(d) => {
            proof {
                crate::text::lemma_find_char(part@, '-');
            }
            let a = match crate::game_build::parse_build_chars(&part[0..d]) {
                Some(x) => x,
                None => {
                    return None;
                },
            };
            let b = match crate::game_build::parse_build_chars(&part[d + 1..n]) {
                Some(x) => x,
                None => {
                    return None;
                },
            };
            (GameBuildSpec::Range((a, b)), a.le(target) && target.le(&b))
        },
        None => {
            match crate::game_build::parse_build_chars(part) {
                Some(x) => (GameBuildSpec::Single(x), x == *target),
                None => {
                    return None;
                },
            }
        },
    };
    let rest_sl = &parts[1..np];
    proof {
        assert(rest_sl.deep_view() =~~= parts.deep_view().drop_first());
    }
    match scan_specs_in(rest_sl, target) {
        Some((mut vs, m)) => {
            let mut r: Vec<GameBuildSpec> = Vec::new();
            r.push(head.0);
            r.append(&mut vs);
            proof {
                assert(r@ =~= seq![head.0] + scan_specs(
                    parts.deep_view().drop_first(),
                    *target,
                )->Some_0.0);
            }
            Some((r, head.1 || m))
        },
        None => None,
    }
}

// ---------------------------------------------------------------------------
// The line scanner
// ---------------------------------------------------------------------------

/// The scanner's state after some prefix of a definition's lines.
#[verifier::ext_equal]
pub struct DbdScan {
    /// Columns collected so far, keyed by stripped name.
    pub columns: Seq<DbdColumnView>,
    /// Current section: none, `COLUMNS`, or a build block.
    pub section: int,
    /// 0 before a covering block, 1 inside its header, 2 at its fields.
    pub build_state: int,
    /// Build specifications collected since the last reset.
    pub versions: Seq<GameBuildSpec>,
    /// Fields of the selected block.
    pub fields: Seq<DbdFieldView>,
    /// A build specification failed to parse.
    pub failed: bool,
    /// The scan stopped after the selected block.
    pub done: bool,
}

/// The scanner's state before any line.
pub open spec fn scan_init() -> DbdScan {
    DbdScan {
        columns: Seq::empty(),
        section: 0,
        build_state: 0,
        versions: Seq::empty(),
        fields: Seq::empty(),
        failed: false,
        done: false,
    }
}

/// Inserts a parsed column under its stripped name, replacing an existing
/// column with the same key.
pub open spec fn upsert_column(columns: Seq<DbdColumnView>, cv: DbdColumnView) -> Seq<
    DbdColumnView,
> {
    let i = col_index(columns, strip_query(cv.name));
    if i >= 0 {
        columns.update(i, cv)
    } else {
        columns.push(cv)
    }
}

/// One step of the scanner: how one (yet untrimmed) line changes the
/// state. Empty lines and `COMMENT` lines are skipped; `COLUMNS` and
/// `BUILD` open their sections; a `BUILD` or `LAYOUT` line after the
/// selected block's fields stops the scan; field lines of a block that
/// does not cover the target reset the collected specifications.
pub open spec fn scan_step(st: DbdScan, raw: Seq<char>, target: GameBuild) -> DbdScan {
    let line = trim_spec(raw);
    if st.done || st.failed {
        st
    } else if line.len() == 0 {
        st
    } else if line == "COLUMNS"@ {
        DbdScan { section: 1, ..st }
    } else if crate::text::has_prefix(line, "BUILD "@) {
        if st.build_state == 2 {
            DbdScan { done: true, ..st }
        } else {
            let stripped = line.subrange("BUILD "@.len() as int, line.len() as int);
            let parts = split_pair_seq(stripped, ',', ' ');
            match scan_specs(parts, target) {
                None => DbdScan { failed: true, ..st },
                Some(t) => DbdScan {
                    section: 2,
                    versions: st.versions + t.0,
                    build_state: if t.1 {
                        1
                    } else {
                        st.build_state
                    },
                    ..st
                },
            }
        }
    } else if crate::text::has_prefix(line, "LAYOUT "@) {
        if st.build_state == 2 {
            DbdScan { done: true, ..st }
        } else {
            st
        }
    } else if crate::text::has_prefix(line, "COMMENT "@) {
        st
    } else if st.section == 1 {
        match spec_parse_column_line(line) {
            Some(cv) => DbdScan { columns: upsert_column(st.columns, cv), ..st },
            None => st,
        }
    } else if st.section == 2 && st.build_state >= 1 {
        DbdScan { build_state: 2, fields: st.fields.push(spec_parse_field_line(line)), ..st }
    } else {
        DbdScan { versions: Seq::empty(), ..st }
    }
}

/// The scanner's state after all the lines.
pub open spec fn scan_lines(lines: Seq<Seq<char>>, target: GameBuild) -> DbdScan
    decreases lines.len(),
{
    if lines.len() == 0 {
        scan_init()
    } else {
        scan_step(scan_lines(lines.drop_last(), target), lines.last(), target)
    }
}

/// Once the scanner has failed or stopped, later lines change nothing.
pub proof fn lemma_scan_frozen(lines: Seq<Seq<char>>, target: GameBuild, i: int)
    requires
        0 <= i <= lines.len(),
        scan_lines(lines.take(i), target).failed || scan_lines(lines.take(i), target).done,
    ensures
        scan_lines(lines, target) == scan_lines(lines.take(i), target),
    decreases lines.len(),
{
    if i < lines.len() {
        assert(lines.drop_last().take(i) =~= lines.take(i));
        lemma_scan_frozen(lines.drop_last(), target, i);
    } else {
        assert(lines.take(i) =~= lines);
    }
}

/// Inserts a column into the vector under its stripped name, replacing an
/// existing column with the same key.
fn upsert_column_in(columns: &mut Vec<DbdColumn>, col: DbdColumn)
    ensures
        final (columns).deep_view() == upsert_column(old(columns).deep_view(), col@),
{
    let cn = crate::text::str_chars(col.name.as_str());
    let kb = strip_query_bound(cn.as_slice(), cn.len());
    proof {
        assert(cn@.subrange(0, cn@.len() as int) =~= cn@);
    }
    let key = &cn.as_slice()[0..kb];
    let n = columns.len();
    let mut i: usize = 0;
    while i < n
        invariant
            0 <= i <= n,
            n == columns@.len(),
            *columns == *old(columns),
            cn@ == col@.name,
            key@ =~= strip_query(col@.name),
            forall|j: int|
                0 <= j < i ==> strip_query(#[trigger] columns.deep_view()[j].name) != strip_query(
                    col@.name,
                ),
        decreases n - i,
    {
        let cni = crate::text::str_chars(columns[i].name.as_str());
        let kbi = strip_query_bound(cni.as_slice(), cni.len());
        proof {
            assert(cni@.subrange(0, cni@.len() as int) =~= cni@);
            assert(columns.deep_view()[i as int].name == columns@[i as int]@.name);
        }
        if crate::text::chars_eq(&cni.as_slice()[0..kbi], key) {
            proof {
                lemma_col_index_at(columns.deep_view(), strip_query(col@.name), i as int);
            }
            columns.set(i, col);
            proof {
                assert(columns.deep_view() =~~= upsert_column(old(columns).deep_view(), col@));
            }
            return ;
        }
        i += 1;
    }
    proof {
        lemma_col_index_none(columns.deep_view(), strip_query(col@.name));
    }
    columns.push(col);
    proof {
        assert(columns.deep_view() =~~= upsert_column(old(columns).deep_view(), col@));
    }
}

// ---------------------------------------------------------------------------
// The whole definition
// ---------------------------------------------------------------------------

/// Parses a definition text against the target build: collects the
/// declared columns, selects the field lines of the first build block
/// covering the target, and stops scanning at the block after it.
///
/// A malformed build number in a `BUILD` line is a hard error; a text
/// whose scan selects no fields reports that no block covered the target.
pub fn parse_dbd_content(game_build: &GameBuild, content: &str) -> (r: Result<DbdFile, Error>)
    ensures
        ({
            let st = scan_lines(split_char(content@, '\n'), *game_build);
            &&& (r is Ok <==> (!st.failed && st.fields.len() > 0))
            &&& (r is Ok ==> r->Ok_0.columns.deep_view() == st.columns
                && r->Ok_0.build.versions@ == st.versions && r->Ok_0.build.fields.deep_view()
                == st.fields)
            &&& (r is Err && st.failed ==> r->Err_0 is GenericError)
            &&& (r is Err && !st.failed ==> r->Err_0 is NoFieldsForBuild)
        }),
{
    let cs = crate::text::str_chars(content);
    let lines = crate::game_build::split_char_in(cs.as_slice(), '\n');
    let ghost lseq = split_char(content@, '\n');
    let mut columns: Vec<DbdColumn> = Vec::new();
    let mut section: u8 = 0;
    let mut build_state: u8 = 0;
    let mut versions: Vec<GameBuildSpec> = Vec::new();
    let mut fields: Vec<DbdField> = Vec::new();
    let kw_columns = crate::text::str_chars("COLUMNS");
    let kw_build = crate::text::str_chars("BUILD ");
    let kw_layout = crate::text::str_chars("LAYOUT ");
    let kw_comment = crate::text::str_chars("COMMENT ");
    let nlines = lines.len();
    let mut li: usize = 0;
    let mut done = false;
    while li < nlines && !done
        invariant
            0 <= li <= nlines,
            nlines == lines@.len(),
            lines.deep_view() == lseq,
            lseq == split_char(content@, '\n'),
            kw_columns@ == "COLUMNS"@,
            kw_build@ == "BUILD "@,
            kw_layout@ == "LAYOUT "@,
            kw_comment@ == "COMMENT "@,
            ({
                let st = scan_lines(lseq.take(li as int), *game_build);
                &&& !st.failed
                &&& st.done == done
                &&& st.columns == columns.deep_view()
                &&& st.section == section as int
                &&& st.build_state == build_state as int
                &&& st.versions == versions@
                &&& st.fields == fields.deep_view()
            }),
        decreases nlines - li,
    {
        let ghost st0 = scan_lines(lseq.take(li as int), *game_build);
        let ghost st1 = scan_step(st0, lseq[li as int], *game_build);
        proof {
            assert(lseq.take(li + 1).drop_last() =~= lseq.take(li as int));
            assert(lseq.take(li + 1).last() == lseq[li as int]);
            assert(scan_lines(lseq.take(li + 1), *game_build) == st1);
            assert(lines.deep_view()[li as int] == lines@[li as int]@);
        }
        let lraw = lines[li].as_slice();
        let (tf, tt) = crate::text::trim_bounds(lraw);
        let lt = &lraw[tf..tt];
        proof {
            assert(lt@ =~= trim_spec(lseq[li as int]));
        }
        if lt.len() == 0 {
            // an empty line separates sections and is skipped
        } else if crate::text::chars_eq(lt, kw_columns.as_slice()) {
            section = 1;
        } else if crate::text::starts_with_chars(lt, kw_build.as_slice()) {
            if build_state == 2 {
                done = true;
            } else {
                let ltn = lt.len();
                let stripped = &lt[kw_build.len()..ltn];
                let parts = split_pair_in(stripped, ',', ' ');
                let ps = parts.as_slice();
                proof {
                    assert(ps.deep_view() =~~= parts.deep_view());
                }
                match scan_specs_in(ps, game_build) {
                    Some((mut vs, m)) => {
                        section = 2;
                        versions.append(&mut vs);
                        if m {
                            build_state = 1;
                        }
                    },
                    None => {
                        proof {
                            assert(st1.failed);
                            lemma_scan_frozen(lseq, *game_build, li + 1);
                        }
                        return Err(
                            Error::GenericError(
                                String::from_str("can't parse build specification"),
                            ),
                        );
                    },
                }
            }
        } else if crate::text::starts_with_chars(lt, kw_layout.as_slice()) {
            if build_state == 2 {
                done = true;
            }
        } else if crate::text::starts_with_chars(lt, kw_comment.as_slice()) {
            // header line of a block, skipped
        } else if section == 1 {
            match parse_column_chars(lt) {
                Some(col) => {
                    upsert_column_in(&mut columns, col);
                },
                None => {},
            }
        } else if section == 2 && build_state >= 1 {
            build_state = 2;
            let f = parse_field_chars(lt);
            fields.push(f);
            proof {
                assert(fields.deep_view() =~~= st1.fields);
            }
        } else {
            versions = Vec::new();
        }
        li += 1;
        proof {
            assert(scan_lines(lseq.take(li as int), *game_build) == st1);
            assert(st1.columns =~~= columns.deep_view());
            assert(st1.versions =~= versions@);
            assert(st1.fields =~~= fields.deep_view());
        }
    }
    proof {
        if done {
            lemma_scan_frozen(lseq, *game_build, li as int);
        } else {
            assert(lseq.take(li as int) =~= lseq);
        }
    }
    if fields.len() == 0 {
        return Err(Error::NoFieldsForBuild);
    }
    Ok(DbdFile { columns, build: DbdBuild { versions, fields } })
}

} // verus!
