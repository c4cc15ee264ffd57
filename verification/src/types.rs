use vstd::prelude::*;

verus! {

/// A record key: the value of a primary-key column.
pub type Key = u32;

/// A 32-bit byte offset into the string block.
#[derive(Debug, Clone, Copy, PartialEq, Eq, Structural)]
pub struct StringRef(pub u32);

impl StringRef {
    /// A reference to the string starting at `offset`.
    pub fn new(offset: u32) -> (r: Self)
        ensures
            r.0 == offset,
    {
        Self(offset)
    }

    /// The byte offset this reference points at.
    pub fn offset(&self) -> (r: u32)
        ensures
            r == self.0,
    {
        self.0
    }
}

/// A decoded field value.
///
/// A `Float32` carries the raw bits of the 32-bit IEEE 754 value read
/// from the wire; callers that need the numeric value reinterpret the
/// bits. A `String` carries the resolved text, or nothing when the
/// offset matched no string start. An `Array` holds scalar values only:
/// the wire format cannot nest arrays.
#[derive(Debug)]
pub enum Value {
    Int32(i32),
    UInt32(u32),
    Float32(u32),
    String(Option<String>),
    Bool(bool),
    UInt8(u8),
    Int8(i8),
    UInt16(u16),
    Int16(i16),
    Int64(i64),
    UInt64(u64),
    Array(Vec<Value>),
}

/// Mathematical model of a [`Value`].
#[verifier::ext_equal]
pub enum ValueView {
    Int32(i32),
    UInt32(u32),
    Float32(u32),
    String(Option<Seq<char>>),
    Bool(bool),
    UInt8(u8),
    Int8(i8),
    UInt16(u16),
    Int16(i16),
    Int64(i64),
    UInt64(u64),
    Array(Seq<ValueView>),
}

/// The model of a scalar value; an array, which decoded data never
/// nests, models as an empty one.
pub open spec fn scalar_view(v: Value) -> ValueView {
    match v {
        Value::Int32(x) => ValueView::Int32(x),
        Value::UInt32(x) => ValueView::UInt32(x),
        Value::Float32(x) => ValueView::Float32(x),
        Value::String(o) => ValueView::String(
            match o {
                Some(s) => Some(s@),
                None => None,
            },
        ),
        Value::Bool(x) => ValueView::Bool(x),
        Value::UInt8(x) => ValueView::UInt8(x),
        Value::Int8(x) => ValueView::Int8(x),
        Value::UInt16(x) => ValueView::UInt16(x),
        Value::Int16(x) => ValueView::Int16(x),
        Value::Int64(x) => ValueView::Int64(x),
        Value::UInt64(x) => ValueView::UInt64(x),
        Value::Array(_) => ValueView::Array(Seq::empty()),
    }
}

impl View for Value {
    type V = ValueView;

    open spec fn view(&self) -> ValueView {
        match self {
            Value::Array(vs) => ValueView::Array(
                Seq::new(vs@.len(), |i: int| scalar_view(vs@[i])),
            ),
            _ => scalar_view(*self),
        }
    }
}

impl DeepView for Value {
    type V = ValueView;

    open spec fn deep_view(&self) -> ValueView {
        self.view()
    }
}

/// A decoded row: one value per field of the definition, in declaration
/// order.
pub type Record = Vec<Value>;

/// The effective wire type of a field.
#[derive(Debug, Clone, Copy, PartialEq, Eq, Structural)]
pub enum FieldType {
    Int32,
    UInt32,
    Float32,
    /// A 32-bit offset into the string block.
    String,
    /// A 32-bit integer read as a truth value.
    Bool,
    UInt8,
    Int8,
    UInt16,
    Int16,
    Int64,
    UInt64,
}

/// The wire width in bytes of each field type.
pub open spec fn spec_field_size(ft: FieldType) -> int {
    match ft {
        FieldType::Int32 => 4,
        FieldType::UInt32 => 4,
        FieldType::Float32 => 4,
        FieldType::String => 4,
        FieldType::Bool => 4,
        FieldType::UInt8 => 1,
        FieldType::Int8 => 1,
        FieldType::UInt16 => 2,
        FieldType::Int16 => 2,
        FieldType::Int64 => 8,
        FieldType::UInt64 => 8,
    }
}

impl FieldType {
    /// The wire width in bytes of this field type.
    pub fn size(&self) -> (r: usize)
        ensures
            r as int == spec_field_size(*self),
    {
        match self {
            FieldType::Int32 => 4,
            FieldType::UInt32 => 4,
            FieldType::Float32 => 4,
            FieldType::String => 4,
            FieldType::Bool => 4,
            FieldType::UInt8 => 1,
            FieldType::Int8 => 1,
            FieldType::UInt16 => 2,
            FieldType::Int16 => 2,
            FieldType::Int64 => 8,
            FieldType::UInt64 => 8,
        }
    }
}

/// An array value holds scalars only: what every decoded row satisfies,
/// since the wire format cannot nest arrays.
pub open spec fn value_flat(v: Value) -> bool {
    v is Array ==> forall|j: int|
        0 <= j < v->Array_0@.len() ==> !((#[trigger] v->Array_0@[j]) is Array)
}

/// Every value of the row is flat.
pub open spec fn record_flat(vs: Seq<Value>) -> bool {
    forall|i: int| 0 <= i < vs.len() ==> value_flat(#[trigger] vs[i])
}

/// The scalars of one value: an array contributes its elements, anything
/// else itself.
pub open spec fn scalars_of(v: ValueView) -> Seq<ValueView> {
    match v {
        ValueView::Array(vs) => vs,
        _ => seq![v],
    }
}

/// One row flattened: every array spread into its elements, in order.
pub open spec fn flatten_views(vs: Seq<ValueView>) -> Seq<ValueView>
    decreases vs.len(),
{
    if vs.len() == 0 {
        Seq::empty()
    } else {
        scalars_of(vs[0]) + flatten_views(vs.drop_first())
    }
}

/// An array of arity zero contributes nothing to the flattened row,
/// wherever it stands: the flattening equals that of the row without
/// it.
pub proof fn lemma_empty_array_adds_nothing(vs: Seq<ValueView>, i: int)
    requires
        0 <= i < vs.len(),
        vs[i] == ValueView::Array(Seq::empty()),
    ensures
        flatten_views(vs) == flatten_views(vs.remove(i)),
    decreases vs.len(),
{
    if i == 0 {
        assert(vs.remove(0) =~= vs.drop_first());
        assert(scalars_of(vs[0]) =~= Seq::<ValueView>::empty());
        assert(flatten_views(vs) =~= flatten_views(vs.drop_first()));
    } else {
        lemma_empty_array_adds_nothing(vs.drop_first(), i - 1);
        assert(vs.remove(i).drop_first() =~= vs.drop_first().remove(i - 1));
        assert(vs.remove(i)[0] == vs[0]);
        assert(flatten_views(vs) =~= flatten_views(vs.remove(i)));
    }
}

} // verus!
