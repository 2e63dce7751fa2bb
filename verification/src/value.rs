use vstd::prelude::*;

use crate::types::clone_opt_str;
use crate::types::opt_str_eqv;
use crate::types::td_clone;
use crate::types::td_eqv;
use crate::types::TypeDescriptor;

verus! {

/// 256-bit signed integer, represented as a high signed limb and a low
/// unsigned limb: the value is `hi * 2^128 + lo`.
#[derive(Clone, Copy, Debug, PartialEq, Eq, Structural)]
pub struct Int256 {
    pub hi: i128,
    pub lo: u128,
}

/// One typed, possibly-null value, or the untyped `Null` placeholder.
///
/// Every variant but `Null` mirrors a variant of [`TypeDescriptor`] and
/// carries its payload inside an `Option`: nullability is part of the
/// value.  Floating-point payloads are carried as their IEEE 754 bit
/// patterns, so that the value model stays within exactly representable
/// data.  List-family variants carry the element type and one row's worth
/// of nested values as a [`Column`].
#[derive(Debug, PartialEq)]
pub enum ScalarValue {
    Null,
    Boolean(Option<bool>),
    Int8(Option<i8>),
    Int16(Option<i16>),
    Int32(Option<i32>),
    Int64(Option<i64>),
    UInt8(Option<u8>),
    UInt16(Option<u16>),
    UInt32(Option<u32>),
    UInt64(Option<u64>),
    /// Bit pattern of a 16-bit IEEE 754 value.
    Float16(Option<u16>),
    /// Bit pattern of a 32-bit IEEE 754 value.
    Float32(Option<u32>),
    /// Bit pattern of a 64-bit IEEE 754 value.
    Float64(Option<u64>),
    Binary(Option<Vec<u8>>),
    LargeBinary(Option<Vec<u8>>),
    /// Declared byte length, then the payload.
    FixedSizeBinary(i32, Option<Vec<u8>>),
    /// Payload, then precision and scale.
    Decimal128(Option<i128>, u8, i8),
    Decimal256(Option<Int256>, u8, i8),
    Utf8(Option<String>),
    LargeUtf8(Option<String>),
    Date32(Option<i32>),
    Date64(Option<i64>),
    Time32Second(Option<i32>),
    Time32Millisecond(Option<i32>),
    Time64Microsecond(Option<i64>),
    Time64Nanosecond(Option<i64>),
    /// Payload, then the timezone name of the value's type.
    TimestampSecond(Option<i64>, Option<String>),
    TimestampMillisecond(Option<i64>, Option<String>),
    TimestampMicrosecond(Option<i64>, Option<String>),
    TimestampNanosecond(Option<i64>, Option<String>),
    IntervalYearMonth(Option<i32>),
    /// Days, then milliseconds.
    IntervalDayTime(Option<(i32, i32)>),
    /// Months, days, then nanoseconds.
    IntervalMonthDayNano(Option<(i32, i32, i64)>),
    DurationSecond(Option<i64>),
    DurationMillisecond(Option<i64>),
    DurationMicrosecond(Option<i64>),
    DurationNanosecond(Option<i64>),
    /// Element type, then one row's worth of nested values.
    List(Box<TypeDescriptor>, Option<Column>),
    LargeList(Box<TypeDescriptor>, Option<Column>),
    /// Element type, declared list length, then one row of nested values.
    FixedSizeList(Box<TypeDescriptor>, i32, Option<Column>),
}

/// An immutable, homogeneously typed, fixed-length sequence of scalar
/// values.  Produced by finalizing a [`crate::Builder`].
#[derive(Debug, PartialEq)]
pub struct Column {
    /// The logical type shared by every value of the column.
    pub dtype: TypeDescriptor,
    /// The values, in row order.
    pub values: Vec<ScalarValue>,
}

/// An argument to the reduction as a host engine hands it over: either a
/// single scalar standing for a whole repeated column, or a realized
/// column.
#[derive(Debug, PartialEq)]
pub enum ColumnarValue {
    Scalar(ScalarValue),
    Column(Column),
}

/// Mathematical model of a [`ScalarValue`]: byte and text payloads become
/// sequences, nested rows become sequences of models, and the element
/// types of list values are dropped (they are part of the column type,
/// not of the per-row data).
pub enum ScalarModel {
    Null,
    Boolean(Option<bool>),
    Int8(Option<i8>),
    Int16(Option<i16>),
    Int32(Option<i32>),
    Int64(Option<i64>),
    UInt8(Option<u8>),
    UInt16(Option<u16>),
    UInt32(Option<u32>),
    UInt64(Option<u64>),
    Float16(Option<u16>),
    Float32(Option<u32>),
    Float64(Option<u64>),
    Binary(Option<Seq<u8>>),
    LargeBinary(Option<Seq<u8>>),
    FixedSizeBinary(i32, Option<Seq<u8>>),
    Decimal128(Option<i128>, u8, i8),
    Decimal256(Option<Int256>, u8, i8),
    Utf8(Option<Seq<char>>),
    LargeUtf8(Option<Seq<char>>),
    Date32(Option<i32>),
    Date64(Option<i64>),
    Time32Second(Option<i32>),
    Time32Millisecond(Option<i32>),
    Time64Microsecond(Option<i64>),
    Time64Nanosecond(Option<i64>),
    TimestampSecond(Option<i64>, Option<Seq<char>>),
    TimestampMillisecond(Option<i64>, Option<Seq<char>>),
    TimestampMicrosecond(Option<i64>, Option<Seq<char>>),
    TimestampNanosecond(Option<i64>, Option<Seq<char>>),
    IntervalYearMonth(Option<i32>),
    IntervalDayTime(Option<(i32, i32)>),
    IntervalMonthDayNano(Option<(i32, i32, i64)>),
    DurationSecond(Option<i64>),
    DurationMillisecond(Option<i64>),
    DurationMicrosecond(Option<i64>),
    DurationNanosecond(Option<i64>),
    List(Option<Seq<ScalarModel>>),
    LargeList(Option<Seq<ScalarModel>>),
    FixedSizeList(Option<Seq<ScalarModel>>),
}

/// Model of an optional byte payload.
pub open spec fn obv(o: Option<Vec<u8>>) -> Option<Seq<u8>> {
    match o {
        Option::None => Option::None,
        Option::Some(b) => Option::Some(b@),
    }
}

/// Model of an optional text payload.
pub open spec fn osv(o: Option<String>) -> Option<Seq<char>> {
    match o {
        Option::None => Option::None,
        Option::Some(s) => Option::Some(s@),
    }
}

/// Model of a scalar value.
pub open spec fn sv_model(v: ScalarValue) -> ScalarModel
    decreases v,
{
    match v {
        ScalarValue::Null => ScalarModel::Null,
        ScalarValue::Boolean(o) => ScalarModel::Boolean(o),
        ScalarValue::Int8(o) => ScalarModel::Int8(o),
        ScalarValue::Int16(o) => ScalarModel::Int16(o),
        ScalarValue::Int32(o) => ScalarModel::Int32(o),
        ScalarValue::Int64(o) => ScalarModel::Int64(o),
        ScalarValue::UInt8(o) => ScalarModel::UInt8(o),
        ScalarValue::UInt16(o) => ScalarModel::UInt16(o),
        ScalarValue::UInt32(o) => ScalarModel::UInt32(o),
        ScalarValue::UInt64(o) => ScalarModel::UInt64(o),
        ScalarValue::Float16(o) => ScalarModel::Float16(o),
        ScalarValue::Float32(o) => ScalarModel::Float32(o),
        ScalarValue::Float64(o) => ScalarModel::Float64(o),
        ScalarValue::Binary(o) => ScalarModel::Binary(obv(o)),
        ScalarValue::LargeBinary(o) => ScalarModel::LargeBinary(obv(o)),
        ScalarValue::FixedSizeBinary(n, o) => ScalarModel::FixedSizeBinary(n, obv(o)),
        ScalarValue::Decimal128(o, p, s) => ScalarModel::Decimal128(o, p, s),
        ScalarValue::Decimal256(o, p, s) => ScalarModel::Decimal256(o, p, s),
        ScalarValue::Utf8(o) => ScalarModel::Utf8(osv(o)),
        ScalarValue::LargeUtf8(o) => ScalarModel::LargeUtf8(osv(o)),
        ScalarValue::Date32(o) => ScalarModel::Date32(o),
        ScalarValue::Date64(o) => ScalarModel::Date64(o),
        ScalarValue::Time32Second(o) => ScalarModel::Time32Second(o),
        ScalarValue::Time32Millisecond(o) => ScalarModel::Time32Millisecond(o),
        ScalarValue::Time64Microsecond(o) => ScalarModel::Time64Microsecond(o),
        ScalarValue::Time64Nanosecond(o) => ScalarModel::Time64Nanosecond(o),
        ScalarValue::TimestampSecond(o, z) => ScalarModel::TimestampSecond(o, osv(z)),
        ScalarValue::TimestampMillisecond(o, z) => ScalarModel::TimestampMillisecond(o, osv(z)),
        ScalarValue::TimestampMicrosecond(o, z) => ScalarModel::TimestampMicrosecond(o, osv(z)),
        ScalarValue::TimestampNanosecond(o, z) => ScalarModel::TimestampNanosecond(o, osv(z)),
        ScalarValue::IntervalYearMonth(o) => ScalarModel::IntervalYearMonth(o),
        ScalarValue::IntervalDayTime(o) => ScalarModel::IntervalDayTime(o),
        ScalarValue::IntervalMonthDayNano(o) => ScalarModel::IntervalMonthDayNano(o),
        ScalarValue::DurationSecond(o) => ScalarModel::DurationSecond(o),
        ScalarValue::DurationMillisecond(o) => ScalarModel::DurationMillisecond(o),
        ScalarValue::DurationMicrosecond(o) => ScalarModel::DurationMicrosecond(o),
        ScalarValue::DurationNanosecond(o) => ScalarModel::DurationNanosecond(o),
        ScalarValue::List(_, r) => ScalarModel::List(
            match r {
                Option::None => Option::None,
                Option::Some(c) => Option::Some(seq_model(c.values@)),
            },
        ),
        ScalarValue::LargeList(_, r) => ScalarModel::LargeList(
            match r {
                Option::None => Option::None,
                Option::Some(c) => Option::Some(seq_model(c.values@)),
            },
        ),
        ScalarValue::FixedSizeList(_, _, r) => ScalarModel::FixedSizeList(
            match r {
                Option::None => Option::None,
                Option::Some(c) => Option::Some(seq_model(c.values@)),
            },
        ),
    }
}

/// Model of a sequence of scalar values, element by element.
pub open spec fn seq_model(s: Seq<ScalarValue>) -> Seq<ScalarModel>
    decreases s,
{
    if s.len() == 0 {
        Seq::empty()
    } else {
        seq_model(s.subrange(0, s.len() - 1)).push(sv_model(s[s.len() - 1]))
    }
}

/// The model of a sequence has the same length and models each element.
pub proof fn lemma_seq_model(s: Seq<ScalarValue>)
    ensures
        seq_model(s).len() == s.len(),
        forall|i: int| 0 <= i < s.len() ==> seq_model(s)[i] == sv_model(s[i]),
    decreases s.len(),
{
    if s.len() > 0 {
        lemma_seq_model(s.subrange(0, s.len() - 1));
    }
}

impl View for ScalarValue {
    type V = ScalarModel;

    open spec fn view(&self) -> ScalarModel {
        sv_model(*self)
    }
}

impl View for Column {
    type V = Seq<ScalarModel>;

    open spec fn view(&self) -> Seq<ScalarModel> {
        seq_model(self.values@)
    }
}

/// Whether a model value carries no data: the untyped placeholder or a
/// typed value whose payload is absent.
pub open spec fn m_is_null(v: ScalarModel) -> bool {
    match v {
        ScalarModel::Null => true,
        ScalarModel::Boolean(o) => o is None,
        ScalarModel::Int8(o) => o is None,
        ScalarModel::Int16(o) => o is None,
        ScalarModel::Int32(o) => o is None,
        ScalarModel::Int64(o) => o is None,
        ScalarModel::UInt8(o) => o is None,
        ScalarModel::UInt16(o) => o is None,
        ScalarModel::UInt32(o) => o is None,
        ScalarModel::UInt64(o) => o is None,
        ScalarModel::Float16(o) => o is None,
        ScalarModel::Float32(o) => o is None,
        ScalarModel::Float64(o) => o is None,
        ScalarModel::Binary(o) => o is None,
        ScalarModel::LargeBinary(o) => o is None,
        ScalarModel::FixedSizeBinary(_, o) => o is None,
        ScalarModel::Decimal128(o, _, _) => o is None,
        ScalarModel::Decimal256(o, _, _) => o is None,
        ScalarModel::Utf8(o) => o is None,
        ScalarModel::LargeUtf8(o) => o is None,
        ScalarModel::Date32(o) => o is None,
        ScalarModel::Date64(o) => o is None,
        ScalarModel::Time32Second(o) => o is None,
        ScalarModel::Time32Millisecond(o) => o is None,
        ScalarModel::Time64Microsecond(o) => o is None,
        ScalarModel::Time64Nanosecond(o) => o is None,
        ScalarModel::TimestampSecond(o, _) => o is None,
        ScalarModel::TimestampMillisecond(o, _) => o is None,
        ScalarModel::TimestampMicrosecond(o, _) => o is None,
        ScalarModel::TimestampNanosecond(o, _) => o is None,
        ScalarModel::IntervalYearMonth(o) => o is None,
        ScalarModel::IntervalDayTime(o) => o is None,
        ScalarModel::IntervalMonthDayNano(o) => o is None,
        ScalarModel::DurationSecond(o) => o is None,
        ScalarModel::DurationMillisecond(o) => o is None,
        ScalarModel::DurationMicrosecond(o) => o is None,
        ScalarModel::DurationNanosecond(o) => o is None,
        ScalarModel::List(r) => r is None,
        ScalarModel::LargeList(r) => r is None,
        ScalarModel::FixedSizeList(r) => r is None,
    }
}

impl ScalarValue {
    /// Whether this value carries no data.
    pub fn is_null(&self) -> (r: bool)
        ensures
            r == m_is_null(self@),
    {
        match self {
            ScalarValue::Null => true,
            ScalarValue::Boolean(o) => o.is_none(),
            ScalarValue::Int8(o) => o.is_none(),
            ScalarValue::Int16(o) => o.is_none(),
            ScalarValue::Int32(o) => o.is_none(),
            ScalarValue::Int64(o) => o.is_none(),
            ScalarValue::UInt8(o) => o.is_none(),
            ScalarValue::UInt16(o) => o.is_none(),
            ScalarValue::UInt32(o) => o.is_none(),
            ScalarValue::UInt64(o) => o.is_none(),
            ScalarValue::Float16(o) => o.is_none(),
            ScalarValue::Float32(o) => o.is_none(),
            ScalarValue::Float64(o) => o.is_none(),
            ScalarValue::Binary(o) => o.is_none(),
            ScalarValue::LargeBinary(o) => o.is_none(),
            ScalarValue::FixedSizeBinary(_, o) => o.is_none(),
            ScalarValue::Decimal128(o, _, _) => o.is_none(),
            ScalarValue::Decimal256(o, _, _) => o.is_none(),
            ScalarValue::Utf8(o) => o.is_none(),
            ScalarValue::LargeUtf8(o) => o.is_none(),
            ScalarValue::Date32(o) => o.is_none(),
            ScalarValue::Date64(o) => o.is_none(),
            ScalarValue::Time32Second(o) => o.is_none(),
            ScalarValue::Time32Millisecond(o) => o.is_none(),
            ScalarValue::Time64Microsecond(o) => o.is_none(),
            ScalarValue::Time64Nanosecond(o) => o.is_none(),
            ScalarValue::TimestampSecond(o, _) => o.is_none(),
            ScalarValue::TimestampMillisecond(o, _) => o.is_none(),
            ScalarValue::TimestampMicrosecond(o, _) => o.is_none(),
            ScalarValue::TimestampNanosecond(o, _) => o.is_none(),
            ScalarValue::IntervalYearMonth(o) => o.is_none(),
            ScalarValue::IntervalDayTime(o) => o.is_none(),
            ScalarValue::IntervalMonthDayNano(o) => o.is_none(),
            ScalarValue::DurationSecond(o) => o.is_none(),
            ScalarValue::DurationMillisecond(o) => o.is_none(),
            ScalarValue::DurationMicrosecond(o) => o.is_none(),
            ScalarValue::DurationNanosecond(o) => o.is_none(),
            ScalarValue::List(_, r) => r.is_none(),
            ScalarValue::LargeList(_, r) => r.is_none(),
            ScalarValue::FixedSizeList(_, _, r) => r.is_none(),
        }
    }
}

/// Copies a byte payload.
pub fn clone_bytes(b: &Vec<u8>) -> (r: Vec<u8>)
    ensures
        r@ == b@,
{
    let mut r: Vec<u8> = Vec::new();
    let mut i: usize = 0;
    while i < b.len()
        invariant
            i <= b.len(),
            r@ == b@.subrange(0, i as int),
        decreases b.len() - i,
    {
        r.push(b[i]);
        i = i + 1;
    }
    assert(r@ == b@);
    r
}

/// Copies an optional byte payload.
pub fn clone_opt_bytes(o: &Option<Vec<u8>>) -> (r: Option<Vec<u8>>)
    ensures
        obv(r) == obv(*o),
{
    match o {
        Option::None => Option::None,
        Option::Some(b) => Option::Some(clone_bytes(b)),
    }
}

/// Copies an optional text payload.
pub fn clone_opt_string(o: &Option<String>) -> (r: Option<String>)
    ensures
        osv(r) == osv(*o),
{
    match o {
        Option::None => Option::None,
        Option::Some(s) => Option::Some(s.clone()),
    }
}

/// Copies a scalar value; the copy has the same model.
pub fn sv_clone(v: &ScalarValue) -> (r: ScalarValue)
    ensures
        r@ == v@,
    decreases *v,
{
    match v {
        ScalarValue::Null => ScalarValue::Null,
        ScalarValue::Boolean(o) => ScalarValue::Boolean(*o),
        ScalarValue::Int8(o) => ScalarValue::Int8(*o),
        ScalarValue::Int16(o) => ScalarValue::Int16(*o),
        ScalarValue::Int32(o) => ScalarValue::Int32(*o),
        ScalarValue::Int64(o) => ScalarValue::Int64(*o),
        ScalarValue::UInt8(o) => ScalarValue::UInt8(*o),
        ScalarValue::UInt16(o) => ScalarValue::UInt16(*o),
        ScalarValue::UInt32(o) => ScalarValue::UInt32(*o),
        ScalarValue::UInt64(o) => ScalarValue::UInt64(*o),
        ScalarValue::Float16(o) => ScalarValue::Float16(*o),
        ScalarValue::Float32(o) => ScalarValue::Float32(*o),
        ScalarValue::Float64(o) => ScalarValue::Float64(*o),
        ScalarValue::Binary(o) => ScalarValue::Binary(clone_opt_bytes(o)),
        ScalarValue::LargeBinary(o) => ScalarValue::LargeBinary(clone_opt_bytes(o)),
        ScalarValue::FixedSizeBinary(n, o) => ScalarValue::FixedSizeBinary(*n, clone_opt_bytes(o)),
        ScalarValue::Decimal128(o, p, s) => ScalarValue::Decimal128(*o, *p, *s),
        ScalarValue::Decimal256(o, p, s) => ScalarValue::Decimal256(*o, *p, *s),
        ScalarValue::Utf8(o) => ScalarValue::Utf8(clone_opt_string(o)),
        ScalarValue::LargeUtf8(o) => ScalarValue::LargeUtf8(clone_opt_string(o)),
        ScalarValue::Date32(o) => ScalarValue::Date32(*o),
        ScalarValue::Date64(o) => ScalarValue::Date64(*o),
        ScalarValue::Time32Second(o) => ScalarValue::Time32Second(*o),
        ScalarValue::Time32Millisecond(o) => ScalarValue::Time32Millisecond(*o),
        ScalarValue::Time64Microsecond(o) => ScalarValue::Time64Microsecond(*o),
        ScalarValue::Time64Nanosecond(o) => ScalarValue::Time64Nanosecond(*o),
        ScalarValue::TimestampSecond(o, z) => ScalarValue::TimestampSecond(*o, clone_opt_string(z)),
        ScalarValue::TimestampMillisecond(o, z) => ScalarValue::TimestampMillisecond(
            *o,
            clone_opt_string(z),
        ),
        ScalarValue::TimestampMicrosecond(o, z) => ScalarValue::TimestampMicrosecond(
            *o,
            clone_opt_string(z),
        ),
        ScalarValue::TimestampNanosecond(o, z) => ScalarValue::TimestampNanosecond(
            *o,
            clone_opt_string(z),
        ),
        ScalarValue::IntervalYearMonth(o) => ScalarValue::IntervalYearMonth(*o),
        ScalarValue::IntervalDayTime(o) => ScalarValue::IntervalDayTime(*o),
        ScalarValue::IntervalMonthDayNano(o) => ScalarValue::IntervalMonthDayNano(*o),
        ScalarValue::DurationSecond(o) => ScalarValue::DurationSecond(*o),
        ScalarValue::DurationMillisecond(o) => ScalarValue::DurationMillisecond(*o),
        ScalarValue::DurationMicrosecond(o) => ScalarValue::DurationMicrosecond(*o),
        ScalarValue::DurationNanosecond(o) => ScalarValue::DurationNanosecond(*o),
        ScalarValue::List(e, r) => ScalarValue::List(
            Box::new(td_clone(e)),
            match r {
                Option::None => Option::None,
                Option::Some(c) => Option::Some(col_clone(c)),
            },
        ),
        ScalarValue::LargeList(e, r) => ScalarValue::LargeList(
            Box::new(td_clone(e)),
            match r {
                Option::None => Option::None,
                Option::Some(c) => Option::Some(col_clone(c)),
            },
        ),
        ScalarValue::FixedSizeList(e, n, r) => ScalarValue::FixedSizeList(
            Box::new(td_clone(e)),
            *n,
            match r {
                Option::None => Option::None,
                Option::Some(c) => Option::Some(col_clone(c)),
            },
        ),
    }
}

/// Copies a column; the copy has the same model and an equivalent type.
pub fn col_clone(c: &Column) -> (r: Column)
    ensures
        r@ == c@,
        td_eqv(r.dtype, c.dtype),
    decreases *c,
{
    let mut values: Vec<ScalarValue> = Vec::new();
    let n = c.values.len();
    let mut i: usize = 0;
    while i < n
        invariant
            i <= n,
            n == c.values@.len(),
            values@.len() == i,
            forall|j: int| 0 <= j < i ==> sv_model(values@[j]) == sv_model(c.values@[j]),
        decreases n - i,
    {
        values.push(sv_clone(&c.values[i]));
        i = i + 1;
    }
    proof {
        lemma_seq_model_congruent(values@, c.values@);
    }
    Column { dtype: td_clone(&c.dtype), values }
}

/// Sequences whose elements have the same models have the same model.
pub proof fn lemma_seq_model_congruent(a: Seq<ScalarValue>, b: Seq<ScalarValue>)
    requires
        a.len() == b.len(),
        forall|j: int| 0 <= j < a.len() ==> sv_model(a[j]) == sv_model(b[j]),
    ensures
        seq_model(a) == seq_model(b),
    decreases a.len(),
{
    if a.len() > 0 {
        lemma_seq_model_congruent(a.subrange(0, a.len() - 1), b.subrange(0, b.len() - 1));
        assert(seq_model(a) == seq_model(b));
    }
}

impl Column {
    /// Number of rows.
    pub fn len(&self) -> (n: usize)
        ensures
            n == self@.len(),
    {
        proof {
            lemma_seq_model(self.values@);
        }
        self.values.len()
    }

    /// Extracts the value at row `i`.  This is the only point of contact
    /// between the row-scan algorithm and the column representation.
    pub fn value_at(&self, i: usize) -> (r: ScalarValue)
        requires
            i < self@.len(),
        ensures
            r@ == self@[i as int],
    {
        proof {
            lemma_seq_model(self.values@);
        }
        sv_clone(&self.values[i])
    }
}

/// Whether `t` is the type of the scalar value `v`: the tags correspond
/// and every type parameter the value carries (size, precision and
/// scale, timezone, element type) matches.
pub open spec fn sv_has_type(v: ScalarValue, t: TypeDescriptor) -> bool {
    match v {
        ScalarValue::Null => t is Null,
        ScalarValue::Boolean(_) => t is Boolean,
        ScalarValue::Int8(_) => t is Int8,
        ScalarValue::Int16(_) => t is Int16,
        ScalarValue::Int32(_) => t is Int32,
        ScalarValue::Int64(_) => t is Int64,
        ScalarValue::UInt8(_) => t is UInt8,
        ScalarValue::UInt16(_) => t is UInt16,
        ScalarValue::UInt32(_) => t is UInt32,
        ScalarValue::UInt64(_) => t is UInt64,
        ScalarValue::Float16(_) => t is Float16,
        ScalarValue::Float32(_) => t is Float32,
        ScalarValue::Float64(_) => t is Float64,
        ScalarValue::Binary(_) => t is Binary,
        ScalarValue::LargeBinary(_) => t is LargeBinary,
        ScalarValue::FixedSizeBinary(n, _) => t matches TypeDescriptor::FixedSizeBinary(m) && m
            == n,
        ScalarValue::Decimal128(_, p, s) => t matches TypeDescriptor::Decimal128(p2, s2) && p2 == p
            && s2 == s,
        ScalarValue::Decimal256(_, p, s) => t matches TypeDescriptor::Decimal256(p2, s2) && p2 == p
            && s2 == s,
        ScalarValue::Utf8(_) => t is Utf8,
        ScalarValue::LargeUtf8(_) => t is LargeUtf8,
        ScalarValue::Date32(_) => t is Date32,
        ScalarValue::Date64(_) => t is Date64,
        ScalarValue::Time32Second(_) => t == TypeDescriptor::Time32(crate::types::TimeUnit::Second),
        ScalarValue::Time32Millisecond(_) => t == TypeDescriptor::Time32(
            crate::types::TimeUnit::Millisecond,
        ),
        ScalarValue::Time64Microsecond(_) => t == TypeDescriptor::Time64(
            crate::types::TimeUnit::Microsecond,
        ),
        ScalarValue::Time64Nanosecond(_) => t == TypeDescriptor::Time64(
            crate::types::TimeUnit::Nanosecond,
        ),
        ScalarValue::TimestampSecond(_, z) => t matches TypeDescriptor::Timestamp(u, z2) && u
            == crate::types::TimeUnit::Second && opt_str_eqv(z2, z),
        ScalarValue::TimestampMillisecond(_, z) => t matches TypeDescriptor::Timestamp(u, z2) && u
            == crate::types::TimeUnit::Millisecond && opt_str_eqv(z2, z),
        ScalarValue::TimestampMicrosecond(_, z) => t matches TypeDescriptor::Timestamp(u, z2) && u
            == crate::types::TimeUnit::Microsecond && opt_str_eqv(z2, z),
        ScalarValue::TimestampNanosecond(_, z) => t matches TypeDescriptor::Timestamp(u, z2) && u
            == crate::types::TimeUnit::Nanosecond && opt_str_eqv(z2, z),
        ScalarValue::IntervalYearMonth(_) => t == TypeDescriptor::Interval(
            crate::types::IntervalUnit::YearMonth,
        ),
        ScalarValue::IntervalDayTime(_) => t == TypeDescriptor::Interval(
            crate::types::IntervalUnit::DayTime,
        ),
        ScalarValue::IntervalMonthDayNano(_) => t == TypeDescriptor::Interval(
            crate::types::IntervalUnit::MonthDayNano,
        ),
        ScalarValue::DurationSecond(_) => t == TypeDescriptor::Duration(
            crate::types::TimeUnit::Second,
        ),
        ScalarValue::DurationMillisecond(_) => t == TypeDescriptor::Duration(
            crate::types::TimeUnit::Millisecond,
        ),
        ScalarValue::DurationMicrosecond(_) => t == TypeDescriptor::Duration(
            crate::types::TimeUnit::Microsecond,
        ),
        ScalarValue::DurationNanosecond(_) => t == TypeDescriptor::Duration(
            crate::types::TimeUnit::Nanosecond,
        ),
        ScalarValue::List(e, _) => t matches TypeDescriptor::List(e2) && td_eqv(*e2, *e),
        ScalarValue::LargeList(e, _) => t matches TypeDescriptor::LargeList(e2) && td_eqv(*e2, *e),
        ScalarValue::FixedSizeList(e, n, _) => t matches TypeDescriptor::FixedSizeList(e2, m) && m
            == n && td_eqv(*e2, *e),
    }
}

/// The type of a scalar value: its tag and the parameters it carries.
pub fn sv_dtype(v: &ScalarValue) -> (t: TypeDescriptor)
    ensures
        sv_has_type(*v, t),
{
    match v {
        ScalarValue::Null => TypeDescriptor::Null,
        ScalarValue::Boolean(_) => TypeDescriptor::Boolean,
        ScalarValue::Int8(_) => TypeDescriptor::Int8,
        ScalarValue::Int16(_) => TypeDescriptor::Int16,
        ScalarValue::Int32(_) => TypeDescriptor::Int32,
        ScalarValue::Int64(_) => TypeDescriptor::Int64,
        ScalarValue::UInt8(_) => TypeDescriptor::UInt8,
        ScalarValue::UInt16(_) => TypeDescriptor::UInt16,
        ScalarValue::UInt32(_) => TypeDescriptor::UInt32,
        ScalarValue::UInt64(_) => TypeDescriptor::UInt64,
        ScalarValue::Float16(_) => TypeDescriptor::Float16,
        ScalarValue::Float32(_) => TypeDescriptor::Float32,
        ScalarValue::Float64(_) => TypeDescriptor::Float64,
        ScalarValue::Binary(_) => TypeDescriptor::Binary,
        ScalarValue::LargeBinary(_) => TypeDescriptor::LargeBinary,
        ScalarValue::FixedSizeBinary(n, _) => TypeDescriptor::FixedSizeBinary(*n),
        ScalarValue::Decimal128(_, p, s) => TypeDescriptor::Decimal128(*p, *s),
        ScalarValue::Decimal256(_, p, s) => TypeDescriptor::Decimal256(*p, *s),
        ScalarValue::Utf8(_) => TypeDescriptor::Utf8,
        ScalarValue::LargeUtf8(_) => TypeDescriptor::LargeUtf8,
        ScalarValue::Date32(_) => TypeDescriptor::Date32,
        ScalarValue::Date64(_) => TypeDescriptor::Date64,
        ScalarValue::Time32Second(_) => TypeDescriptor::Time32(crate::types::TimeUnit::Second),
        ScalarValue::Time32Millisecond(_) => TypeDescriptor::Time32(
            crate::types::TimeUnit::Millisecond,
        ),
        ScalarValue::Time64Microsecond(_) => TypeDescriptor::Time64(
            crate::types::TimeUnit::Microsecond,
        ),
        ScalarValue::Time64Nanosecond(_) => TypeDescriptor::Time64(
            crate::types::TimeUnit::Nanosecond,
        ),
        ScalarValue::TimestampSecond(_, z) => TypeDescriptor::Timestamp(
            crate::types::TimeUnit::Second,
            clone_opt_str(z),
        ),
        ScalarValue::TimestampMillisecond(_, z) => TypeDescriptor::Timestamp(
            crate::types::TimeUnit::Millisecond,
            clone_opt_str(z),
        ),
        ScalarValue::TimestampMicrosecond(_, z) => TypeDescriptor::Timestamp(
            crate::types::TimeUnit::Microsecond,
            clone_opt_str(z),
        ),
        ScalarValue::TimestampNanosecond(_, z) => TypeDescriptor::Timestamp(
            crate::types::TimeUnit::Nanosecond,
            clone_opt_str(z),
        ),
        ScalarValue::IntervalYearMonth(_) => TypeDescriptor::Interval(
            crate::types::IntervalUnit::YearMonth,
        ),
        ScalarValue::IntervalDayTime(_) => TypeDescriptor::Interval(
            crate::types::IntervalUnit::DayTime,
        ),
        ScalarValue::IntervalMonthDayNano(_) => TypeDescriptor::Interval(
            crate::types::IntervalUnit::MonthDayNano,
        ),
        ScalarValue::DurationSecond(_) => TypeDescriptor::Duration(crate::types::TimeUnit::Second),
        ScalarValue::DurationMillisecond(_) => TypeDescriptor::Duration(
            crate::types::TimeUnit::Millisecond,
        ),
        ScalarValue::DurationMicrosecond(_) => TypeDescriptor::Duration(
            crate::types::TimeUnit::Microsecond,
        ),
        ScalarValue::DurationNanosecond(_) => TypeDescriptor::Duration(
            crate::types::TimeUnit::Nanosecond,
        ),
        ScalarValue::List(e, _) => TypeDescriptor::List(Box::new(td_clone(e))),
        ScalarValue::LargeList(e, _) => TypeDescriptor::LargeList(Box::new(td_clone(e))),
        ScalarValue::FixedSizeList(e, n, _) => TypeDescriptor::FixedSizeList(
            Box::new(td_clone(e)),
            *n,
        ),
    }
}

/// Equivalent descriptors type the same scalar values.
pub proof fn lemma_sv_has_type_congruent(v: ScalarValue, t1: TypeDescriptor, t2: TypeDescriptor)
    requires
        sv_has_type(v, t1),
        td_eqv(t1, t2),
    ensures
        sv_has_type(v, t2),
{
    match v {
        ScalarValue::List(e, _) => {
            let e1 = t1->List_0;
            let e2 = t2->List_0;
            crate::types::lemma_td_eqv_sym(*e1, *e2);
            crate::types::lemma_td_eqv_trans(*e2, *e1, *e);
        },
        ScalarValue::LargeList(e, _) => {
            let e1 = t1->LargeList_0;
            let e2 = t2->LargeList_0;
            crate::types::lemma_td_eqv_sym(*e1, *e2);
            crate::types::lemma_td_eqv_trans(*e2, *e1, *e);
        },
        ScalarValue::FixedSizeList(e, _, _) => {
            let e1 = t1->FixedSizeList_0;
            let e2 = t2->FixedSizeList_0;
            crate::types::lemma_td_eqv_sym(*e1, *e2);
            crate::types::lemma_td_eqv_trans(*e2, *e1, *e);
        },
        _ => {},
    }
}

/// A scalar value's type is determined up to equivalence.
pub proof fn lemma_sv_has_type_unique(v: ScalarValue, t1: TypeDescriptor, t2: TypeDescriptor)
    requires
        sv_has_type(v, t1),
        sv_has_type(v, t2),
    ensures
        td_eqv(t1, t2),
{
    match v {
        ScalarValue::List(e, _) => {
            let e1 = t1->List_0;
            let e2 = t2->List_0;
            crate::types::lemma_td_eqv_sym(*e2, *e);
            crate::types::lemma_td_eqv_trans(*e1, *e, *e2);
        },
        ScalarValue::LargeList(e, _) => {
            let e1 = t1->LargeList_0;
            let e2 = t2->LargeList_0;
            crate::types::lemma_td_eqv_sym(*e2, *e);
            crate::types::lemma_td_eqv_trans(*e1, *e, *e2);
        },
        ScalarValue::FixedSizeList(e, _, _) => {
            let e1 = t1->FixedSizeList_0;
            let e2 = t2->FixedSizeList_0;
            crate::types::lemma_td_eqv_sym(*e2, *e);
            crate::types::lemma_td_eqv_trans(*e1, *e, *e2);
        },
        _ => {},
    }
}

} // verus!
