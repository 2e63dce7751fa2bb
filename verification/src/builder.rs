use vstd::prelude::*;

use crate::error::ErrorKind;
use crate::types::clone_opt_str;
use crate::types::td_eqv;
use crate::types::supported;
use crate::types::IntervalUnit;
use crate::types::TimeUnit;
use crate::types::TypeDescriptor;
use crate::typing::fits;
use crate::typing::fits_seq;
use crate::typing::stored;
use crate::typing::stored_seq;
use crate::typing::lemma_stored_seq;
use crate::value::lemma_seq_model;
use crate::value::Column;
use crate::value::seq_model;
use crate::value::sv_model;
use crate::value::Int256;
use crate::value::ScalarModel;
use crate::value::ScalarValue;

verus! {

/// Storage shared by every fixed-layout builder variant: the recorded
/// payloads in append order, a `None` per recorded null.
pub struct PrimBuilder<T> {
    /// The recorded payloads, in append order.
    pub values: Vec<Option<T>>,
}

impl<T> PrimBuilder<T> {
    /// An empty store with room for `capacity` values.
    pub fn with_capacity(capacity: usize) -> (r: PrimBuilder<T>)
        ensures
            r.values@ == Seq::<Option<T>>::empty(),
    {
        PrimBuilder { values: Vec::with_capacity(capacity) }
    }
}

/// Storage of a list-family builder: one inner element builder that
/// accumulates the elements of every row back to back, the end offset of
/// each closed row inside the inner builder, and each closed row's
/// validity.
pub struct ListBuilder {
    /// The single element builder, owned for this builder's lifetime.
    pub inner: Box<Builder>,
    /// For each closed row, the count of inner values when it opened.
    pub starts: Vec<usize>,
    /// For each closed row, the count of inner values once it closed.
    pub ends: Vec<usize>,
    /// For each closed row, whether it is non-null.
    pub valid: Vec<bool>,
}

/// A write-then-finalize accumulator for one [`crate::Column`], with one
/// concrete storage variant per supported type.  This closed set is the
/// single polymorphic surface the reduction programs against.
pub enum Builder {
    /// Records only presence: every value of the null type is null.
    Null(PrimBuilder<()>),
    Boolean(PrimBuilder<bool>),
    Int8(PrimBuilder<i8>),
    Int16(PrimBuilder<i16>),
    Int32(PrimBuilder<i32>),
    Int64(PrimBuilder<i64>),
    UInt8(PrimBuilder<u8>),
    UInt16(PrimBuilder<u16>),
    UInt32(PrimBuilder<u32>),
    UInt64(PrimBuilder<u64>),
    Float16(PrimBuilder<u16>),
    Float32(PrimBuilder<u32>),
    Float64(PrimBuilder<u64>),
    Binary(PrimBuilder<Vec<u8>>),
    LargeBinary(PrimBuilder<Vec<u8>>),
    /// Declared byte length, then the store.
    FixedSizeBinary(i32, PrimBuilder<Vec<u8>>),
    /// Precision and scale, then the store.
    Decimal128(u8, i8, PrimBuilder<i128>),
    Decimal256(u8, i8, PrimBuilder<Int256>),
    Utf8(PrimBuilder<String>),
    LargeUtf8(PrimBuilder<String>),
    Date32(PrimBuilder<i32>),
    Date64(PrimBuilder<i64>),
    Time32Second(PrimBuilder<i32>),
    Time32Millisecond(PrimBuilder<i32>),
    Time64Microsecond(PrimBuilder<i64>),
    Time64Nanosecond(PrimBuilder<i64>),
    /// Timezone name of the bound type, then the store.
    TimestampSecond(Option<String>, PrimBuilder<i64>),
    TimestampMillisecond(Option<String>, PrimBuilder<i64>),
    TimestampMicrosecond(Option<String>, PrimBuilder<i64>),
    TimestampNanosecond(Option<String>, PrimBuilder<i64>),
    IntervalYearMonth(PrimBuilder<i32>),
    IntervalDayTime(PrimBuilder<(i32, i32)>),
    IntervalMonthDayNano(PrimBuilder<(i32, i32, i64)>),
    DurationSecond(PrimBuilder<i64>),
    DurationMillisecond(PrimBuilder<i64>),
    DurationMicrosecond(PrimBuilder<i64>),
    DurationNanosecond(PrimBuilder<i64>),
    List(ListBuilder),
    LargeList(ListBuilder),
    /// Declared row length, then the storage.
    FixedSizeList(i32, ListBuilder),
}

/// The models of a fixed-layout store's entries, one per recorded value.
pub open spec fn prim_model<T>(s: Seq<Option<T>>, f: spec_fn(Option<T>) -> ScalarModel) -> Seq<
    ScalarModel,
> {
    Seq::new(s.len(), |i: int| f(s[i]))
}

/// Recording one more value extends the store's model by its model.
pub proof fn lemma_prim_model_push<T>(
    s: Seq<Option<T>>,
    o: Option<T>,
    f: spec_fn(Option<T>) -> ScalarModel,
)
    ensures
        prim_model(s.push(o), f) == prim_model(s, f).push(f(o)),
{
    assert(prim_model(s.push(o), f) =~= prim_model(s, f).push(f(o)));
}

/// The model of row `i`: the inner values between its bounds, or a null.
pub open spec fn row_model(
    im: Seq<ScalarModel>,
    starts: Seq<usize>,
    ends: Seq<usize>,
    valid: Seq<bool>,
    i: int,
) -> Option<Seq<ScalarModel>> {
    if valid[i] {
        Option::Some(im.subrange(starts[i] as int, ends[i] as int))
    } else {
        Option::None
    }
}

/// The rows a list-family builder has closed so far, wrapped by the
/// variant's constructor `g`.
pub open spec fn list_model(lb: ListBuilder, g: spec_fn(Option<Seq<ScalarModel>>) -> ScalarModel) -> Seq<
    ScalarModel,
>
    decreases lb, 0int,
{
    let im = lb.inner.model();
    Seq::new(lb.ends@.len(), |i: int| g(row_model(im, lb.starts@, lb.ends@, lb.valid@, i)))
}

/// A fixed-size binary entry respects the declared byte length.
pub open spec fn fsb_entry_ok(o: Option<Vec<u8>>, n: i32) -> bool {
    match o {
        Option::None => true,
        Option::Some(p) => p@.len() == n,
    }
}

/// Well-formedness of a list-family store: the inner builder is
/// well-formed, every row has matching start, end and validity records,
/// and every row's bounds lie within the inner builder.
pub open spec fn list_wf(lb: ListBuilder) -> bool
    decreases lb, 0int,
{
    &&& lb.inner.wf()
    &&& lb.starts@.len() == lb.ends@.len()
    &&& lb.ends@.len() == lb.valid@.len()
    &&& forall|i: int|
        0 <= i < lb.ends@.len() ==> lb.starts@[i] as int <= #[trigger] lb.ends@[i] as int
    &&& forall|i: int|
        0 <= i < lb.ends@.len() ==> #[trigger] lb.ends@[i] as int <= lb.inner.model().len()
}

/// Every closed non-null row of a fixed-size list holds exactly `n`
/// elements.
pub open spec fn fixed_rows_ok(lb: ListBuilder, n: i32) -> bool {
    forall|i: int|
        0 <= i < lb.ends@.len() ==> (#[trigger] lb.valid@[i] ==> lb.ends@[i] as int
            - lb.starts@[i] as int == n as int)
}

impl Builder {
    /// The type this builder is bound to.
    pub open spec fn typ(self) -> TypeDescriptor
        decreases self,
    {
        match self {
            Builder::Null(_) => TypeDescriptor::Null,
            Builder::Boolean(_) => TypeDescriptor::Boolean,
            Builder::Int8(_) => TypeDescriptor::Int8,
            Builder::Int16(_) => TypeDescriptor::Int16,
            Builder::Int32(_) => TypeDescriptor::Int32,
            Builder::Int64(_) => TypeDescriptor::Int64,
            Builder::UInt8(_) => TypeDescriptor::UInt8,
            Builder::UInt16(_) => TypeDescriptor::UInt16,
            Builder::UInt32(_) => TypeDescriptor::UInt32,
            Builder::UInt64(_) => TypeDescriptor::UInt64,
            Builder::Float16(_) => TypeDescriptor::Float16,
            Builder::Float32(_) => TypeDescriptor::Float32,
            Builder::Float64(_) => TypeDescriptor::Float64,
            Builder::Binary(_) => TypeDescriptor::Binary,
            Builder::LargeBinary(_) => TypeDescriptor::LargeBinary,
            Builder::FixedSizeBinary(n, _) => TypeDescriptor::FixedSizeBinary(n),
            Builder::Decimal128(p, s, _) => TypeDescriptor::Decimal128(p, s),
            Builder::Decimal256(p, s, _) => TypeDescriptor::Decimal256(p, s),
            Builder::Utf8(_) => TypeDescriptor::Utf8,
            Builder::LargeUtf8(_) => TypeDescriptor::LargeUtf8,
            Builder::Date32(_) => TypeDescriptor::Date32,
            Builder::Date64(_) => TypeDescriptor::Date64,
            Builder::Time32Second(_) => TypeDescriptor::Time32(TimeUnit::Second),
            Builder::Time32Millisecond(_) => TypeDescriptor::Time32(TimeUnit::Millisecond),
            Builder::Time64Microsecond(_) => TypeDescriptor::Time64(TimeUnit::Microsecond),
            Builder::Time64Nanosecond(_) => TypeDescriptor::Time64(TimeUnit::Nanosecond),
            Builder::TimestampSecond(z, _) => TypeDescriptor::Timestamp(TimeUnit::Second, z),
            Builder::TimestampMillisecond(z, _) => TypeDescriptor::Timestamp(
                TimeUnit::Millisecond,
                z,
            ),
            Builder::TimestampMicrosecond(z, _) => TypeDescriptor::Timestamp(
                TimeUnit::Microsecond,
                z,
            ),
            Builder::TimestampNanosecond(z, _) => TypeDescriptor::Timestamp(
                TimeUnit::Nanosecond,
                z,
            ),
            Builder::IntervalYearMonth(_) => TypeDescriptor::Interval(IntervalUnit::YearMonth),
            Builder::IntervalDayTime(_) => TypeDescriptor::Interval(IntervalUnit::DayTime),
            Builder::IntervalMonthDayNano(_) => TypeDescriptor::Interval(
                IntervalUnit::MonthDayNano,
            ),
            Builder::DurationSecond(_) => TypeDescriptor::Duration(TimeUnit::Second),
            Builder::DurationMillisecond(_) => TypeDescriptor::Duration(TimeUnit::Millisecond),
            Builder::DurationMicrosecond(_) => TypeDescriptor::Duration(TimeUnit::Microsecond),
            Builder::DurationNanosecond(_) => TypeDescriptor::Duration(TimeUnit::Nanosecond),
            Builder::List(lb) => TypeDescriptor::List(Box::new(lb.inner.typ())),
            Builder::LargeList(lb) => TypeDescriptor::LargeList(Box::new(lb.inner.typ())),
            Builder::FixedSizeList(n, lb) => TypeDescriptor::FixedSizeList(
                Box::new(lb.inner.typ()),
                n,
            ),
        }
    }

    /// The values recorded so far, in append order.
    pub open spec fn model(self) -> Seq<ScalarModel>
        decreases self, 1int,
    {
        match self {
            Builder::Null(b) => Seq::new(b.values@.len(), |i: int| ScalarModel::Null),
            Builder::Boolean(b) => prim_model(b.values@, |o: Option<bool>| ScalarModel::Boolean(o)),
            Builder::Int8(b) => prim_model(b.values@, |o: Option<i8>| ScalarModel::Int8(o)),
            Builder::Int16(b) => prim_model(b.values@, |o: Option<i16>| ScalarModel::Int16(o)),
            Builder::Int32(b) => prim_model(b.values@, |o: Option<i32>| ScalarModel::Int32(o)),
            Builder::Int64(b) => prim_model(b.values@, |o: Option<i64>| ScalarModel::Int64(o)),
            Builder::UInt8(b) => prim_model(b.values@, |o: Option<u8>| ScalarModel::UInt8(o)),
            Builder::UInt16(b) => prim_model(b.values@, |o: Option<u16>| ScalarModel::UInt16(o)),
            Builder::UInt32(b) => prim_model(b.values@, |o: Option<u32>| ScalarModel::UInt32(o)),
            Builder::UInt64(b) => prim_model(b.values@, |o: Option<u64>| ScalarModel::UInt64(o)),
            Builder::Float16(b) => prim_model(b.values@, |o: Option<u16>| ScalarModel::Float16(o)),
            Builder::Float32(b) => prim_model(b.values@, |o: Option<u32>| ScalarModel::Float32(o)),
            Builder::Float64(b) => prim_model(b.values@, |o: Option<u64>| ScalarModel::Float64(o)),
            Builder::Binary(b) => prim_model(
                b.values@,
                |o: Option<Vec<u8>>| ScalarModel::Binary(crate::value::obv(o)),
            ),
            Builder::LargeBinary(b) => prim_model(
                b.values@,
                |o: Option<Vec<u8>>| ScalarModel::LargeBinary(crate::value::obv(o)),
            ),
            Builder::FixedSizeBinary(n, b) => prim_model(
                b.values@,
                |o: Option<Vec<u8>>| ScalarModel::FixedSizeBinary(n, crate::value::obv(o)),
            ),
            Builder::Decimal128(p, s, b) => prim_model(
                b.values@,
                |o: Option<i128>| ScalarModel::Decimal128(o, p, s),
            ),
            Builder::Decimal256(p, s, b) => prim_model(
                b.values@,
                |o: Option<Int256>| ScalarModel::Decimal256(o, p, s),
            ),
            Builder::Utf8(b) => prim_model(
                b.values@,
                |o: Option<String>| ScalarModel::Utf8(crate::value::osv(o)),
            ),
            Builder::LargeUtf8(b) => prim_model(
                b.values@,
                |o: Option<String>| ScalarModel::LargeUtf8(crate::value::osv(o)),
            ),
            Builder::Date32(b) => prim_model(b.values@, |o: Option<i32>| ScalarModel::Date32(o)),
            Builder::Date64(b) => prim_model(b.values@, |o: Option<i64>| ScalarModel::Date64(o)),
            Builder::Time32Second(b) => prim_model(
                b.values@,
                |o: Option<i32>| ScalarModel::Time32Second(o),
            ),
            Builder::Time32Millisecond(b) => prim_model(
                b.values@,
                |o: Option<i32>| ScalarModel::Time32Millisecond(o),
            ),
            Builder::Time64Microsecond(b) => prim_model(
                b.values@,
                |o: Option<i64>| ScalarModel::Time64Microsecond(o),
            ),
            Builder::Time64Nanosecond(b) => prim_model(
                b.values@,
                |o: Option<i64>| ScalarModel::Time64Nanosecond(o),
            ),
            Builder::TimestampSecond(z, b) => prim_model(
                b.values@,
                |o: Option<i64>| ScalarModel::TimestampSecond(o, crate::value::osv(z)),
            ),
            Builder::TimestampMillisecond(z, b) => prim_model(
                b.values@,
                |o: Option<i64>| ScalarModel::TimestampMillisecond(o, crate::value::osv(z)),
            ),
            Builder::TimestampMicrosecond(z, b) => prim_model(
                b.values@,
                |o: Option<i64>| ScalarModel::TimestampMicrosecond(o, crate::value::osv(z)),
            ),
            Builder::TimestampNanosecond(z, b) => prim_model(
                b.values@,
                |o: Option<i64>| ScalarModel::TimestampNanosecond(o, crate::value::osv(z)),
            ),
            Builder::IntervalYearMonth(b) => prim_model(
                b.values@,
                |o: Option<i32>| ScalarModel::IntervalYearMonth(o),
            ),
            Builder::IntervalDayTime(b) => prim_model(
                b.values@,
                |o: Option<(i32, i32)>| ScalarModel::IntervalDayTime(o),
            ),
            Builder::IntervalMonthDayNano(b) => prim_model(
                b.values@,
                |o: Option<(i32, i32, i64)>| ScalarModel::IntervalMonthDayNano(o),
            ),
            Builder::DurationSecond(b) => prim_model(
                b.values@,
                |o: Option<i64>| ScalarModel::DurationSecond(o),
            ),
            Builder::DurationMillisecond(b) => prim_model(
                b.values@,
                |o: Option<i64>| ScalarModel::DurationMillisecond(o),
            ),
            Builder::DurationMicrosecond(b) => prim_model(
                b.values@,
                |o: Option<i64>| ScalarModel::DurationMicrosecond(o),
            ),
            Builder::DurationNanosecond(b) => prim_model(
                b.values@,
                |o: Option<i64>| ScalarModel::DurationNanosecond(o),
            ),
            Builder::List(lb) => list_model(lb, |r: Option<Seq<ScalarModel>>| ScalarModel::List(r)),
            Builder::LargeList(lb) => list_model(
                lb,
                |r: Option<Seq<ScalarModel>>| ScalarModel::LargeList(r),
            ),
            Builder::FixedSizeList(_, lb) => list_model(
                lb,
                |r: Option<Seq<ScalarModel>>| ScalarModel::FixedSizeList(r),
            ),
        }
    }

    /// Internal consistency of the builder's storage.
    pub open spec fn wf(self) -> bool
        decreases self, 1int,
    {
        match self {
            Builder::FixedSizeBinary(n, b) => forall|i: int|
                0 <= i < b.values@.len() ==> fsb_entry_ok(#[trigger] b.values@[i], n),
            Builder::List(lb) => list_wf(lb),
            Builder::LargeList(lb) => list_wf(lb),
            Builder::FixedSizeList(n, lb) => list_wf(lb) && fixed_rows_ok(lb, n),
            _ => true,
        }
    }

    /// Number of values recorded so far.
    pub fn len(&self) -> (n: usize)
        ensures
            n == self.model().len(),
    {
        match self {
            Builder::Null(b) => b.values.len(),
            Builder::Boolean(b) => b.values.len(),
            Builder::Int8(b) => b.values.len(),
            Builder::Int16(b) => b.values.len(),
            Builder::Int32(b) => b.values.len(),
            Builder::Int64(b) => b.values.len(),
            Builder::UInt8(b) => b.values.len(),
            Builder::UInt16(b) => b.values.len(),
            Builder::UInt32(b) => b.values.len(),
            Builder::UInt64(b) => b.values.len(),
            Builder::Float16(b) => b.values.len(),
            Builder::Float32(b) => b.values.len(),
            Builder::Float64(b) => b.values.len(),
            Builder::Binary(b) => b.values.len(),
            Builder::LargeBinary(b) => b.values.len(),
            Builder::FixedSizeBinary(_, b) => b.values.len(),
            Builder::Decimal128(_, _, b) => b.values.len(),
            Builder::Decimal256(_, _, b) => b.values.len(),
            Builder::Utf8(b) => b.values.len(),
            Builder::LargeUtf8(b) => b.values.len(),
            Builder::Date32(b) => b.values.len(),
            Builder::Date64(b) => b.values.len(),
            Builder::Time32Second(b) => b.values.len(),
            Builder::Time32Millisecond(b) => b.values.len(),
            Builder::Time64Microsecond(b) => b.values.len(),
            Builder::Time64Nanosecond(b) => b.values.len(),
            Builder::TimestampSecond(_, b) => b.values.len(),
            Builder::TimestampMillisecond(_, b) => b.values.len(),
            Builder::TimestampMicrosecond(_, b) => b.values.len(),
            Builder::TimestampNanosecond(_, b) => b.values.len(),
            Builder::IntervalYearMonth(b) => b.values.len(),
            Builder::IntervalDayTime(b) => b.values.len(),
            Builder::IntervalMonthDayNano(b) => b.values.len(),
            Builder::DurationSecond(b) => b.values.len(),
            Builder::DurationMillisecond(b) => b.values.len(),
            Builder::DurationMicrosecond(b) => b.values.len(),
            Builder::DurationNanosecond(b) => b.values.len(),
            Builder::List(lb) => lb.ends.len(),
            Builder::LargeList(lb) => lb.ends.len(),
            Builder::FixedSizeList(_, lb) => lb.ends.len(),
        }
    }
}

/// Returns an appendable builder bound to `datatype` with room for
/// `capacity` values, recursing into element types for the list family.
/// Fails with the unsupported-type error exactly on descriptors outside
/// the supported set.
pub fn make_builder(datatype: &TypeDescriptor, capacity: usize) -> (r: Result<Builder, ErrorKind>)
    ensures
        r is Ok <==> supported(*datatype),
        r matches Ok(b) ==> b.wf() && td_eqv(b.typ(), *datatype) && b.model() == Seq::<
            ScalarModel,
        >::empty(),
        r matches Err(e) ==> e matches ErrorKind::UnsupportedType(u) && td_eqv(
            u,
            crate::types::offending(*datatype),
        ) && !supported(u),
    decreases *datatype,
{
    let r: Result<Builder, ErrorKind> = match datatype {
        TypeDescriptor::Null => Ok(Builder::Null(PrimBuilder::with_capacity(capacity))),
        TypeDescriptor::Boolean => Ok(Builder::Boolean(PrimBuilder::with_capacity(capacity))),
        TypeDescriptor::Int8 => Ok(Builder::Int8(PrimBuilder::with_capacity(capacity))),
        TypeDescriptor::Int16 => Ok(Builder::Int16(PrimBuilder::with_capacity(capacity))),
        TypeDescriptor::Int32 => Ok(Builder::Int32(PrimBuilder::with_capacity(capacity))),
        TypeDescriptor::Int64 => Ok(Builder::Int64(PrimBuilder::with_capacity(capacity))),
        TypeDescriptor::UInt8 => Ok(Builder::UInt8(PrimBuilder::with_capacity(capacity))),
        TypeDescriptor::UInt16 => Ok(Builder::UInt16(PrimBuilder::with_capacity(capacity))),
        TypeDescriptor::UInt32 => Ok(Builder::UInt32(PrimBuilder::with_capacity(capacity))),
        TypeDescriptor::UInt64 => Ok(Builder::UInt64(PrimBuilder::with_capacity(capacity))),
        TypeDescriptor::Float16 => Ok(Builder::Float16(PrimBuilder::with_capacity(capacity))),
        TypeDescriptor::Float32 => Ok(Builder::Float32(PrimBuilder::with_capacity(capacity))),
        TypeDescriptor::Float64 => Ok(Builder::Float64(PrimBuilder::with_capacity(capacity))),
        TypeDescriptor::Binary => Ok(Builder::Binary(PrimBuilder::with_capacity(capacity))),
        TypeDescriptor::LargeBinary => Ok(
            Builder::LargeBinary(PrimBuilder::with_capacity(capacity)),
        ),
        TypeDescriptor::FixedSizeBinary(n) => Ok(
            Builder::FixedSizeBinary(*n, PrimBuilder::with_capacity(capacity)),
        ),
        TypeDescriptor::Decimal128(p, s) => Ok(
            Builder::Decimal128(*p, *s, PrimBuilder::with_capacity(capacity)),
        ),
        TypeDescriptor::Decimal256(p, s) => Ok(
            Builder::Decimal256(*p, *s, PrimBuilder::with_capacity(capacity)),
        ),
        TypeDescriptor::Utf8 => Ok(Builder::Utf8(PrimBuilder::with_capacity(capacity))),
        TypeDescriptor::LargeUtf8 => Ok(Builder::LargeUtf8(PrimBuilder::with_capacity(capacity))),
        TypeDescriptor::Date32 => Ok(Builder::Date32(PrimBuilder::with_capacity(capacity))),
        TypeDescriptor::Date64 => Ok(Builder::Date64(PrimBuilder::with_capacity(capacity))),
        TypeDescriptor::Time32(TimeUnit::Second) => Ok(
            Builder::Time32Second(PrimBuilder::with_capacity(capacity)),
        ),
        TypeDescriptor::Time32(TimeUnit::Millisecond) => Ok(
            Builder::Time32Millisecond(PrimBuilder::with_capacity(capacity)),
        ),
        TypeDescriptor::Time64(TimeUnit::Microsecond) => Ok(
            Builder::Time64Microsecond(PrimBuilder::with_capacity(capacity)),
        ),
        TypeDescriptor::Time64(TimeUnit::Nanosecond) => Ok(
            Builder::Time64Nanosecond(PrimBuilder::with_capacity(capacity)),
        ),
        TypeDescriptor::Timestamp(TimeUnit::Second, z) => Ok(
            Builder::TimestampSecond(clone_opt_str(z), PrimBuilder::with_capacity(capacity)),
        ),
        TypeDescriptor::Timestamp(TimeUnit::Millisecond, z) => Ok(
            Builder::TimestampMillisecond(clone_opt_str(z), PrimBuilder::with_capacity(capacity)),
        ),
        TypeDescriptor::Timestamp(TimeUnit::Microsecond, z) => Ok(
            Builder::TimestampMicrosecond(clone_opt_str(z), PrimBuilder::with_capacity(capacity)),
        ),
        TypeDescriptor::Timestamp(TimeUnit::Nanosecond, z) => Ok(
            Builder::TimestampNanosecond(clone_opt_str(z), PrimBuilder::with_capacity(capacity)),
        ),
        TypeDescriptor::Interval(IntervalUnit::YearMonth) => Ok(
            Builder::IntervalYearMonth(PrimBuilder::with_capacity(capacity)),
        ),
        TypeDescriptor::Interval(IntervalUnit::DayTime) => Ok(
            Builder::IntervalDayTime(PrimBuilder::with_capacity(capacity)),
        ),
        TypeDescriptor::Interval(IntervalUnit::MonthDayNano) => Ok(
            Builder::IntervalMonthDayNano(PrimBuilder::with_capacity(capacity)),
        ),
        TypeDescriptor::Duration(TimeUnit::Second) => Ok(
            Builder::DurationSecond(PrimBuilder::with_capacity(capacity)),
        ),
        TypeDescriptor::Duration(TimeUnit::Millisecond) => Ok(
            Builder::DurationMillisecond(PrimBuilder::with_capacity(capacity)),
        ),
        TypeDescriptor::Duration(TimeUnit::Microsecond) => Ok(
            Builder::DurationMicrosecond(PrimBuilder::with_capacity(capacity)),
        ),
        TypeDescriptor::Duration(TimeUnit::Nanosecond) => Ok(
            Builder::DurationNanosecond(PrimBuilder::with_capacity(capacity)),
        ),
        TypeDescriptor::List(e) => match make_builder(e, capacity) {
            Ok(inner) => Ok(
                Builder::List(
                    ListBuilder {
                        inner: Box::new(inner),
                        starts: Vec::with_capacity(capacity),
                        ends: Vec::with_capacity(capacity),
                        valid: Vec::with_capacity(capacity),
                    },
                ),
            ),
            Err(err) => Err(err),
        },
        TypeDescriptor::LargeList(e) => match make_builder(e, capacity) {
            Ok(inner) => Ok(
                Builder::LargeList(
                    ListBuilder {
                        inner: Box::new(inner),
                        starts: Vec::with_capacity(capacity),
                        ends: Vec::with_capacity(capacity),
                        valid: Vec::with_capacity(capacity),
                    },
                ),
            ),
            Err(err) => Err(err),
        },
        TypeDescriptor::FixedSizeList(e, n) => match make_builder(e, capacity) {
            Ok(inner) => Ok(
                Builder::FixedSizeList(
                    *n,
                    ListBuilder {
                        inner: Box::new(inner),
                        starts: Vec::with_capacity(capacity),
                        ends: Vec::with_capacity(capacity),
                        valid: Vec::with_capacity(capacity),
                    },
                ),
            ),
            Err(err) => Err(err),
        },
        TypeDescriptor::Time32(_) => {
            let u = crate::types::td_clone(datatype);
            proof {
                crate::types::lemma_supported_congruent(u, *datatype);
            }
            Err(ErrorKind::UnsupportedType(u))
        },
        TypeDescriptor::Time64(_) => {
            let u = crate::types::td_clone(datatype);
            proof {
                crate::types::lemma_supported_congruent(u, *datatype);
            }
            Err(ErrorKind::UnsupportedType(u))
        },
    };
    proof {
        let ghost rr = r;
        match rr {
            Result::Ok(b) => {
                assert(b.model() =~= Seq::<ScalarModel>::empty());
            },
            Result::Err(_) => {},
        }
    }
    r
}

/// Closing one more row extends a list-family builder's model by that
/// row, and leaves the earlier rows as they were even where the inner
/// builder has grown.
proof fn lemma_list_model_push(
    old_lb: ListBuilder,
    new_lb: ListBuilder,
    g: spec_fn(Option<Seq<ScalarModel>>) -> ScalarModel,
)
    requires
        new_lb.starts@ == old_lb.starts@.push(new_lb.starts@.last()),
        new_lb.ends@ == old_lb.ends@.push(new_lb.ends@.last()),
        new_lb.valid@ == old_lb.valid@.push(new_lb.valid@.last()),
        old_lb.starts@.len() == old_lb.ends@.len(),
        old_lb.ends@.len() == old_lb.valid@.len(),
        forall|i: int|
            0 <= i < old_lb.ends@.len() ==> old_lb.starts@[i] as int <= #[trigger] old_lb.ends@[i] as int,
        forall|i: int|
            0 <= i < old_lb.ends@.len() ==> #[trigger] old_lb.ends@[i] as int
                <= old_lb.inner.model().len(),
        old_lb.inner.model().len() <= new_lb.inner.model().len(),
        forall|j: int|
            0 <= j < old_lb.inner.model().len() ==> new_lb.inner.model()[j]
                == #[trigger] old_lb.inner.model()[j],
    ensures
        list_model(new_lb, g) == list_model(old_lb, g).push(
            g(
                row_model(
                    new_lb.inner.model(),
                    new_lb.starts@,
                    new_lb.ends@,
                    new_lb.valid@,
                    old_lb.ends@.len() as int,
                ),
            ),
        ),
{
    let im_o = old_lb.inner.model();
    let im_n = new_lb.inner.model();
    let k = old_lb.ends@.len() as int;
    assert forall|i: int| 0 <= i < k implies row_model(
        im_n,
        new_lb.starts@,
        new_lb.ends@,
        new_lb.valid@,
        i,
    ) == row_model(im_o, old_lb.starts@, old_lb.ends@, old_lb.valid@, i) by {
        if old_lb.valid@[i] {
            let s = old_lb.starts@[i] as int;
            let e = old_lb.ends@[i] as int;
            assert(im_n.subrange(s, e) =~= im_o.subrange(s, e));
        }
    }
    assert(list_model(new_lb, g) =~= list_model(old_lb, g).push(
        g(row_model(im_n, new_lb.starts@, new_lb.ends@, new_lb.valid@, k)),
    ));
}

/// A list-family builder's model only reads closed rows: growing the
/// inner builder without closing a row leaves the model unchanged.
proof fn lemma_list_model_stable(
    old_lb: ListBuilder,
    new_lb: ListBuilder,
    g: spec_fn(Option<Seq<ScalarModel>>) -> ScalarModel,
)
    requires
        new_lb.starts@ == old_lb.starts@,
        new_lb.ends@ == old_lb.ends@,
        new_lb.valid@ == old_lb.valid@,
        old_lb.starts@.len() == old_lb.ends@.len(),
        old_lb.ends@.len() == old_lb.valid@.len(),
        forall|i: int|
            0 <= i < old_lb.ends@.len() ==> old_lb.starts@[i] as int <= #[trigger] old_lb.ends@[i] as int,
        forall|i: int|
            0 <= i < old_lb.ends@.len() ==> #[trigger] old_lb.ends@[i] as int
                <= old_lb.inner.model().len(),
        old_lb.inner.model().len() <= new_lb.inner.model().len(),
        forall|j: int|
            0 <= j < old_lb.inner.model().len() ==> new_lb.inner.model()[j]
                == #[trigger] old_lb.inner.model()[j],
    ensures
        list_model(new_lb, g) == list_model(old_lb, g),
{
    let im_o = old_lb.inner.model();
    let im_n = new_lb.inner.model();
    let k = old_lb.ends@.len() as int;
    assert forall|i: int| 0 <= i < k implies row_model(
        im_n,
        new_lb.starts@,
        new_lb.ends@,
        new_lb.valid@,
        i,
    ) == row_model(im_o, old_lb.starts@, old_lb.ends@, old_lb.valid@, i) by {
        if old_lb.valid@[i] {
            let s = old_lb.starts@[i] as int;
            let e = old_lb.ends@[i] as int;
            assert(im_n.subrange(s, e) =~= im_o.subrange(s, e));
        }
    }
    assert(list_model(new_lb, g) =~= list_model(old_lb, g));
}

/// Growing the inner builder and closing at most one in-bounds row keeps
/// a list-family store well-formed.
proof fn lemma_list_wf_after(old_lb: ListBuilder, new_lb: ListBuilder)
    requires
        list_wf(old_lb),
        new_lb.inner.wf(),
        old_lb.inner.model().len() <= new_lb.inner.model().len(),
        new_lb.starts@.len() == new_lb.ends@.len(),
        new_lb.ends@.len() == new_lb.valid@.len(),
        old_lb.starts@.len() <= new_lb.starts@.len(),
        new_lb.starts@.len() <= old_lb.starts@.len() + 1,
        forall|i: int|
            0 <= i < old_lb.starts@.len() ==> #[trigger] new_lb.starts@[i] == old_lb.starts@[i],
        forall|i: int|
            0 <= i < old_lb.ends@.len() ==> #[trigger] new_lb.ends@[i] == old_lb.ends@[i],
        new_lb.starts@.len() > old_lb.starts@.len() ==> new_lb.starts@.last() as int
            <= new_lb.ends@.last() as int && new_lb.ends@.last() as int
            <= new_lb.inner.model().len(),
    ensures
        list_wf(new_lb),
{
    let k = old_lb.ends@.len() as int;
    assert forall|i: int| 0 <= i < new_lb.ends@.len() implies new_lb.starts@[i] as int
        <= #[trigger] new_lb.ends@[i] as int by {
        if i < k {
            assert(new_lb.starts@[i] == old_lb.starts@[i]);
            assert(new_lb.ends@[i] == old_lb.ends@[i]);
        }
    }
    assert forall|i: int| 0 <= i < new_lb.ends@.len() implies #[trigger] new_lb.ends@[i] as int
        <= new_lb.inner.model().len() by {
        if i < k {
            assert(new_lb.ends@[i] == old_lb.ends@[i]);
        }
    }
}

/// Closing at most one row of the declared length keeps the fixed-size
/// row records consistent.
proof fn lemma_fixed_rows_after(old_lb: ListBuilder, new_lb: ListBuilder, n: i32)
    requires
        fixed_rows_ok(old_lb, n),
        new_lb.starts@.len() == new_lb.ends@.len(),
        new_lb.ends@.len() == new_lb.valid@.len(),
        old_lb.starts@.len() == old_lb.ends@.len(),
        old_lb.ends@.len() == old_lb.valid@.len(),
        old_lb.starts@.len() <= new_lb.starts@.len(),
        new_lb.starts@.len() <= old_lb.starts@.len() + 1,
        forall|i: int|
            0 <= i < old_lb.starts@.len() ==> #[trigger] new_lb.starts@[i] == old_lb.starts@[i],
        forall|i: int|
            0 <= i < old_lb.ends@.len() ==> #[trigger] new_lb.ends@[i] == old_lb.ends@[i],
        forall|i: int|
            0 <= i < old_lb.valid@.len() ==> #[trigger] new_lb.valid@[i] == old_lb.valid@[i],
        new_lb.valid@.len() > old_lb.valid@.len() ==> (new_lb.valid@.last()
            ==> new_lb.ends@.last() as int - new_lb.starts@.last() as int == n as int),
    ensures
        fixed_rows_ok(new_lb, n),
{
    let k = old_lb.ends@.len() as int;
    assert forall|i: int|
        0 <= i < new_lb.ends@.len() && #[trigger] new_lb.valid@[i] implies new_lb.ends@[i] as int
        - new_lb.starts@[i] as int == n as int by {
        if i < k {
            assert(new_lb.valid@[i] == old_lb.valid@[i]);
            assert(new_lb.ends@[i] == old_lb.ends@[i]);
            assert(new_lb.starts@[i] == old_lb.starts@[i]);
        }
    }
}

/// Closes one null row on a list-family store.
fn close_null_row(lb: ListBuilder) -> (r: ListBuilder)
    requires
        list_wf(lb),
    ensures
        list_wf(r),
        r.inner == lb.inner,
        r.starts@ == lb.starts@.push(r.starts@.last()),
        r.ends@ == lb.ends@.push(r.ends@.last()),
        r.valid@ == lb.valid@.push(false),
{
    let mut lb = lb;
    let e = lb.inner.len();
    lb.starts.push(e);
    lb.ends.push(e);
    lb.valid.push(false);
    lb
}

/// Records a null, whatever the builder's type.
fn append_null(b: Builder) -> (r: Builder)
    requires
        b.wf(),
    ensures
        r.wf(),
        r.typ() == b.typ(),
        r.model() == b.model().push(stored(ScalarModel::Null, b.typ())),
{
    match b {
        Builder::Null(mut pb) => {
            let ghost n0 = pb.values@.len();
            pb.values.push(Option::None);
            proof {
                assert(Seq::new(pb.values@.len(), |i: int| ScalarModel::Null) =~= Seq::new(
                    n0,
                    |i: int| ScalarModel::Null,
                ).push(ScalarModel::Null));
            }
            Builder::Null(pb)
        },
        Builder::Boolean(mut pb) => {
            proof {
                lemma_prim_model_push(
                    pb.values@,
                    Option::<bool>::None,
                    |x: Option<bool>| ScalarModel::Boolean(x),
                );
            }
            pb.values.push(Option::None);
            Builder::Boolean(pb)
        },
        Builder::Int8(mut pb) => {
            proof {
                lemma_prim_model_push(
                    pb.values@,
                    Option::<i8>::None,
                    |x: Option<i8>| ScalarModel::Int8(x),
                );
            }
            pb.values.push(Option::None);
            Builder::Int8(pb)
        },
        Builder::Int16(mut pb) => {
            proof {
                lemma_prim_model_push(
                    pb.values@,
                    Option::<i16>::None,
                    |x: Option<i16>| ScalarModel::Int16(x),
                );
            }
            pb.values.push(Option::None);
            Builder::Int16(pb)
        },
        Builder::Int32(mut pb) => {
            proof {
                lemma_prim_model_push(
                    pb.values@,
                    Option::<i32>::None,
                    |x: Option<i32>| ScalarModel::Int32(x),
                );
            }
            pb.values.push(Option::None);
            Builder::Int32(pb)
        },
        Builder::Int64(mut pb) => {
            proof {
                lemma_prim_model_push(
                    pb.values@,
                    Option::<i64>::None,
                    |x: Option<i64>| ScalarModel::Int64(x),
                );
            }
            pb.values.push(Option::None);
            Builder::Int64(pb)
        },
        Builder::UInt8(mut pb) => {
            proof {
                lemma_prim_model_push(
                    pb.values@,
                    Option::<u8>::None,
                    |x: Option<u8>| ScalarModel::UInt8(x),
                );
            }
            pb.values.push(Option::None);
            Builder::UInt8(pb)
        },
        Builder::UInt16(mut pb) => {
            proof {
                lemma_prim_model_push(
                    pb.values@,
                    Option::<u16>::None,
                    |x: Option<u16>| ScalarModel::UInt16(x),
                );
            }
            pb.values.push(Option::None);
            Builder::UInt16(pb)
        },
        Builder::UInt32(mut pb) => {
            proof {
                lemma_prim_model_push(
                    pb.values@,
                    Option::<u32>::None,
                    |x: Option<u32>| ScalarModel::UInt32(x),
                );
            }
            pb.values.push(Option::None);
            Builder::UInt32(pb)
        },
        Builder::UInt64(mut pb) => {
            proof {
                lemma_prim_model_push(
                    pb.values@,
                    Option::<u64>::None,
                    |x: Option<u64>| ScalarModel::UInt64(x),
                );
            }
            pb.values.push(Option::None);
            Builder::UInt64(pb)
        },
        Builder::Float16(mut pb) => {
            proof {
                lemma_prim_model_push(
                    pb.values@,
                    Option::<u16>::None,
                    |x: Option<u16>| ScalarModel::Float16(x),
                );
            }
            pb.values.push(Option::None);
            Builder::Float16(pb)
        },
        Builder::Float32(mut pb) => {
            proof {
                lemma_prim_model_push(
                    pb.values@,
                    Option::<u32>::None,
                    |x: Option<u32>| ScalarModel::Float32(x),
                );
            }
            pb.values.push(Option::None);
            Builder::Float32(pb)
        },
        Builder::Float64(mut pb) => {
            proof {
                lemma_prim_model_push(
                    pb.values@,
                    Option::<u64>::None,
                    |x: Option<u64>| ScalarModel::Float64(x),
                );
            }
            pb.values.push(Option::None);
            Builder::Float64(pb)
        },
        Builder::Binary(mut pb) => {
            proof {
                lemma_prim_model_push(
                    pb.values@,
                    Option::<Vec<u8>>::None,
                    |x: Option<Vec<u8>>| ScalarModel::Binary(crate::value::obv(x)),
                );
            }
            pb.values.push(Option::None);
            Builder::Binary(pb)
        },
        Builder::LargeBinary(mut pb) => {
            proof {
                lemma_prim_model_push(
                    pb.values@,
                    Option::<Vec<u8>>::None,
                    |x: Option<Vec<u8>>| ScalarModel::LargeBinary(crate::value::obv(x)),
                );
            }
            pb.values.push(Option::None);
            Builder::LargeBinary(pb)
        },
        Builder::FixedSizeBinary(n, mut pb) => {
            proof {
                lemma_prim_model_push(
                    pb.values@,
                    Option::<Vec<u8>>::None,
                    |x: Option<Vec<u8>>| ScalarModel::FixedSizeBinary(n, crate::value::obv(x)),
                );
            }
            pb.values.push(Option::None);
            Builder::FixedSizeBinary(n, pb)
        },
        Builder::Decimal128(p, s, mut pb) => {
            proof {
                lemma_prim_model_push(
                    pb.values@,
                    Option::<i128>::None,
                    |x: Option<i128>| ScalarModel::Decimal128(x, p, s),
                );
            }
            pb.values.push(Option::None);
            Builder::Decimal128(p, s, pb)
        },
        Builder::Decimal256(p, s, mut pb) => {
            proof {
                lemma_prim_model_push(
                    pb.values@,
                    Option::<Int256>::None,
                    |x: Option<Int256>| ScalarModel::Decimal256(x, p, s),
                );
            }
            pb.values.push(Option::None);
            Builder::Decimal256(p, s, pb)
        },
        Builder::Utf8(mut pb) => {
            proof {
                lemma_prim_model_push(
                    pb.values@,
                    Option::<String>::None,
                    |x: Option<String>| ScalarModel::Utf8(crate::value::osv(x)),
                );
            }
            pb.values.push(Option::None);
            Builder::Utf8(pb)
        },
        Builder::LargeUtf8(mut pb) => {
            proof {
                lemma_prim_model_push(
                    pb.values@,
                    Option::<String>::None,
                    |x: Option<String>| ScalarModel::LargeUtf8(crate::value::osv(x)),
                );
            }
            pb.values.push(Option::None);
            Builder::LargeUtf8(pb)
        },
        Builder::Date32(mut pb) => {
            proof {
                lemma_prim_model_push(
                    pb.values@,
                    Option::<i32>::None,
                    |x: Option<i32>| ScalarModel::Date32(x),
                );
            }
            pb.values.push(Option::None);
            Builder::Date32(pb)
        },
        Builder::Date64(mut pb) => {
            proof {
                lemma_prim_model_push(
                    pb.values@,
                    Option::<i64>::None,
                    |x: Option<i64>| ScalarModel::Date64(x),
                );
            }
            pb.values.push(Option::None);
            Builder::Date64(pb)
        },
        Builder::Time32Second(mut pb) => {
            proof {
                lemma_prim_model_push(
                    pb.values@,
                    Option::<i32>::None,
                    |x: Option<i32>| ScalarModel::Time32Second(x),
                );
            }
            pb.values.push(Option::None);
            Builder::Time32Second(pb)
        },
        Builder::Time32Millisecond(mut pb) => {
            proof {
                lemma_prim_model_push(
                    pb.values@,
                    Option::<i32>::None,
                    |x: Option<i32>| ScalarModel::Time32Millisecond(x),
                );
            }
            pb.values.push(Option::None);
            Builder::Time32Millisecond(pb)
        },
        Builder::Time64Microsecond(mut pb) => {
            proof {
                lemma_prim_model_push(
                    pb.values@,
                    Option::<i64>::None,
                    |x: Option<i64>| ScalarModel::Time64Microsecond(x),
                );
            }
            pb.values.push(Option::None);
            Builder::Time64Microsecond(pb)
        },
        Builder::Time64Nanosecond(mut pb) => {
            proof {
                lemma_prim_model_push(
                    pb.values@,
                    Option::<i64>::None,
                    |x: Option<i64>| ScalarModel::Time64Nanosecond(x),
                );
            }
            pb.values.push(Option::None);
            Builder::Time64Nanosecond(pb)
        },
        Builder::TimestampSecond(z, mut pb) => {
            proof {
                lemma_prim_model_push(
                    pb.values@,
                    Option::<i64>::None,
                    |x: Option<i64>| ScalarModel::TimestampSecond(x, crate::value::osv(z)),
                );
            }
            pb.values.push(Option::None);
            Builder::TimestampSecond(z, pb)
        },
        Builder::TimestampMillisecond(z, mut pb) => {
            proof {
                lemma_prim_model_push(
                    pb.values@,
                    Option::<i64>::None,
                    |x: Option<i64>| ScalarModel::TimestampMillisecond(x, crate::value::osv(z)),
                );
            }
            pb.values.push(Option::None);
            Builder::TimestampMillisecond(z, pb)
        },
        Builder::TimestampMicrosecond(z, mut pb) => {
            proof {
                lemma_prim_model_push(
                    pb.values@,
                    Option::<i64>::None,
                    |x: Option<i64>| ScalarModel::TimestampMicrosecond(x, crate::value::osv(z)),
                );
            }
            pb.values.push(Option::None);
            Builder::TimestampMicrosecond(z, pb)
        },
        Builder::TimestampNanosecond(z, mut pb) => {
            proof {
                lemma_prim_model_push(
                    pb.values@,
                    Option::<i64>::None,
                    |x: Option<i64>| ScalarModel::TimestampNanosecond(x, crate::value::osv(z)),
                );
            }
            pb.values.push(Option::None);
            Builder::TimestampNanosecond(z, pb)
        },
        Builder::IntervalYearMonth(mut pb) => {
            proof {
                lemma_prim_model_push(
                    pb.values@,
                    Option::<i32>::None,
                    |x: Option<i32>| ScalarModel::IntervalYearMonth(x),
                );
            }
            pb.values.push(Option::None);
            Builder::IntervalYearMonth(pb)
        },
        Builder::IntervalDayTime(mut pb) => {
            proof {
                lemma_prim_model_push(
                    pb.values@,
                    Option::<(i32, i32)>::None,
                    |x: Option<(i32, i32)>| ScalarModel::IntervalDayTime(x),
                );
            }
            pb.values.push(Option::None);
            Builder::IntervalDayTime(pb)
        },
        Builder::IntervalMonthDayNano(mut pb) => {
            proof {
                lemma_prim_model_push(
                    pb.values@,
                    Option::<(i32, i32, i64)>::None,
                    |x: Option<(i32, i32, i64)>| ScalarModel::IntervalMonthDayNano(x),
                );
            }
            pb.values.push(Option::None);
            Builder::IntervalMonthDayNano(pb)
        },
        Builder::DurationSecond(mut pb) => {
            proof {
                lemma_prim_model_push(
                    pb.values@,
                    Option::<i64>::None,
                    |x: Option<i64>| ScalarModel::DurationSecond(x),
                );
            }
            pb.values.push(Option::None);
            Builder::DurationSecond(pb)
        },
        Builder::DurationMillisecond(mut pb) => {
            proof {
                lemma_prim_model_push(
                    pb.values@,
                    Option::<i64>::None,
                    |x: Option<i64>| ScalarModel::DurationMillisecond(x),
                );
            }
            pb.values.push(Option::None);
            Builder::DurationMillisecond(pb)
        },
        Builder::DurationMicrosecond(mut pb) => {
            proof {
                lemma_prim_model_push(
                    pb.values@,
                    Option::<i64>::None,
                    |x: Option<i64>| ScalarModel::DurationMicrosecond(x),
                );
            }
            pb.values.push(Option::None);
            Builder::DurationMicrosecond(pb)
        },
        Builder::DurationNanosecond(mut pb) => {
            proof {
                lemma_prim_model_push(
                    pb.values@,
                    Option::<i64>::None,
                    |x: Option<i64>| ScalarModel::DurationNanosecond(x),
                );
            }
            pb.values.push(Option::None);
            Builder::DurationNanosecond(pb)
        },
        Builder::List(lb) => {
            let ghost old_lb = lb;
            let lb = close_null_row(lb);
            proof {
                lemma_list_model_push(
                    old_lb,
                    lb,
                    |rr: Option<Seq<ScalarModel>>| ScalarModel::List(rr),
                );
            }
            Builder::List(lb)
        },
        Builder::LargeList(lb) => {
            let ghost old_lb = lb;
            let lb = close_null_row(lb);
            proof {
                lemma_list_model_push(
                    old_lb,
                    lb,
                    |rr: Option<Seq<ScalarModel>>| ScalarModel::LargeList(rr),
                );
            }
            Builder::LargeList(lb)
        },
        Builder::FixedSizeList(n, lb) => {
            let ghost old_lb = lb;
            let lb = close_null_row(lb);
            proof {
                lemma_list_model_push(
                    old_lb,
                    lb,
                    |rr: Option<Seq<ScalarModel>>| ScalarModel::FixedSizeList(rr),
                );
            }
            Builder::FixedSizeList(n, lb)
        },
    }
}

/// Appends one row's elements to the inner element builder, left to
/// right, stopping at the first element the inner builder rejects.
#[verifier::loop_isolation(false)]
fn append_row(inner: Builder, vals: Vec<ScalarValue>) -> (res: (Builder, Result<(), ErrorKind>))
    requires
        inner.wf(),
    ensures
        res.0.wf(),
        res.0.typ() == inner.typ(),
        inner.model().len() <= res.0.model().len(),
        forall|j: int| 0 <= j < inner.model().len() ==> res.0.model()[j] == #[trigger] inner.model()[j],
        match res.1 {
            Result::Ok(()) => fits_seq(seq_model(vals@), inner.typ()) && res.0.model()
                == inner.model() + stored_seq(seq_model(vals@), inner.typ()),
            Result::Err(e) => e == ErrorKind::TypeMismatch && !fits_seq(
                seq_model(vals@),
                inner.typ(),
            ),
        },
    decreases vals@, 0int,
{
    let ghost vals0 = vals@;
    let ghost sm = seq_model(vals0);
    let ghost t_e = inner.typ();
    let ghost im0 = inner.model();
    proof {
        lemma_seq_model(vals0);
    }
    let mut cur = inner;
    let mut rest = vals;
    let mut j: usize = 0;
    let n = rest.len();
    while j < n
        invariant
            n == vals0.len(),
            j <= n,
            rest@ == vals0.subrange(j as int, n as int),
            cur.wf(),
            cur.typ() == t_e,
            sm == seq_model(vals0),
            sm.len() == vals0.len(),
            forall|i: int| 0 <= i < vals0.len() ==> sm[i] == sv_model(#[trigger] vals0[i]),
            fits_seq(sm.subrange(0, j as int), t_e),
            cur.model() == im0 + stored_seq(sm.subrange(0, j as int), t_e),
        decreases n - j,
    {
        let el = rest.remove(0);
        proof {
            assert(el == vals0[j as int]);
            assert(decreases_to!(vals0 => el));
            assert(rest@ =~= vals0.subrange(j as int + 1, n as int));
        }
        let ghost cur0_model = cur.model();
        let (c2, r) = append_value(cur, el);
        cur = c2;
        match r {
            Result::Ok(()) => {
                proof {
                    let s1 = sm.subrange(0, j as int + 1);
                    assert(s1.subrange(0, s1.len() - 1) =~= sm.subrange(0, j as int));
                    assert(s1[s1.len() - 1] == sm[j as int]);
                    assert(cur.model() =~= im0 + stored_seq(s1, t_e));
                    assert forall|i: int| 0 <= i < j as int + 1 implies fits(
                        #[trigger] s1[i],
                        t_e,
                    ) by {
                        if i < j as int {
                            assert(sm.subrange(0, j as int)[i] == s1[i]);
                        }
                    }
                }
                j = j + 1;
            },
            Result::Err(e) => {
                proof {
                    assert(!fits(sm[j as int], t_e));
                    assert(!fits_seq(sm, t_e));
                }
                return (cur, Result::Err(e));
            },
        }
    }
    proof {
        assert(sm.subrange(0, n as int) =~= sm);
    }
    (cur, Result::Ok(()))
}

/// Appends one scalar value by value; the workhorse behind
/// [`Builder::append_scalar_value`].
#[verifier::rlimit(100)]
fn append_value(b: Builder, v: ScalarValue) -> (res: (Builder, Result<(), ErrorKind>))
    requires
        b.wf(),
    ensures
        res.0.wf(),
        res.0.typ() == b.typ(),
        b.model().len() <= res.0.model().len(),
        forall|j: int| 0 <= j < b.model().len() ==> res.0.model()[j] == #[trigger] b.model()[j],
        match res.1 {
            Result::Ok(()) => fits(v@, b.typ()) && res.0.model() == b.model().push(
                stored(v@, b.typ()),
            ),
            Result::Err(e) => e == ErrorKind::TypeMismatch && !fits(v@, b.typ()) && res.0.model()
                == b.model(),
        },
    decreases v, 1int,
{
    match v {
        ScalarValue::Null => (append_null(b), Result::Ok(())),
        vv => match (b, vv) {
            (Builder::Boolean(mut pb), ScalarValue::Boolean(o)) => {
                proof {
                    lemma_prim_model_push(pb.values@, o, |x: Option<bool>| ScalarModel::Boolean(x));
                }
                pb.values.push(o);
                (Builder::Boolean(pb), Result::Ok(()))
            },
            (Builder::Int8(mut pb), ScalarValue::Int8(o)) => {
                proof {
                    lemma_prim_model_push(pb.values@, o, |x: Option<i8>| ScalarModel::Int8(x));
                }
                pb.values.push(o);
                (Builder::Int8(pb), Result::Ok(()))
            },
            (Builder::Int16(mut pb), ScalarValue::Int16(o)) => {
                proof {
                    lemma_prim_model_push(pb.values@, o, |x: Option<i16>| ScalarModel::Int16(x));
                }
                pb.values.push(o);
                (Builder::Int16(pb), Result::Ok(()))
            },
            (Builder::Int32(mut pb), ScalarValue::Int32(o)) => {
                proof {
                    lemma_prim_model_push(pb.values@, o, |x: Option<i32>| ScalarModel::Int32(x));
                }
                pb.values.push(o);
                (Builder::Int32(pb), Result::Ok(()))
            },
            (Builder::Int64(mut pb), ScalarValue::Int64(o)) => {
                proof {
                    lemma_prim_model_push(pb.values@, o, |x: Option<i64>| ScalarModel::Int64(x));
                }
                pb.values.push(o);
                (Builder::Int64(pb), Result::Ok(()))
            },
            (Builder::UInt8(mut pb), ScalarValue::UInt8(o)) => {
                proof {
                    lemma_prim_model_push(pb.values@, o, |x: Option<u8>| ScalarModel::UInt8(x));
                }
                pb.values.push(o);
                (Builder::UInt8(pb), Result::Ok(()))
            },
            (Builder::UInt16(mut pb), ScalarValue::UInt16(o)) => {
                proof {
                    lemma_prim_model_push(pb.values@, o, |x: Option<u16>| ScalarModel::UInt16(x));
                }
                pb.values.push(o);
                (Builder::UInt16(pb), Result::Ok(()))
            },
            (Builder::UInt32(mut pb), ScalarValue::UInt32(o)) => {
                proof {
                    lemma_prim_model_push(pb.values@, o, |x: Option<u32>| ScalarModel::UInt32(x));
                }
                pb.values.push(o);
                (Builder::UInt32(pb), Result::Ok(()))
            },
            (Builder::UInt64(mut pb), ScalarValue::UInt64(o)) => {
                proof {
                    lemma_prim_model_push(pb.values@, o, |x: Option<u64>| ScalarModel::UInt64(x));
                }
                pb.values.push(o);
                (Builder::UInt64(pb), Result::Ok(()))
            },
            (Builder::Float16(mut pb), ScalarValue::Float16(o)) => {
                proof {
                    lemma_prim_model_push(pb.values@, o, |x: Option<u16>| ScalarModel::Float16(x));
                }
                pb.values.push(o);
                (Builder::Float16(pb), Result::Ok(()))
            },
            (Builder::Float32(mut pb), ScalarValue::Float32(o)) => {
                proof {
                    lemma_prim_model_push(pb.values@, o, |x: Option<u32>| ScalarModel::Float32(x));
                }
                pb.values.push(o);
                (Builder::Float32(pb), Result::Ok(()))
            },
            (Builder::Float64(mut pb), ScalarValue::Float64(o)) => {
                proof {
                    lemma_prim_model_push(pb.values@, o, |x: Option<u64>| ScalarModel::Float64(x));
                }
                pb.values.push(o);
                (Builder::Float64(pb), Result::Ok(()))
            },
            (Builder::Binary(mut pb), ScalarValue::Binary(o)) => {
                proof {
                    lemma_prim_model_push(
                        pb.values@,
                        o,
                        |x: Option<Vec<u8>>| ScalarModel::Binary(crate::value::obv(x)),
                    );
                }
                pb.values.push(o);
                (Builder::Binary(pb), Result::Ok(()))
            },
            (Builder::LargeBinary(mut pb), ScalarValue::LargeBinary(o)) => {
                proof {
                    lemma_prim_model_push(
                        pb.values@,
                        o,
                        |x: Option<Vec<u8>>| ScalarModel::LargeBinary(crate::value::obv(x)),
                    );
                }
                pb.values.push(o);
                (Builder::LargeBinary(pb), Result::Ok(()))
            },
            (Builder::FixedSizeBinary(n, mut pb), ScalarValue::FixedSizeBinary(_, o)) => match o {
                Option::None => {
                    proof {
                        lemma_prim_model_push(
                            pb.values@,
                            Option::<Vec<u8>>::None,
                            |x: Option<Vec<u8>>| ScalarModel::FixedSizeBinary(
                                n,
                                crate::value::obv(x),
                            ),
                        );
                    }
                    pb.values.push(Option::None);
                    (Builder::FixedSizeBinary(n, pb), Result::Ok(()))
                },
                Option::Some(p) => {
                    if n >= 0 && p.len() == n as usize {
                        let ghost pv0 = pb.values@;
                        proof {
                            lemma_prim_model_push(
                                pb.values@,
                                Option::Some(p),
                                |x: Option<Vec<u8>>| ScalarModel::FixedSizeBinary(
                                    n,
                                    crate::value::obv(x),
                                ),
                            );
                        }
                        pb.values.push(Option::Some(p));
                        proof {
                            assert forall|i: int| 0 <= i < pb.values@.len() implies fsb_entry_ok(
                                #[trigger] pb.values@[i],
                                n,
                            ) by {
                                if i < pv0.len() {
                                    assert(pb.values@[i] == pv0[i]);
                                }
                            }
                        }
                        (Builder::FixedSizeBinary(n, pb), Result::Ok(()))
                    } else {
                        (Builder::FixedSizeBinary(n, pb), Result::Err(ErrorKind::TypeMismatch))
                    }
                },
            },
            (Builder::Decimal128(p, s, mut pb), ScalarValue::Decimal128(o, _, _)) => {
                proof {
                    lemma_prim_model_push(
                        pb.values@,
                        o,
                        |x: Option<i128>| ScalarModel::Decimal128(x, p, s),
                    );
                }
                pb.values.push(o);
                (Builder::Decimal128(p, s, pb), Result::Ok(()))
            },
            (Builder::Decimal256(p, s, mut pb), ScalarValue::Decimal256(o, _, _)) => {
                proof {
                    lemma_prim_model_push(
                        pb.values@,
                        o,
                        |x: Option<Int256>| ScalarModel::Decimal256(x, p, s),
                    );
                }
                pb.values.push(o);
                (Builder::Decimal256(p, s, pb), Result::Ok(()))
            },
            (Builder::Utf8(mut pb), ScalarValue::Utf8(o)) => {
                proof {
                    lemma_prim_model_push(
                        pb.values@,
                        o,
                        |x: Option<String>| ScalarModel::Utf8(crate::value::osv(x)),
                    );
                }
                pb.values.push(o);
                (Builder::Utf8(pb), Result::Ok(()))
            },
            (Builder::LargeUtf8(mut pb), ScalarValue::LargeUtf8(o)) => {
                proof {
                    lemma_prim_model_push(
                        pb.values@,
                        o,
                        |x: Option<String>| ScalarModel::LargeUtf8(crate::value::osv(x)),
                    );
                }
                pb.values.push(o);
                (Builder::LargeUtf8(pb), Result::Ok(()))
            },
            (Builder::Date32(mut pb), ScalarValue::Date32(o)) => {
                proof {
                    lemma_prim_model_push(pb.values@, o, |x: Option<i32>| ScalarModel::Date32(x));
                }
                pb.values.push(o);
                (Builder::Date32(pb), Result::Ok(()))
            },
            (Builder::Date64(mut pb), ScalarValue::Date64(o)) => {
                proof {
                    lemma_prim_model_push(pb.values@, o, |x: Option<i64>| ScalarModel::Date64(x));
                }
                pb.values.push(o);
                (Builder::Date64(pb), Result::Ok(()))
            },
            (Builder::Time32Second(mut pb), ScalarValue::Time32Second(o)) => {
                proof {
                    lemma_prim_model_push(
                        pb.values@,
                        o,
                        |x: Option<i32>| ScalarModel::Time32Second(x),
                    );
                }
                pb.values.push(o);
                (Builder::Time32Second(pb), Result::Ok(()))
            },
            (Builder::Time32Millisecond(mut pb), ScalarValue::Time32Millisecond(o)) => {
                proof {
                    lemma_prim_model_push(
                        pb.values@,
                        o,
                        |x: Option<i32>| ScalarModel::Time32Millisecond(x),
                    );
                }
                pb.values.push(o);
                (Builder::Time32Millisecond(pb), Result::Ok(()))
            },
            (Builder::Time64Microsecond(mut pb), ScalarValue::Time64Microsecond(o)) => {
                proof {
                    lemma_prim_model_push(
                        pb.values@,
                        o,
                        |x: Option<i64>| ScalarModel::Time64Microsecond(x),
                    );
                }
                pb.values.push(o);
                (Builder::Time64Microsecond(pb), Result::Ok(()))
            },
            (Builder::Time64Nanosecond(mut pb), ScalarValue::Time64Nanosecond(o)) => {
                proof {
                    lemma_prim_model_push(
                        pb.values@,
                        o,
                        |x: Option<i64>| ScalarModel::Time64Nanosecond(x),
                    );
                }
                pb.values.push(o);
                (Builder::Time64Nanosecond(pb), Result::Ok(()))
            },
            (Builder::TimestampSecond(z, mut pb), ScalarValue::TimestampSecond(o, _)) => {
                proof {
                    lemma_prim_model_push(
                        pb.values@,
                        o,
                        |x: Option<i64>| ScalarModel::TimestampSecond(x, crate::value::osv(z)),
                    );
                }
                pb.values.push(o);
                (Builder::TimestampSecond(z, pb), Result::Ok(()))
            },
            (
                Builder::TimestampMillisecond(z, mut pb),
                ScalarValue::TimestampMillisecond(o, _),
            ) => {
                proof {
                    lemma_prim_model_push(
                        pb.values@,
                        o,
                        |x: Option<i64>| ScalarModel::TimestampMillisecond(x, crate::value::osv(z)),
                    );
                }
                pb.values.push(o);
                (Builder::TimestampMillisecond(z, pb), Result::Ok(()))
            },
            (
                Builder::TimestampMicrosecond(z, mut pb),
                ScalarValue::TimestampMicrosecond(o, _),
            ) => {
                proof {
                    lemma_prim_model_push(
                        pb.values@,
                        o,
                        |x: Option<i64>| ScalarModel::TimestampMicrosecond(x, crate::value::osv(z)),
                    );
                }
                pb.values.push(o);
                (Builder::TimestampMicrosecond(z, pb), Result::Ok(()))
            },
            (Builder::TimestampNanosecond(z, mut pb), ScalarValue::TimestampNanosecond(o, _)) => {
                proof {
                    lemma_prim_model_push(
                        pb.values@,
                        o,
                        |x: Option<i64>| ScalarModel::TimestampNanosecond(x, crate::value::osv(z)),
                    );
                }
                pb.values.push(o);
                (Builder::TimestampNanosecond(z, pb), Result::Ok(()))
            },
            (Builder::IntervalYearMonth(mut pb), ScalarValue::IntervalYearMonth(o)) => {
                proof {
                    lemma_prim_model_push(
                        pb.values@,
                        o,
                        |x: Option<i32>| ScalarModel::IntervalYearMonth(x),
                    );
                }
                pb.values.push(o);
                (Builder::IntervalYearMonth(pb), Result::Ok(()))
            },
            (Builder::IntervalDayTime(mut pb), ScalarValue::IntervalDayTime(o)) => {
                proof {
                    lemma_prim_model_push(
                        pb.values@,
                        o,
                        |x: Option<(i32, i32)>| ScalarModel::IntervalDayTime(x),
                    );
                }
                pb.values.push(o);
                (Builder::IntervalDayTime(pb), Result::Ok(()))
            },
            (Builder::IntervalMonthDayNano(mut pb), ScalarValue::IntervalMonthDayNano(o)) => {
                proof {
                    lemma_prim_model_push(
                        pb.values@,
                        o,
                        |x: Option<(i32, i32, i64)>| ScalarModel::IntervalMonthDayNano(x),
                    );
                }
                pb.values.push(o);
                (Builder::IntervalMonthDayNano(pb), Result::Ok(()))
            },
            (Builder::DurationSecond(mut pb), ScalarValue::DurationSecond(o)) => {
                proof {
                    lemma_prim_model_push(
                        pb.values@,
                        o,
                        |x: Option<i64>| ScalarModel::DurationSecond(x),
                    );
                }
                pb.values.push(o);
                (Builder::DurationSecond(pb), Result::Ok(()))
            },
            (Builder::DurationMillisecond(mut pb), ScalarValue::DurationMillisecond(o)) => {
                proof {
                    lemma_prim_model_push(
                        pb.values@,
                        o,
                        |x: Option<i64>| ScalarModel::DurationMillisecond(x),
                    );
                }
                pb.values.push(o);
                (Builder::DurationMillisecond(pb), Result::Ok(()))
            },
            (Builder::DurationMicrosecond(mut pb), ScalarValue::DurationMicrosecond(o)) => {
                proof {
                    lemma_prim_model_push(
                        pb.values@,
                        o,
                        |x: Option<i64>| ScalarModel::DurationMicrosecond(x),
                    );
                }
                pb.values.push(o);
                (Builder::DurationMicrosecond(pb), Result::Ok(()))
            },
            (Builder::DurationNanosecond(mut pb), ScalarValue::DurationNanosecond(o)) => {
                proof {
                    lemma_prim_model_push(
                        pb.values@,
                        o,
                        |x: Option<i64>| ScalarModel::DurationNanosecond(x),
                    );
                }
                pb.values.push(o);
                (Builder::DurationNanosecond(pb), Result::Ok(()))
            },
            (Builder::List(lb), ScalarValue::List(_, r)) => match r {
                Option::None => {
                    let ghost old_lb = lb;
                    let lb = close_null_row(lb);
                    proof {
                        lemma_list_model_push(
                            old_lb,
                            lb,
                            |rr: Option<Seq<ScalarModel>>| ScalarModel::List(rr),
                        );
                    }
                    (Builder::List(lb), Result::Ok(()))
                },
                Option::Some(c) => {
                    let ghost old_lb = lb;
                    let ghost t_e = lb.inner.typ();
                    let ListBuilder { inner, mut starts, mut ends, mut valid } = lb;
                    let s0 = inner.len();
                    proof {
                        assert(decreases_to!(vv => c.values@));
                    }
                    let (inner2, r2) = append_row(*inner, c.values);
                    match r2 {
                        Result::Err(e) => {
                            let lb2 = ListBuilder { inner: Box::new(inner2), starts, ends, valid };
                            proof {
                                lemma_list_model_stable(
                                    old_lb,
                                    lb2,
                                    |rr: Option<Seq<ScalarModel>>| ScalarModel::List(rr),
                                );
                                lemma_list_wf_after(old_lb, lb2);
                            }
                            (Builder::List(lb2), Result::Err(e))
                        },
                        Result::Ok(()) => {
                            let e2 = inner2.len();
                            starts.push(s0);
                            ends.push(e2);
                            valid.push(true);
                            let lb2 = ListBuilder { inner: Box::new(inner2), starts, ends, valid };
                            proof {
                                lemma_list_model_push(
                                    old_lb,
                                    lb2,
                                    |rr: Option<Seq<ScalarModel>>| ScalarModel::List(rr),
                                );
                                lemma_list_wf_after(old_lb, lb2);
                                assert(lb2.inner.model().subrange(s0 as int, e2 as int)
                                    =~= stored_seq(seq_model(c.values@), t_e));
                            }
                            (Builder::List(lb2), Result::Ok(()))
                        },
                    }
                },
            },
            (Builder::LargeList(lb), ScalarValue::LargeList(_, r)) => match r {
                Option::None => {
                    let ghost old_lb = lb;
                    let lb = close_null_row(lb);
                    proof {
                        lemma_list_model_push(
                            old_lb,
                            lb,
                            |rr: Option<Seq<ScalarModel>>| ScalarModel::LargeList(rr),
                        );
                    }
                    (Builder::LargeList(lb), Result::Ok(()))
                },
                Option::Some(c) => {
                    let ghost old_lb = lb;
                    let ghost t_e = lb.inner.typ();
                    let ListBuilder { inner, mut starts, mut ends, mut valid } = lb;
                    let s0 = inner.len();
                    proof {
                        assert(decreases_to!(vv => c.values@));
                    }
                    let (inner2, r2) = append_row(*inner, c.values);
                    match r2 {
                        Result::Err(e) => {
                            let lb2 = ListBuilder { inner: Box::new(inner2), starts, ends, valid };
                            proof {
                                lemma_list_model_stable(
                                    old_lb,
                                    lb2,
                                    |rr: Option<Seq<ScalarModel>>| ScalarModel::LargeList(rr),
                                );
                                lemma_list_wf_after(old_lb, lb2);
                            }
                            (Builder::LargeList(lb2), Result::Err(e))
                        },
                        Result::Ok(()) => {
                            let e2 = inner2.len();
                            starts.push(s0);
                            ends.push(e2);
                            valid.push(true);
                            let lb2 = ListBuilder { inner: Box::new(inner2), starts, ends, valid };
                            proof {
                                lemma_list_model_push(
                                    old_lb,
                                    lb2,
                                    |rr: Option<Seq<ScalarModel>>| ScalarModel::LargeList(rr),
                                );
                                lemma_list_wf_after(old_lb, lb2);
                                assert(lb2.inner.model().subrange(s0 as int, e2 as int)
                                    =~= stored_seq(seq_model(c.values@), t_e));
                            }
                            (Builder::LargeList(lb2), Result::Ok(()))
                        },
                    }
                },
            },
            (Builder::FixedSizeList(n, lb), ScalarValue::FixedSizeList(_, _, r)) => match r {
                Option::None => {
                    let ghost old_lb = lb;
                    let lb = close_null_row(lb);
                    proof {
                        lemma_list_model_push(
                            old_lb,
                            lb,
                            |rr: Option<Seq<ScalarModel>>| ScalarModel::FixedSizeList(rr),
                        );
                    }
                    (Builder::FixedSizeList(n, lb), Result::Ok(()))
                },
                Option::Some(c) => {
                    proof {
                        lemma_seq_model(c.values@);
                    }
                    if n < 0 || c.values.len() != n as usize {
                        (Builder::FixedSizeList(n, lb), Result::Err(ErrorKind::TypeMismatch))
                    } else {
                        let ghost old_lb = lb;
                        let ghost t_e = lb.inner.typ();
                        let ListBuilder { inner, mut starts, mut ends, mut valid } = lb;
                        let s0 = inner.len();
                        proof {
                            assert(decreases_to!(vv => c.values@));
                        }
                        let (inner2, r2) = append_row(*inner, c.values);
                        match r2 {
                            Result::Err(e) => {
                                let lb2 = ListBuilder {
                                    inner: Box::new(inner2),
                                    starts,
                                    ends,
                                    valid,
                                };
                                proof {
                                    lemma_list_model_stable(
                                        old_lb,
                                        lb2,
                                        |rr: Option<Seq<ScalarModel>>| ScalarModel::FixedSizeList(
                                            rr,
                                        ),
                                    );
                                    lemma_list_wf_after(old_lb, lb2);
                                    lemma_fixed_rows_after(old_lb, lb2, n);
                                }
                                (Builder::FixedSizeList(n, lb2), Result::Err(e))
                            },
                            Result::Ok(()) => {
                                let e2 = inner2.len();
                                starts.push(s0);
                                ends.push(e2);
                                valid.push(true);
                                let lb2 = ListBuilder {
                                    inner: Box::new(inner2),
                                    starts,
                                    ends,
                                    valid,
                                };
                                proof {
                                    lemma_list_model_push(
                                        old_lb,
                                        lb2,
                                        |rr: Option<Seq<ScalarModel>>| ScalarModel::FixedSizeList(
                                            rr,
                                        ),
                                    );
                                    lemma_stored_seq(seq_model(c.values@), t_e);
                                    lemma_list_wf_after(old_lb, lb2);
                                    lemma_fixed_rows_after(old_lb, lb2, n);
                                    assert(lb2.inner.model().subrange(s0 as int, e2 as int)
                                        =~= stored_seq(seq_model(c.values@), t_e));
                                }
                                (Builder::FixedSizeList(n, lb2), Result::Ok(()))
                            },
                        }
                    }
                },
            },
            (bb, _) => (bb, Result::Err(ErrorKind::TypeMismatch)),
        },
    }
}

/// Every value a well-formed builder has recorded fits its bound type
/// and is its own stored form.
proof fn lemma_builder_entries(b: Builder)
    requires
        b.wf(),
    ensures
        forall|i: int|
            0 <= i < b.model().len() ==> fits(#[trigger] b.model()[i], b.typ()) && stored(
                b.model()[i],
                b.typ(),
            ) == b.model()[i],
    decreases b,
{
    match b {
        Builder::List(lb) => {
            lemma_builder_entries(*lb.inner);
            let im = lb.inner.model();
            let t_e = lb.inner.typ();
            assert forall|i: int| 0 <= i < b.model().len() implies fits(
                #[trigger] b.model()[i],
                b.typ(),
            ) && stored(b.model()[i], b.typ()) == b.model()[i] by {
                if lb.valid@[i] {
                    let st = lb.starts@[i] as int;
                    let en = lb.ends@[i] as int;
                    let s = im.subrange(st, en);
                    assert forall|j: int| 0 <= j < s.len() implies fits(#[trigger] s[j], t_e)
                        && stored(s[j], t_e) == s[j] by {
                        assert(s[j] == im[st + j]);
                    }
                    lemma_stored_seq(s, t_e);
                    assert(stored_seq(s, t_e) =~= s);
                }
            }
        },
        Builder::LargeList(lb) => {
            lemma_builder_entries(*lb.inner);
            let im = lb.inner.model();
            let t_e = lb.inner.typ();
            assert forall|i: int| 0 <= i < b.model().len() implies fits(
                #[trigger] b.model()[i],
                b.typ(),
            ) && stored(b.model()[i], b.typ()) == b.model()[i] by {
                if lb.valid@[i] {
                    let st = lb.starts@[i] as int;
                    let en = lb.ends@[i] as int;
                    let s = im.subrange(st, en);
                    assert forall|j: int| 0 <= j < s.len() implies fits(#[trigger] s[j], t_e)
                        && stored(s[j], t_e) == s[j] by {
                        assert(s[j] == im[st + j]);
                    }
                    lemma_stored_seq(s, t_e);
                    assert(stored_seq(s, t_e) =~= s);
                }
            }
        },
        Builder::FixedSizeList(n, lb) => {
            lemma_builder_entries(*lb.inner);
            let im = lb.inner.model();
            let t_e = lb.inner.typ();
            assert forall|i: int| 0 <= i < b.model().len() implies fits(
                #[trigger] b.model()[i],
                b.typ(),
            ) && stored(b.model()[i], b.typ()) == b.model()[i] by {
                if lb.valid@[i] {
                    let st = lb.starts@[i] as int;
                    let en = lb.ends@[i] as int;
                    let s = im.subrange(st, en);
                    assert forall|j: int| 0 <= j < s.len() implies fits(#[trigger] s[j], t_e)
                        && stored(s[j], t_e) == s[j] by {
                        assert(s[j] == im[st + j]);
                    }
                    lemma_stored_seq(s, t_e);
                    assert(stored_seq(s, t_e) =~= s);
                }
            }
        },
        _ => {},
    }
}

/// Reconstructs the scalar value a builder recorded at row `i`.
fn finish_entry(b: &Builder, i: usize) -> (r: ScalarValue)
    requires
        b.wf(),
        i < b.model().len(),
    ensures
        sv_model(r) == b.model()[i as int],
    decreases *b,
{
    match b {
        Builder::Null(_) => ScalarValue::Null,
        Builder::Boolean(pb) => ScalarValue::Boolean(pb.values[i]),
        Builder::Int8(pb) => ScalarValue::Int8(pb.values[i]),
        Builder::Int16(pb) => ScalarValue::Int16(pb.values[i]),
        Builder::Int32(pb) => ScalarValue::Int32(pb.values[i]),
        Builder::Int64(pb) => ScalarValue::Int64(pb.values[i]),
        Builder::UInt8(pb) => ScalarValue::UInt8(pb.values[i]),
        Builder::UInt16(pb) => ScalarValue::UInt16(pb.values[i]),
        Builder::UInt32(pb) => ScalarValue::UInt32(pb.values[i]),
        Builder::UInt64(pb) => ScalarValue::UInt64(pb.values[i]),
        Builder::Float16(pb) => ScalarValue::Float16(pb.values[i]),
        Builder::Float32(pb) => ScalarValue::Float32(pb.values[i]),
        Builder::Float64(pb) => ScalarValue::Float64(pb.values[i]),
        Builder::Binary(pb) => ScalarValue::Binary(crate::value::clone_opt_bytes(&pb.values[i])),
        Builder::LargeBinary(pb) => ScalarValue::LargeBinary(
            crate::value::clone_opt_bytes(&pb.values[i]),
        ),
        Builder::FixedSizeBinary(n, pb) => ScalarValue::FixedSizeBinary(
            *n,
            crate::value::clone_opt_bytes(&pb.values[i]),
        ),
        Builder::Decimal128(p, s, pb) => ScalarValue::Decimal128(pb.values[i], *p, *s),
        Builder::Decimal256(p, s, pb) => ScalarValue::Decimal256(pb.values[i], *p, *s),
        Builder::Utf8(pb) => ScalarValue::Utf8(crate::value::clone_opt_string(&pb.values[i])),
        Builder::LargeUtf8(pb) => ScalarValue::LargeUtf8(
            crate::value::clone_opt_string(&pb.values[i]),
        ),
        Builder::Date32(pb) => ScalarValue::Date32(pb.values[i]),
        Builder::Date64(pb) => ScalarValue::Date64(pb.values[i]),
        Builder::Time32Second(pb) => ScalarValue::Time32Second(pb.values[i]),
        Builder::Time32Millisecond(pb) => ScalarValue::Time32Millisecond(pb.values[i]),
        Builder::Time64Microsecond(pb) => ScalarValue::Time64Microsecond(pb.values[i]),
        Builder::Time64Nanosecond(pb) => ScalarValue::Time64Nanosecond(pb.values[i]),
        Builder::TimestampSecond(z, pb) => ScalarValue::TimestampSecond(
            pb.values[i],
            clone_opt_str(z),
        ),
        Builder::TimestampMillisecond(z, pb) => ScalarValue::TimestampMillisecond(
            pb.values[i],
            clone_opt_str(z),
        ),
        Builder::TimestampMicrosecond(z, pb) => ScalarValue::TimestampMicrosecond(
            pb.values[i],
            clone_opt_str(z),
        ),
        Builder::TimestampNanosecond(z, pb) => ScalarValue::TimestampNanosecond(
            pb.values[i],
            clone_opt_str(z),
        ),
        Builder::IntervalYearMonth(pb) => ScalarValue::IntervalYearMonth(pb.values[i]),
        Builder::IntervalDayTime(pb) => ScalarValue::IntervalDayTime(pb.values[i]),
        Builder::IntervalMonthDayNano(pb) => ScalarValue::IntervalMonthDayNano(pb.values[i]),
        Builder::DurationSecond(pb) => ScalarValue::DurationSecond(pb.values[i]),
        Builder::DurationMillisecond(pb) => ScalarValue::DurationMillisecond(pb.values[i]),
        Builder::DurationMicrosecond(pb) => ScalarValue::DurationMicrosecond(pb.values[i]),
        Builder::DurationNanosecond(pb) => ScalarValue::DurationNanosecond(pb.values[i]),
        Builder::List(lb) => ScalarValue::List(
            Box::new(lb.inner.dtype_of()),
            finish_row(lb, i),
        ),
        Builder::LargeList(lb) => ScalarValue::LargeList(
            Box::new(lb.inner.dtype_of()),
            finish_row(lb, i),
        ),
        Builder::FixedSizeList(n, lb) => ScalarValue::FixedSizeList(
            Box::new(lb.inner.dtype_of()),
            *n,
            finish_row(lb, i),
        ),
    }
}

/// Reconstructs row `i` of a list-family store: its elements as a
/// column of the element type, or nothing for a null row.
#[verifier::loop_isolation(false)]
fn finish_row(lb: &ListBuilder, i: usize) -> (r: Option<Column>)
    requires
        list_wf(*lb),
        i < lb.ends@.len(),
    ensures
        match r {
            Option::Some(c) => lb.valid@[i as int] && c@ == lb.inner.model().subrange(
                lb.starts@[i as int] as int,
                lb.ends@[i as int] as int,
            ),
            Option::None => !lb.valid@[i as int],
        },
    decreases *lb, 1int,
{
    if !lb.valid[i] {
        return Option::None;
    }
    let st = lb.starts[i];
    let en = lb.ends[i];
    let mut values: Vec<ScalarValue> = Vec::with_capacity(en - st);
    let mut j: usize = st;
    while j < en
        invariant
            st <= j <= en,
            values@.len() == j - st,
            forall|k: int|
                0 <= k < values@.len() ==> sv_model(#[trigger] values@[k]) == lb.inner.model()[st
                    + k],
        decreases en - j,
    {
        values.push(finish_entry(&lb.inner, j));
        j = j + 1;
    }
    proof {
        lemma_seq_model(values@);
        assert(seq_model(values@) =~= lb.inner.model().subrange(st as int, en as int));
    }
    Option::Some(Column { dtype: lb.inner.dtype_of(), values })
}

impl Builder {
    /// The bound type, reconstructed from the builder's storage.
    pub fn dtype_of(&self) -> (t: TypeDescriptor)
        ensures
            td_eqv(t, self.typ()),
        decreases *self,
    {
        match self {
            Builder::Null(_) => TypeDescriptor::Null,
            Builder::Boolean(_) => TypeDescriptor::Boolean,
            Builder::Int8(_) => TypeDescriptor::Int8,
            Builder::Int16(_) => TypeDescriptor::Int16,
            Builder::Int32(_) => TypeDescriptor::Int32,
            Builder::Int64(_) => TypeDescriptor::Int64,
            Builder::UInt8(_) => TypeDescriptor::UInt8,
            Builder::UInt16(_) => TypeDescriptor::UInt16,
            Builder::UInt32(_) => TypeDescriptor::UInt32,
            Builder::UInt64(_) => TypeDescriptor::UInt64,
            Builder::Float16(_) => TypeDescriptor::Float16,
            Builder::Float32(_) => TypeDescriptor::Float32,
            Builder::Float64(_) => TypeDescriptor::Float64,
            Builder::Binary(_) => TypeDescriptor::Binary,
            Builder::LargeBinary(_) => TypeDescriptor::LargeBinary,
            Builder::FixedSizeBinary(n, _) => TypeDescriptor::FixedSizeBinary(*n),
            Builder::Decimal128(p, s, _) => TypeDescriptor::Decimal128(*p, *s),
            Builder::Decimal256(p, s, _) => TypeDescriptor::Decimal256(*p, *s),
            Builder::Utf8(_) => TypeDescriptor::Utf8,
            Builder::LargeUtf8(_) => TypeDescriptor::LargeUtf8,
            Builder::Date32(_) => TypeDescriptor::Date32,
            Builder::Date64(_) => TypeDescriptor::Date64,
            Builder::Time32Second(_) => TypeDescriptor::Time32(TimeUnit::Second),
            Builder::Time32Millisecond(_) => TypeDescriptor::Time32(TimeUnit::Millisecond),
            Builder::Time64Microsecond(_) => TypeDescriptor::Time64(TimeUnit::Microsecond),
            Builder::Time64Nanosecond(_) => TypeDescriptor::Time64(TimeUnit::Nanosecond),
            Builder::TimestampSecond(z, _) => TypeDescriptor::Timestamp(
                TimeUnit::Second,
                clone_opt_str(z),
            ),
            Builder::TimestampMillisecond(z, _) => TypeDescriptor::Timestamp(
                TimeUnit::Millisecond,
                clone_opt_str(z),
            ),
            Builder::TimestampMicrosecond(z, _) => TypeDescriptor::Timestamp(
                TimeUnit::Microsecond,
                clone_opt_str(z),
            ),
            Builder::TimestampNanosecond(z, _) => TypeDescriptor::Timestamp(
                TimeUnit::Nanosecond,
                clone_opt_str(z),
            ),
            Builder::IntervalYearMonth(_) => TypeDescriptor::Interval(IntervalUnit::YearMonth),
            Builder::IntervalDayTime(_) => TypeDescriptor::Interval(IntervalUnit::DayTime),
            Builder::IntervalMonthDayNano(_) => TypeDescriptor::Interval(
                IntervalUnit::MonthDayNano,
            ),
            Builder::DurationSecond(_) => TypeDescriptor::Duration(TimeUnit::Second),
            Builder::DurationMillisecond(_) => TypeDescriptor::Duration(TimeUnit::Millisecond),
            Builder::DurationMicrosecond(_) => TypeDescriptor::Duration(TimeUnit::Microsecond),
            Builder::DurationNanosecond(_) => TypeDescriptor::Duration(TimeUnit::Nanosecond),
            Builder::List(lb) => TypeDescriptor::List(Box::new(lb.inner.dtype_of())),
            Builder::LargeList(lb) => TypeDescriptor::LargeList(Box::new(lb.inner.dtype_of())),
            Builder::FixedSizeList(n, lb) => TypeDescriptor::FixedSizeList(
                Box::new(lb.inner.dtype_of()),
                *n,
            ),
        }
    }

    /// Finalizes a snapshot of the recorded values into a column without
    /// consuming the builder.
    #[verifier::loop_isolation(false)]
    pub fn finish_cloned(&self) -> (c: Column)
        requires
            self.wf(),
        ensures
            c@ == self.model(),
            td_eqv(c.dtype, self.typ()),
            crate::typing::col_wf(c),
    {
        let n = self.len();
        let mut values: Vec<ScalarValue> = Vec::with_capacity(n);
        let mut i: usize = 0;
        while i < n
            invariant
                i <= n,
                values@.len() == i,
                forall|k: int|
                    0 <= k < values@.len() ==> sv_model(#[trigger] values@[k]) == self.model()[k],
            decreases n - i,
        {
            values.push(finish_entry(self, i));
            i = i + 1;
        }
        proof {
            lemma_seq_model(values@);
            assert(seq_model(values@) =~= self.model());
        }
        let dtype = self.dtype_of();
        let c = Column { dtype, values };
        proof {
            lemma_builder_entries(*self);
            assert forall|k: int| 0 <= k < c@.len() implies fits(#[trigger] c@[k], c.dtype)
                && stored(c@[k], c.dtype) == c@[k] by {
                crate::typing::lemma_fits_congruent(c@[k], c.dtype, self.typ());
                crate::typing::lemma_stored_congruent(c@[k], c.dtype, self.typ());
            }
        }
        c
    }

    /// Finalizes the recorded values into a column.  This is terminal:
    /// the builder is consumed.
    pub fn finish(self) -> (c: Column)
        requires
            self.wf(),
        ensures
            c@ == self.model(),
            td_eqv(c.dtype, self.typ()),
            crate::typing::col_wf(c),
    {
        self.finish_cloned()
    }

    /// Appends `value`: its payload if its tag matches this builder's
    /// bound type, a null if it is null, and a type-mismatch error
    /// otherwise, in which case the recorded values are unchanged.
    pub fn append_scalar_value(&mut self, value: ScalarValue) -> (r: Result<(), ErrorKind>)
        requires
            old(self).wf(),
        ensures
            final(self).wf(),
            final(self).typ() == old(self).typ(),
            match r {
                Result::Ok(()) => fits(value@, old(self).typ()) && final(self).model() == old(
                    self,
                ).model().push(stored(value@, old(self).typ())),
                Result::Err(e) => e == ErrorKind::TypeMismatch && !fits(value@, old(self).typ())
                    && final(self).model() == old(self).model(),
            },
    {
        let mut tmp = Builder::Null(PrimBuilder { values: Vec::new() });
        core::mem::swap(self, &mut tmp);
        let (b2, r) = append_value(tmp, value);
        *self = b2;
        r
    }
}

} // verus!
