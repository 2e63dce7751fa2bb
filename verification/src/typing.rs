use vstd::prelude::*;

use crate::types::td_eqv;
use crate::types::IntervalUnit;
use crate::types::TimeUnit;
use crate::types::TypeDescriptor;
use crate::value::m_is_null;
use crate::value::osv;
use crate::value::ScalarModel;

verus! {

/// Whether a builder bound to type `t` accepts the value `v`: `v` is the
/// untyped placeholder, or its tag matches `t` and any present payload
/// meets the type's constraints (the declared byte length of a
/// fixed-size binary, the declared row length of a fixed-size list, the
/// element type of nested rows).  Decimal precision and scale and
/// timestamp timezones carried by the value do not take part: the
/// builder's own parameters win.
pub open spec fn fits(v: ScalarModel, t: TypeDescriptor) -> bool
    decreases v, 0int,
{
    ||| v == ScalarModel::Null
    ||| match (v, t) {
        (ScalarModel::Boolean(_), TypeDescriptor::Boolean) => true,
        (ScalarModel::Int8(_), TypeDescriptor::Int8) => true,
        (ScalarModel::Int16(_), TypeDescriptor::Int16) => true,
        (ScalarModel::Int32(_), TypeDescriptor::Int32) => true,
        (ScalarModel::Int64(_), TypeDescriptor::Int64) => true,
        (ScalarModel::UInt8(_), TypeDescriptor::UInt8) => true,
        (ScalarModel::UInt16(_), TypeDescriptor::UInt16) => true,
        (ScalarModel::UInt32(_), TypeDescriptor::UInt32) => true,
        (ScalarModel::UInt64(_), TypeDescriptor::UInt64) => true,
        (ScalarModel::Float16(_), TypeDescriptor::Float16) => true,
        (ScalarModel::Float32(_), TypeDescriptor::Float32) => true,
        (ScalarModel::Float64(_), TypeDescriptor::Float64) => true,
        (ScalarModel::Binary(_), TypeDescriptor::Binary) => true,
        (ScalarModel::LargeBinary(_), TypeDescriptor::LargeBinary) => true,
        (ScalarModel::FixedSizeBinary(_, o), TypeDescriptor::FixedSizeBinary(n)) => match o {
            Option::None => true,
            Option::Some(p) => p.len() == n,
        },
        (ScalarModel::Decimal128(_, _, _), TypeDescriptor::Decimal128(_, _)) => true,
        (ScalarModel::Decimal256(_, _, _), TypeDescriptor::Decimal256(_, _)) => true,
        (ScalarModel::Utf8(_), TypeDescriptor::Utf8) => true,
        (ScalarModel::LargeUtf8(_), TypeDescriptor::LargeUtf8) => true,
        (ScalarModel::Date32(_), TypeDescriptor::Date32) => true,
        (ScalarModel::Date64(_), TypeDescriptor::Date64) => true,
        (ScalarModel::Time32Second(_), TypeDescriptor::Time32(u)) => u == TimeUnit::Second,
        (ScalarModel::Time32Millisecond(_), TypeDescriptor::Time32(u)) => u
            == TimeUnit::Millisecond,
        (ScalarModel::Time64Microsecond(_), TypeDescriptor::Time64(u)) => u
            == TimeUnit::Microsecond,
        (ScalarModel::Time64Nanosecond(_), TypeDescriptor::Time64(u)) => u == TimeUnit::Nanosecond,
        (ScalarModel::TimestampSecond(_, _), TypeDescriptor::Timestamp(u, _)) => u
            == TimeUnit::Second,
        (ScalarModel::TimestampMillisecond(_, _), TypeDescriptor::Timestamp(u, _)) => u
            == TimeUnit::Millisecond,
        (ScalarModel::TimestampMicrosecond(_, _), TypeDescriptor::Timestamp(u, _)) => u
            == TimeUnit::Microsecond,
        (ScalarModel::TimestampNanosecond(_, _), TypeDescriptor::Timestamp(u, _)) => u
            == TimeUnit::Nanosecond,
        (ScalarModel::IntervalYearMonth(_), TypeDescriptor::Interval(u)) => u
            == IntervalUnit::YearMonth,
        (ScalarModel::IntervalDayTime(_), TypeDescriptor::Interval(u)) => u
            == IntervalUnit::DayTime,
        (ScalarModel::IntervalMonthDayNano(_), TypeDescriptor::Interval(u)) => u
            == IntervalUnit::MonthDayNano,
        (ScalarModel::DurationSecond(_), TypeDescriptor::Duration(u)) => u == TimeUnit::Second,
        (ScalarModel::DurationMillisecond(_), TypeDescriptor::Duration(u)) => u
            == TimeUnit::Millisecond,
        (ScalarModel::DurationMicrosecond(_), TypeDescriptor::Duration(u)) => u
            == TimeUnit::Microsecond,
        (ScalarModel::DurationNanosecond(_), TypeDescriptor::Duration(u)) => u
            == TimeUnit::Nanosecond,
        (ScalarModel::List(r), TypeDescriptor::List(e)) => match r {
            Option::None => true,
            Option::Some(s) => fits_seq(s, *e),
        },
        (ScalarModel::LargeList(r), TypeDescriptor::LargeList(e)) => match r {
            Option::None => true,
            Option::Some(s) => fits_seq(s, *e),
        },
        (ScalarModel::FixedSizeList(r), TypeDescriptor::FixedSizeList(e, n)) => match r {
            Option::None => true,
            Option::Some(s) => s.len() == n && fits_seq(s, *e),
        },
        _ => false,
    }
}

/// Whether every element of a nested row fits the element type.
pub open spec fn fits_seq(s: Seq<ScalarModel>, t: TypeDescriptor) -> bool
    decreases s, 1int,
{
    forall|i: int| 0 <= i < s.len() ==> fits(#[trigger] s[i], t)
}

/// The value a builder bound to `t` records when `v` is appended: the
/// payload of `v` under the builder's own type parameters, with both the
/// untyped placeholder and a mismatched tag recorded as a null.
pub open spec fn stored(v: ScalarModel, t: TypeDescriptor) -> ScalarModel
    decreases v, 0int,
{
    match t {
        TypeDescriptor::Null => ScalarModel::Null,
        TypeDescriptor::Boolean => ScalarModel::Boolean(
            match v {
                ScalarModel::Boolean(o) => o,
                _ => Option::None,
            },
        ),
        TypeDescriptor::Int8 => ScalarModel::Int8(
            match v {
                ScalarModel::Int8(o) => o,
                _ => Option::None,
            },
        ),
        TypeDescriptor::Int16 => ScalarModel::Int16(
            match v {
                ScalarModel::Int16(o) => o,
                _ => Option::None,
            },
        ),
        TypeDescriptor::Int32 => ScalarModel::Int32(
            match v {
                ScalarModel::Int32(o) => o,
                _ => Option::None,
            },
        ),
        TypeDescriptor::Int64 => ScalarModel::Int64(
            match v {
                ScalarModel::Int64(o) => o,
                _ => Option::None,
            },
        ),
        TypeDescriptor::UInt8 => ScalarModel::UInt8(
            match v {
                ScalarModel::UInt8(o) => o,
                _ => Option::None,
            },
        ),
        TypeDescriptor::UInt16 => ScalarModel::UInt16(
            match v {
                ScalarModel::UInt16(o) => o,
                _ => Option::None,
            },
        ),
        TypeDescriptor::UInt32 => ScalarModel::UInt32(
            match v {
                ScalarModel::UInt32(o) => o,
                _ => Option::None,
            },
        ),
        TypeDescriptor::UInt64 => ScalarModel::UInt64(
            match v {
                ScalarModel::UInt64(o) => o,
                _ => Option::None,
            },
        ),
        TypeDescriptor::Float16 => ScalarModel::Float16(
            match v {
                ScalarModel::Float16(o) => o,
                _ => Option::None,
            },
        ),
        TypeDescriptor::Float32 => ScalarModel::Float32(
            match v {
                ScalarModel::Float32(o) => o,
                _ => Option::None,
            },
        ),
        TypeDescriptor::Float64 => ScalarModel::Float64(
            match v {
                ScalarModel::Float64(o) => o,
                _ => Option::None,
            },
        ),
        TypeDescriptor::Binary => ScalarModel::Binary(
            match v {
                ScalarModel::Binary(o) => o,
                _ => Option::None,
            },
        ),
        TypeDescriptor::LargeBinary => ScalarModel::LargeBinary(
            match v {
                ScalarModel::LargeBinary(o) => o,
                _ => Option::None,
            },
        ),
        TypeDescriptor::FixedSizeBinary(n) => ScalarModel::FixedSizeBinary(
            n,
            match v {
                ScalarModel::FixedSizeBinary(_, o) => o,
                _ => Option::None,
            },
        ),
        TypeDescriptor::Decimal128(p, s) => ScalarModel::Decimal128(
            match v {
                ScalarModel::Decimal128(o, _, _) => o,
                _ => Option::None,
            },
            p,
            s,
        ),
        TypeDescriptor::Decimal256(p, s) => ScalarModel::Decimal256(
            match v {
                ScalarModel::Decimal256(o, _, _) => o,
                _ => Option::None,
            },
            p,
            s,
        ),
        TypeDescriptor::Utf8 => ScalarModel::Utf8(
            match v {
                ScalarModel::Utf8(o) => o,
                _ => Option::None,
            },
        ),
        TypeDescriptor::LargeUtf8 => ScalarModel::LargeUtf8(
            match v {
                ScalarModel::LargeUtf8(o) => o,
                _ => Option::None,
            },
        ),
        TypeDescriptor::Date32 => ScalarModel::Date32(
            match v {
                ScalarModel::Date32(o) => o,
                _ => Option::None,
            },
        ),
        TypeDescriptor::Date64 => ScalarModel::Date64(
            match v {
                ScalarModel::Date64(o) => o,
                _ => Option::None,
            },
        ),
        TypeDescriptor::Time32(u) => if u == TimeUnit::Second {
            ScalarModel::Time32Second(
                match v {
                    ScalarModel::Time32Second(o) => o,
                    _ => Option::None,
                },
            )
        } else if u == TimeUnit::Millisecond {
            ScalarModel::Time32Millisecond(
                match v {
                    ScalarModel::Time32Millisecond(o) => o,
                    _ => Option::None,
                },
            )
        } else {
            ScalarModel::Null
        },
        TypeDescriptor::Time64(u) => if u == TimeUnit::Microsecond {
            ScalarModel::Time64Microsecond(
                match v {
                    ScalarModel::Time64Microsecond(o) => o,
                    _ => Option::None,
                },
            )
        } else if u == TimeUnit::Nanosecond {
            ScalarModel::Time64Nanosecond(
                match v {
                    ScalarModel::Time64Nanosecond(o) => o,
                    _ => Option::None,
                },
            )
        } else {
            ScalarModel::Null
        },
        TypeDescriptor::Timestamp(u, z) => match u {
            TimeUnit::Second => ScalarModel::TimestampSecond(
                match v {
                    ScalarModel::TimestampSecond(o, _) => o,
                    _ => Option::None,
                },
                osv(z),
            ),
            TimeUnit::Millisecond => ScalarModel::TimestampMillisecond(
                match v {
                    ScalarModel::TimestampMillisecond(o, _) => o,
                    _ => Option::None,
                },
                osv(z),
            ),
            TimeUnit::Microsecond => ScalarModel::TimestampMicrosecond(
                match v {
                    ScalarModel::TimestampMicrosecond(o, _) => o,
                    _ => Option::None,
                },
                osv(z),
            ),
            TimeUnit::Nanosecond => ScalarModel::TimestampNanosecond(
                match v {
                    ScalarModel::TimestampNanosecond(o, _) => o,
                    _ => Option::None,
                },
                osv(z),
            ),
        },
        TypeDescriptor::Interval(u) => match u {
            IntervalUnit::YearMonth => ScalarModel::IntervalYearMonth(
                match v {
                    ScalarModel::IntervalYearMonth(o) => o,
                    _ => Option::None,
                },
            ),
            IntervalUnit::DayTime => ScalarModel::IntervalDayTime(
                match v {
                    ScalarModel::IntervalDayTime(o) => o,
                    _ => Option::None,
                },
            ),
            IntervalUnit::MonthDayNano => ScalarModel::IntervalMonthDayNano(
                match v {
                    ScalarModel::IntervalMonthDayNano(o) => o,
                    _ => Option::None,
                },
            ),
        },
        TypeDescriptor::Duration(u) => match u {
            TimeUnit::Second => ScalarModel::DurationSecond(
                match v {
                    ScalarModel::DurationSecond(o) => o,
                    _ => Option::None,
                },
            ),
            TimeUnit::Millisecond => ScalarModel::DurationMillisecond(
                match v {
                    ScalarModel::DurationMillisecond(o) => o,
                    _ => Option::None,
                },
            ),
            TimeUnit::Microsecond => ScalarModel::DurationMicrosecond(
                match v {
                    ScalarModel::DurationMicrosecond(o) => o,
                    _ => Option::None,
                },
            ),
            TimeUnit::Nanosecond => ScalarModel::DurationNanosecond(
                match v {
                    ScalarModel::DurationNanosecond(o) => o,
                    _ => Option::None,
                },
            ),
        },
        TypeDescriptor::List(e) => ScalarModel::List(
            match v {
                ScalarModel::List(Option::Some(s)) => Option::Some(stored_seq(s, *e)),
                _ => Option::None,
            },
        ),
        TypeDescriptor::LargeList(e) => ScalarModel::LargeList(
            match v {
                ScalarModel::LargeList(Option::Some(s)) => Option::Some(stored_seq(s, *e)),
                _ => Option::None,
            },
        ),
        TypeDescriptor::FixedSizeList(e, _) => ScalarModel::FixedSizeList(
            match v {
                ScalarModel::FixedSizeList(Option::Some(s)) => Option::Some(stored_seq(s, *e)),
                _ => Option::None,
            },
        ),
    }
}

/// The values a nested-row builder records, element by element.
pub open spec fn stored_seq(s: Seq<ScalarModel>, t: TypeDescriptor) -> Seq<ScalarModel>
    decreases s, 1int,
{
    if s.len() == 0 {
        Seq::empty()
    } else {
        stored_seq(s.subrange(0, s.len() - 1), t).push(stored(s[s.len() - 1], t))
    }
}

/// The stored sequence has the same length and stores each element.
pub proof fn lemma_stored_seq(s: Seq<ScalarModel>, t: TypeDescriptor)
    ensures
        stored_seq(s, t).len() == s.len(),
        forall|i: int| 0 <= i < s.len() ==> stored_seq(s, t)[i] == stored(s[i], t),
    decreases s.len(),
{
    if s.len() > 0 {
        lemma_stored_seq(s.subrange(0, s.len() - 1), t);
    }
}

/// Equivalent types accept the same values.
pub proof fn lemma_fits_congruent(v: ScalarModel, t1: TypeDescriptor, t2: TypeDescriptor)
    requires
        td_eqv(t1, t2),
    ensures
        fits(v, t1) == fits(v, t2),
    decreases v, 0int,
{
    match (v, t1, t2) {
        (ScalarModel::List(Option::Some(s)), TypeDescriptor::List(e1), TypeDescriptor::List(
            e2,
        )) => {
            lemma_fits_seq_congruent(s, *e1, *e2);
        },
        (
            ScalarModel::LargeList(Option::Some(s)),
            TypeDescriptor::LargeList(e1),
            TypeDescriptor::LargeList(e2),
        ) => {
            lemma_fits_seq_congruent(s, *e1, *e2);
        },
        (
            ScalarModel::FixedSizeList(Option::Some(s)),
            TypeDescriptor::FixedSizeList(e1, _),
            TypeDescriptor::FixedSizeList(e2, _),
        ) => {
            lemma_fits_seq_congruent(s, *e1, *e2);
        },
        _ => {},
    }
}

/// Element-wise form of [`lemma_fits_congruent`].
pub proof fn lemma_fits_seq_congruent(s: Seq<ScalarModel>, t1: TypeDescriptor, t2: TypeDescriptor)
    requires
        td_eqv(t1, t2),
    ensures
        fits_seq(s, t1) == fits_seq(s, t2),
    decreases s, 1int,
{
    assert forall|i: int| 0 <= i < s.len() implies fits(#[trigger] s[i], t1) == fits(
        s[i],
        t2,
    ) by {
        lemma_fits_congruent(s[i], t1, t2);
    }
}

/// Equivalent types record the same values.
pub proof fn lemma_stored_congruent(v: ScalarModel, t1: TypeDescriptor, t2: TypeDescriptor)
    requires
        td_eqv(t1, t2),
    ensures
        stored(v, t1) == stored(v, t2),
    decreases v, 0int,
{
    match (v, t1, t2) {
        (ScalarModel::List(Option::Some(s)), TypeDescriptor::List(e1), TypeDescriptor::List(
            e2,
        )) => {
            lemma_stored_seq_congruent(s, *e1, *e2);
        },
        (
            ScalarModel::LargeList(Option::Some(s)),
            TypeDescriptor::LargeList(e1),
            TypeDescriptor::LargeList(e2),
        ) => {
            lemma_stored_seq_congruent(s, *e1, *e2);
        },
        (
            ScalarModel::FixedSizeList(Option::Some(s)),
            TypeDescriptor::FixedSizeList(e1, _),
            TypeDescriptor::FixedSizeList(e2, _),
        ) => {
            lemma_stored_seq_congruent(s, *e1, *e2);
        },
        _ => {},
    }
}

/// Element-wise form of [`lemma_stored_congruent`].
pub proof fn lemma_stored_seq_congruent(
    s: Seq<ScalarModel>,
    t1: TypeDescriptor,
    t2: TypeDescriptor,
)
    requires
        td_eqv(t1, t2),
    ensures
        stored_seq(s, t1) == stored_seq(s, t2),
    decreases s, 1int,
{
    lemma_stored_seq(s, t1);
    lemma_stored_seq(s, t2);
    assert forall|i: int| 0 <= i < s.len() implies stored_seq(s, t1)[i] == stored_seq(
        s,
        t2,
    )[i] by {
        lemma_stored_congruent(s[i], t1, t2);
    }
    assert(stored_seq(s, t1) =~= stored_seq(s, t2));
}

/// A well-formed column: every value fits the column's type and is its
/// own stored form, as a builder records it.
pub open spec fn col_wf(c: crate::value::Column) -> bool {
    forall|i: int|
        0 <= i < c@.len() ==> fits(#[trigger] c@[i], c.dtype) && stored(c@[i], c.dtype) == c@[i]
}

/// A value that fits is recorded as a null exactly when it is null.
pub proof fn lemma_stored_null_iff(v: ScalarModel, t: TypeDescriptor)
    requires
        fits(v, t),
    ensures
        m_is_null(stored(v, t)) == m_is_null(v),
{
}

} // verus!
