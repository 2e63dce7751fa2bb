use vstd::prelude::*;

use crate::value::obv;
use crate::value::osv;
use crate::value::Column;
use crate::value::Int256;
use crate::value::ScalarModel;
use crate::value::ScalarValue;
use crate::value::lemma_seq_model;
use crate::value::m_is_null;
use crate::value::sv_model;

verus! {

/// Outcome of comparing two values that are comparable.
#[derive(Clone, Copy, Debug, PartialEq, Eq, Structural)]
pub enum Cmp {
    Lt,
    Eq,
    Gt,
}

/// Lifts a strict order on payloads to possibly-null payloads: an absent
/// payload orders below every present one, and two present payloads that
/// neither orders below the other are equal.
pub open spec fn cmp_opt<T>(x: Option<T>, y: Option<T>, lt: spec_fn(T, T) -> bool) -> Cmp {
    match (x, y) {
        (Option::None, Option::None) => Cmp::Eq,
        (Option::None, Option::Some(_)) => Cmp::Lt,
        (Option::Some(_), Option::None) => Cmp::Gt,
        (Option::Some(a), Option::Some(b)) => if lt(a, b) {
            Cmp::Lt
        } else if lt(b, a) {
            Cmp::Gt
        } else {
            Cmp::Eq
        },
    }
}

/// Strict lexicographic order over byte sequences, from position `i` on.
pub open spec fn byte_lex_lt_from(a: Seq<u8>, b: Seq<u8>, i: int) -> bool
    decreases b.len() - i,
{
    if i >= b.len() {
        false
    } else if i >= a.len() {
        true
    } else if a[i] < b[i] {
        true
    } else if a[i] == b[i] {
        byte_lex_lt_from(a, b, i + 1)
    } else {
        false
    }
}

/// Strict lexicographic order over byte sequences.
pub open spec fn byte_lex_lt(a: Seq<u8>, b: Seq<u8>) -> bool {
    byte_lex_lt_from(a, b, 0)
}

/// Strict lexicographic order over character sequences, by code point,
/// from position `i` on.
pub open spec fn char_lex_lt_from(a: Seq<char>, b: Seq<char>, i: int) -> bool
    decreases b.len() - i,
{
    if i >= b.len() {
        false
    } else if i >= a.len() {
        true
    } else if (a[i] as u32) < (b[i] as u32) {
        true
    } else if a[i] == b[i] {
        char_lex_lt_from(a, b, i + 1)
    } else {
        false
    }
}

/// Strict lexicographic order over character sequences, by code point.
pub open spec fn char_lex_lt(a: Seq<char>, b: Seq<char>) -> bool {
    char_lex_lt_from(a, b, 0)
}

/// Total-order key of a 16-bit IEEE 754 bit pattern: negative values are
/// bit-complemented, non-negative values get the sign bit set, so that
/// unsigned comparison of keys is the IEEE total order.
pub open spec fn f16_key(x: u16) -> u16 {
    if x >= 0x8000 {
        !x
    } else {
        x | 0x8000
    }
}

/// Total-order key of a 32-bit IEEE 754 bit pattern.
pub open spec fn f32_key(x: u32) -> u32 {
    if x >= 0x8000_0000 {
        !x
    } else {
        x | 0x8000_0000
    }
}

/// Total-order key of a 64-bit IEEE 754 bit pattern.
pub open spec fn f64_key(x: u64) -> u64 {
    if x >= 0x8000_0000_0000_0000 {
        !x
    } else {
        x | 0x8000_0000_0000_0000
    }
}

/// Strict order of two 256-bit integers.
pub open spec fn i256_lt(a: Int256, b: Int256) -> bool {
    a.hi < b.hi || (a.hi == b.hi && a.lo < b.lo)
}

/// Strict order of day-time intervals: days, then milliseconds.
pub open spec fn day_time_lt(a: (i32, i32), b: (i32, i32)) -> bool {
    a.0 < b.0 || (a.0 == b.0 && a.1 < b.1)
}

/// Strict order of month-day-nano intervals: months, days, nanoseconds.
pub open spec fn mdn_lt(a: (i32, i32, i64), b: (i32, i32, i64)) -> bool {
    a.0 < b.0 || (a.0 == b.0 && (a.1 < b.1 || (a.1 == b.1 && a.2 < b.2)))
}

/// Comparison of two scalar models under the per-type order the host
/// value model defines.  `None` means the two are incomparable: they
/// carry different type tags, exactly one is the untyped placeholder,
/// two decimals disagree on scale, or two list rows hold list-valued
/// elements (see [`cmp_rows_m`]).  Within one type, an absent payload
/// orders below every present payload; timezone names and decimal
/// precision do not take part, since values of one column share them.
pub open spec fn cmp_m(a: ScalarModel, b: ScalarModel) -> Option<Cmp>
    decreases a, b, 0int,
{
    match (a, b) {
        (ScalarModel::Null, ScalarModel::Null) => Option::Some(Cmp::Eq),
        (ScalarModel::Boolean(x), ScalarModel::Boolean(y)) => Option::Some(
            cmp_opt(x, y, |p: bool, q: bool| !p && q),
        ),
        (ScalarModel::Int8(x), ScalarModel::Int8(y)) => Option::Some(
            cmp_opt(x, y, |p: i8, q: i8| p < q),
        ),
        (ScalarModel::Int16(x), ScalarModel::Int16(y)) => Option::Some(
            cmp_opt(x, y, |p: i16, q: i16| p < q),
        ),
        (ScalarModel::Int32(x), ScalarModel::Int32(y)) => Option::Some(
            cmp_opt(x, y, |p: i32, q: i32| p < q),
        ),
        (ScalarModel::Int64(x), ScalarModel::Int64(y)) => Option::Some(
            cmp_opt(x, y, |p: i64, q: i64| p < q),
        ),
        (ScalarModel::UInt8(x), ScalarModel::UInt8(y)) => Option::Some(
            cmp_opt(x, y, |p: u8, q: u8| p < q),
        ),
        (ScalarModel::UInt16(x), ScalarModel::UInt16(y)) => Option::Some(
            cmp_opt(x, y, |p: u16, q: u16| p < q),
        ),
        (ScalarModel::UInt32(x), ScalarModel::UInt32(y)) => Option::Some(
            cmp_opt(x, y, |p: u32, q: u32| p < q),
        ),
        (ScalarModel::UInt64(x), ScalarModel::UInt64(y)) => Option::Some(
            cmp_opt(x, y, |p: u64, q: u64| p < q),
        ),
        (ScalarModel::Float16(x), ScalarModel::Float16(y)) => Option::Some(
            cmp_opt(x, y, |p: u16, q: u16| f16_key(p) < f16_key(q)),
        ),
        (ScalarModel::Float32(x), ScalarModel::Float32(y)) => Option::Some(
            cmp_opt(x, y, |p: u32, q: u32| f32_key(p) < f32_key(q)),
        ),
        (ScalarModel::Float64(x), ScalarModel::Float64(y)) => Option::Some(
            cmp_opt(x, y, |p: u64, q: u64| f64_key(p) < f64_key(q)),
        ),
        (ScalarModel::Binary(x), ScalarModel::Binary(y)) => Option::Some(
            cmp_opt(x, y, |p: Seq<u8>, q: Seq<u8>| byte_lex_lt(p, q)),
        ),
        (ScalarModel::LargeBinary(x), ScalarModel::LargeBinary(y)) => Option::Some(
            cmp_opt(x, y, |p: Seq<u8>, q: Seq<u8>| byte_lex_lt(p, q)),
        ),
        (ScalarModel::FixedSizeBinary(_, x), ScalarModel::FixedSizeBinary(_, y)) => Option::Some(
            cmp_opt(x, y, |p: Seq<u8>, q: Seq<u8>| byte_lex_lt(p, q)),
        ),
        (ScalarModel::Decimal128(x, _, s1), ScalarModel::Decimal128(y, _, s2)) => if s1 == s2 {
            Option::Some(cmp_opt(x, y, |p: i128, q: i128| p < q))
        } else {
            Option::None
        },
        (ScalarModel::Decimal256(x, _, s1), ScalarModel::Decimal256(y, _, s2)) => if s1 == s2 {
            Option::Some(cmp_opt(x, y, |p: Int256, q: Int256| i256_lt(p, q)))
        } else {
            Option::None
        },
        (ScalarModel::Utf8(x), ScalarModel::Utf8(y)) => Option::Some(
            cmp_opt(x, y, |p: Seq<char>, q: Seq<char>| char_lex_lt(p, q)),
        ),
        (ScalarModel::LargeUtf8(x), ScalarModel::LargeUtf8(y)) => Option::Some(
            cmp_opt(x, y, |p: Seq<char>, q: Seq<char>| char_lex_lt(p, q)),
        ),
        (ScalarModel::Date32(x), ScalarModel::Date32(y)) => Option::Some(
            cmp_opt(x, y, |p: i32, q: i32| p < q),
        ),
        (ScalarModel::Date64(x), ScalarModel::Date64(y)) => Option::Some(
            cmp_opt(x, y, |p: i64, q: i64| p < q),
        ),
        (ScalarModel::Time32Second(x), ScalarModel::Time32Second(y)) => Option::Some(
            cmp_opt(x, y, |p: i32, q: i32| p < q),
        ),
        (ScalarModel::Time32Millisecond(x), ScalarModel::Time32Millisecond(y)) => Option::Some(
            cmp_opt(x, y, |p: i32, q: i32| p < q),
        ),
        (ScalarModel::Time64Microsecond(x), ScalarModel::Time64Microsecond(y)) => Option::Some(
            cmp_opt(x, y, |p: i64, q: i64| p < q),
        ),
        (ScalarModel::Time64Nanosecond(x), ScalarModel::Time64Nanosecond(y)) => Option::Some(
            cmp_opt(x, y, |p: i64, q: i64| p < q),
        ),
        (ScalarModel::TimestampSecond(x, _), ScalarModel::TimestampSecond(y, _)) => Option::Some(
            cmp_opt(x, y, |p: i64, q: i64| p < q),
        ),
        (
            ScalarModel::TimestampMillisecond(x, _),
            ScalarModel::TimestampMillisecond(y, _),
        ) => Option::Some(cmp_opt(x, y, |p: i64, q: i64| p < q)),
        (
            ScalarModel::TimestampMicrosecond(x, _),
            ScalarModel::TimestampMicrosecond(y, _),
        ) => Option::Some(cmp_opt(x, y, |p: i64, q: i64| p < q)),
        (
            ScalarModel::TimestampNanosecond(x, _),
            ScalarModel::TimestampNanosecond(y, _),
        ) => Option::Some(cmp_opt(x, y, |p: i64, q: i64| p < q)),
        (ScalarModel::IntervalYearMonth(x), ScalarModel::IntervalYearMonth(y)) => Option::Some(
            cmp_opt(x, y, |p: i32, q: i32| p < q),
        ),
        (ScalarModel::IntervalDayTime(x), ScalarModel::IntervalDayTime(y)) => Option::Some(
            cmp_opt(x, y, |p: (i32, i32), q: (i32, i32)| day_time_lt(p, q)),
        ),
        (ScalarModel::IntervalMonthDayNano(x), ScalarModel::IntervalMonthDayNano(y)) => Option::Some(
            cmp_opt(x, y, |p: (i32, i32, i64), q: (i32, i32, i64)| mdn_lt(p, q)),
        ),
        (ScalarModel::DurationSecond(x), ScalarModel::DurationSecond(y)) => Option::Some(
            cmp_opt(x, y, |p: i64, q: i64| p < q),
        ),
        (ScalarModel::DurationMillisecond(x), ScalarModel::DurationMillisecond(y)) => Option::Some(
            cmp_opt(x, y, |p: i64, q: i64| p < q),
        ),
        (ScalarModel::DurationMicrosecond(x), ScalarModel::DurationMicrosecond(y)) => Option::Some(
            cmp_opt(x, y, |p: i64, q: i64| p < q),
        ),
        (ScalarModel::DurationNanosecond(x), ScalarModel::DurationNanosecond(y)) => Option::Some(
            cmp_opt(x, y, |p: i64, q: i64| p < q),
        ),
        (ScalarModel::List(x), ScalarModel::List(y)) => cmp_rows_m(x, y),
        (ScalarModel::LargeList(x), ScalarModel::LargeList(y)) => cmp_rows_m(x, y),
        (ScalarModel::FixedSizeList(x), ScalarModel::FixedSizeList(y)) => cmp_rows_m(x, y),
        _ => Option::None,
    }
}

/// Whether a model value is of the list family, whatever its validity.
pub open spec fn is_list_kind(v: ScalarModel) -> bool {
    v is List || v is LargeList || v is FixedSizeList
}

/// Whether any element of a nested row is itself a list-family value.
/// In a well-formed column every element of such a row carries the list
/// tag, null elements included, so this detects a nested element type
/// from the data alone.
pub open spec fn has_list_elem(s: Seq<ScalarModel>) -> bool {
    exists|i: int| 0 <= i < s.len() && is_list_kind(#[trigger] s[i])
}

/// Comparison of two optional list rows, as the host value model
/// compares list values.  An absent row orders below any present row
/// (the host compares a null row by its empty extent; the two
/// treatments never put a present row strictly below an absent one, the
/// only direction the reduction consults).  Rows holding list-valued
/// elements are incomparable, as the host refuses to compare nested
/// element types; two such rows with no elements at all compare equal
/// here, which again differs from the host only away from the
/// strictly-below case.  All other rows compare element by element
/// under [`seq_elem_cmp_from`].
#[verifier::opaque]
pub open spec fn cmp_rows_m(x: Option<Seq<ScalarModel>>, y: Option<Seq<ScalarModel>>) -> Option<
    Cmp,
>
    decreases x, y, 2int,
{
    match (x, y) {
        (Option::None, Option::None) => Option::Some(Cmp::Eq),
        (Option::None, Option::Some(_)) => Option::Some(Cmp::Lt),
        (Option::Some(_), Option::None) => Option::Some(Cmp::Gt),
        (Option::Some(a), Option::Some(b)) => if has_list_elem(a) || has_list_elem(b) {
            Option::None
        } else {
            seq_elem_cmp_from(a, b, 0)
        },
    }
}

/// Lexicographic comparison of two nested rows from position `i` on,
/// with the host's in-row null rule: a null element orders above every
/// present element (and two null elements tie), the reverse of how a
/// null whole value orders.  A shared prefix followed by exhaustion
/// orders the shorter row first; an incomparable pair of present
/// elements makes the rows incomparable.
pub open spec fn seq_elem_cmp_from(a: Seq<ScalarModel>, b: Seq<ScalarModel>, i: int) -> Option<Cmp>
    decreases a, b, a.len() - i,
        when 0 <= i
{
    if i >= a.len() && i >= b.len() {
        Option::Some(Cmp::Eq)
    } else if i >= a.len() {
        Option::Some(Cmp::Lt)
    } else if i >= b.len() {
        Option::Some(Cmp::Gt)
    } else if m_is_null(a[i]) && !m_is_null(b[i]) {
        Option::Some(Cmp::Gt)
    } else if !m_is_null(a[i]) && m_is_null(b[i]) {
        Option::Some(Cmp::Lt)
    } else if m_is_null(a[i]) && m_is_null(b[i]) {
        seq_elem_cmp_from(a, b, i + 1)
    } else {
        match cmp_m(a[i], b[i]) {
            Option::Some(Cmp::Eq) => seq_elem_cmp_from(a, b, i + 1),
            Option::Some(Cmp::Lt) => Option::Some(Cmp::Lt),
            Option::Some(Cmp::Gt) => Option::Some(Cmp::Gt),
            Option::None => Option::None,
        }
    }
}

/// Whether `a` orders strictly below `b`.
pub open spec fn lt_m(a: ScalarModel, b: ScalarModel) -> bool {
    cmp_m(a, b) == Option::Some(Cmp::Lt)
}

/// Relies on `str`'s `Ord`: strings order lexicographically by their
/// UTF-8 bytes, which coincides with lexicographic order over their
/// characters' code points.
#[verifier::external_body]
fn str_lt(a: &String, b: &String) -> (r: bool)
    ensures
        r == char_lex_lt(a@, b@),
{
    a < b
}

fn cmp_opt_bool(x: &Option<bool>, y: &Option<bool>) -> (r: Cmp)
    ensures
        r == cmp_opt(*x, *y, |p: bool, q: bool| !p && q),
{
    match (x, y) {
        (Option::None, Option::None) => Cmp::Eq,
        (Option::None, Option::Some(_)) => Cmp::Lt,
        (Option::Some(_), Option::None) => Cmp::Gt,
        (Option::Some(a), Option::Some(b)) => if !*a && *b {
            Cmp::Lt
        } else if !*b && *a {
            Cmp::Gt
        } else {
            Cmp::Eq
        },
    }
}

fn cmp_opt_i8(x: &Option<i8>, y: &Option<i8>) -> (r: Cmp)
    ensures
        r == cmp_opt(*x, *y, |p: i8, q: i8| p < q),
{
    match (x, y) {
        (Option::None, Option::None) => Cmp::Eq,
        (Option::None, Option::Some(_)) => Cmp::Lt,
        (Option::Some(_), Option::None) => Cmp::Gt,
        (Option::Some(a), Option::Some(b)) => if a < b {
            Cmp::Lt
        } else if b < a {
            Cmp::Gt
        } else {
            Cmp::Eq
        },
    }
}

fn cmp_opt_i16(x: &Option<i16>, y: &Option<i16>) -> (r: Cmp)
    ensures
        r == cmp_opt(*x, *y, |p: i16, q: i16| p < q),
{
    match (x, y) {
        (Option::None, Option::None) => Cmp::Eq,
        (Option::None, Option::Some(_)) => Cmp::Lt,
        (Option::Some(_), Option::None) => Cmp::Gt,
        (Option::Some(a), Option::Some(b)) => if a < b {
            Cmp::Lt
        } else if b < a {
            Cmp::Gt
        } else {
            Cmp::Eq
        },
    }
}

fn cmp_opt_i32(x: &Option<i32>, y: &Option<i32>) -> (r: Cmp)
    ensures
        r == cmp_opt(*x, *y, |p: i32, q: i32| p < q),
{
    match (x, y) {
        (Option::None, Option::None) => Cmp::Eq,
        (Option::None, Option::Some(_)) => Cmp::Lt,
        (Option::Some(_), Option::None) => Cmp::Gt,
        (Option::Some(a), Option::Some(b)) => if a < b {
            Cmp::Lt
        } else if b < a {
            Cmp::Gt
        } else {
            Cmp::Eq
        },
    }
}

fn cmp_opt_i64(x: &Option<i64>, y: &Option<i64>) -> (r: Cmp)
    ensures
        r == cmp_opt(*x, *y, |p: i64, q: i64| p < q),
{
    match (x, y) {
        (Option::None, Option::None) => Cmp::Eq,
        (Option::None, Option::Some(_)) => Cmp::Lt,
        (Option::Some(_), Option::None) => Cmp::Gt,
        (Option::Some(a), Option::Some(b)) => if a < b {
            Cmp::Lt
        } else if b < a {
            Cmp::Gt
        } else {
            Cmp::Eq
        },
    }
}

fn cmp_opt_u8(x: &Option<u8>, y: &Option<u8>) -> (r: Cmp)
    ensures
        r == cmp_opt(*x, *y, |p: u8, q: u8| p < q),
{
    match (x, y) {
        (Option::None, Option::None) => Cmp::Eq,
        (Option::None, Option::Some(_)) => Cmp::Lt,
        (Option::Some(_), Option::None) => Cmp::Gt,
        (Option::Some(a), Option::Some(b)) => if a < b {
            Cmp::Lt
        } else if b < a {
            Cmp::Gt
        } else {
            Cmp::Eq
        },
    }
}

fn cmp_opt_u16(x: &Option<u16>, y: &Option<u16>) -> (r: Cmp)
    ensures
        r == cmp_opt(*x, *y, |p: u16, q: u16| p < q),
{
    match (x, y) {
        (Option::None, Option::None) => Cmp::Eq,
        (Option::None, Option::Some(_)) => Cmp::Lt,
        (Option::Some(_), Option::None) => Cmp::Gt,
        (Option::Some(a), Option::Some(b)) => if a < b {
            Cmp::Lt
        } else if b < a {
            Cmp::Gt
        } else {
            Cmp::Eq
        },
    }
}

fn cmp_opt_u32(x: &Option<u32>, y: &Option<u32>) -> (r: Cmp)
    ensures
        r == cmp_opt(*x, *y, |p: u32, q: u32| p < q),
{
    match (x, y) {
        (Option::None, Option::None) => Cmp::Eq,
        (Option::None, Option::Some(_)) => Cmp::Lt,
        (Option::Some(_), Option::None) => Cmp::Gt,
        (Option::Some(a), Option::Some(b)) => if a < b {
            Cmp::Lt
        } else if b < a {
            Cmp::Gt
        } else {
            Cmp::Eq
        },
    }
}

fn cmp_opt_u64(x: &Option<u64>, y: &Option<u64>) -> (r: Cmp)
    ensures
        r == cmp_opt(*x, *y, |p: u64, q: u64| p < q),
{
    match (x, y) {
        (Option::None, Option::None) => Cmp::Eq,
        (Option::None, Option::Some(_)) => Cmp::Lt,
        (Option::Some(_), Option::None) => Cmp::Gt,
        (Option::Some(a), Option::Some(b)) => if a < b {
            Cmp::Lt
        } else if b < a {
            Cmp::Gt
        } else {
            Cmp::Eq
        },
    }
}

fn cmp_opt_i128(x: &Option<i128>, y: &Option<i128>) -> (r: Cmp)
    ensures
        r == cmp_opt(*x, *y, |p: i128, q: i128| p < q),
{
    match (x, y) {
        (Option::None, Option::None) => Cmp::Eq,
        (Option::None, Option::Some(_)) => Cmp::Lt,
        (Option::Some(_), Option::None) => Cmp::Gt,
        (Option::Some(a), Option::Some(b)) => if a < b {
            Cmp::Lt
        } else if b < a {
            Cmp::Gt
        } else {
            Cmp::Eq
        },
    }
}

fn cmp_opt_i256(x: &Option<Int256>, y: &Option<Int256>) -> (r: Cmp)
    ensures
        r == cmp_opt(*x, *y, |p: Int256, q: Int256| i256_lt(p, q)),
{
    match (x, y) {
        (Option::None, Option::None) => Cmp::Eq,
        (Option::None, Option::Some(_)) => Cmp::Lt,
        (Option::Some(_), Option::None) => Cmp::Gt,
        (Option::Some(a), Option::Some(b)) => if a.hi < b.hi || (a.hi == b.hi && a.lo < b.lo) {
            Cmp::Lt
        } else if b.hi < a.hi || (b.hi == a.hi && b.lo < a.lo) {
            Cmp::Gt
        } else {
            Cmp::Eq
        },
    }
}

fn cmp_opt_f16(x: &Option<u16>, y: &Option<u16>) -> (r: Cmp)
    ensures
        r == cmp_opt(*x, *y, |p: u16, q: u16| f16_key(p) < f16_key(q)),
{
    match (x, y) {
        (Option::None, Option::None) => Cmp::Eq,
        (Option::None, Option::Some(_)) => Cmp::Lt,
        (Option::Some(_), Option::None) => Cmp::Gt,
        (Option::Some(a), Option::Some(b)) => {
            let ka: u16 = if *a >= 0x8000 {
                !*a
            } else {
                *a | 0x8000
            };
            let kb: u16 = if *b >= 0x8000 {
                !*b
            } else {
                *b | 0x8000
            };
            if ka < kb {
                Cmp::Lt
            } else if kb < ka {
                Cmp::Gt
            } else {
                Cmp::Eq
            }
        },
    }
}

fn cmp_opt_f32(x: &Option<u32>, y: &Option<u32>) -> (r: Cmp)
    ensures
        r == cmp_opt(*x, *y, |p: u32, q: u32| f32_key(p) < f32_key(q)),
{
    match (x, y) {
        (Option::None, Option::None) => Cmp::Eq,
        (Option::None, Option::Some(_)) => Cmp::Lt,
        (Option::Some(_), Option::None) => Cmp::Gt,
        (Option::Some(a), Option::Some(b)) => {
            let ka: u32 = if *a >= 0x8000_0000 {
                !*a
            } else {
                *a | 0x8000_0000
            };
            let kb: u32 = if *b >= 0x8000_0000 {
                !*b
            } else {
                *b | 0x8000_0000
            };
            if ka < kb {
                Cmp::Lt
            } else if kb < ka {
                Cmp::Gt
            } else {
                Cmp::Eq
            }
        },
    }
}

fn cmp_opt_f64(x: &Option<u64>, y: &Option<u64>) -> (r: Cmp)
    ensures
        r == cmp_opt(*x, *y, |p: u64, q: u64| f64_key(p) < f64_key(q)),
{
    match (x, y) {
        (Option::None, Option::None) => Cmp::Eq,
        (Option::None, Option::Some(_)) => Cmp::Lt,
        (Option::Some(_), Option::None) => Cmp::Gt,
        (Option::Some(a), Option::Some(b)) => {
            let ka: u64 = if *a >= 0x8000_0000_0000_0000 {
                !*a
            } else {
                *a | 0x8000_0000_0000_0000
            };
            let kb: u64 = if *b >= 0x8000_0000_0000_0000 {
                !*b
            } else {
                *b | 0x8000_0000_0000_0000
            };
            if ka < kb {
                Cmp::Lt
            } else if kb < ka {
                Cmp::Gt
            } else {
                Cmp::Eq
            }
        },
    }
}

fn cmp_opt_day_time(x: &Option<(i32, i32)>, y: &Option<(i32, i32)>) -> (r: Cmp)
    ensures
        r == cmp_opt(*x, *y, |p: (i32, i32), q: (i32, i32)| day_time_lt(p, q)),
{
    match (x, y) {
        (Option::None, Option::None) => Cmp::Eq,
        (Option::None, Option::Some(_)) => Cmp::Lt,
        (Option::Some(_), Option::None) => Cmp::Gt,
        (Option::Some(a), Option::Some(b)) => if a.0 < b.0 || (a.0 == b.0 && a.1 < b.1) {
            Cmp::Lt
        } else if b.0 < a.0 || (b.0 == a.0 && b.1 < a.1) {
            Cmp::Gt
        } else {
            Cmp::Eq
        },
    }
}

fn cmp_opt_mdn(x: &Option<(i32, i32, i64)>, y: &Option<(i32, i32, i64)>) -> (r: Cmp)
    ensures
        r == cmp_opt(*x, *y, |p: (i32, i32, i64), q: (i32, i32, i64)| mdn_lt(p, q)),
{
    match (x, y) {
        (Option::None, Option::None) => Cmp::Eq,
        (Option::None, Option::Some(_)) => Cmp::Lt,
        (Option::Some(_), Option::None) => Cmp::Gt,
        (Option::Some(a), Option::Some(b)) => if a.0 < b.0 || (a.0 == b.0 && (a.1 < b.1 || (a.1
            == b.1 && a.2 < b.2))) {
            Cmp::Lt
        } else if b.0 < a.0 || (b.0 == a.0 && (b.1 < a.1 || (b.1 == a.1 && b.2 < a.2))) {
            Cmp::Gt
        } else {
            Cmp::Eq
        },
    }
}

/// Lexicographic three-way comparison of two byte payloads.
fn bytes_cmp(a: &Vec<u8>, b: &Vec<u8>) -> (r: Cmp)
    ensures
        (r == Cmp::Lt) == byte_lex_lt(a@, b@),
        (r == Cmp::Gt) == byte_lex_lt(b@, a@),
{
    let na = a.len();
    let nb = b.len();
    let mut i: usize = 0;
    while i < na && i < nb
        invariant
            i <= na,
            i <= nb,
            na == a@.len(),
            nb == b@.len(),
            byte_lex_lt(a@, b@) == byte_lex_lt_from(a@, b@, i as int),
            byte_lex_lt(b@, a@) == byte_lex_lt_from(b@, a@, i as int),
        decreases na - i,
    {
        if a[i] < b[i] {
            return Cmp::Lt;
        }
        if b[i] < a[i] {
            return Cmp::Gt;
        }
        i = i + 1;
    }
    if na < nb {
        Cmp::Lt
    } else if nb < na {
        Cmp::Gt
    } else {
        Cmp::Eq
    }
}

fn cmp_opt_bytes(x: &Option<Vec<u8>>, y: &Option<Vec<u8>>) -> (r: Cmp)
    ensures
        r == cmp_opt(obv(*x), obv(*y), |p: Seq<u8>, q: Seq<u8>| byte_lex_lt(p, q)),
{
    match (x, y) {
        (Option::None, Option::None) => Cmp::Eq,
        (Option::None, Option::Some(_)) => Cmp::Lt,
        (Option::Some(_), Option::None) => Cmp::Gt,
        (Option::Some(a), Option::Some(b)) => bytes_cmp(a, b),
    }
}

fn cmp_opt_str(x: &Option<String>, y: &Option<String>) -> (r: Cmp)
    ensures
        r == cmp_opt(osv(*x), osv(*y), |p: Seq<char>, q: Seq<char>| char_lex_lt(p, q)),
{
    match (x, y) {
        (Option::None, Option::None) => Cmp::Eq,
        (Option::None, Option::Some(_)) => Cmp::Lt,
        (Option::Some(_), Option::None) => Cmp::Gt,
        (Option::Some(a), Option::Some(b)) => if str_lt(a, b) {
            Cmp::Lt
        } else if str_lt(b, a) {
            Cmp::Gt
        } else {
            Cmp::Eq
        },
    }
}

/// Compares two scalar values under the per-type order of the host
/// value model; `None` where their models are incomparable.
#[verifier::rlimit(100)]
pub fn cmp_scalar_values(a: &ScalarValue, b: &ScalarValue) -> (r: Option<Cmp>)
    ensures
        r == cmp_m(a@, b@),
    decreases *a, *b, 1int,
{
    proof {
        reveal(cmp_rows_m);
    }
    match (a, b) {
        (ScalarValue::Null, ScalarValue::Null) => Option::Some(Cmp::Eq),
        (ScalarValue::Boolean(x), ScalarValue::Boolean(y)) => Option::Some(cmp_opt_bool(x, y)),
        (ScalarValue::Int8(x), ScalarValue::Int8(y)) => Option::Some(cmp_opt_i8(x, y)),
        (ScalarValue::Int16(x), ScalarValue::Int16(y)) => Option::Some(cmp_opt_i16(x, y)),
        (ScalarValue::Int32(x), ScalarValue::Int32(y)) => Option::Some(cmp_opt_i32(x, y)),
        (ScalarValue::Int64(x), ScalarValue::Int64(y)) => Option::Some(cmp_opt_i64(x, y)),
        (ScalarValue::UInt8(x), ScalarValue::UInt8(y)) => Option::Some(cmp_opt_u8(x, y)),
        (ScalarValue::UInt16(x), ScalarValue::UInt16(y)) => Option::Some(cmp_opt_u16(x, y)),
        (ScalarValue::UInt32(x), ScalarValue::UInt32(y)) => Option::Some(cmp_opt_u32(x, y)),
        (ScalarValue::UInt64(x), ScalarValue::UInt64(y)) => Option::Some(cmp_opt_u64(x, y)),
        (ScalarValue::Float16(x), ScalarValue::Float16(y)) => Option::Some(cmp_opt_f16(x, y)),
        (ScalarValue::Float32(x), ScalarValue::Float32(y)) => Option::Some(cmp_opt_f32(x, y)),
        (ScalarValue::Float64(x), ScalarValue::Float64(y)) => Option::Some(cmp_opt_f64(x, y)),
        (ScalarValue::Binary(x), ScalarValue::Binary(y)) => Option::Some(cmp_opt_bytes(x, y)),
        (ScalarValue::LargeBinary(x), ScalarValue::LargeBinary(y)) => Option::Some(
            cmp_opt_bytes(x, y),
        ),
        (ScalarValue::FixedSizeBinary(_, x), ScalarValue::FixedSizeBinary(_, y)) => Option::Some(
            cmp_opt_bytes(x, y),
        ),
        (ScalarValue::Decimal128(x, _, s1), ScalarValue::Decimal128(y, _, s2)) => if s1 == s2 {
            Option::Some(cmp_opt_i128(x, y))
        } else {
            Option::None
        },
        (ScalarValue::Decimal256(x, _, s1), ScalarValue::Decimal256(y, _, s2)) => if s1 == s2 {
            Option::Some(cmp_opt_i256(x, y))
        } else {
            Option::None
        },
        (ScalarValue::Utf8(x), ScalarValue::Utf8(y)) => Option::Some(cmp_opt_str(x, y)),
        (ScalarValue::LargeUtf8(x), ScalarValue::LargeUtf8(y)) => Option::Some(cmp_opt_str(x, y)),
        (ScalarValue::Date32(x), ScalarValue::Date32(y)) => Option::Some(cmp_opt_i32(x, y)),
        (ScalarValue::Date64(x), ScalarValue::Date64(y)) => Option::Some(cmp_opt_i64(x, y)),
        (ScalarValue::Time32Second(x), ScalarValue::Time32Second(y)) => Option::Some(
            cmp_opt_i32(x, y),
        ),
        (ScalarValue::Time32Millisecond(x), ScalarValue::Time32Millisecond(y)) => Option::Some(
            cmp_opt_i32(x, y),
        ),
        (ScalarValue::Time64Microsecond(x), ScalarValue::Time64Microsecond(y)) => Option::Some(
            cmp_opt_i64(x, y),
        ),
        (ScalarValue::Time64Nanosecond(x), ScalarValue::Time64Nanosecond(y)) => Option::Some(
            cmp_opt_i64(x, y),
        ),
        (ScalarValue::TimestampSecond(x, _), ScalarValue::TimestampSecond(y, _)) => Option::Some(
            cmp_opt_i64(x, y),
        ),
        (
            ScalarValue::TimestampMillisecond(x, _),
            ScalarValue::TimestampMillisecond(y, _),
        ) => Option::Some(cmp_opt_i64(x, y)),
        (
            ScalarValue::TimestampMicrosecond(x, _),
            ScalarValue::TimestampMicrosecond(y, _),
        ) => Option::Some(cmp_opt_i64(x, y)),
        (
            ScalarValue::TimestampNanosecond(x, _),
            ScalarValue::TimestampNanosecond(y, _),
        ) => Option::Some(cmp_opt_i64(x, y)),
        (ScalarValue::IntervalYearMonth(x), ScalarValue::IntervalYearMonth(y)) => Option::Some(
            cmp_opt_i32(x, y),
        ),
        (ScalarValue::IntervalDayTime(x), ScalarValue::IntervalDayTime(y)) => Option::Some(
            cmp_opt_day_time(x, y),
        ),
        (ScalarValue::IntervalMonthDayNano(x), ScalarValue::IntervalMonthDayNano(y)) => Option::Some(
            cmp_opt_mdn(x, y),
        ),
        (ScalarValue::DurationSecond(x), ScalarValue::DurationSecond(y)) => Option::Some(
            cmp_opt_i64(x, y),
        ),
        (ScalarValue::DurationMillisecond(x), ScalarValue::DurationMillisecond(y)) => Option::Some(
            cmp_opt_i64(x, y),
        ),
        (ScalarValue::DurationMicrosecond(x), ScalarValue::DurationMicrosecond(y)) => Option::Some(
            cmp_opt_i64(x, y),
        ),
        (ScalarValue::DurationNanosecond(x), ScalarValue::DurationNanosecond(y)) => Option::Some(
            cmp_opt_i64(x, y),
        ),
        (ScalarValue::List(_, x), ScalarValue::List(_, y)) => match (x, y) {
            (Option::None, Option::None) => Option::Some(Cmp::Eq),
            (Option::None, Option::Some(_)) => Option::Some(Cmp::Lt),
            (Option::Some(_), Option::None) => Option::Some(Cmp::Gt),
            (Option::Some(c1), Option::Some(c2)) => cmp_rows(c1, c2),
        },
        (ScalarValue::LargeList(_, x), ScalarValue::LargeList(_, y)) => match (x, y) {
            (Option::None, Option::None) => Option::Some(Cmp::Eq),
            (Option::None, Option::Some(_)) => Option::Some(Cmp::Lt),
            (Option::Some(_), Option::None) => Option::Some(Cmp::Gt),
            (Option::Some(c1), Option::Some(c2)) => cmp_rows(c1, c2),
        },
        (ScalarValue::FixedSizeList(_, _, x), ScalarValue::FixedSizeList(_, _, y)) => match (
            x,
            y,
        ) {
            (Option::None, Option::None) => Option::Some(Cmp::Eq),
            (Option::None, Option::Some(_)) => Option::Some(Cmp::Lt),
            (Option::Some(_), Option::None) => Option::Some(Cmp::Gt),
            (Option::Some(c1), Option::Some(c2)) => cmp_rows(c1, c2),
        },
        _ => Option::None,
    }
}

/// Whether any value of the column is of the list family.
#[verifier::loop_isolation(false)]
fn column_has_list_elem(c: &Column) -> (r: bool)
    ensures
        r == has_list_elem(c@),
{
    proof {
        lemma_seq_model(c.values@);
    }
    let n = c.values.len();
    let mut i: usize = 0;
    while i < n
        invariant
            i <= n,
            forall|j: int| 0 <= j < i ==> !is_list_kind(c@[j]),
        decreases n - i,
    {
        match &c.values[i] {
            ScalarValue::List(_, _) => {
                proof {
                    assert(is_list_kind(c@[i as int]));
                }
                return true;
            },
            ScalarValue::LargeList(_, _) => {
                proof {
                    assert(is_list_kind(c@[i as int]));
                }
                return true;
            },
            ScalarValue::FixedSizeList(_, _, _) => {
                proof {
                    assert(is_list_kind(c@[i as int]));
                }
                return true;
            },
            _ => {},
        }
        i = i + 1;
    }
    false
}

/// Comparison of two present nested rows, as the host value model
/// compares them: rows with list-valued elements are incomparable,
/// otherwise element by element with null elements ordering above
/// present ones, the shorter row first on a shared prefix.
#[verifier::loop_isolation(false)]
fn cmp_rows(c1: &Column, c2: &Column) -> (r: Option<Cmp>)
    ensures
        r == (if has_list_elem(c1@) || has_list_elem(c2@) {
            Option::<Cmp>::None
        } else {
            seq_elem_cmp_from(c1@, c2@, 0)
        }),
    decreases *c1, *c2, 0int,
{
    if column_has_list_elem(c1) || column_has_list_elem(c2) {
        return Option::None;
    }
    proof {
        lemma_seq_model(c1.values@);
        lemma_seq_model(c2.values@);
    }
    let n1 = c1.values.len();
    let n2 = c2.values.len();
    let mut i: usize = 0;
    while i < n1 && i < n2
        invariant
            i <= n1,
            i <= n2,
            n1 == c1@.len(),
            n2 == c2@.len(),
            n1 == c1.values@.len(),
            n2 == c2.values@.len(),
            forall|j: int| 0 <= j < n1 ==> c1@[j] == sv_model(c1.values@[j]),
            forall|j: int| 0 <= j < n2 ==> c2@[j] == sv_model(c2.values@[j]),
            seq_elem_cmp_from(c1@, c2@, 0) == seq_elem_cmp_from(c1@, c2@, i as int),
        decreases n1 - i,
    {
        let null1 = c1.values[i].is_null();
        let null2 = c2.values[i].is_null();
        if null1 && !null2 {
            return Option::Some(Cmp::Gt);
        }
        if !null1 && null2 {
            return Option::Some(Cmp::Lt);
        }
        if null1 && null2 {
            i = i + 1;
            continue;
        }
        match cmp_scalar_values(&c1.values[i], &c2.values[i]) {
            Option::Some(Cmp::Eq) => {
                i = i + 1;
            },
            Option::Some(Cmp::Lt) => {
                return Option::Some(Cmp::Lt);
            },
            Option::Some(Cmp::Gt) => {
                return Option::Some(Cmp::Gt);
            },
            Option::None => {
                return Option::None;
            },
        }
    }
    if n1 < n2 {
        Option::Some(Cmp::Lt)
    } else if n2 < n1 {
        Option::Some(Cmp::Gt)
    } else {
        Option::Some(Cmp::Eq)
    }
}

/// Whether `a` orders strictly below `b` under the per-type order.
pub fn sv_lt(a: &ScalarValue, b: &ScalarValue) -> (r: bool)
    ensures
        r == lt_m(a@, b@),
{
    match cmp_scalar_values(a, b) {
        Option::Some(Cmp::Lt) => true,
        _ => false,
    }
}

/// A byte sequence never orders strictly below itself.
pub proof fn lemma_byte_lex_irrefl(a: Seq<u8>, i: int)
    ensures
        !byte_lex_lt_from(a, a, i),
    decreases a.len() - i,
{
    if i < a.len() {
        lemma_byte_lex_irrefl(a, i + 1);
    }
}

/// A character sequence never orders strictly below itself.
pub proof fn lemma_char_lex_irrefl(a: Seq<char>, i: int)
    ensures
        !char_lex_lt_from(a, a, i),
    decreases a.len() - i,
{
    if i < a.len() {
        lemma_char_lex_irrefl(a, i + 1);
    }
}

/// A value outside the list family compares equal to itself.
pub proof fn lemma_cmp_m_refl_nonlist(v: ScalarModel)
    requires
        !is_list_kind(v),
    ensures
        cmp_m(v, v) == Option::Some(Cmp::Eq),
{
    match v {
        ScalarModel::Binary(Option::Some(p)) => lemma_byte_lex_irrefl(p, 0),
        ScalarModel::LargeBinary(Option::Some(p)) => lemma_byte_lex_irrefl(p, 0),
        ScalarModel::FixedSizeBinary(_, Option::Some(p)) => lemma_byte_lex_irrefl(p, 0),
        ScalarModel::Utf8(Option::Some(p)) => lemma_char_lex_irrefl(p, 0),
        ScalarModel::LargeUtf8(Option::Some(p)) => lemma_char_lex_irrefl(p, 0),
        _ => {},
    }
}

/// No model value orders strictly below itself: comparing a value with
/// itself yields equality or, for rows of list-valued elements,
/// incomparability.
pub proof fn lemma_cmp_m_irrefl(v: ScalarModel)
    ensures
        cmp_m(v, v) != Option::Some(Cmp::Lt),
    decreases v, 0int,
{
    reveal(cmp_rows_m);
    match v {
        ScalarModel::List(Option::Some(s)) => {
            if !has_list_elem(s) {
                lemma_seq_elem_cmp_refl(s, 0);
            }
        },
        ScalarModel::LargeList(Option::Some(s)) => {
            if !has_list_elem(s) {
                lemma_seq_elem_cmp_refl(s, 0);
            }
        },
        ScalarModel::FixedSizeList(Option::Some(s)) => {
            if !has_list_elem(s) {
                lemma_seq_elem_cmp_refl(s, 0);
            }
        },

        ScalarModel::List(Option::None) => {},
        ScalarModel::LargeList(Option::None) => {},
        ScalarModel::FixedSizeList(Option::None) => {},
        _ => lemma_cmp_m_refl_nonlist(v),
    }
}

/// A row without list-valued elements compares equal to itself.
pub proof fn lemma_seq_elem_cmp_refl(s: Seq<ScalarModel>, i: int)
    requires
        0 <= i,
        !has_list_elem(s),
    ensures
        seq_elem_cmp_from(s, s, i) == Option::Some(Cmp::Eq),
    decreases s.len() - i + 1,
{
    if i < s.len() {
        if !m_is_null(s[i]) {
            lemma_cmp_m_refl_nonlist(s[i]);
        }
        lemma_seq_elem_cmp_refl(s, i + 1);
    }
}

/// A value that carries data never orders strictly below one that does
/// not.
pub proof fn lemma_lt_respects_null(a: ScalarModel, b: ScalarModel)
    requires
        !m_is_null(a),
        m_is_null(b),
    ensures
        !lt_m(a, b),
{
    reveal(cmp_rows_m);
}

} // verus!
