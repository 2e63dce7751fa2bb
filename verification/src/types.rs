use vstd::prelude::*;

verus! {

/// Unit of a time-of-day, timestamp or duration type.
#[derive(Clone, Copy, Debug, PartialEq, Eq, Structural)]
pub enum TimeUnit {
    Second,
    Millisecond,
    Microsecond,
    Nanosecond,
}

/// Kind of a calendar interval type.
#[derive(Clone, Copy, Debug, PartialEq, Eq, Structural)]
pub enum IntervalUnit {
    YearMonth,
    DayTime,
    MonthDayNano,
}

/// Closed description of a column's logical type.
///
/// The set of variants is the whole vocabulary the library understands:
/// any descriptor outside the supported combinations (see [`supported`])
/// is rejected by the builder factory with an unsupported-type error,
/// never silently defaulted.  List-family variants are recursively
/// parameterized by the element type.
#[derive(Debug, PartialEq)]
pub enum TypeDescriptor {
    Null,
    Boolean,
    Int8,
    Int16,
    Int32,
    Int64,
    UInt8,
    UInt16,
    UInt32,
    UInt64,
    Float16,
    Float32,
    Float64,
    Binary,
    LargeBinary,
    /// Fixed-size binary; the payload is the byte length of every value.
    FixedSizeBinary(i32),
    /// Decimal with 128-bit representation; precision and scale.
    Decimal128(u8, i8),
    /// Decimal with 256-bit representation; precision and scale.
    Decimal256(u8, i8),
    Utf8,
    LargeUtf8,
    Date32,
    Date64,
    /// Time of day stored in 32 bits; only second and millisecond units
    /// are supported.
    Time32(TimeUnit),
    /// Time of day stored in 64 bits; only microsecond and nanosecond
    /// units are supported.
    Time64(TimeUnit),
    /// Point in time at the given unit, with an optional timezone name.
    Timestamp(TimeUnit, Option<String>),
    Interval(IntervalUnit),
    Duration(TimeUnit),
    List(Box<TypeDescriptor>),
    LargeList(Box<TypeDescriptor>),
    FixedSizeList(Box<TypeDescriptor>, i32),
}

/// Equivalence of two optional timezone names, by their text.
pub open spec fn opt_str_eqv(a: Option<String>, b: Option<String>) -> bool {
    match (a, b) {
        (Option::None, Option::None) => true,
        (Option::Some(x), Option::Some(y)) => x@ == y@,
        _ => false,
    }
}

/// Structural equivalence of two type descriptors.  Timezone names are
/// compared by their text, element types recursively.
pub open spec fn td_eqv(a: TypeDescriptor, b: TypeDescriptor) -> bool
    decreases a,
{
    match (a, b) {
        (TypeDescriptor::Null, TypeDescriptor::Null) => true,
        (TypeDescriptor::Boolean, TypeDescriptor::Boolean) => true,
        (TypeDescriptor::Int8, TypeDescriptor::Int8) => true,
        (TypeDescriptor::Int16, TypeDescriptor::Int16) => true,
        (TypeDescriptor::Int32, TypeDescriptor::Int32) => true,
        (TypeDescriptor::Int64, TypeDescriptor::Int64) => true,
        (TypeDescriptor::UInt8, TypeDescriptor::UInt8) => true,
        (TypeDescriptor::UInt16, TypeDescriptor::UInt16) => true,
        (TypeDescriptor::UInt32, TypeDescriptor::UInt32) => true,
        (TypeDescriptor::UInt64, TypeDescriptor::UInt64) => true,
        (TypeDescriptor::Float16, TypeDescriptor::Float16) => true,
        (TypeDescriptor::Float32, TypeDescriptor::Float32) => true,
        (TypeDescriptor::Float64, TypeDescriptor::Float64) => true,
        (TypeDescriptor::Binary, TypeDescriptor::Binary) => true,
        (TypeDescriptor::LargeBinary, TypeDescriptor::LargeBinary) => true,
        (TypeDescriptor::FixedSizeBinary(x), TypeDescriptor::FixedSizeBinary(y)) => x == y,
        (TypeDescriptor::Decimal128(p1, s1), TypeDescriptor::Decimal128(p2, s2)) => p1 == p2
            && s1 == s2,
        (TypeDescriptor::Decimal256(p1, s1), TypeDescriptor::Decimal256(p2, s2)) => p1 == p2
            && s1 == s2,
        (TypeDescriptor::Utf8, TypeDescriptor::Utf8) => true,
        (TypeDescriptor::LargeUtf8, TypeDescriptor::LargeUtf8) => true,
        (TypeDescriptor::Date32, TypeDescriptor::Date32) => true,
        (TypeDescriptor::Date64, TypeDescriptor::Date64) => true,
        (TypeDescriptor::Time32(u1), TypeDescriptor::Time32(u2)) => u1 == u2,
        (TypeDescriptor::Time64(u1), TypeDescriptor::Time64(u2)) => u1 == u2,
        (TypeDescriptor::Timestamp(u1, z1), TypeDescriptor::Timestamp(u2, z2)) => u1 == u2
            && opt_str_eqv(z1, z2),
        (TypeDescriptor::Interval(u1), TypeDescriptor::Interval(u2)) => u1 == u2,
        (TypeDescriptor::Duration(u1), TypeDescriptor::Duration(u2)) => u1 == u2,
        (TypeDescriptor::List(e1), TypeDescriptor::List(e2)) => td_eqv(*e1, *e2),
        (TypeDescriptor::LargeList(e1), TypeDescriptor::LargeList(e2)) => td_eqv(*e1, *e2),
        (TypeDescriptor::FixedSizeList(e1, n1), TypeDescriptor::FixedSizeList(e2, n2)) => n1 == n2
            && td_eqv(*e1, *e2),
        _ => false,
    }
}

/// Whether the builder factory can instantiate a builder for `t`.
/// Everything in the closed set is supported except 32-bit times at
/// sub-millisecond units and 64-bit times at super-microsecond units,
/// which the type vocabulary can spell but no storage variant backs.
pub open spec fn supported(t: TypeDescriptor) -> bool
    decreases t,
{
    match t {
        TypeDescriptor::Time32(u) => u == TimeUnit::Second || u == TimeUnit::Millisecond,
        TypeDescriptor::Time64(u) => u == TimeUnit::Microsecond || u == TimeUnit::Nanosecond,
        TypeDescriptor::List(e) => supported(*e),
        TypeDescriptor::LargeList(e) => supported(*e),
        TypeDescriptor::FixedSizeList(e, _) => supported(*e),
        _ => true,
    }
}

/// The subterm the builder factory reports when a descriptor is not
/// supported: the descriptor itself, or, for the list family, the
/// innermost offending element type.
pub open spec fn offending(t: TypeDescriptor) -> TypeDescriptor
    decreases t,
{
    match t {
        TypeDescriptor::List(e) => offending(*e),
        TypeDescriptor::LargeList(e) => offending(*e),
        TypeDescriptor::FixedSizeList(e, _) => offending(*e),
        _ => t,
    }
}

/// The name of a descriptor's outermost constructor.
pub open spec fn td_kind_name(t: TypeDescriptor) -> Seq<char> {
    match t {
        TypeDescriptor::Null => "Null"@,
        TypeDescriptor::Boolean => "Boolean"@,
        TypeDescriptor::Int8 => "Int8"@,
        TypeDescriptor::Int16 => "Int16"@,
        TypeDescriptor::Int32 => "Int32"@,
        TypeDescriptor::Int64 => "Int64"@,
        TypeDescriptor::UInt8 => "UInt8"@,
        TypeDescriptor::UInt16 => "UInt16"@,
        TypeDescriptor::UInt32 => "UInt32"@,
        TypeDescriptor::UInt64 => "UInt64"@,
        TypeDescriptor::Float16 => "Float16"@,
        TypeDescriptor::Float32 => "Float32"@,
        TypeDescriptor::Float64 => "Float64"@,
        TypeDescriptor::Binary => "Binary"@,
        TypeDescriptor::LargeBinary => "LargeBinary"@,
        TypeDescriptor::FixedSizeBinary(_) => "FixedSizeBinary"@,
        TypeDescriptor::Decimal128(_, _) => "Decimal128"@,
        TypeDescriptor::Decimal256(_, _) => "Decimal256"@,
        TypeDescriptor::Utf8 => "Utf8"@,
        TypeDescriptor::LargeUtf8 => "LargeUtf8"@,
        TypeDescriptor::Date32 => "Date32"@,
        TypeDescriptor::Date64 => "Date64"@,
        TypeDescriptor::Time32(_) => "Time32"@,
        TypeDescriptor::Time64(_) => "Time64"@,
        TypeDescriptor::Timestamp(_, _) => "Timestamp"@,
        TypeDescriptor::Interval(_) => "Interval"@,
        TypeDescriptor::Duration(_) => "Duration"@,
        TypeDescriptor::List(_) => "List"@,
        TypeDescriptor::LargeList(_) => "LargeList"@,
        TypeDescriptor::FixedSizeList(_, _) => "FixedSizeList"@,
    }
}

/// The name of a descriptor's outermost constructor, as text.
pub fn kind_name(t: &TypeDescriptor) -> (r: String)
    ensures
        r@ == td_kind_name(*t),
{
    match t {
        TypeDescriptor::Null => "Null".to_string(),
        TypeDescriptor::Boolean => "Boolean".to_string(),
        TypeDescriptor::Int8 => "Int8".to_string(),
        TypeDescriptor::Int16 => "Int16".to_string(),
        TypeDescriptor::Int32 => "Int32".to_string(),
        TypeDescriptor::Int64 => "Int64".to_string(),
        TypeDescriptor::UInt8 => "UInt8".to_string(),
        TypeDescriptor::UInt16 => "UInt16".to_string(),
        TypeDescriptor::UInt32 => "UInt32".to_string(),
        TypeDescriptor::UInt64 => "UInt64".to_string(),
        TypeDescriptor::Float16 => "Float16".to_string(),
        TypeDescriptor::Float32 => "Float32".to_string(),
        TypeDescriptor::Float64 => "Float64".to_string(),
        TypeDescriptor::Binary => "Binary".to_string(),
        TypeDescriptor::LargeBinary => "LargeBinary".to_string(),
        TypeDescriptor::FixedSizeBinary(_) => "FixedSizeBinary".to_string(),
        TypeDescriptor::Decimal128(_, _) => "Decimal128".to_string(),
        TypeDescriptor::Decimal256(_, _) => "Decimal256".to_string(),
        TypeDescriptor::Utf8 => "Utf8".to_string(),
        TypeDescriptor::LargeUtf8 => "LargeUtf8".to_string(),
        TypeDescriptor::Date32 => "Date32".to_string(),
        TypeDescriptor::Date64 => "Date64".to_string(),
        TypeDescriptor::Time32(_) => "Time32".to_string(),
        TypeDescriptor::Time64(_) => "Time64".to_string(),
        TypeDescriptor::Timestamp(_, _) => "Timestamp".to_string(),
        TypeDescriptor::Interval(_) => "Interval".to_string(),
        TypeDescriptor::Duration(_) => "Duration".to_string(),
        TypeDescriptor::List(_) => "List".to_string(),
        TypeDescriptor::LargeList(_) => "LargeList".to_string(),
        TypeDescriptor::FixedSizeList(_, _) => "FixedSizeList".to_string(),
    }
}

/// Decides structural equivalence of two type descriptors.
pub fn eq_type(a: &TypeDescriptor, b: &TypeDescriptor) -> (r: bool)
    ensures
        r == td_eqv(*a, *b),
    decreases *a,
{
    match (a, b) {
        (TypeDescriptor::Null, TypeDescriptor::Null) => true,
        (TypeDescriptor::Boolean, TypeDescriptor::Boolean) => true,
        (TypeDescriptor::Int8, TypeDescriptor::Int8) => true,
        (TypeDescriptor::Int16, TypeDescriptor::Int16) => true,
        (TypeDescriptor::Int32, TypeDescriptor::Int32) => true,
        (TypeDescriptor::Int64, TypeDescriptor::Int64) => true,
        (TypeDescriptor::UInt8, TypeDescriptor::UInt8) => true,
        (TypeDescriptor::UInt16, TypeDescriptor::UInt16) => true,
        (TypeDescriptor::UInt32, TypeDescriptor::UInt32) => true,
        (TypeDescriptor::UInt64, TypeDescriptor::UInt64) => true,
        (TypeDescriptor::Float16, TypeDescriptor::Float16) => true,
        (TypeDescriptor::Float32, TypeDescriptor::Float32) => true,
        (TypeDescriptor::Float64, TypeDescriptor::Float64) => true,
        (TypeDescriptor::Binary, TypeDescriptor::Binary) => true,
        (TypeDescriptor::LargeBinary, TypeDescriptor::LargeBinary) => true,
        (TypeDescriptor::FixedSizeBinary(x), TypeDescriptor::FixedSizeBinary(y)) => x == y,
        (TypeDescriptor::Decimal128(p1, s1), TypeDescriptor::Decimal128(p2, s2)) => p1 == p2
            && s1 == s2,
        (TypeDescriptor::Decimal256(p1, s1), TypeDescriptor::Decimal256(p2, s2)) => p1 == p2
            && s1 == s2,
        (TypeDescriptor::Utf8, TypeDescriptor::Utf8) => true,
        (TypeDescriptor::LargeUtf8, TypeDescriptor::LargeUtf8) => true,
        (TypeDescriptor::Date32, TypeDescriptor::Date32) => true,
        (TypeDescriptor::Date64, TypeDescriptor::Date64) => true,
        (TypeDescriptor::Time32(u1), TypeDescriptor::Time32(u2)) => u1 == u2,
        (TypeDescriptor::Time64(u1), TypeDescriptor::Time64(u2)) => u1 == u2,
        (TypeDescriptor::Timestamp(u1, z1), TypeDescriptor::Timestamp(u2, z2)) => u1 == u2
            && eq_opt_str(z1, z2),
        (TypeDescriptor::Interval(u1), TypeDescriptor::Interval(u2)) => u1 == u2,
        (TypeDescriptor::Duration(u1), TypeDescriptor::Duration(u2)) => u1 == u2,
        (TypeDescriptor::List(e1), TypeDescriptor::List(e2)) => eq_type(e1, e2),
        (TypeDescriptor::LargeList(e1), TypeDescriptor::LargeList(e2)) => eq_type(e1, e2),
        (TypeDescriptor::FixedSizeList(e1, n1), TypeDescriptor::FixedSizeList(e2, n2)) => n1 == n2
            && eq_type(e1, e2),
        _ => false,
    }
}

/// Decides equivalence of two optional timezone names.
fn eq_opt_str(a: &Option<String>, b: &Option<String>) -> (r: bool)
    ensures
        r == opt_str_eqv(*a, *b),
{
    match (a, b) {
        (Option::None, Option::None) => true,
        (Option::Some(x), Option::Some(y)) => x.eq(y),
        _ => false,
    }
}

/// Produces a descriptor equivalent to `t`.
pub fn td_clone(t: &TypeDescriptor) -> (r: TypeDescriptor)
    ensures
        td_eqv(r, *t),
    decreases *t,
{
    match t {
        TypeDescriptor::Null => TypeDescriptor::Null,
        TypeDescriptor::Boolean => TypeDescriptor::Boolean,
        TypeDescriptor::Int8 => TypeDescriptor::Int8,
        TypeDescriptor::Int16 => TypeDescriptor::Int16,
        TypeDescriptor::Int32 => TypeDescriptor::Int32,
        TypeDescriptor::Int64 => TypeDescriptor::Int64,
        TypeDescriptor::UInt8 => TypeDescriptor::UInt8,
        TypeDescriptor::UInt16 => TypeDescriptor::UInt16,
        TypeDescriptor::UInt32 => TypeDescriptor::UInt32,
        TypeDescriptor::UInt64 => TypeDescriptor::UInt64,
        TypeDescriptor::Float16 => TypeDescriptor::Float16,
        TypeDescriptor::Float32 => TypeDescriptor::Float32,
        TypeDescriptor::Float64 => TypeDescriptor::Float64,
        TypeDescriptor::Binary => TypeDescriptor::Binary,
        TypeDescriptor::LargeBinary => TypeDescriptor::LargeBinary,
        TypeDescriptor::FixedSizeBinary(n) => TypeDescriptor::FixedSizeBinary(*n),
        TypeDescriptor::Decimal128(p, s) => TypeDescriptor::Decimal128(*p, *s),
        TypeDescriptor::Decimal256(p, s) => TypeDescriptor::Decimal256(*p, *s),
        TypeDescriptor::Utf8 => TypeDescriptor::Utf8,
        TypeDescriptor::LargeUtf8 => TypeDescriptor::LargeUtf8,
        TypeDescriptor::Date32 => TypeDescriptor::Date32,
        TypeDescriptor::Date64 => TypeDescriptor::Date64,
        TypeDescriptor::Time32(u) => TypeDescriptor::Time32(*u),
        TypeDescriptor::Time64(u) => TypeDescriptor::Time64(*u),
        TypeDescriptor::Timestamp(u, z) => TypeDescriptor::Timestamp(*u, clone_opt_str(z)),
        TypeDescriptor::Interval(u) => TypeDescriptor::Interval(*u),
        TypeDescriptor::Duration(u) => TypeDescriptor::Duration(*u),
        TypeDescriptor::List(e) => TypeDescriptor::List(Box::new(td_clone(e))),
        TypeDescriptor::LargeList(e) => TypeDescriptor::LargeList(Box::new(td_clone(e))),
        TypeDescriptor::FixedSizeList(e, n) => TypeDescriptor::FixedSizeList(
            Box::new(td_clone(e)),
            *n,
        ),
    }
}

/// Copies an optional timezone name, preserving its text.
pub fn clone_opt_str(z: &Option<String>) -> (r: Option<String>)
    ensures
        opt_str_eqv(r, *z),
{
    match z {
        Option::None => Option::None,
        Option::Some(s) => Option::Some(s.clone()),
    }
}

/// Every type descriptor is equivalent to itself.
pub proof fn lemma_td_eqv_refl(a: TypeDescriptor)
    ensures
        td_eqv(a, a),
    decreases a,
{
    match a {
        TypeDescriptor::List(e) => {
            lemma_td_eqv_refl(*e);
        },
        TypeDescriptor::LargeList(e) => {
            lemma_td_eqv_refl(*e);
        },
        TypeDescriptor::FixedSizeList(e, _) => {
            lemma_td_eqv_refl(*e);
        },
        _ => {},
    }
}

/// Equivalence of type descriptors is transitive.
pub proof fn lemma_td_eqv_trans(a: TypeDescriptor, b: TypeDescriptor, c: TypeDescriptor)
    requires
        td_eqv(a, b),
        td_eqv(b, c),
    ensures
        td_eqv(a, c),
    decreases a,
{
    match (a, b, c) {
        (TypeDescriptor::List(e1), TypeDescriptor::List(e2), TypeDescriptor::List(e3)) => {
            lemma_td_eqv_trans(*e1, *e2, *e3);
        },
        (
            TypeDescriptor::LargeList(e1),
            TypeDescriptor::LargeList(e2),
            TypeDescriptor::LargeList(e3),
        ) => {
            lemma_td_eqv_trans(*e1, *e2, *e3);
        },
        (
            TypeDescriptor::FixedSizeList(e1, _),
            TypeDescriptor::FixedSizeList(e2, _),
            TypeDescriptor::FixedSizeList(e3, _),
        ) => {
            lemma_td_eqv_trans(*e1, *e2, *e3);
        },
        _ => {},
    }
}

/// Equivalence of type descriptors is symmetric.
pub proof fn lemma_td_eqv_sym(a: TypeDescriptor, b: TypeDescriptor)
    requires
        td_eqv(a, b),
    ensures
        td_eqv(b, a),
    decreases a,
{
    match (a, b) {
        (TypeDescriptor::List(e1), TypeDescriptor::List(e2)) => {
            lemma_td_eqv_sym(*e1, *e2);
        },
        (TypeDescriptor::LargeList(e1), TypeDescriptor::LargeList(e2)) => {
            lemma_td_eqv_sym(*e1, *e2);
        },
        (TypeDescriptor::FixedSizeList(e1, _), TypeDescriptor::FixedSizeList(e2, _)) => {
            lemma_td_eqv_sym(*e1, *e2);
        },
        _ => {},
    }
}

/// Equivalent descriptors are supported alike.
pub proof fn lemma_supported_congruent(a: TypeDescriptor, b: TypeDescriptor)
    requires
        td_eqv(a, b),
    ensures
        supported(a) == supported(b),
    decreases a,
{
    match (a, b) {
        (TypeDescriptor::List(e1), TypeDescriptor::List(e2)) => {
            lemma_supported_congruent(*e1, *e2);
        },
        (TypeDescriptor::LargeList(e1), TypeDescriptor::LargeList(e2)) => {
            lemma_supported_congruent(*e1, *e2);
        },
        (TypeDescriptor::FixedSizeList(e1, _), TypeDescriptor::FixedSizeList(e2, _)) => {
            lemma_supported_congruent(*e1, *e2);
        },
        _ => {},
    }
}

} // verus!
