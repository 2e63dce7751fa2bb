//! A verified variadic `greatest` function over columnar, row-oriented
//! batches of typed values.
//!
//! The crate models a host engine's typed value vocabulary with its own
//! closed type set: a [`TypeDescriptor`] names a column's logical type, a
//! [`ScalarValue`] is one possibly-null value of such a type, a
//! [`Column`] is an immutable typed sequence of scalar values, and a
//! [`Builder`] is a write-then-finalize accumulator that produces one
//! column.  On top of that sit the factory [`make_builder`], the
//! row-wise reduction [`greatest`], the argument validation a host
//! performs before running it, and [`GreatestUDF`], the registrable
//! function contract.  The `lemma_` items state and prove the library's
//! laws: null dominance, idempotence, and order-independence of the
//! type check.

use vstd::prelude::*;

mod builder;
mod error;
mod greatest;
mod laws;
mod order;
mod types;
mod typing;
mod udf;
mod value;

pub use builder::make_builder;
pub use builder::Builder;
pub use error::ErrorKind;
pub use greatest::greatest;
pub use greatest::validate_args;
pub use greatest::validate_args_types;
pub use greatest::greatest_ok;
pub use greatest::is_arg_type;
pub use greatest::nrows;
pub use greatest::row_max;
pub use greatest::row_of;
pub use laws::lemma_adjacent_eqv_all;
pub use laws::lemma_greatest_idempotent;
pub use laws::lemma_null_dominance;
pub use laws::lemma_row_max_idempotent;
pub use laws::lemma_row_max_null_iff;
pub use udf::GreatestUDF;
pub use udf::Signature;
pub use udf::TypeSignature;
pub use udf::Volatility;
pub use types::IntervalUnit;
pub use types::TimeUnit;
pub use types::TypeDescriptor;
pub use value::Column;
pub use value::ColumnarValue;
pub use value::Int256;
pub use value::ScalarValue;

verus! {

} // verus!
