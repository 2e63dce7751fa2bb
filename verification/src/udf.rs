use vstd::prelude::*;

use crate::error::ErrorKind;
use crate::greatest::greatest;
use crate::greatest::greatest_ok;
use crate::greatest::is_arg_type;
use crate::greatest::nrows;
use crate::greatest::row_max;
use crate::greatest::row_of;
use crate::greatest::validate_args_types;
use crate::types::supported;
use crate::types::td_clone;
use crate::types::td_eqv;
use crate::types::TypeDescriptor;
use crate::typing::col_wf;
use crate::typing::fits;
use crate::typing::stored;
use crate::value::Column;
use crate::value::ColumnarValue;

verus! {

/// Shape of the argument lists a registered function accepts.
#[derive(Clone, Copy, Debug, PartialEq, Eq, Structural)]
pub enum TypeSignature {
    /// Any number of arguments, of any one type.
    VariadicAny,
}

/// How a registered function's result may vary between calls.
#[derive(Clone, Copy, Debug, PartialEq, Eq, Structural)]
pub enum Volatility {
    /// The result depends on the arguments alone.
    Immutable,
}

/// What a host engine asks of a registrable scalar function.
#[derive(Clone, Copy, Debug, PartialEq, Eq, Structural)]
pub struct Signature {
    pub type_signature: TypeSignature,
    pub volatility: Volatility,
}

/// The registrable scalar function: a variadic, pure `greatest` over
/// arguments of any one type.
#[derive(Debug)]
pub struct GreatestUDF;

impl GreatestUDF {
    /// The function's registered name.
    pub fn name(&self) -> (r: &'static str)
        ensures
            r@ == "greatest"@,
    {
        "greatest"
    }

    /// The function's signature: variadic over any type, immutable.
    pub fn signature(&self) -> (s: Signature)
        ensures
            s == (Signature {
                type_signature: TypeSignature::VariadicAny,
                volatility: Volatility::Immutable,
            }),
    {
        Signature { type_signature: TypeSignature::VariadicAny, volatility: Volatility::Immutable }
    }

    /// Derives the output type from the declared input types: after
    /// validation, the output type is the (single, now proven common)
    /// input type.
    pub fn return_type(&self, arg_types: &[TypeDescriptor]) -> (r: Result<
        TypeDescriptor,
        ErrorKind,
    >)
        ensures
            r is Ok <==> (arg_types@.len() >= 2 && forall|i: int|
                0 <= i < arg_types@.len() - 1 ==> td_eqv(#[trigger] arg_types@[i], arg_types@[i
                    + 1])),
            r matches Ok(t) ==> td_eqv(t, arg_types@[0]),
            arg_types@.len() < 2 <==> r == Err::<TypeDescriptor, ErrorKind>(ErrorKind::ArityError),
            r is Err && arg_types@.len() >= 2 ==> r == Err::<TypeDescriptor, ErrorKind>(
                ErrorKind::TypeConsistencyError,
            ),
    {
        match validate_args_types(arg_types) {
            Err(e) => Err(e),
            Ok(()) => Ok(td_clone(&arg_types[0])),
        }
    }

    /// Invocation entry point: checks the argument count and runs the
    /// row-wise reduction.  Argument types are not re-validated here;
    /// the host has already checked them through
    /// [`GreatestUDF::return_type`], and a mismatch that slips through
    /// surfaces as a type-mismatch error from the output builder.
    pub fn invoke(&self, args: &[ColumnarValue]) -> (res: Result<Column, ErrorKind>)
        requires
            forall|j: int|
                0 <= j < args@.len() ==> (#[trigger] args@[j] matches ColumnarValue::Column(c)
                    ==> c@.len() == nrows(args@)),
        ensures
            res is Ok <==> exists|t: TypeDescriptor| #[trigger] greatest_ok(args@, t),
            res matches Ok(out) ==> {
                &&& greatest_ok(args@, out.dtype)
                &&& out@.len() == nrows(args@)
                &&& forall|r: int|
                    0 <= r < out@.len() ==> out@[r] == stored(
                        #[trigger] row_max(row_of(args@, r)),
                        out.dtype,
                    )
                &&& col_wf(out)
            },
            res matches Err(e) ==> {
                &&& (args@.len() < 2 <==> e == ErrorKind::ArityError)
                &&& (e matches ErrorKind::UnsupportedType(_) ==> args@.len() >= 2 && forall|
                    t2: TypeDescriptor,
                |
                    #[trigger] is_arg_type(args@[0], t2) ==> !supported(t2))
                &&& (e == ErrorKind::TypeMismatch ==> args@.len() >= 2 && exists|r: int|
                    0 <= r < nrows(args@) && !fits(
                        #[trigger] row_max(row_of(args@, r)),
                        choose|t: TypeDescriptor| is_arg_type(args@[0], t),
                    ))
            },
    {
        greatest(args)
    }
}

} // verus!
