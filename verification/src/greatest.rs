use vstd::prelude::*;

use crate::builder::make_builder;
use crate::error::ErrorKind;
use crate::order::lt_m;
use crate::order::sv_lt;
use crate::types::eq_type;
use crate::types::lemma_supported_congruent;
use crate::types::lemma_td_eqv_sym;
use crate::types::lemma_td_eqv_trans;
use crate::types::supported;
use crate::types::td_clone;
use crate::types::td_eqv;
use crate::types::TypeDescriptor;
use crate::typing::col_wf;
use crate::typing::fits;
use crate::typing::lemma_fits_congruent;
use crate::typing::lemma_stored_congruent;
use crate::typing::stored;
use crate::value::lemma_sv_has_type_unique;
use crate::value::m_is_null;
use crate::value::sv_clone;
use crate::value::sv_dtype;
use crate::value::sv_has_type;
use crate::value::Column;
use crate::value::ColumnarValue;
use crate::value::ScalarModel;
use crate::value::ScalarValue;

verus! {

/// Validates the argument count: at least two inputs are required.
pub fn validate_args(args: &[ColumnarValue]) -> (r: Result<(), ErrorKind>)
    ensures
        r is Ok <==> args@.len() >= 2,
        r matches Err(e) ==> e == ErrorKind::ArityError,
{
    if args.len() < 2 {
        Err(ErrorKind::ArityError)
    } else {
        Ok(())
    }
}

/// Validates the declared argument types: at least two, and each
/// adjacent pair equivalent (which makes them all equivalent, by
/// transitivity).
#[verifier::loop_isolation(false)]
pub fn validate_args_types(types: &[TypeDescriptor]) -> (r: Result<(), ErrorKind>)
    ensures
        r is Ok <==> (types@.len() >= 2 && forall|i: int|
            0 <= i < types@.len() - 1 ==> td_eqv(#[trigger] types@[i], types@[i + 1])),
        types@.len() < 2 <==> r == Err::<(), ErrorKind>(ErrorKind::ArityError),
        r is Err && types@.len() >= 2 ==> r == Err::<(), ErrorKind>(
            ErrorKind::TypeConsistencyError,
        ),
{
    if types.len() < 2 {
        return Err(ErrorKind::ArityError);
    }
    let mut i: usize = 0;
    while i + 1 < types.len()
        invariant
            i < types@.len(),
            forall|j: int| 0 <= j < i ==> td_eqv(#[trigger] types@[j], types@[j + 1]),
        decreases types@.len() - i,
    {
        if !eq_type(&types[i], &types[i + 1]) {
            return Err(ErrorKind::TypeConsistencyError);
        }
        i = i + 1;
    }
    Ok(())
}

/// Number of rows the reduction materializes: the length of the first
/// realized column among the arguments, or one when every argument is a
/// single scalar.
pub open spec fn nrows(args: Seq<ColumnarValue>) -> nat
    decreases args.len(),
{
    if args.len() == 0 {
        1
    } else {
        match args[0] {
            ColumnarValue::Column(c) => c@.len(),
            ColumnarValue::Scalar(_) => nrows(args.subrange(1, args.len() as int)),
        }
    }
}

/// The value that argument `a` contributes at row `r`: a scalar argument
/// repeats at every row, a column argument contributes its row.
pub open spec fn arg_at(a: ColumnarValue, r: int) -> ScalarModel {
    match a {
        ColumnarValue::Scalar(s) => s@,
        ColumnarValue::Column(c) => c@[r],
    }
}

/// The scalar models row `r` receives, one per argument, in order.
pub open spec fn row_of(args: Seq<ColumnarValue>, r: int) -> Seq<ScalarModel> {
    Seq::new(args.len(), |j: int| arg_at(args[j], r))
}

/// One reduction step: the accumulator is replaced where it carries no
/// data or where the new value orders strictly above it.
pub open spec fn step_max(acc: ScalarModel, v: ScalarModel) -> ScalarModel {
    if m_is_null(acc) || lt_m(acc, v) {
        v
    } else {
        acc
    }
}

/// The greatest value of a row: the left-to-right fold of
/// [`step_max`] starting from the untyped placeholder.
pub open spec fn row_max(vals: Seq<ScalarModel>) -> ScalarModel
    decreases vals.len(),
{
    if vals.len() == 0 {
        ScalarModel::Null
    } else {
        step_max(row_max(vals.subrange(0, vals.len() - 1)), vals.last())
    }
}

/// Whether `t` is the type of argument `a`.
pub open spec fn is_arg_type(a: ColumnarValue, t: TypeDescriptor) -> bool {
    match a {
        ColumnarValue::Scalar(s) => sv_has_type(s, t),
        ColumnarValue::Column(c) => td_eqv(t, c.dtype),
    }
}

/// An argument's type is determined up to equivalence.
pub proof fn lemma_arg_type_unique(a: ColumnarValue, t1: TypeDescriptor, t2: TypeDescriptor)
    requires
        is_arg_type(a, t1),
        is_arg_type(a, t2),
    ensures
        td_eqv(t1, t2),
{
    match a {
        ColumnarValue::Scalar(s) => {
            lemma_sv_has_type_unique(s, t1, t2);
        },
        ColumnarValue::Column(c) => {
            lemma_td_eqv_sym(t2, c.dtype);
            lemma_td_eqv_trans(t1, c.dtype, t2);
        },
    }
}

/// The conditions under which the reduction succeeds for output type
/// `t`: enough arguments, `t` is the first argument's supported type,
/// and every row's greatest value is acceptable to a builder of type
/// `t`.
pub open spec fn greatest_ok(args: Seq<ColumnarValue>, t: TypeDescriptor) -> bool {
    &&& args.len() >= 2
    &&& is_arg_type(args[0], t)
    &&& supported(t)
    &&& forall|r: int| 0 <= r < nrows(args) ==> fits(#[trigger] row_max(row_of(args, r)), t)
}

/// Finds the row count of the arguments.
#[verifier::loop_isolation(false)]
fn num_rows(args: &[ColumnarValue]) -> (n: usize)
    ensures
        n as nat == nrows(args@),
{
    let mut j: usize = 0;
    proof {
        assert(args@.subrange(0, args@.len() as int) =~= args@);
    }
    while j < args.len()
        invariant
            j <= args@.len(),
            nrows(args@) == nrows(args@.subrange(j as int, args@.len() as int)),
            forall|k: int| 0 <= k < j ==> args@[k] is Scalar,
        decreases args@.len() - j,
    {
        match &args[j] {
            ColumnarValue::Column(c) => {
                let n = c.len();
                proof {
                    let sub = args@.subrange(j as int, args@.len() as int);
                    assert(sub[0] == args@[j as int]);
                }
                return n;
            },
            ColumnarValue::Scalar(_) => {
                proof {
                    let sub = args@.subrange(j as int, args@.len() as int);
                    assert(sub[0] == args@[j as int]);
                    assert(sub.subrange(1, sub.len() as int) =~= args@.subrange(
                        j as int + 1,
                        args@.len() as int,
                    ));
                }
                j = j + 1;
            },
        }
    }
    proof {
        assert(args@.subrange(j as int, args@.len() as int).len() == 0);
    }
    1
}

/// Reduces equal-length inputs to a column holding, at every row, the
/// greatest of the inputs' values at that row under the per-type order
/// of the host value model, with values that carry no data never chosen
/// over values that do.  Only the argument count is validated here; a type mismatch
/// among the inputs surfaces as a builder error, and the host is
/// trusted to hand over realized columns of equal length.
#[verifier::loop_isolation(false)]
pub fn greatest(args: &[ColumnarValue]) -> (res: Result<Column, ErrorKind>)
    requires
        forall|j: int|
            0 <= j < args@.len() ==> (#[trigger] args@[j] matches ColumnarValue::Column(c)
                ==> c@.len() == nrows(args@)),
    ensures
        res is Ok <==> exists|t: TypeDescriptor| #[trigger] greatest_ok(args@, t),
        res matches Ok(out) ==> {
            &&& greatest_ok(args@, out.dtype)
            &&& out@.len() == nrows(args@)
            &&& forall|r: int|
                0 <= r < out@.len() ==> out@[r] == stored(
                    #[trigger] row_max(row_of(args@, r)),
                    out.dtype,
                )
            &&& col_wf(out)
        },
        res matches Err(e) ==> {
            &&& (args@.len() < 2 <==> e == ErrorKind::ArityError)
            &&& (e matches ErrorKind::UnsupportedType(_) ==> args@.len() >= 2 && forall|
                t2: TypeDescriptor,
            |
                #[trigger] is_arg_type(args@[0], t2) ==> !supported(t2))
            &&& (e == ErrorKind::TypeMismatch ==> args@.len() >= 2 && exists|r: int|
                0 <= r < nrows(args@) && !fits(
                    #[trigger] row_max(row_of(args@, r)),
                    choose|t: TypeDescriptor| is_arg_type(args@[0], t),
                ))
        },
{
    if args.len() < 2 {
        return Err(ErrorKind::ArityError);
    }
    let dt0 = match &args[0] {
        ColumnarValue::Scalar(s) => sv_dtype(s),
        ColumnarValue::Column(c) => td_clone(&c.dtype),
    };
    proof {
        if args@[0] is Column {
            lemma_td_eqv_sym(dt0, args@[0]->Column_0.dtype);
        }
        assert(is_arg_type(args@[0], dt0));
    }
    let rn = num_rows(args);
    let mut builder = match make_builder(&dt0, rn) {
        Ok(b) => b,
        Err(e) => {
            proof {
                assert forall|t2: TypeDescriptor| #[trigger] is_arg_type(args@[0], t2) implies
                    !supported(t2) by {
                    lemma_arg_type_unique(args@[0], t2, dt0);
                    lemma_supported_congruent(t2, dt0);
                }
                assert forall|t2: TypeDescriptor| !greatest_ok(args@, t2) by {
                    if is_arg_type(args@[0], t2) {
                        lemma_arg_type_unique(args@[0], t2, dt0);
                        lemma_supported_congruent(t2, dt0);
                    }
                }
            }
            return Err(e);
        },
    };
    let ghost t = builder.typ();
    let mut r: usize = 0;
    while r < rn
        invariant
            builder.wf(),
            builder.typ() == t,
            td_eqv(t, dt0),
            builder.model().len() == r,
            r <= rn,
            forall|k: int|
                0 <= k < r ==> builder.model()[k] == stored(
                    #[trigger] row_max(row_of(args@, k)),
                    t,
                ),
            forall|k: int| 0 <= k < r ==> fits(#[trigger] row_max(row_of(args@, k)), t),
        decreases rn - r,
    {
        let ghost rowvals = row_of(args@, r as int);
        let mut mx = ScalarValue::Null;
        let mut j: usize = 0;
        while j < args.len()
            invariant
                j <= args@.len(),
                rowvals == row_of(args@, r as int),
                r < rn,
                mx@ == row_max(rowvals.subrange(0, j as int)),
            decreases args@.len() - j,
        {
            let v = match &args[j] {
                ColumnarValue::Scalar(s) => sv_clone(s),
                ColumnarValue::Column(c) => c.value_at(r),
            };
            proof {
                assert(v@ == rowvals[j as int]);
                let pre = rowvals.subrange(0, j as int + 1);
                assert(pre.subrange(0, pre.len() - 1) =~= rowvals.subrange(0, j as int));
                assert(pre.last() == rowvals[j as int]);
            }
            if mx.is_null() || sv_lt(&mx, &v) {
                mx = v;
            }
            j = j + 1;
        }
        proof {
            assert(rowvals.subrange(0, args@.len() as int) =~= rowvals);
        }
        match builder.append_scalar_value(mx) {
            Ok(()) => {},
            Err(_) => {
                proof {
                    let witness = choose|t2: TypeDescriptor| is_arg_type(args@[0], t2);
                    assert(is_arg_type(args@[0], dt0));
                    lemma_arg_type_unique(args@[0], witness, dt0);
                    lemma_td_eqv_sym(t, dt0);
                    lemma_td_eqv_trans(witness, dt0, t);
                    lemma_fits_congruent(row_max(rowvals), witness, t);
                    assert(!fits(row_max(row_of(args@, r as int)), witness));
                    assert forall|t2: TypeDescriptor| !greatest_ok(args@, t2) by {
                        if is_arg_type(args@[0], t2) {
                            lemma_arg_type_unique(args@[0], t2, dt0);
                            lemma_td_eqv_trans(t2, dt0, t);
                            lemma_fits_congruent(row_max(rowvals), t2, t);
                        }
                    }
                }
                return Err(ErrorKind::TypeMismatch);
            },
        }
        r = r + 1;
    }
    let out = builder.finish();
    proof {
        lemma_td_eqv_trans(out.dtype, t, dt0);
        if args@[0] is Column {
            lemma_td_eqv_trans(out.dtype, dt0, args@[0]->Column_0.dtype);
        }
        assert(is_arg_type(args@[0], out.dtype)) by {
            match args@[0] {
                ColumnarValue::Scalar(s) => {
                    lemma_td_eqv_sym(out.dtype, dt0);
                    crate::value::lemma_sv_has_type_congruent(s, dt0, out.dtype);
                },
                ColumnarValue::Column(_) => {},
            }
        }
        lemma_td_eqv_sym(out.dtype, dt0);
        lemma_supported_congruent(out.dtype, dt0);
        assert forall|rr: int| 0 <= rr < out@.len() implies out@[rr] == stored(
            #[trigger] row_max(row_of(args@, rr)),
            out.dtype,
        ) && fits(row_max(row_of(args@, rr)), out.dtype) by {
            lemma_td_eqv_sym(out.dtype, t);
            lemma_stored_congruent(row_max(row_of(args@, rr)), out.dtype, t);
            lemma_fits_congruent(row_max(row_of(args@, rr)), out.dtype, t);
        }
        assert(greatest_ok(args@, out.dtype));
    }
    Ok(out)
}

} // verus!
