use vstd::prelude::*;

use crate::greatest::arg_at;
use crate::greatest::row_max;
use crate::greatest::row_of;
use crate::order::lemma_cmp_m_irrefl;
use crate::order::lemma_lt_respects_null;
use crate::types::lemma_td_eqv_refl;
use crate::types::lemma_td_eqv_trans;
use crate::types::td_eqv;
use crate::types::TypeDescriptor;
use crate::typing::col_wf;
use crate::typing::fits;
use crate::typing::lemma_stored_null_iff;
use crate::typing::stored;
use crate::value::m_is_null;
use crate::value::Column;
use crate::value::ColumnarValue;
use crate::value::ScalarModel;

verus! {

/// Passing the type check never depends on argument order beyond
/// adjacency: when every adjacent pair of types is equivalent, every
/// pair of types is, by transitivity.
pub proof fn lemma_adjacent_eqv_all(types: Seq<TypeDescriptor>, i: int, j: int)
    requires
        forall|k: int| 0 <= k < types.len() - 1 ==> td_eqv(#[trigger] types[k], types[k + 1]),
        0 <= i <= j < types.len(),
    ensures
        td_eqv(types[i], types[j]),
    decreases j - i,
{
    if i == j {
        lemma_td_eqv_refl(types[i]);
    } else {
        lemma_adjacent_eqv_all(types, i, j - 1);
        lemma_td_eqv_trans(types[i], types[j - 1], types[j]);
    }
}

/// A row's greatest value carries no data exactly when every input at
/// that row carries none: a value that carries data is never displaced
/// by one that does not.
pub proof fn lemma_row_max_null_iff(vals: Seq<ScalarModel>)
    ensures
        m_is_null(row_max(vals)) <==> (forall|j: int|
            0 <= j < vals.len() ==> m_is_null(#[trigger] vals[j])),
    decreases vals.len(),
{
    if vals.len() > 0 {
        let prefix = vals.subrange(0, vals.len() - 1);
        lemma_row_max_null_iff(prefix);
        let acc = row_max(prefix);
        let v = vals.last();
        if !m_is_null(acc) && m_is_null(v) {
            lemma_lt_respects_null(acc, v);
        }
        assert forall|j: int| 0 <= j < prefix.len() implies prefix[j] == vals[j] by {}
        if m_is_null(row_max(vals)) {
            assert(m_is_null(acc));
        }
    }
}

/// Null dominance: for a row whose greatest value the output type
/// accepts, the recorded output is null exactly when every input at
/// that row is null.
pub proof fn lemma_null_dominance(vals: Seq<ScalarModel>, t: TypeDescriptor)
    requires
        fits(row_max(vals), t),
    ensures
        m_is_null(stored(row_max(vals), t)) <==> (forall|j: int|
            0 <= j < vals.len() ==> m_is_null(#[trigger] vals[j])),
{
    lemma_row_max_null_iff(vals);
    lemma_stored_null_iff(row_max(vals), t);
}

/// The greatest of identical values is that value, whether or not it
/// carries data.
pub proof fn lemma_row_max_idempotent(vals: Seq<ScalarModel>, v: ScalarModel)
    requires
        vals.len() >= 1,
        forall|j: int| 0 <= j < vals.len() ==> #[trigger] vals[j] == v,
    ensures
        row_max(vals) == v,
    decreases vals.len(),
{
    lemma_cmp_m_irrefl(v);
    if vals.len() == 1 {
        assert(vals.subrange(0, 0).len() == 0);
        assert(row_max(vals.subrange(0, 0)) == ScalarModel::Null);
        assert(vals.last() == v);
    } else {
        let prefix = vals.subrange(0, vals.len() - 1);
        assert forall|j: int| 0 <= j < prefix.len() implies #[trigger] prefix[j] == v by {}
        lemma_row_max_idempotent(prefix, v);
    }
}

/// Idempotence of the reduction: where every argument contributes the
/// same well-formed column's value at row `r`, the value the reduction
/// records at row `r` is exactly that column's value.
pub proof fn lemma_greatest_idempotent(args: Seq<ColumnarValue>, c: Column, r: int)
    requires
        args.len() >= 1,
        col_wf(c),
        0 <= r < c@.len(),
        forall|j: int| 0 <= j < args.len() ==> arg_at(#[trigger] args[j], r) == c@[r],
    ensures
        stored(row_max(row_of(args, r)), c.dtype) == c@[r],
{
    let vals = row_of(args, r);
    assert forall|j: int| 0 <= j < vals.len() implies #[trigger] vals[j] == c@[r] by {}
    lemma_row_max_idempotent(vals, c@[r]);
}

} // verus!
