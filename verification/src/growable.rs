//! The abstract model of a growable builder: the operations a caller may
//! issue between construction and finalization, and what each one does to
//! the accumulation buffer.
//!
//! Every concrete builder states its `extend` and `add_nulls` contracts as
//! one step of this model, so the laws proved here hold of each of them.

use vstd::prelude::*;

verus! {

/// One append instruction issued to a builder: copy a slice out of a source
/// array, or append a run of nulls.
#[derive(Debug, Clone, Copy, PartialEq, Eq, Structural)]
pub enum GrowOp {
    /// Append `len` elements of source `index`, starting at `start`.
    Extend { index: usize, start: usize, len: usize },
    /// Append `count` null elements.
    AddNulls { count: usize },
}

/// How many elements one instruction appends.
pub open spec fn op_count(op: GrowOp) -> nat {
    match op {
        GrowOp::Extend { index, start, len } => len as nat,
        GrowOp::AddNulls { count } => count as nat,
    }
}

/// The total element count requested by a sequence of instructions.
pub open spec fn ops_count(ops: Seq<GrowOp>) -> nat
    decreases ops.len(),
{
    if ops.len() == 0 {
        0
    } else {
        ops_count(ops.drop_last()) + op_count(ops.last())
    }
}

/// Whether one instruction stays inside the given sources: the source index
/// exists and the requested slice lies within that source.
pub open spec fn op_admissible<T>(sources: Seq<Seq<Option<T>>>, op: GrowOp) -> bool {
    match op {
        GrowOp::Extend { index, start, len } => {
            &&& (index as int) < sources.len()
            &&& start + len <= sources[index as int].len()
        },
        GrowOp::AddNulls { count } => true,
    }
}

/// Whether every instruction of a sequence stays inside the given sources.
pub open spec fn ops_admissible<T>(sources: Seq<Seq<Option<T>>>, ops: Seq<GrowOp>) -> bool {
    forall|j: int| 0 <= j < ops.len() ==> op_admissible(sources, #[trigger] ops[j])
}

/// The accumulation buffer after one instruction: the old buffer followed by
/// the requested slice, validity flags preserved, or by `count` nulls.
pub open spec fn apply_op<T>(
    sources: Seq<Seq<Option<T>>>,
    buf: Seq<Option<T>>,
    op: GrowOp,
) -> Seq<Option<T>> {
    match op {
        GrowOp::Extend { index, start, len } => buf + sources[index as int].subrange(
            start as int,
            start + len,
        ),
        GrowOp::AddNulls { count } => buf + Seq::new(count as nat, |i: int| None),
    }
}

/// The accumulation buffer after a whole sequence of instructions.
pub open spec fn apply_ops<T>(
    sources: Seq<Seq<Option<T>>>,
    buf: Seq<Option<T>>,
    ops: Seq<GrowOp>,
) -> Seq<Option<T>>
    decreases ops.len(),
{
    if ops.len() == 0 {
        buf
    } else {
        apply_op(sources, apply_ops(sources, buf, ops.drop_last()), ops.last())
    }
}

/// Length invariant: after any admissible sequence of `extend`/`add_nulls`
/// instructions, the buffer's length equals its initial length plus the sum
/// of all requested slice lengths and null counts; the built array drains
/// the buffer, so its length is that sum.
pub proof fn lemma_growable_length<T>(
    sources: Seq<Seq<Option<T>>>,
    buf: Seq<Option<T>>,
    ops: Seq<GrowOp>,
)
    requires
        ops_admissible(sources, ops),
    ensures
        apply_ops(sources, buf, ops).len() == buf.len() + ops_count(ops),
    decreases ops.len(),
{
    if ops.len() > 0 {
        assert(ops_admissible(sources, ops.drop_last()));
        lemma_growable_length(sources, buf, ops.drop_last());
    }
}

/// Content fidelity: a single `extend` instruction on an empty buffer yields
/// exactly the source's elements at the requested positions, nulls included,
/// in order.
pub proof fn lemma_single_extend_content<T>(
    sources: Seq<Seq<Option<T>>>,
    index: usize,
    start: usize,
    len: usize,
)
    requires
        op_admissible(sources, GrowOp::Extend { index, start, len }),
    ensures
        apply_ops(sources, Seq::empty(), seq![GrowOp::Extend { index, start, len }])
            =~= sources[index as int].subrange(start as int, start + len),
{
    let ops = seq![GrowOp::Extend { index, start, len }];
    assert(ops.drop_last().len() == 0);
    assert(apply_ops(sources, Seq::<Option<T>>::empty(), ops.drop_last())
        == Seq::<Option<T>>::empty());
}

/// Null round-trip: a single `add_nulls` instruction on an empty buffer
/// yields exactly `count` elements, all null.
pub proof fn lemma_add_nulls_content<T>(sources: Seq<Seq<Option<T>>>, count: usize)
    ensures
        apply_ops(sources, Seq::<Option<T>>::empty(), seq![GrowOp::AddNulls { count }]).len()
            == count,
        forall|i: int|
            0 <= i < count ==> apply_ops(
                sources,
                Seq::<Option<T>>::empty(),
                seq![GrowOp::AddNulls { count }],
            )[i] is None,
{
    let ops = seq![GrowOp::AddNulls { count }];
    assert(ops.drop_last().len() == 0);
    assert(apply_ops(sources, Seq::<Option<T>>::empty(), ops.drop_last())
        == Seq::<Option<T>>::empty());
}

/// Empty build: with no instructions the buffer stays empty, so the built
/// array has zero length.
pub proof fn lemma_empty_build<T>(sources: Seq<Seq<Option<T>>>)
    ensures
        apply_ops(sources, Seq::<Option<T>>::empty(), Seq::empty()).len() == 0,
{
}

} // verus!
