//! The design space: the live instance set together with the applied
//! edit history and the redo buffer.
//!
//! `push` applies an operation and either merges it into the newest
//! history entry or appends it, clearing the redo buffer either way.
//! `pop` inverts the newest entry and moves it to the redo buffer.
//! `repush` reapplies the most recently undone entry. Every outcome,
//! including every refusal, is pinned down exactly by the contracts.

use vstd::prelude::*;
use std::collections::HashMap;

use crate::instance::Instance;
use crate::operation::can_merge;
use crate::operation::instances_wf;
use crate::operation::lemma_apply_preserves_wf;
use crate::operation::lemma_apply_respects_shape;
use crate::operation::lemma_invert_preserves_wf;
use crate::operation::lemma_pop_then_redo;
use crate::operation::merged_op;
use crate::operation::op_applicable;
use crate::operation::op_apply_err;
use crate::operation::op_apply_map;
use crate::operation::op_apply_op;
use crate::operation::op_invert_err;
use crate::operation::op_invert_map;
use crate::operation::op_invert_op;
use crate::operation::op_invertible;
use crate::operation::op_redo_accurate;
use crate::operation::same_shape;
use crate::operation::DesignOperation;
use crate::operation::OpError;

verus! {

broadcast use vstd::std_specs::hash::group_hash_axioms;

/// One editing session's design: the instance set, the applied history
/// (oldest first), and the redo buffer (most recently undone last).
#[derive(Debug)]
pub struct DesignSpace {
    pub instances: HashMap<u128, Instance>,
    pub records: Vec<DesignOperation>,
    pub poped: Vec<DesignOperation>,
}

/// Whether `x` is one of the instances stored in `m`.
pub open spec fn appears_in(x: Instance, m: Map<u128, Instance>) -> bool {
    exists|k: u128| #[trigger] m.contains_key(k) && x == m[k]
}

/// Whether `r` lists exactly the instances of `m`: one entry for each
/// stored instance, in some order.
pub open spec fn lists_instances(r: Seq<Instance>, m: Map<u128, Instance>) -> bool {
    &&& r.len() == m.dom().len()
    &&& forall|i: int| 0 <= i < r.len() ==> appears_in(#[trigger] r[i], m)
    &&& forall|k: u128| #[trigger] m.contains_key(k) ==> r.contains(m[k])
}

/// Whether the applied history can be fully unwound from the instance
/// set `m`: the newest entry is invertible against `m`, and the rest of
/// the history is unwindable from the state its inversion leaves.
pub open spec fn undoable(records: Seq<DesignOperation>, m: Map<u128, Instance>) -> bool
    decreases records.len(),
{
    records.len() == 0 || {
        &&& op_invertible(records.last(), m)
        &&& op_redo_accurate(records.last(), m)
        &&& undoable(records.drop_last(), op_invert_map(records.last(), m))
    }
}

/// Whether the redo buffer can be fully replayed onto the instance set
/// `m`: the most recently undone entry applies to `m`, and the rest of
/// the buffer is replayable on the state its application leaves.
pub open spec fn redoable(poped: Seq<DesignOperation>, m: Map<u128, Instance>) -> bool
    decreases poped.len(),
{
    poped.len() == 0 || {
        &&& op_applicable(poped.last(), m)
        &&& redoable(poped.drop_last(), op_apply_map(poped.last(), m))
    }
}

/// Replayability of the redo buffer depends only on the instance set's
/// shape: poses never decide whether an operation applies.
pub proof fn lemma_redoable_respects_shape(
    poped: Seq<DesignOperation>,
    m1: Map<u128, Instance>,
    m2: Map<u128, Instance>,
)
    requires
        same_shape(m1, m2),
        redoable(poped, m1),
    ensures
        redoable(poped, m2),
    decreases poped.len(),
{
    if poped.len() > 0 {
        lemma_apply_respects_shape(poped.last(), m1, m2);
        lemma_redoable_respects_shape(
            poped.drop_last(),
            op_apply_map(poped.last(), m1),
            op_apply_map(poped.last(), m2),
        );
    }
}

/// The history entries after `applied` is merged into the top entry of
/// `records` or appended to it.
pub open spec fn records_after_push(
    records: Seq<DesignOperation>,
    applied: DesignOperation,
) -> Seq<DesignOperation> {
    if records.len() > 0 && can_merge(records.last(), applied) {
        records.update(records.len() - 1, merged_op(records.last(), applied))
    } else {
        records.push(applied)
    }
}

/// A successful push keeps the history unwindable, whether the applied
/// operation was appended or absorbed into the newest entry.
pub proof fn lemma_push_preserves_undoable(
    op: DesignOperation,
    m: Map<u128, Instance>,
    records: Seq<DesignOperation>,
)
    requires
        instances_wf(m),
        op_applicable(op, m),
        undoable(records, m),
    ensures
        undoable(records_after_push(records, op_apply_op(op, m)), op_apply_map(op, m)),
{
    let applied = op_apply_op(op, m);
    let m1 = op_apply_map(op, m);
    crate::operation::lemma_round_trip(op, m);
    assert(op_redo_accurate(applied, m1)) by {
        match op {
            DesignOperation::RemoveInstance(r) => {
                assert(m[r.id].id == r.id);
            },
            _ => {},
        }
    }
    if records.len() > 0 && can_merge(records.last(), applied) {
        crate::operation::lemma_merge_invert_agrees(records.last(), op, m);
        let mg = merged_op(records.last(), applied);
        let rs = records.update(records.len() - 1, mg);
        assert(rs.last() == mg);
        assert(rs.drop_last() =~= records.drop_last());
    } else {
        let rs = records.push(applied);
        assert(rs.drop_last() =~= records);
        assert(rs.last() == applied);
    }
}

impl DesignSpace {
    /// Well-formedness of a design: the instance set is well-formed, the
    /// applied history can be fully unwound, and the redo buffer can be
    /// fully replayed. A fresh design is well-formed, every method
    /// preserves this, and under it undo and redo never fail: the errors
    /// `NotFound`, `KindMismatch`, `DoubleInvert` and their kin are
    /// unreachable through `push`, `pop`, and `repush`.
    pub open spec fn wf(self) -> bool {
        &&& instances_wf(self.instances@)
        &&& undoable(self.records@, self.instances@)
        &&& redoable(self.poped@, self.instances@)
    }

    /// Makes an empty design: no instances, no history, no redo buffer.
    pub fn new() -> (r: Self)
        ensures
            r.instances@ == Map::<u128, Instance>::empty(),
            r.records@ == Seq::<DesignOperation>::empty(),
            r.poped@ == Seq::<DesignOperation>::empty(),
            r.wf(),
    {
        let r = DesignSpace { instances: HashMap::new(), records: Vec::new(), poped: Vec::new() };
        proof {
            assert(instances_wf(r.instances@));
        }
        r
    }

    /// Applies `edit` and records it: if the newest history entry can
    /// absorb it the entry is replaced by the merged one, else `edit` is
    /// appended as a new entry. The redo buffer is cleared either way,
    /// since this is a genuinely new edit. A failed apply changes
    /// nothing and reports why.
    pub fn push(&mut self, edit: DesignOperation) -> (r: Result<(), OpError>)
        ensures
            match r {
                Ok(()) => {
                    &&& op_applicable(edit, old(self).instances@)
                    &&& final(self).instances@ == op_apply_map(edit, old(self).instances@)
                    &&& final(self).records@ == records_after_push(
                        old(self).records@,
                        op_apply_op(edit, old(self).instances@),
                    )
                    &&& final(self).poped@ == Seq::<DesignOperation>::empty()
                },
                Err(e) => {
                    &&& !op_applicable(edit, old(self).instances@)
                    &&& e == op_apply_err(edit, old(self).instances@)
                    &&& final(self).instances@ == old(self).instances@
                    &&& final(self).records@ == old(self).records@
                    &&& final(self).poped@ == old(self).poped@
                },
            },
            instances_wf(old(self).instances@) ==> instances_wf(final(self).instances@),
            old(self).wf() ==> final(self).wf(),
    {
        let mut edit = edit;
        let ghost e0 = edit;
        let ghost m0 = self.instances@;
        let ghost rs0 = self.records@;
        match edit.operate(&mut self.instances) {
            Err(e) => Err(e),
            Ok(()) => {
                proof {
                    if instances_wf(m0) {
                        lemma_apply_preserves_wf(e0, m0);
                    }
                    if instances_wf(m0) && undoable(rs0, m0) {
                        lemma_push_preserves_undoable(e0, m0, rs0);
                    }
                }
                merge_or_append(&mut self.records, edit);
                self.poped.clear();
                Ok(())
            },
        }
    }

    /// Undoes the newest history entry, moving it (its cache consumed)
    /// to the redo buffer. Returns `Ok(false)` when the history is
    /// empty. A failed invert changes nothing and reports why.
    pub fn pop(&mut self) -> (r: Result<bool, OpError>)
        ensures
            old(self).records@.len() == 0 ==> r == Ok::<bool, OpError>(false) && *final(self)
                == *old(self),
            old(self).records@.len() > 0 ==> {
                let top = old(self).records@.last();
                if op_invertible(top, old(self).instances@) {
                    &&& r == Ok::<bool, OpError>(true)
                    &&& final(self).instances@ == op_invert_map(top, old(self).instances@)
                    &&& final(self).records@ == old(self).records@.drop_last()
                    &&& final(self).poped@ == old(self).poped@.push(op_invert_op(top))
                } else {
                    &&& r == Err::<bool, OpError>(op_invert_err(top, old(self).instances@))
                    &&& final(self).instances@ == old(self).instances@
                    &&& final(self).records@ == old(self).records@
                    &&& final(self).poped@ == old(self).poped@
                }
            },
            instances_wf(old(self).instances@) ==> instances_wf(final(self).instances@),
            old(self).wf() ==> r is Ok && final(self).wf(),
    {
        if self.records.len() == 0 {
            return Ok(false);
        }
        let ghost m0 = self.instances@;
        let ghost poped0 = self.poped@;
        let mut top = self.records.pop().unwrap();
        match top.inverse(&mut self.instances) {
            Ok(()) => {
                proof {
                    let top0 = old(self).records@.last();
                    if instances_wf(m0) {
                        lemma_invert_preserves_wf(top0, m0);
                    }
                    if old(self).wf() {
                        lemma_pop_then_redo(top0, m0);
                        let mb = op_invert_map(top0, m0);
                        let mr = op_apply_map(op_invert_op(top0), mb);
                        assert(same_shape(m0, mr)) by {
                            assert(m0.dom() =~= mr.dom());
                            assert forall|k: u128| m0.contains_key(k) implies
                                crate::operation::same_shape_inst(m0[k], mr[k]) by {
                                assert(mr.contains_key(k));
                            }
                        }
                        lemma_redoable_respects_shape(poped0, m0, mr);
                        assert(poped0.push(op_invert_op(top0)).drop_last() =~= poped0);
                    }
                }
                self.poped.push(top);
                Ok(true)
            },
            Err(e) => {
                self.records.push(top);
                proof {
                    assert(self.records@ =~= old(self).records@);
                    // A well-formed history's newest entry is invertible,
                    // so this branch is unreachable from a well-formed
                    // design.
                    if old(self).wf() {
                        assert(op_invertible(old(self).records@.last(), m0));
                        assert(false);
                    }
                }
                Err(e)
            },
        }
    }

    /// Reapplies the most recently undone entry, merging it into the
    /// newest history entry or appending it. The redo buffer is not
    /// cleared: only genuinely new edits clear it. Returns `Ok(false)`
    /// when there is nothing to redo. A failed apply changes nothing
    /// and reports why.
    pub fn repush(&mut self) -> (r: Result<bool, OpError>)
        ensures
            old(self).poped@.len() == 0 ==> r == Ok::<bool, OpError>(false) && *final(self)
                == *old(self),
            old(self).poped@.len() > 0 ==> {
                let top = old(self).poped@.last();
                if op_applicable(top, old(self).instances@) {
                    &&& r == Ok::<bool, OpError>(true)
                    &&& final(self).instances@ == op_apply_map(top, old(self).instances@)
                    &&& final(self).records@ == records_after_push(
                        old(self).records@,
                        op_apply_op(top, old(self).instances@),
                    )
                    &&& final(self).poped@ == old(self).poped@.drop_last()
                } else {
                    &&& r == Err::<bool, OpError>(op_apply_err(top, old(self).instances@))
                    &&& final(self).instances@ == old(self).instances@
                    &&& final(self).records@ == old(self).records@
                    &&& final(self).poped@ == old(self).poped@
                }
            },
            instances_wf(old(self).instances@) ==> instances_wf(final(self).instances@),
            old(self).wf() ==> r is Ok && final(self).wf(),
    {
        if self.poped.len() == 0 {
            return Ok(false);
        }
        let ghost m0 = self.instances@;
        let ghost rs0 = self.records@;
        let mut top = self.poped.pop().unwrap();
        match top.operate(&mut self.instances) {
            Ok(()) => {
                proof {
                    if instances_wf(m0) {
                        lemma_apply_preserves_wf(old(self).poped@.last(), m0);
                    }
                    if instances_wf(m0) && undoable(rs0, m0) {
                        lemma_push_preserves_undoable(old(self).poped@.last(), m0, rs0);
                    }
                }
                merge_or_append(&mut self.records, top);
                Ok(true)
            },
            Err(e) => {
                self.poped.push(top);
                proof {
                    assert(self.poped@ =~= old(self).poped@);
                    // A well-formed redo buffer's newest entry applies,
                    // so this branch is unreachable from a well-formed
                    // design.
                    if old(self).wf() {
                        assert(op_applicable(old(self).poped@.last(), m0));
                        assert(false);
                    }
                }
                Err(e)
            },
        }
    }

    /// Returns the current instances, for rendering or persistence by a
    /// collaborator. The order is arbitrary.
    pub fn get_instances(&self) -> (r: Vec<Instance>)
        ensures
            lists_instances(r@, self.instances@),
    {
        let mut r: Vec<Instance> = Vec::new();
        let ghost mut ks: Seq<u128> = Seq::empty();
        for k in it: self.instances.keys()
            invariant
                r@.len() == ks.len(),
                ks.len() == it.index(),
                it.seq().unref().to_set() == self.instances@.dom(),
                it.seq().unref().len() == self.instances@.dom().len(),
                forall|i: int|
                    0 <= i < ks.len() ==> self.instances@.contains_key(#[trigger] ks[i]) && r@[i]
                        == self.instances@[ks[i]],
                forall|kk: u128|
                    self.instances@.contains_key(kk) ==> ks.contains(kk) || exists|j: int|
                        it.index() <= j < it.seq().unref().len() && #[trigger] it.seq().unref()[j]
                            == kk,
        {
            proof {
                assert(self.instances@.dom().contains(*k)) by {
                    assert(it.seq().unref()[it.index()] == *k);
                    assert(it.seq().unref().contains(*k));
                }
            }
            let inst = self.instances.get(k).unwrap();
            r.push(inst.clone());
            proof {
                let ks0 = ks;
                let u = it.seq().unref();
                let n = it.index();
                ks = ks0.push(*k);
                assert forall|kk: u128| self.instances@.contains_key(kk) implies ks.contains(kk)
                    || exists|j: int| n + 1 <= j < u.len() && #[trigger] u[j] == kk by {
                    if ks0.contains(kk) {
                        let j = choose|j: int| 0 <= j < ks0.len() && ks0[j] == kk;
                        assert(ks[j] == kk);
                        assert(ks.contains(kk));
                    } else {
                        let j = choose|j: int| n <= j < u.len() && u[j] == kk;
                        if j == n {
                            assert(ks[ks.len() - 1] == *k);
                            assert(u[n] == *k);
                            assert(ks.contains(kk));
                        }
                    }
                }
            }
        }
        proof {
            assert forall|k: u128| self.instances@.contains_key(k) implies r@.contains(
                self.instances@[k],
            ) by {
                assert(ks.contains(k));
                let i = choose|i: int| 0 <= i < ks.len() && ks[i] == k;
                assert(r@[i] == self.instances@[k]);
            }
            assert forall|i: int| 0 <= i < r@.len() implies appears_in(r@[i], self.instances@) by {
                assert(self.instances@.contains_key(ks[i]) && r@[i] == self.instances@[ks[i]]);
            }
            assert(lists_instances(r@, self.instances@));
        }
        r
    }
}

impl crate::operation::Operation for DesignOperation {
    type Target = DesignSpace;

    /// Applies the operation to the design's instance set.
    fn operate(&mut self, target: &mut DesignSpace) -> Result<(), OpError> {
        DesignOperation::operate(self, &mut target.instances)
    }

    /// Undoes the operation against the design's instance set.
    fn inverse(&mut self, target: &mut DesignSpace) -> Result<(), OpError> {
        DesignOperation::inverse(self, &mut target.instances)
    }

    /// Tries to absorb `other` into this operation.
    fn compress(&mut self, other: &DesignOperation) -> bool {
        DesignOperation::compress(self, other)
    }
}

impl Default for DesignSpace {
    /// An empty design, as [`DesignSpace::new`] makes it.
    fn default() -> (r: Self)
        ensures
            r.instances@ == Map::<u128, Instance>::empty(),
            r.records@ == Seq::<DesignOperation>::empty(),
            r.poped@ == Seq::<DesignOperation>::empty(),
            r.wf(),
    {
        DesignSpace::new()
    }
}

/// Round trip through the history: pushing an operation that does not
/// merge and then popping restores the instance set and the history
/// exactly. (An operation that merges into the previous entry is undone
/// together with it: one pop then reverts both.)
pub proof fn lemma_push_pop_round_trip(
    op: DesignOperation,
    m: Map<u128, Instance>,
    records: Seq<DesignOperation>,
)
    requires
        instances_wf(m),
        op_applicable(op, m),
        records.len() > 0 ==> !can_merge(records.last(), op_apply_op(op, m)),
    ensures
        ({
            let applied = op_apply_op(op, m);
            let m1 = op_apply_map(op, m);
            let rs1 = records_after_push(records, applied);
            &&& rs1 == records.push(applied)
            &&& op_invertible(rs1.last(), m1)
            &&& op_invert_map(rs1.last(), m1) == m
            &&& rs1.drop_last() == records
        }),
{
    crate::operation::lemma_round_trip(op, m);
    let applied = op_apply_op(op, m);
    let rs1 = records_after_push(records, applied);
    assert(rs1 == records.push(applied));
    assert(rs1.last() == applied);
    assert(rs1.drop_last() =~= records);
}

/// Redo fidelity: pushing a non-merging operation, popping it, and
/// repushing leads to the same instance set and the same history entry
/// as the push alone, with the redo buffer spent.
pub proof fn lemma_push_pop_repush_fidelity(
    op: DesignOperation,
    m: Map<u128, Instance>,
    records: Seq<DesignOperation>,
)
    requires
        instances_wf(m),
        op_applicable(op, m),
        records.len() > 0 ==> !can_merge(records.last(), op_apply_op(op, m)),
    ensures
        ({
            let applied = op_apply_op(op, m);
            let m1 = op_apply_map(op, m);
            let undone = op_invert_op(applied);
            let m_back = op_invert_map(applied, m1);
            &&& op_applicable(undone, m_back)
            &&& op_apply_map(undone, m_back) == m1
            &&& records_after_push(records, op_apply_op(undone, m_back)) == records.push(applied)
        }),
{
    crate::operation::lemma_redo_fidelity(op, m);
    let applied = op_apply_op(op, m);
    let undone = op_invert_op(applied);
    let m_back = op_invert_map(applied, op_apply_map(op, m));
    assert(op_apply_op(undone, m_back) == applied);
    if records.len() > 0 {
        assert(!can_merge(records.last(), applied));
    }
}

/// Merge correctness: two operations that merge leave one history entry
/// whose net effect is both of them, and popping that single entry
/// reverts both.
pub proof fn lemma_merged_entry_reverts_both(
    op1: DesignOperation,
    op2: DesignOperation,
    m0: Map<u128, Instance>,
    records: Seq<DesignOperation>,
)
    requires
        instances_wf(m0),
        op_applicable(op1, m0),
        op_applicable(op2, op_apply_map(op1, m0)),
        can_merge(op_apply_op(op1, m0), op_apply_op(op2, op_apply_map(op1, m0))),
    ensures
        ({
            let a1 = op_apply_op(op1, m0);
            let m1 = op_apply_map(op1, m0);
            let a2 = op_apply_op(op2, m1);
            let m2 = op_apply_map(op2, m1);
            let mg = merged_op(a1, a2);
            &&& records_after_push(records.push(a1), a2) == records.push(mg)
            &&& op_invertible(mg, m2)
            &&& op_invert_map(mg, m2) == m0
        }),
{
    crate::operation::lemma_merge_round_trip(op1, op2, m0);
    let a1 = op_apply_op(op1, m0);
    let m1 = op_apply_map(op1, m0);
    let a2 = op_apply_op(op2, m1);
    let mg = merged_op(a1, a2);
    assert(records.push(a1).last() == a1);
    assert(records_after_push(records.push(a1), a2) =~= records.push(mg));
}

/// The snapshot-caching kinds always append: pushing an addition, a
/// removal, or a reconfiguration grows the history by exactly one entry.
pub proof fn lemma_snapshot_push_appends(
    records: Seq<DesignOperation>,
    applied: DesignOperation,
)
    requires
        applied matches DesignOperation::AddInstance(_) || applied matches
            DesignOperation::RemoveInstance(_) || applied matches
            DesignOperation::PostProcessInstance(_),
    ensures
        records_after_push(records, applied) == records.push(applied),
        records_after_push(records, applied).len() == records.len() + 1,
{
    if records.len() > 0 {
        crate::operation::lemma_snapshot_kinds_never_merge(records.last(), applied);
    }
}

/// Merges `applied` into the newest entry of `records` when the entry
/// can absorb it, and appends it otherwise.
fn merge_or_append(records: &mut Vec<DesignOperation>, applied: DesignOperation)
    ensures
        final(records)@ == records_after_push(old(records)@, applied),
{
    if records.len() == 0 {
        records.push(applied);
        return ;
    }
    let mut top = records.pop().unwrap();
    if top.compress(&applied) {
        records.push(top);
        proof {
            assert(records@ =~= records_after_push(old(records)@, applied));
        }
    } else {
        records.push(top);
        records.push(applied);
        proof {
            assert(records@ =~= records_after_push(old(records)@, applied));
        }
    }
}

} // verus!
