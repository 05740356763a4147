//! The life of one session, counted in ownership units: creation hands out
//! one unit, a clone adds one, a destroy releases one, and the session is
//! torn down by the destroy that releases the last.

use vstd::prelude::*;

verus! {

/// What can be done to a handle once it has been created.
#[derive(Clone, Copy, Debug, PartialEq, Eq, Structural)]
pub enum LifeOp {
    /// One more ownership unit is handed out.
    Clone,
    /// One ownership unit is released.
    Destroy,
}

/// The number of units outstanding after `op`, where `units` were before.
pub open spec fn units_after(units: nat, op: LifeOp) -> nat {
    match op {
        LifeOp::Clone => units + 1,
        LifeOp::Destroy => if units > 0 {
            (units - 1) as nat
        } else {
            0
        },
    }
}

/// The number of units outstanding after creation followed by `ops`.
pub open spec fn held(ops: Seq<LifeOp>) -> nat
    decreases ops.len(),
{
    if ops.len() == 0 {
        1
    } else {
        units_after(held(ops.drop_last()), ops.last())
    }
}

/// How often `op` occurs in `ops`.
pub open spec fn occurrences(ops: Seq<LifeOp>, op: LifeOp) -> nat
    decreases ops.len(),
{
    if ops.len() == 0 {
        0
    } else {
        occurrences(ops.drop_last(), op) + if ops.last() == op {
            1nat
        } else {
            0nat
        }
    }
}

/// Every operation of `ops` is applied while a unit is outstanding: there
/// is no clone and no destroy of a session that is gone.
pub open spec fn disciplined(ops: Seq<LifeOp>) -> bool {
    forall|k: int| 0 <= k < ops.len() ==> #[trigger] held(ops.take(k)) > 0
}

/// The operation at `k` tears the session down: it releases the last unit.
pub open spec fn tears_down(ops: Seq<LifeOp>, k: int) -> bool {
    &&& 0 <= k < ops.len()
    &&& ops[k] == LifeOp::Destroy
    &&& held(ops.take(k)) == 1
}

/// A prefix of a disciplined sequence is disciplined.
pub proof fn lemma_prefix_disciplined(ops: Seq<LifeOp>, n: int)
    requires
        disciplined(ops),
        0 <= n <= ops.len(),
    ensures
        disciplined(ops.take(n)),
{
    assert forall|k: int| 0 <= k < ops.take(n).len() implies #[trigger] held(ops.take(n).take(k))
        > 0 by {
        assert(ops.take(n).take(k) =~= ops.take(k));
    }
}

/// Units are conserved: after any disciplined sequence of operations the
/// units outstanding are the one of creation, plus one for each clone,
/// less one for each destroy.
pub proof fn lemma_units_conserved(ops: Seq<LifeOp>)
    requires
        disciplined(ops),
    ensures
        held(ops) == 1 + occurrences(ops, LifeOp::Clone) - occurrences(ops, LifeOp::Destroy),
    decreases ops.len(),
{
    if ops.len() > 0 {
        let before = ops.drop_last();
        assert(ops.take(ops.len() - 1) =~= before);
        lemma_prefix_disciplined(ops, ops.len() - 1);
        lemma_units_conserved(before);
        assert(held(before) > 0);
    }
}

/// The session is torn down only by the destroy that brings the number of
/// destroys up to the number of units handed out (creation and clones),
/// and nothing is done to the handle after it: so it is torn down at most
/// once.
pub proof fn lemma_teardown_when_all_released(ops: Seq<LifeOp>, k: int)
    requires
        disciplined(ops),
        tears_down(ops, k),
    ensures
        k == ops.len() - 1,
        held(ops) == 0,
        occurrences(ops, LifeOp::Destroy) == 1 + occurrences(ops, LifeOp::Clone),
        forall|j: int| tears_down(ops, j) ==> j == k,
{
    let upto = ops.take(k + 1);
    assert(upto.drop_last() =~= ops.take(k));
    assert(upto.last() == ops[k]);
    assert(held(upto) == 0);
    if k + 1 < ops.len() {
        assert(held(ops.take(k + 1)) > 0);
    }
    assert(ops.take(ops.len() as int) =~= ops);
    lemma_units_conserved(ops);
    assert forall|j: int| tears_down(ops, j) implies j == k by {
        let other = ops.take(j + 1);
        assert(other.drop_last() =~= ops.take(j));
        assert(other.last() == ops[j]);
        assert(held(other) == 0);
        if j + 1 < ops.len() {
            assert(held(ops.take(j + 1)) > 0);
        }
    }
}

/// Once every unit has been released the session has been torn down, and
/// it was the last operation that did it: a session whose units are all
/// released is torn down exactly once.
pub proof fn lemma_all_released_tears_down(ops: Seq<LifeOp>)
    requires
        disciplined(ops),
        held(ops) == 0,
    ensures
        ops.len() > 0,
        tears_down(ops, ops.len() - 1),
{
    assert(ops.len() > 0);
    assert(ops.take(ops.len() - 1) =~= ops.drop_last());
    assert(held(ops.take(ops.len() - 1)) > 0);
}

/// While a unit is outstanding the session has not been torn down.
pub proof fn lemma_no_teardown_while_held(ops: Seq<LifeOp>, k: int)
    requires
        disciplined(ops),
        held(ops) > 0,
    ensures
        !tears_down(ops, k),
{
    if tears_down(ops, k) {
        lemma_teardown_when_all_released(ops, k);
    }
}

} // verus!
