//! What the guarded write promises, over every table, identity, filter and
//! changeset.
use vstd::prelude::*;
use crate::expr::{Actor, Expr};
use crate::guard::{guarded_update, update_permitted};
use crate::policy::{changeset_valid, permits, Assign, Error};
use crate::store::{lemma_filtered_complete, lemma_filtered_sound, matching, selects, RowView};

verus! {

/// A changeset that assigns a field with no policy is refused with a policy
/// violation, and writes nothing, whenever the filter selects any row.
pub proof fn lemma_default_deny(
    rows: Seq<RowView>,
    arity: nat,
    actor: Actor,
    filter: Expr,
    cs: Seq<Assign>,
    i: int,
)
    requires
        changeset_valid(cs, arity),
        filter.valid(arity),
        0 <= i < cs.len(),
        cs[i].field.policy is None,
        matching(rows, actor, filter).len() > 0,
    ensures
        guarded_update(rows, arity, actor, filter, cs) == (rows, Err::<usize, Error>(Error::PolicyViolation)),
{
    lemma_filtered_sound(rows, selects(actor, filter), 0);
    let k = choose|k: int| 0 <= k < rows.len() && rows[k] == matching(rows, actor, filter)[0];
    assert(filter.holds(actor, rows[k].1));
    assert(!cs[i].field.allows(actor, rows[k].1));
}

/// If one selected row fails the changeset's policy, every row stays as it
/// was and the update reports a policy violation, not a count.
pub proof fn lemma_all_or_nothing(
    rows: Seq<RowView>,
    arity: nat,
    actor: Actor,
    filter: Expr,
    cs: Seq<Assign>,
    k: int,
)
    requires
        changeset_valid(cs, arity),
        filter.valid(arity),
        0 <= k < rows.len(),
        filter.holds(actor, rows[k].1),
        !permits(cs, actor, rows[k].1),
    ensures
        guarded_update(rows, arity, actor, filter, cs).0 == rows,
        guarded_update(rows, arity, actor, filter, cs).1 == Err::<usize, Error>(Error::PolicyViolation),
{
}

/// A two-field changeset goes through exactly when both fields' policies
/// hold on every selected row; one selected row on which either fails
/// refuses the whole update.
pub proof fn lemma_conjunction(
    rows: Seq<RowView>,
    arity: nat,
    actor: Actor,
    filter: Expr,
    a: Assign,
    b: Assign,
)
    requires
        changeset_valid(seq![a, b], arity),
        filter.valid(arity),
    ensures
        guarded_update(rows, arity, actor, filter, seq![a, b]).1 is Ok <==> forall|k: int|
            0 <= k < rows.len() && #[trigger] filter.holds(actor, rows[k].1) ==> a.field.allows(
                actor,
                rows[k].1,
            ) && b.field.allows(actor, rows[k].1),
        guarded_update(rows, arity, actor, filter, seq![a, b]).1 is Err ==> guarded_update(
            rows,
            arity,
            actor,
            filter,
            seq![a, b],
        ) == (rows, Err::<usize, Error>(Error::PolicyViolation)),
{
    let cs = seq![a, b];
    assert forall|row: Seq<i64>| permits(cs, actor, row) <==> (a.field.allows(actor, row)
        && b.field.allows(actor, row)) by {
        if a.field.allows(actor, row) && b.field.allows(actor, row) {
            assert forall|i: int| 0 <= i < cs.len() implies #[trigger] cs[i].field.allows(
                actor,
                row,
            ) by {
                if i == 0 {
                    assert(cs[i] == a);
                } else {
                    assert(cs[i] == b);
                }
            }
        }
        if permits(cs, actor, row) {
            assert(cs[0].field.allows(actor, row));
            assert(cs[1].field.allows(actor, row));
        }
    }
}

/// Reads are not gated: when a write is refused for a policy violation,
/// reading with the same filter still returns rows, among them one on which
/// the policy fails.
pub proof fn lemma_reads_ungated(
    rows: Seq<RowView>,
    arity: nat,
    actor: Actor,
    filter: Expr,
    cs: Seq<Assign>,
)
    requires
        guarded_update(rows, arity, actor, filter, cs).1 == Err::<usize, Error>(Error::PolicyViolation),
    ensures
        matching(rows, actor, filter).len() > 0,
        exists|j: int|
            0 <= j < matching(rows, actor, filter).len() && !permits(
                cs,
                actor,
                #[trigger] matching(rows, actor, filter)[j].1,
            ),
{
    assert(!update_permitted(rows, actor, filter, cs));
    let k = choose|k: int|
        0 <= k < rows.len() && #[trigger] filter.holds(actor, rows[k].1) && !permits(
            cs,
            actor,
            rows[k].1,
        );
    lemma_filtered_complete(rows, selects(actor, filter), k);
    let m = matching(rows, actor, filter);
    let j = choose|j: int| 0 <= j < m.len() && m[j] == rows[k];
    assert(!permits(cs, actor, m[j].1));
}

/// A refused update leaves the rows as they were, so repeating it is
/// refused again with the same error and still changes nothing.
pub proof fn lemma_denial_repeats(
    rows: Seq<RowView>,
    arity: nat,
    actor: Actor,
    filter: Expr,
    cs: Seq<Assign>,
)
    requires
        guarded_update(rows, arity, actor, filter, cs).1 is Err,
    ensures
        guarded_update(rows, arity, actor, filter, cs).0 == rows,
        guarded_update(guarded_update(rows, arity, actor, filter, cs).0, arity, actor, filter, cs)
            == guarded_update(rows, arity, actor, filter, cs),
{
}

} // verus!
