//! Reads, and writes guarded by the changeset's policy over every row the
//! filter reaches.
use vstd::prelude::*;
use crate::expr::{Actor, Expr};
use crate::policy::{applied, changeset_valid, permits, Assign, Changeset, Error};
use crate::store::{
    filtered, id_in, ids_of, ids_unique, lemma_filtered_complete, lemma_filtered_ext,
    lemma_filtered_sound, matching, selects, written, Row, RowView, Table,
};

verus! {

/// The views of `rows`.
pub open spec fn views(rows: Seq<Row>) -> Seq<RowView> {
    rows.map_values(|r: Row| r@)
}

/// The changeset's policy holds on every row that the filter selects.
pub open spec fn update_permitted(
    rows: Seq<RowView>,
    actor: Actor,
    filter: Expr,
    cs: Seq<Assign>,
) -> bool {
    forall|k: int|
        0 <= k < rows.len() && #[trigger] filter.holds(actor, rows[k].1) ==> permits(
            cs,
            actor,
            rows[k].1,
        )
}

/// The rows after `cs` is written to each row that the filter selects.
pub open spec fn updated(rows: Seq<RowView>, actor: Actor, filter: Expr, cs: Seq<Assign>) -> Seq<
    RowView,
> {
    rows.map_values(
        |x: RowView|
            if filter.holds(actor, x.1) {
                (x.0, applied(cs, actor, x.1))
            } else {
                x
            },
    )
}

/// The rows after a guarded update, and what the update reports.
///
/// A malformed changeset or filter is refused first. Then, if any selected
/// row fails the changeset's policy, nothing is written and the update
/// reports a policy violation; otherwise every selected row is written and
/// their number is reported.
pub open spec fn guarded_update(
    rows: Seq<RowView>,
    arity: nat,
    actor: Actor,
    filter: Expr,
    cs: Seq<Assign>,
) -> (Seq<RowView>, Result<usize, Error>) {
    if !changeset_valid(cs, arity) {
        (rows, Err(Error::InvalidChangeset))
    } else if !filter.valid(arity) {
        (rows, Err(Error::StorageError))
    } else if !update_permitted(rows, actor, filter, cs) {
        (rows, Err(Error::PolicyViolation))
    } else {
        (updated(rows, actor, filter, cs), Ok(matching(rows, actor, filter).len() as usize))
    }
}

/// Checks the changeset's policy on each of `rows`, the rows that a filter
/// selected, and hands back their ids, in order, for the write; if any row
/// fails, no id is handed back.
pub fn authorize_update(rows: &Vec<Row>, actor: Actor, cs: &Changeset) -> (r: Result<
    Vec<u64>,
    Error,
>)
    requires
        forall|i: int| 0 <= i < rows@.len() ==> changeset_valid(cs@, #[trigger] rows@[i].cells@.len()),
    ensures
        r is Ok <==> forall|i: int| 0 <= i < rows@.len() ==> permits(cs@, actor, #[trigger] rows@[i].cells@),
        r matches Ok(ids) ==> ids@ == ids_of(views(rows@)),
        r matches Err(e) ==> e == Error::PolicyViolation,
{
    let mut ids: Vec<u64> = Vec::new();
    let mut i: usize = 0;
    while i < rows.len()
        invariant
            0 <= i <= rows@.len(),
            forall|j: int| 0 <= j < rows@.len() ==> changeset_valid(cs@, #[trigger] rows@[j].cells@.len()),
            forall|j: int| 0 <= j < i ==> permits(cs@, actor, #[trigger] rows@[j].cells@),
            ids@ == ids_of(views(rows@.take(i as int))),
        decreases rows@.len() - i,
    {
        let row = &rows[i];
        proof {
            assert(changeset_valid(cs@, rows@[i as int].cells@.len()));
        }
        if !cs.allow_update(actor, &row.cells) {
            return Err(Error::PolicyViolation);
        }
        ids.push(row.id);
        proof {
            assert(views(rows@.take(i as int + 1)) =~= views(rows@.take(i as int)).push(row@));
            assert(ids@ =~= ids_of(views(rows@.take(i as int + 1))));
        }
        i += 1;
    }
    proof {
        assert(rows@.take(i as int) =~= rows@);
    }
    Ok(ids)
}

/// The rows of `table` that `filter` selects for `actor`, whatever the
/// policies say; a filter naming a missing column is refused by the storage.
pub fn select_list(table: &Table, actor: Actor, filter: &Expr) -> (r: Result<Vec<Row>, Error>)
    requires
        table.wf(),
    ensures
        r is Err <==> !filter.valid(table.spec_arity()),
        r matches Err(e) ==> e == Error::StorageError,
        r matches Ok(v) ==> views(v@) == matching(table@, actor, *filter),
{
    if !filter.is_valid(table.arity()) {
        return Err(Error::StorageError);
    }
    Ok(table.select(actor, filter))
}

/// The first row of `table` that `filter` selects for `actor`, if any.
pub fn select_first(table: &Table, actor: Actor, filter: &Expr) -> (r: Result<Option<Row>, Error>)
    requires
        table.wf(),
    ensures
        r is Err <==> !filter.valid(table.spec_arity()),
        r matches Err(e) ==> e == Error::StorageError,
        r matches Ok(o) ==> (o is None <==> matching(table@, actor, *filter).len() == 0),
        r matches Ok(Some(row)) ==> row@ == matching(table@, actor, *filter)[0],
{
    if !filter.is_valid(table.arity()) {
        return Err(Error::StorageError);
    }
    let mut i: usize = 0;
    while i < table.len()
        invariant
            0 <= i <= table@.len(),
            table.wf(),
            filter.valid(table.spec_arity()),
            matching(table@.take(i as int), actor, *filter).len() == 0,
        decreases table@.len() - i,
    {
        let row = table.row(i);
        proof {
            table.lemma_wf();
            assert(table@[i as int].1.len() == table.spec_arity());
            assert(table@.take(i as int + 1).drop_last() =~= table@.take(i as int));
            assert(table@.take(i as int + 1).last() == row@);
        }
        if filter.eval(actor, &row.cells) {
            proof {
                lemma_matching_prefix(table@, actor, *filter, i as int + 1);
            }
            return Ok(Some(row.duplicate()));
        }
        i += 1;
    }
    proof {
        assert(table@.take(i as int) =~= table@);
    }
    Ok(None)
}

/// Filtering a longer table keeps what a prefix of it selected in front.
proof fn lemma_matching_prefix(rows: Seq<RowView>, actor: Actor, filter: Expr, n: int)
    requires
        0 < n <= rows.len(),
        matching(rows.take(n), actor, filter).len() > 0,
    ensures
        matching(rows, actor, filter).len() > 0,
        matching(rows, actor, filter)[0] == matching(rows.take(n), actor, filter)[0],
    decreases rows.len() - n,
{
    if n < rows.len() {
        assert(rows.take(n + 1).drop_last() =~= rows.take(n));
        lemma_matching_prefix(rows, actor, filter, n + 1);
    } else {
        assert(rows.take(n) =~= rows);
    }
}

/// With unique ids, an id is among those of the selected rows exactly when
/// its row is selected.
proof fn lemma_selected_ids(rows: Seq<RowView>, actor: Actor, filter: Expr, ids: Seq<u64>)
    requires
        ids_unique(rows),
        ids == ids_of(matching(rows, actor, filter)),
    ensures
        forall|k: int|
            0 <= k < rows.len() ==> (ids.contains(#[trigger] rows[k].0) <==> filter.holds(
                actor,
                rows[k].1,
            )),
{
    let m = matching(rows, actor, filter);
    assert forall|k: int| 0 <= k < rows.len() implies (ids.contains(#[trigger] rows[k].0)
        <==> filter.holds(actor, rows[k].1)) by {
        if filter.holds(actor, rows[k].1) {
            lemma_filtered_complete(rows, selects(actor, filter), k);
            let j = choose|j: int| 0 <= j < m.len() && m[j] == rows[k];
            assert(ids[j] == rows[k].0);
        }
        if ids.contains(rows[k].0) {
            let j = choose|j: int| 0 <= j < ids.len() && ids[j] == rows[k].0;
            lemma_filtered_sound(rows, selects(actor, filter), j);
            let q = choose|q: int| 0 <= q < rows.len() && rows[q] == m[j];
            assert(rows[q].0 == rows[k].0);
        }
    }
}

/// Writes `cs` to every row of `table` that `filter` selects for `actor`,
/// but only if the changeset's policy holds on each of them; otherwise the
/// table is left as it was.
///
/// The selected rows are checked first, and the write then goes to exactly
/// the ids that passed the check.
pub fn update_where(table: &mut Table, actor: Actor, filter: &Expr, cs: &Changeset) -> (r: Result<
    usize,
    Error,
>)
    requires
        old(table).wf(),
    ensures
        final(table).wf(),
        final(table).spec_arity() == old(table).spec_arity(),
        (final(table)@, r) == guarded_update(
            old(table)@,
            old(table).spec_arity(),
            actor,
            *filter,
            cs@,
        ),
{
    let arity = table.arity();
    if !cs.is_valid(arity) {
        return Err(Error::InvalidChangeset);
    }
    if !filter.is_valid(arity) {
        return Err(Error::StorageError);
    }
    let ghost rows = table@;
    let selected = table.select(actor, filter);
    proof {
        table.lemma_wf();
        assert forall|i: int| 0 <= i < selected@.len() implies changeset_valid(
            cs@,
            #[trigger] selected@[i].cells@.len(),
        ) by {
            assert(views(selected@)[i] == selected@[i]@);
            lemma_filtered_sound(rows, selects(actor, *filter), i);
        }
    }
    let ids = match authorize_update(&selected, actor, cs) {
        Ok(ids) => ids,
        Err(e) => {
            proof {
                let i = choose|i: int|
                    0 <= i < selected@.len() && !permits(cs@, actor, #[trigger] selected@[i].cells@);
                assert(views(selected@)[i] == selected@[i]@);
                lemma_filtered_sound(rows, selects(actor, *filter), i);
                let k = choose|k: int| 0 <= k < rows.len() && rows[k] == matching(rows, actor, *filter)[i];
                assert(filter.holds(actor, rows[k].1));
            }
            return Err(e);
        },
    };
    proof {
        let m = matching(rows, actor, *filter);
        assert forall|k: int| 0 <= k < rows.len() && #[trigger] filter.holds(actor, rows[k].1) implies permits(
            cs@,
            actor,
            rows[k].1,
        ) by {
            lemma_filtered_complete(rows, selects(actor, *filter), k);
            let j = choose|j: int| 0 <= j < m.len() && m[j] == rows[k];
            assert(views(selected@)[j] == selected@[j]@);
            assert(permits(cs@, actor, selected@[j].cells@));
        }
        lemma_selected_ids(rows, actor, *filter, ids@);
    }
    let n = table.update_ids(actor, &ids, cs);
    proof {
        lemma_selected_ids(rows, actor, *filter, ids@);
        assert forall|k: int| 0 <= k < rows.len() implies id_in(ids@)(#[trigger] rows[k]) == selects(
            actor,
            *filter,
        )(rows[k]) by {}
        lemma_filtered_ext(rows, id_in(ids@), selects(actor, *filter));
        assert(table@ =~= updated(rows, actor, *filter, cs@));
    }
    Ok(n)
}

} // verus!
