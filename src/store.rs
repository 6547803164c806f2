//! An in-memory table: the storage that the guarded operations run against.
use vstd::prelude::*;
use crate::expr::{Actor, Expr};
use crate::policy::{applied, changeset_valid, lemma_applied_len, Assign, Changeset, Error};

verus! {

/// A stored row as the contracts see it: its id and its cells.
pub type RowView = (u64, Seq<i64>);

/// A row of the table, identified by `id`.
#[derive(Clone, Debug, PartialEq, Eq)]
pub struct Row {
    pub id: u64,
    pub cells: Vec<i64>,
}

impl View for Row {
    type V = RowView;

    open spec fn view(&self) -> RowView {
        (self.id, self.cells@)
    }
}

impl Row {
    /// A copy of the row.
    pub fn duplicate(&self) -> (r: Row)
        ensures
            r@ == self@,
    {
        Row { id: self.id, cells: self.cells.clone() }
    }
}

/// The rows of `rows` on which `pred` holds, in their order.
pub open spec fn filtered(rows: Seq<RowView>, pred: spec_fn(RowView) -> bool) -> Seq<RowView>
    decreases rows.len(),
{
    if rows.len() == 0 {
        Seq::empty()
    } else {
        let prev = filtered(rows.drop_last(), pred);
        if pred(rows.last()) {
            prev.push(rows.last())
        } else {
            prev
        }
    }
}

/// Holds of the rows that `filter` selects for `actor`.
pub open spec fn selects(actor: Actor, filter: Expr) -> spec_fn(RowView) -> bool {
    |r: RowView| filter.holds(actor, r.1)
}

/// The rows that `filter` selects for `actor`, in table order.
pub open spec fn matching(rows: Seq<RowView>, actor: Actor, filter: Expr) -> Seq<RowView> {
    filtered(rows, selects(actor, filter))
}

/// The ids of `rows`, in order.
pub open spec fn ids_of(rows: Seq<RowView>) -> Seq<u64> {
    rows.map_values(|r: RowView| r.0)
}

/// Holds of the rows whose id is in `ids`.
pub open spec fn id_in(ids: Seq<u64>) -> spec_fn(RowView) -> bool {
    |x: RowView| ids.contains(x.0)
}

/// `row` after `cs` is written to it where its id is in `ids`.
pub open spec fn written(row: RowView, ids: Seq<u64>, cs: Seq<Assign>, actor: Actor) -> RowView {
    if ids.contains(row.0) {
        (row.0, applied(cs, actor, row.1))
    } else {
        row
    }
}

/// No two rows share an id.
pub open spec fn ids_unique(rows: Seq<RowView>) -> bool {
    forall|i: int, j: int| 0 <= i < rows.len() && 0 <= j < rows.len() && i != j ==> rows[i].0 != rows[j].0
}

/// Every row of `filtered(rows, pred)` is a row of `rows` on which `pred` holds.
pub proof fn lemma_filtered_sound(rows: Seq<RowView>, pred: spec_fn(RowView) -> bool, j: int)
    requires
        0 <= j < filtered(rows, pred).len(),
    ensures
        pred(filtered(rows, pred)[j]),
        exists|k: int| 0 <= k < rows.len() && rows[k] == filtered(rows, pred)[j],
    decreases rows.len(),
{
    let prev = filtered(rows.drop_last(), pred);
    if j < prev.len() {
        lemma_filtered_sound(rows.drop_last(), pred, j);
        let k = choose|k: int| 0 <= k < rows.drop_last().len() && rows.drop_last()[k] == prev[j];
        assert(rows[k] == filtered(rows, pred)[j]);
    } else {
        assert(rows[rows.len() - 1] == filtered(rows, pred)[j]);
    }
}

/// Every row of `rows` on which `pred` holds is kept by `filtered(rows, pred)`.
pub proof fn lemma_filtered_complete(rows: Seq<RowView>, pred: spec_fn(RowView) -> bool, k: int)
    requires
        0 <= k < rows.len(),
        pred(rows[k]),
    ensures
        filtered(rows, pred).contains(rows[k]),
    decreases rows.len(),
{
    let prev = filtered(rows.drop_last(), pred);
    if k < rows.len() - 1 {
        lemma_filtered_complete(rows.drop_last(), pred, k);
        let j = choose|j: int| 0 <= j < prev.len() && prev[j] == rows.drop_last()[k];
        if pred(rows.last()) {
            assert(filtered(rows, pred)[j] == rows[k]);
        }
    } else {
        assert(filtered(rows, pred)[prev.len() as int] == rows[k]);
    }
}

/// Predicates that agree on every row filter the rows alike.
pub proof fn lemma_filtered_ext(
    rows: Seq<RowView>,
    p: spec_fn(RowView) -> bool,
    q: spec_fn(RowView) -> bool,
)
    requires
        forall|k: int| 0 <= k < rows.len() ==> p(#[trigger] rows[k]) == q(rows[k]),
    ensures
        filtered(rows, p) == filtered(rows, q),
    decreases rows.len(),
{
    if rows.len() > 0 {
        assert(p(rows[rows.len() - 1]) == q(rows[rows.len() - 1]));
        lemma_filtered_ext(rows.drop_last(), p, q);
    }
}

pub proof fn lemma_filtered_len(rows: Seq<RowView>, pred: spec_fn(RowView) -> bool)
    ensures
        filtered(rows, pred).len() <= rows.len(),
    decreases rows.len(),
{
    if rows.len() > 0 {
        lemma_filtered_len(rows.drop_last(), pred);
    }
}

/// Whether `ids` holds `id`.
fn has_id(ids: &Vec<u64>, id: u64) -> (r: bool)
    ensures
        r == ids@.contains(id),
{
    let mut i: usize = 0;
    while i < ids.len()
        invariant
            0 <= i <= ids@.len(),
            forall|j: int| 0 <= j < i ==> ids@[j] != id,
        decreases ids@.len() - i,
    {
        if ids[i] == id {
            proof {
                assert(ids@[i as int] == id);
            }
            return true;
        }
        i += 1;
    }
    false
}

/// A table of rows with `arity` cells each, under unique ids.
#[derive(Debug)]
pub struct Table {
    arity: usize,
    rows: Vec<Row>,
    next_id: u64,
}

impl View for Table {
    type V = Seq<RowView>;

    closed spec fn view(&self) -> Seq<RowView> {
        self.rows@.map_values(|r: Row| r@)
    }
}

impl Table {
    /// The number of cells in each row.
    pub closed spec fn spec_arity(&self) -> nat {
        self.arity as nat
    }

    /// Every row has `arity` cells and an id of its own below the next one
    /// to be handed out.
    pub closed spec fn wf(&self) -> bool {
        &&& forall|i: int| 0 <= i < self.rows@.len() ==> #[trigger] self.rows@[i].cells@.len() == self.arity
        &&& forall|i: int| 0 <= i < self.rows@.len() ==> #[trigger] self.rows@[i].id < self.next_id
        &&& self.next_id == self.rows@.len() + 1
        &&& ids_unique(self@)
    }

    pub proof fn lemma_wf(&self)
        requires
            self.wf(),
        ensures
            ids_unique(self@),
            forall|i: int| 0 <= i < self@.len() ==> #[trigger] self@[i].1.len() == self.spec_arity(),
    {
    }

    /// An empty table whose rows have `arity` cells.
    pub fn new(arity: usize) -> (r: Table)
        ensures
            r.wf(),
            r@ == Seq::<RowView>::empty(),
            r.spec_arity() == arity,
    {
        let t = Table { arity, rows: Vec::new(), next_id: 1 };
        proof {
            assert(t@ =~= Seq::<RowView>::empty());
        }
        t
    }

    pub fn arity(&self) -> (r: usize)
        ensures
            r == self.spec_arity(),
    {
        self.arity
    }

    pub fn len(&self) -> (r: usize)
        ensures
            r == self@.len(),
    {
        self.rows.len()
    }

    /// The row at position `i`.
    pub fn row(&self, i: usize) -> (r: &Row)
        requires
            i < self@.len(),
        ensures
            r@ == self@[i as int],
    {
        &self.rows[i]
    }

    /// Stores `cells` as a new row under a fresh id, which is returned.
    ///
    /// Cells of the wrong number, and a table whose ids are used up, are
    /// refused by the storage.
    pub fn insert_row(&mut self, cells: Vec<i64>) -> (r: Result<u64, Error>)
        requires
            old(self).wf(),
        ensures
            final(self).wf(),
            final(self).spec_arity() == old(self).spec_arity(),
            match r {
                Ok(id) => {
                    &&& cells@.len() == old(self).spec_arity()
                    &&& !ids_of(old(self)@).contains(id)
                    &&& final(self)@ == old(self)@.push((id, cells@))
                },
                Err(e) => {
                    &&& e == Error::StorageError
                    &&& final(self)@ == old(self)@
                },
            },
            cells@.len() != old(self).spec_arity() ==> r is Err,
            cells@.len() == old(self).spec_arity() && old(self)@.len() + 1 < u64::MAX ==> r == Ok::<
                u64,
                Error,
            >((old(self)@.len() + 1) as u64),
    {
        if cells.len() != self.arity || self.next_id == u64::MAX {
            return Err(Error::StorageError);
        }
        let id = self.next_id;
        let ghost before = self@;
        self.rows.push(Row { id, cells });
        self.next_id = id + 1;
        proof {
            assert(self@ =~= before.push((id, cells@)));
            if ids_of(before).contains(id) {
                let j = choose|j: int| 0 <= j < ids_of(before).len() && ids_of(before)[j] == id;
                assert(old(self).rows@[j].id < id);
            }
        }
        Ok(id)
    }

    /// The rows that `filter` selects for `actor`, in table order.
    pub fn select(&self, actor: Actor, filter: &Expr) -> (r: Vec<Row>)
        requires
            self.wf(),
            filter.valid(self.spec_arity()),
        ensures
            r@.map_values(|x: Row| x@) == matching(self@, actor, *filter),
    {
        let mut out: Vec<Row> = Vec::new();
        let mut i: usize = 0;
        while i < self.rows.len()
            invariant
                0 <= i <= self@.len(),
                self.wf(),
                filter.valid(self.spec_arity()),
                out@.map_values(|x: Row| x@) == matching(self@.take(i as int), actor, *filter),
            decreases self@.len() - i,
        {
            let row = &self.rows[i];
            proof {
                assert(self@.take(i as int + 1).drop_last() =~= self@.take(i as int));
                assert(self@.take(i as int + 1).last() == row@);
            }
            if filter.eval(actor, &row.cells) {
                let ghost prev = out@;
                out.push(row.duplicate());
                proof {
                    assert(out@.map_values(|x: Row| x@) =~= prev.map_values(|x: Row| x@).push(row@));
                }
            }
            i += 1;
        }
        proof {
            assert(self@.take(i as int) =~= self@);
        }
        out
    }

    /// Writes `cs` to every row whose id is in `ids` and returns how many
    /// rows that was; the other rows stay as they are.
    pub fn update_ids(&mut self, actor: Actor, ids: &Vec<u64>, cs: &Changeset) -> (r: usize)
        requires
            old(self).wf(),
            changeset_valid(cs@, old(self).spec_arity()),
        ensures
            final(self).wf(),
            final(self).spec_arity() == old(self).spec_arity(),
            final(self)@ == old(self)@.map_values(|x: RowView| written(x, ids@, cs@, actor)),
            r == filtered(old(self)@, id_in(ids@)).len(),
    {
        let ghost before = self@;
        let mut count: usize = 0;
        let mut i: usize = 0;
        while i < self.rows.len()
            invariant
                0 <= i <= self@.len(),
                self@.len() == before.len(),
                before == old(self)@,
                self.arity == old(self).arity,
                self.next_id == old(self).next_id,
                old(self).wf(),
                changeset_valid(cs@, self.arity as nat),
                forall|k: int| 0 <= k < i ==> #[trigger] self@[k] == written(before[k], ids@, cs@, actor),
                forall|k: int| i <= k < self@.len() ==> #[trigger] self@[k] == before[k],
                forall|k: int| 0 <= k < self@.len() ==> #[trigger] self.rows@[k].cells@.len() == self.arity,
                forall|k: int| 0 <= k < self@.len() ==> #[trigger] self.rows@[k].id == old(self).rows@[k].id,
                count == filtered(before.take(i as int), id_in(ids@)).len(),
            decreases self@.len() - i,
        {
            proof {
                assert(before.take(i as int + 1).drop_last() =~= before.take(i as int));
                assert(before.take(i as int + 1).last() == before[i as int]);
                lemma_filtered_len(before.take(i as int), id_in(ids@));
            }
            let id = self.rows[i].id;
            let ghost prev_view = self@;
            proof {
                assert(self@[i as int] == self.rows@[i as int]@);
                assert(id == before[i as int].0);
                assert(self.rows@[i as int].cells@ == before[i as int].1);
            }
            if has_id(ids, id) {
                let cells = cs.apply(actor, &self.rows[i].cells);
                proof {
                    lemma_applied_len(cs@, actor, before[i as int].1);
                }
                let ghost prev_rows = self.rows@;
                self.rows.set(i, Row { id, cells });
                proof {
                    assert(self.rows@ == prev_rows.update(i as int, Row { id, cells }));
                    assert(self@[i as int] == (id, cells@));
                }
                count += 1;
            }
            proof {
                assert(self@[i as int] == written(before[i as int], ids@, cs@, actor));
                assert forall|k: int| 0 <= k < self@.len() && k != i implies self@[k] == prev_view[k] by {
                    assert(self@[k] == self.rows@[k]@);
                }
                assert forall|k: int| 0 <= k <= i implies #[trigger] self@[k] == written(before[k], ids@, cs@, actor) by {
                    if k < i {
                        assert(prev_view[k] == written(before[k], ids@, cs@, actor));
                        assert(self@[k] == prev_view[k]);
                    }
                }
                assert forall|k: int| i < k < self@.len() implies #[trigger] self@[k] == before[k] by {
                    assert(prev_view[k] == before[k]);
                    assert(self@[k] == prev_view[k]);
                }
            }
            i += 1;
        }
        proof {
            assert(before.take(i as int) =~= before);
            assert(self@ =~= before.map_values(|x: RowView| written(x, ids@, cs@, actor)));
            assert forall|a: int, b: int|
                0 <= a < self@.len() && 0 <= b < self@.len() && a != b implies self@[a].0 != self@[b].0 by {
                assert(before[a].0 != before[b].0);
            }
        }
        count
    }
}

} // verus!
