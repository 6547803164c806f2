//! The authorization context: one acting identity bound to one table for
//! the context's lifetime.
use vstd::prelude::*;
use crate::expr::{Actor, Expr};
use crate::guard::{guarded_update, select_first, select_list, update_where, views};
use crate::policy::{Changeset, Error};
use crate::store::{ids_of, matching, Row, Table};

verus! {

/// Whether the insert policy `policy` admits `cells` as a new row of
/// `actor` in a table of `arity` cells; without a policy nothing is admitted.
pub open spec fn insert_allowed(policy: Option<Expr>, arity: nat, actor: Actor, cells: Seq<i64>) -> bool {
    match policy {
        Some(p) => p.valid(arity) && p.holds(actor, cells),
        None => false,
    }
}

/// Evaluates the insert policy `policy` on the candidate row `cells`.
pub fn allow_insert(policy: &Option<Expr>, arity: usize, actor: Actor, cells: &Vec<i64>) -> (r: bool)
    requires
        cells@.len() == arity,
    ensures
        r == insert_allowed(*policy, arity as nat, actor, cells@),
{
    match policy {
        Some(p) => p.is_valid(arity) && p.eval(actor, cells),
        None => false,
    }
}

/// An open or released session of `actor` on a table.
#[derive(Debug)]
pub struct Context {
    actor: Actor,
    table: Table,
    allow_insert: Option<Expr>,
    open: bool,
}

impl Context {
    pub closed spec fn spec_actor(&self) -> Actor {
        self.actor
    }

    pub closed spec fn store(&self) -> Table {
        self.table
    }

    pub closed spec fn insert_policy(&self) -> Option<Expr> {
        self.allow_insert
    }

    pub closed spec fn is_open(&self) -> bool {
        self.open
    }

    pub closed spec fn wf(&self) -> bool {
        self.table.wf()
    }

    /// An open context of `actor` on `table`, whose new rows must satisfy
    /// `allow_insert`.
    pub fn new(actor: Actor, table: Table, allow_insert: Option<Expr>) -> (r: Context)
        requires
            table.wf(),
        ensures
            r.wf(),
            r.is_open(),
            r.spec_actor() == actor,
            r.store() == table,
            r.insert_policy() == allow_insert,
    {
        Context { actor, table, allow_insert, open: true }
    }

    /// The identity the context acts for.
    pub fn auth_user(&self) -> (r: Actor)
        ensures
            r == self.spec_actor(),
    {
        self.actor
    }

    pub fn table(&self) -> (r: &Table)
        ensures
            *r == self.store(),
    {
        &self.table
    }

    pub fn is_closed(&self) -> (r: bool)
        ensures
            r == !self.is_open(),
    {
        !self.open
    }

    /// Releases the context; every later operation is refused.
    pub fn close(&mut self)
        requires
            old(self).wf(),
        ensures
            final(self).wf(),
            !final(self).is_open(),
            final(self).store() == old(self).store(),
            final(self).spec_actor() == old(self).spec_actor(),
    {
        self.open = false;
    }

    /// The rows that `filter` selects; reads are not gated by policy.
    pub fn select_list(&self, filter: &Expr) -> (r: Result<Vec<Row>, Error>)
        requires
            self.wf(),
        ensures
            !self.is_open() ==> r == Err::<Vec<Row>, Error>(Error::ContextClosed),
            self.is_open() ==> (r is Err <==> !filter.valid(self.store().spec_arity())),
            self.is_open() ==> (r matches Err(e) ==> e == Error::StorageError),
            r matches Ok(v) ==> views(v@) == matching(self.store()@, self.spec_actor(), *filter),
    {
        if !self.open {
            return Err(Error::ContextClosed);
        }
        select_list(&self.table, self.actor, filter)
    }

    /// The first row that `filter` selects, if any.
    pub fn select_first(&self, filter: &Expr) -> (r: Result<Option<Row>, Error>)
        requires
            self.wf(),
        ensures
            !self.is_open() ==> r == Err::<Option<Row>, Error>(Error::ContextClosed),
            self.is_open() ==> (r is Err <==> !filter.valid(self.store().spec_arity())),
            self.is_open() ==> (r matches Err(e) ==> e == Error::StorageError),
            r matches Ok(o) ==> (o is None <==> matching(
                self.store()@,
                self.spec_actor(),
                *filter,
            ).len() == 0),
            r matches Ok(Some(row)) ==> row@ == matching(
                self.store()@,
                self.spec_actor(),
                *filter,
            )[0],
    {
        if !self.open {
            return Err(Error::ContextClosed);
        }
        select_first(&self.table, self.actor, filter)
    }

    /// Writes `cs` to the rows that `filter` selects if the context's
    /// identity may write every one of them, and to none otherwise.
    pub fn update_where(&mut self, filter: &Expr, cs: &Changeset) -> (r: Result<usize, Error>)
        requires
            old(self).wf(),
        ensures
            final(self).wf(),
            final(self).is_open() == old(self).is_open(),
            final(self).spec_actor() == old(self).spec_actor(),
            final(self).insert_policy() == old(self).insert_policy(),
            final(self).store().spec_arity() == old(self).store().spec_arity(),
            !old(self).is_open() ==> r == Err::<usize, Error>(Error::ContextClosed),
            !old(self).is_open() ==> final(self).store()@ == old(self).store()@,
            old(self).is_open() ==> (final(self).store()@, r) == guarded_update(
                old(self).store()@,
                old(self).store().spec_arity(),
                old(self).spec_actor(),
                *filter,
                cs@,
            ),
    {
        if !self.open {
            return Err(Error::ContextClosed);
        }
        update_where(&mut self.table, self.actor, filter, cs)
    }

    /// Stores `cells` as a new row if the insert gate lets the context's
    /// identity do so, and returns the new row's id.
    pub fn insert(&mut self, cells: Vec<i64>) -> (r: Result<u64, Error>)
        requires
            old(self).wf(),
        ensures
            final(self).wf(),
            final(self).is_open() == old(self).is_open(),
            final(self).spec_actor() == old(self).spec_actor(),
            final(self).insert_policy() == old(self).insert_policy(),
            final(self).store().spec_arity() == old(self).store().spec_arity(),
            r is Err ==> final(self).store()@ == old(self).store()@,
            !old(self).is_open() ==> r == Err::<u64, Error>(Error::ContextClosed),
            old(self).is_open() && cells@.len() != old(self).store().spec_arity() ==> r
                == Err::<u64, Error>(Error::StorageError),
            old(self).is_open() && cells@.len() == old(self).store().spec_arity() && !insert_allowed(
                old(self).insert_policy(),
                old(self).store().spec_arity(),
                old(self).spec_actor(),
                cells@,
            ) ==> r == Err::<u64, Error>(Error::PolicyViolation),
            old(self).is_open() && cells@.len() == old(self).store().spec_arity() && insert_allowed(
                old(self).insert_policy(),
                old(self).store().spec_arity(),
                old(self).spec_actor(),
                cells@,
            ) ==> (r is Ok || r == Err::<u64, Error>(Error::StorageError)),
            old(self).is_open() && cells@.len() == old(self).store().spec_arity() && insert_allowed(
                old(self).insert_policy(),
                old(self).store().spec_arity(),
                old(self).spec_actor(),
                cells@,
            ) && old(self).store()@.len() + 1 < u64::MAX ==> r == Ok::<u64, Error>(
                (old(self).store()@.len() + 1) as u64,
            ),
            r matches Ok(id) ==> {
                &&& old(self).is_open()
                &&& insert_allowed(
                    old(self).insert_policy(),
                    old(self).store().spec_arity(),
                    old(self).spec_actor(),
                    cells@,
                )
                &&& !ids_of(old(self).store()@).contains(id)
                &&& final(self).store()@ == old(self).store()@.push((id, cells@))
            },
    {
        if !self.open {
            return Err(Error::ContextClosed);
        }
        if cells.len() != self.table.arity() {
            return Err(Error::StorageError);
        }
        if !allow_insert(&self.allow_insert, self.table.arity(), self.actor, &cells) {
            return Err(Error::PolicyViolation);
        }
        self.table.insert_row(cells)
    }
}

} // verus!
