//! Field descriptors with their write policies, assignments and changesets.
use vstd::prelude::*;
use crate::expr::{Actor, Expr, Operand};

verus! {

/// Why an operation was refused.
#[derive(Clone, Copy, Debug, PartialEq, Eq, Structural)]
pub enum Error {
    /// A row that the write would touch fails the changeset's policy.
    PolicyViolation,
    /// The changeset is empty or names a column the table does not have.
    InvalidChangeset,
    /// The context was released before the call.
    ContextClosed,
    /// The storage backend failed or rejected the statement.
    StorageError,
    /// A transient conflict in the backend; the call may be repeated.
    Retryable,
}

/// One column of the table, with the predicate over (actor, row) that
/// must hold for the actor to assign the column on that row.
///
/// A field without a policy cannot be written at all.
#[derive(Debug)]
pub struct Field {
    pub column: usize,
    pub policy: Option<Expr>,
}

impl Field {
    /// The field's write gate: false where no policy is attached.
    pub open spec fn allows(self, actor: Actor, row: Seq<i64>) -> bool {
        match self.policy {
            Some(p) => p.holds(actor, row),
            None => false,
        }
    }

    pub open spec fn valid(self, arity: nat) -> bool {
        &&& self.column < arity
        &&& match self.policy {
            Some(p) => p.valid(arity),
            None => true,
        }
    }

    /// A field that this layer never writes.
    pub fn read_only(column: usize) -> (r: Field)
        ensures
            r.column == column,
            r.policy is None,
    {
        Field { column, policy: None }
    }

    /// A field that may be written where `policy` holds.
    pub fn with_policy(column: usize, policy: Expr) -> (r: Field)
        ensures
            r.column == column,
            r.policy == Some(policy),
    {
        Field { column, policy: Some(policy) }
    }

    pub fn is_valid(&self, arity: usize) -> (r: bool)
        ensures
            r == self.valid(arity as nat),
    {
        self.column < arity && match &self.policy {
            Some(p) => p.is_valid(arity),
            None => true,
        }
    }

    pub fn allow_update(&self, actor: Actor, row: &Vec<i64>) -> (r: bool)
        requires
            self.valid(row@.len()),
        ensures
            r == self.allows(actor, row@),
    {
        match &self.policy {
            Some(p) => p.eval(actor, row),
            None => false,
        }
    }

    pub fn value(&self) -> (r: Operand)
        ensures
            r == Operand::Field(self.column),
    {
        Operand::Field(self.column)
    }

    pub fn assign(self, value: Operand) -> (r: Assign)
        ensures
            r == (Assign { field: self, value }),
    {
        Assign { field: self, value }
    }
}

/// Writes the value of `value`, read on the row before the write, into `field`.
#[derive(Debug)]
pub struct Assign {
    pub field: Field,
    pub value: Operand,
}

impl Assign {
    pub open spec fn valid(self, arity: nat) -> bool {
        self.field.valid(arity) && self.value.valid(arity)
    }
}

/// A changeset may be run against rows of `arity` cells: it assigns at
/// least one field, and every column it reads or writes exists.
pub open spec fn changeset_valid(assigns: Seq<Assign>, arity: nat) -> bool {
    &&& assigns.len() > 0
    &&& forall|i: int| 0 <= i < assigns.len() ==> #[trigger] assigns[i].valid(arity)
}

/// The aggregate policy: the conjunction of the policies of all assigned fields.
pub open spec fn permits(assigns: Seq<Assign>, actor: Actor, row: Seq<i64>) -> bool {
    forall|i: int| 0 <= i < assigns.len() ==> #[trigger] assigns[i].field.allows(actor, row)
}

/// The row after the assignments, each value read on the row before them;
/// where two assignments write one column the later one wins.
pub open spec fn applied(assigns: Seq<Assign>, actor: Actor, row: Seq<i64>) -> Seq<i64>
    decreases assigns.len(),
{
    if assigns.len() == 0 {
        row
    } else {
        let a = assigns.last();
        applied(assigns.drop_last(), actor, row).update(
            a.field.column as int,
            a.value.value(actor, row),
        )
    }
}

pub proof fn lemma_applied_len(assigns: Seq<Assign>, actor: Actor, row: Seq<i64>)
    requires
        forall|i: int| 0 <= i < assigns.len() ==> #[trigger] assigns[i].valid(row.len()),
    ensures
        applied(assigns, actor, row).len() == row.len(),
    decreases assigns.len(),
{
    if assigns.len() > 0 {
        assert(assigns[assigns.len() - 1].valid(row.len()));
        lemma_applied_len(assigns.drop_last(), actor, row);
    }
}

/// An ordered collection of assignments written by one statement.
#[derive(Debug)]
pub struct Changeset {
    assigns: Vec<Assign>,
}

impl View for Changeset {
    type V = Seq<Assign>;

    closed spec fn view(&self) -> Seq<Assign> {
        self.assigns@
    }
}

impl Changeset {
    /// Collects `assigns` into a changeset; an empty list is refused.
    pub fn new(assigns: Vec<Assign>) -> (r: Result<Changeset, Error>)
        ensures
            assigns@.len() == 0 ==> r == Err::<Changeset, Error>(Error::InvalidChangeset),
            assigns@.len() > 0 ==> r is Ok && r->Ok_0@ == assigns@,
    {
        if assigns.len() == 0 {
            Err(Error::InvalidChangeset)
        } else {
            Ok(Changeset { assigns })
        }
    }

    /// A changeset of one assignment.
    pub fn single(a: Assign) -> (r: Changeset)
        ensures
            r@ == seq![a],
    {
        let mut assigns: Vec<Assign> = Vec::new();
        assigns.push(a);
        proof {
            assert(assigns@ =~= seq![a]);
        }
        Changeset { assigns }
    }

    /// The changeset with `a` appended.
    pub fn with(self, a: Assign) -> (r: Changeset)
        ensures
            r@ == self@.push(a),
    {
        let mut assigns = self.assigns;
        assigns.push(a);
        Changeset { assigns }
    }

    pub fn len(&self) -> (r: usize)
        ensures
            r == self@.len(),
    {
        self.assigns.len()
    }

    /// The assignment at position `i`.
    pub fn get(&self, i: usize) -> (r: &Assign)
        requires
            i < self@.len(),
        ensures
            *r == self@[i as int],
    {
        &self.assigns[i]
    }

    pub fn is_valid(&self, arity: usize) -> (r: bool)
        ensures
            r == changeset_valid(self@, arity as nat),
    {
        if self.assigns.len() == 0 {
            return false;
        }
        let mut i: usize = 0;
        while i < self.assigns.len()
            invariant
                0 <= i <= self@.len(),
                forall|j: int| 0 <= j < i ==> #[trigger] self@[j].valid(arity as nat),
            decreases self@.len() - i,
        {
            let a = &self.assigns[i];
            if !(a.field.is_valid(arity) && a.value.is_valid(arity)) {
                proof {
                    assert(!self@[i as int].valid(arity as nat));
                }
                return false;
            }
            i += 1;
        }
        true
    }

    /// Evaluates the combined policy of all assigned fields on one row.
    pub fn allow_update(&self, actor: Actor, row: &Vec<i64>) -> (r: bool)
        requires
            changeset_valid(self@, row@.len()),
        ensures
            r == permits(self@, actor, row@),
    {
        let mut i: usize = 0;
        while i < self.assigns.len()
            invariant
                0 <= i <= self@.len(),
                changeset_valid(self@, row@.len()),
                forall|j: int| 0 <= j < i ==> #[trigger] self@[j].field.allows(actor, row@),
            decreases self@.len() - i,
        {
            proof {
                assert(self@[i as int].valid(row@.len()));
            }
            if !self.assigns[i].field.allow_update(actor, row) {
                return false;
            }
            i += 1;
        }
        true
    }

    /// The row after the changeset is written to it.
    pub fn apply(&self, actor: Actor, row: &Vec<i64>) -> (r: Vec<i64>)
        requires
            changeset_valid(self@, row@.len()),
        ensures
            r@ == applied(self@, actor, row@),
    {
        let mut cur = row.clone();
        let mut i: usize = 0;
        while i < self.assigns.len()
            invariant
                0 <= i <= self@.len(),
                changeset_valid(self@, row@.len()),
                cur@ == applied(self@.take(i as int), actor, row@),
                cur@.len() == row@.len(),
            decreases self@.len() - i,
        {
            let a = &self.assigns[i];
            proof {
                assert(self@[i as int].valid(row@.len()));
                assert(self@.take(i as int + 1).drop_last() =~= self@.take(i as int));
            }
            let v = a.value.eval(actor, row);
            cur.set(a.field.column, v);
            i += 1;
        }
        proof {
            assert(self@.take(i as int) =~= self@);
        }
        cur
    }
}

} // verus!
