//! The expression algebra: value operands and boolean filter trees over a row.
use vstd::prelude::*;

verus! {

/// The acting identity that policies and filters may inspect.
#[derive(Clone, Copy, Debug, PartialEq, Eq, Structural)]
pub struct Actor {
    pub id: i64,
}

/// A value-typed leaf: a literal, a column of the row, or the actor's id.
#[derive(Clone, Copy, Debug)]
pub enum Operand {
    Lit(i64),
    Field(usize),
    ActorId,
}

/// A boolean-typed expression over one row.
///
/// Comparisons only take operands, connectives only take boolean
/// expressions, so a tree can never mix value and boolean positions.
#[derive(Debug)]
pub enum Expr {
    Const(bool),
    Eq(Operand, Operand),
    Lt(Operand, Operand),
    Gt(Operand, Operand),
    EqAny(Operand, Vec<i64>),
    And(Box<Expr>, Box<Expr>),
    Or(Box<Expr>, Box<Expr>),
}

impl Operand {
    /// Every column the operand reads exists in a row of `arity` cells.
    pub open spec fn valid(self, arity: nat) -> bool {
        match self {
            Operand::Field(c) => c < arity,
            _ => true,
        }
    }

    /// The value of the operand on `row` for `actor`.
    pub open spec fn value(self, actor: Actor, row: Seq<i64>) -> i64 {
        match self {
            Operand::Lit(v) => v,
            Operand::Field(c) => row[c as int],
            Operand::ActorId => actor.id,
        }
    }

    pub fn is_valid(&self, arity: usize) -> (r: bool)
        ensures
            r == self.valid(arity as nat),
    {
        match self {
            Operand::Field(c) => *c < arity,
            _ => true,
        }
    }

    pub fn eval(&self, actor: Actor, row: &Vec<i64>) -> (r: i64)
        requires
            self.valid(row@.len()),
        ensures
            r == self.value(actor, row@),
    {
        match self {
            Operand::Lit(v) => *v,
            Operand::Field(c) => row[*c],
            Operand::ActorId => actor.id,
        }
    }

    pub fn eq(self, rhs: Operand) -> (r: Expr)
        ensures
            r == Expr::Eq(self, rhs),
    {
        Expr::Eq(self, rhs)
    }

    pub fn lt(self, rhs: Operand) -> (r: Expr)
        ensures
            r == Expr::Lt(self, rhs),
    {
        Expr::Lt(self, rhs)
    }

    pub fn gt(self, rhs: Operand) -> (r: Expr)
        ensures
            r == Expr::Gt(self, rhs),
    {
        Expr::Gt(self, rhs)
    }

    pub fn eq_any(self, rhs: Vec<i64>) -> (r: Expr)
        ensures
            r == Expr::EqAny(self, rhs),
    {
        Expr::EqAny(self, rhs)
    }
}

/// Whether `v` is one of `vs`.
fn contains(vs: &Vec<i64>, v: i64) -> (r: bool)
    ensures
        r == vs@.contains(v),
{
    let mut i: usize = 0;
    while i < vs.len()
        invariant
            0 <= i <= vs@.len(),
            forall|j: int| 0 <= j < i ==> vs@[j] != v,
        decreases vs@.len() - i,
    {
        if vs[i] == v {
            proof {
                assert(vs@[i as int] == v);
            }
            return true;
        }
        i += 1;
    }
    false
}

impl Expr {
    /// Every column the expression reads exists in a row of `arity` cells.
    pub open spec fn valid(self, arity: nat) -> bool
        decreases self,
    {
        match self {
            Expr::Const(_) => true,
            Expr::Eq(a, b) => a.valid(arity) && b.valid(arity),
            Expr::Lt(a, b) => a.valid(arity) && b.valid(arity),
            Expr::Gt(a, b) => a.valid(arity) && b.valid(arity),
            Expr::EqAny(a, _) => a.valid(arity),
            Expr::And(a, b) => a.valid(arity) && b.valid(arity),
            Expr::Or(a, b) => a.valid(arity) && b.valid(arity),
        }
    }

    /// The truth value of the expression on `row` for `actor`.
    pub open spec fn holds(self, actor: Actor, row: Seq<i64>) -> bool
        decreases self,
    {
        match self {
            Expr::Const(b) => b,
            Expr::Eq(a, b) => a.value(actor, row) == b.value(actor, row),
            Expr::Lt(a, b) => a.value(actor, row) < b.value(actor, row),
            Expr::Gt(a, b) => a.value(actor, row) > b.value(actor, row),
            Expr::EqAny(a, vs) => vs@.contains(a.value(actor, row)),
            Expr::And(a, b) => a.holds(actor, row) && b.holds(actor, row),
            Expr::Or(a, b) => a.holds(actor, row) || b.holds(actor, row),
        }
    }

    pub fn is_valid(&self, arity: usize) -> (r: bool)
        ensures
            r == self.valid(arity as nat),
        decreases self,
    {
        match self {
            Expr::Const(_) => true,
            Expr::Eq(a, b) => a.is_valid(arity) && b.is_valid(arity),
            Expr::Lt(a, b) => a.is_valid(arity) && b.is_valid(arity),
            Expr::Gt(a, b) => a.is_valid(arity) && b.is_valid(arity),
            Expr::EqAny(a, _) => a.is_valid(arity),
            Expr::And(a, b) => a.is_valid(arity) && b.is_valid(arity),
            Expr::Or(a, b) => a.is_valid(arity) && b.is_valid(arity),
        }
    }

    /// Evaluates the expression in process; connectives short-circuit.
    pub fn eval(&self, actor: Actor, row: &Vec<i64>) -> (r: bool)
        requires
            self.valid(row@.len()),
        ensures
            r == self.holds(actor, row@),
        decreases self,
    {
        match self {
            Expr::Const(b) => *b,
            Expr::Eq(a, b) => a.eval(actor, row) == b.eval(actor, row),
            Expr::Lt(a, b) => a.eval(actor, row) < b.eval(actor, row),
            Expr::Gt(a, b) => a.eval(actor, row) > b.eval(actor, row),
            Expr::EqAny(a, vs) => contains(vs, a.eval(actor, row)),
            Expr::And(a, b) => a.eval(actor, row) && b.eval(actor, row),
            Expr::Or(a, b) => a.eval(actor, row) || b.eval(actor, row),
        }
    }

    pub fn and(self, rhs: Expr) -> (r: Expr)
        ensures
            r == Expr::And(Box::new(self), Box::new(rhs)),
    {
        Expr::And(Box::new(self), Box::new(rhs))
    }

    pub fn or(self, rhs: Expr) -> (r: Expr)
        ensures
            r == Expr::Or(Box::new(self), Box::new(rhs)),
    {
        Expr::Or(Box::new(self), Box::new(rhs))
    }
}

} // verus!
