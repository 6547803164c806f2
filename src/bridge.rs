//! Translation of filters into the token stream of a native SQL condition.
use vstd::prelude::*;
use crate::expr::{Expr, Operand};

verus! {

/// Turns a value of the algebra into the storage backend's own form.
pub trait ToDiesel: Sized {
    type DieselType;

    /// `native` is the backend's form of `self`.
    spec fn translates(self, native: Self::DieselType) -> bool;

    fn to_diesel(self) -> (r: Self::DieselType)
        ensures
            self.translates(r),
    ;
}

/// One token of a SQL condition, in the order the condition is written.
#[derive(Debug)]
pub enum SqlToken {
    /// The column at this position of the row.
    Column(usize),
    /// An integer literal.
    Value(i64),
    /// The acting identity's id, bound when the statement runs.
    ActorId,
    /// `TRUE` or `FALSE`.
    Bool(bool),
    /// The parenthesised list of an `IN` test; never empty.
    List(Vec<i64>),
    Eq,
    Lt,
    Gt,
    In,
    And,
    Or,
    Open,
    Close,
}

/// The token of an operand.
pub open spec fn operand_token(o: Operand) -> SqlToken {
    match o {
        Operand::Lit(v) => SqlToken::Value(v),
        Operand::Field(c) => SqlToken::Column(c),
        Operand::ActorId => SqlToken::ActorId,
    }
}

/// A fully parenthesised infix rendering of `e`. A test against an empty
/// list, which SQL cannot write, is rendered as `FALSE`, its value.
pub open spec fn tokens(e: Expr) -> Seq<SqlToken>
    decreases e,
{
    match e {
        Expr::Const(b) => seq![SqlToken::Bool(b)],
        Expr::Eq(a, b) => seq![
            SqlToken::Open,
            operand_token(a),
            SqlToken::Eq,
            operand_token(b),
            SqlToken::Close,
        ],
        Expr::Lt(a, b) => seq![
            SqlToken::Open,
            operand_token(a),
            SqlToken::Lt,
            operand_token(b),
            SqlToken::Close,
        ],
        Expr::Gt(a, b) => seq![
            SqlToken::Open,
            operand_token(a),
            SqlToken::Gt,
            operand_token(b),
            SqlToken::Close,
        ],
        Expr::EqAny(a, vs) => if vs@.len() == 0 {
            seq![SqlToken::Bool(false)]
        } else {
            seq![
                SqlToken::Open,
                operand_token(a),
                SqlToken::In,
                SqlToken::List(vs),
                SqlToken::Close,
            ]
        },
        Expr::And(a, b) => seq![SqlToken::Open] + tokens(*a) + seq![SqlToken::And] + tokens(*b)
            + seq![SqlToken::Close],
        Expr::Or(a, b) => seq![SqlToken::Open] + tokens(*a) + seq![SqlToken::Or] + tokens(*b)
            + seq![SqlToken::Close],
    }
}

fn operand_to_token(o: Operand) -> (r: SqlToken)
    ensures
        r == operand_token(o),
{
    match o {
        Operand::Lit(v) => SqlToken::Value(v),
        Operand::Field(c) => SqlToken::Column(c),
        Operand::ActorId => SqlToken::ActorId,
    }
}

fn comparison(a: Operand, op: SqlToken, b: Operand) -> (r: Vec<SqlToken>)
    ensures
        r@ == seq![SqlToken::Open, operand_token(a), op, operand_token(b), SqlToken::Close],
{
    let mut out: Vec<SqlToken> = Vec::new();
    out.push(SqlToken::Open);
    out.push(operand_to_token(a));
    out.push(op);
    out.push(operand_to_token(b));
    out.push(SqlToken::Close);
    proof {
        assert(out@ =~= seq![SqlToken::Open, operand_token(a), op, operand_token(b), SqlToken::Close]);
    }
    out
}

fn connective(a: Vec<SqlToken>, op: SqlToken, b: Vec<SqlToken>) -> (r: Vec<SqlToken>)
    ensures
        r@ == seq![SqlToken::Open] + a@ + seq![op] + b@ + seq![SqlToken::Close],
{
    let ghost a0 = a@;
    let ghost b0 = b@;
    let mut a = a;
    let mut b = b;
    let mut out: Vec<SqlToken> = Vec::new();
    out.push(SqlToken::Open);
    out.append(&mut a);
    out.push(op);
    out.append(&mut b);
    out.push(SqlToken::Close);
    proof {
        assert(out@ =~= seq![SqlToken::Open] + a0 + seq![op] + b0 + seq![SqlToken::Close]);
    }
    out
}

impl Expr {
    /// The tokens of the SQL condition that selects what `self` selects.
    pub fn into_tokens(self) -> (r: Vec<SqlToken>)
        ensures
            r@ == tokens(self),
        decreases self,
    {
        match self {
            Expr::Const(b) => {
                let mut out: Vec<SqlToken> = Vec::new();
                out.push(SqlToken::Bool(b));
                proof {
                    assert(out@ =~= seq![SqlToken::Bool(b)]);
                }
                out
            },
            Expr::Eq(a, b) => comparison(a, SqlToken::Eq, b),
            Expr::Lt(a, b) => comparison(a, SqlToken::Lt, b),
            Expr::Gt(a, b) => comparison(a, SqlToken::Gt, b),
            Expr::EqAny(a, vs) => {
                let mut out: Vec<SqlToken> = Vec::new();
                if vs.len() == 0 {
                    out.push(SqlToken::Bool(false));
                    proof {
                        assert(out@ =~= seq![SqlToken::Bool(false)]);
                    }
                } else {
                    out.push(SqlToken::Open);
                    out.push(operand_to_token(a));
                    out.push(SqlToken::In);
                    out.push(SqlToken::List(vs));
                    out.push(SqlToken::Close);
                    proof {
                        assert(out@ =~= seq![
                            SqlToken::Open,
                            operand_token(a),
                            SqlToken::In,
                            SqlToken::List(vs),
                            SqlToken::Close,
                        ]);
                    }
                }
                out
            },
            Expr::And(a, b) => connective((*a).into_tokens(), SqlToken::And, (*b).into_tokens()),
            Expr::Or(a, b) => connective((*a).into_tokens(), SqlToken::Or, (*b).into_tokens()),
        }
    }
}

impl ToDiesel for Expr {
    type DieselType = Vec<SqlToken>;

    open spec fn translates(self, native: Vec<SqlToken>) -> bool {
        native@ == tokens(self)
    }

    fn to_diesel(self) -> (r: Vec<SqlToken>) {
        self.into_tokens()
    }
}

} // verus!
