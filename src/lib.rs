//! A query layer whose guarded writes refuse to touch any row that the
//! acting identity may not modify.
//!
//! Filters are trees of the expression algebra in [`expr`]. Fields carry
//! the policy that gates writing them ([`policy`]). A [`context::Context`]
//! binds one identity to a table ([`store`]): it reads without policy
//! checks and writes only where every row the filter reaches passes the
//! changeset's combined policy ([`guard`]). The laws in [`laws`] state what
//! that buys.
use vstd::prelude::*;

pub mod expr;
pub mod policy;
pub mod store;
pub mod guard;
pub mod context;
pub mod bridge;
pub mod laws;

pub use bridge::{SqlToken, ToDiesel};
pub use context::{allow_insert, Context};
pub use expr::{Actor, Expr, Operand};
pub use guard::{authorize_update, select_first, select_list, update_where};
pub use policy::{Assign, Changeset, Error, Field};
pub use store::{Row, Table};

verus! {

} // verus!
