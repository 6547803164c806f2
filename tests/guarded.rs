use guarded_query::{
    allow_insert, authorize_update, select_first, select_list, update_where, Actor, Assign, Changeset, Context,
    Error, Expr, Field, Operand, Row, SqlToken, Table, ToDiesel,
};

const OWNER: usize = 0;
const PRICE: usize = 1;

fn listings() -> Table {
    let mut t = Table::new(2);
    assert_eq!(t.insert_row(vec![10, 500]), Ok(1));
    assert_eq!(t.insert_row(vec![20, 1500]), Ok(2));
    t
}

fn owner_only() -> Expr {
    Operand::ActorId.eq(Operand::Field(OWNER))
}

fn price_field() -> Field {
    Field::with_policy(PRICE, owner_only())
}

fn price_to(v: i64) -> Changeset {
    Changeset::single(price_field().assign(Operand::Lit(v)))
}

fn expensive() -> Expr {
    Operand::Field(PRICE).gt(Operand::Lit(1000))
}

fn rows_of(t: &Table) -> Vec<(u64, Vec<i64>)> {
    let mut out = Vec::new();
    for i in 0..t.len() {
        let r = t.row(i);
        out.push((r.id, r.cells.clone()));
    }
    out
}

#[test]
fn scenario_owner_mismatch_is_denied() {
    let mut ctx = Context::new(Actor { id: 10 }, listings(), None);
    let r = ctx.update_where(&expensive(), &price_to(0));
    assert_eq!(r, Err(Error::PolicyViolation));
    assert_eq!(rows_of(ctx.table()), vec![(1, vec![10, 500]), (2, vec![20, 1500])]);
}

#[test]
fn scenario_owner_match_updates_one_row() {
    let mut ctx = Context::new(Actor { id: 20 }, listings(), None);
    let r = ctx.update_where(&expensive(), &price_to(0));
    assert_eq!(r, Ok(1));
    assert_eq!(rows_of(ctx.table()), vec![(1, vec![10, 500]), (2, vec![20, 0])]);
}

#[test]
fn field_without_policy_is_never_written() {
    let mut t = listings();
    let cs = Changeset::single(Field::read_only(OWNER).assign(Operand::Lit(99)));
    let everything = Expr::Const(true);
    assert_eq!(update_where(&mut t, Actor { id: 10 }, &everything, &cs), Err(Error::PolicyViolation));
    let cs = Changeset::single(Field::read_only(OWNER).assign(Operand::Lit(99)));
    assert_eq!(update_where(&mut t, Actor { id: 20 }, &expensive(), &cs), Err(Error::PolicyViolation));
    assert_eq!(rows_of(&t), vec![(1, vec![10, 500]), (2, vec![20, 1500])]);
}

#[test]
fn field_without_policy_on_empty_selection_writes_nothing() {
    let mut t = listings();
    let cs = Changeset::single(Field::read_only(OWNER).assign(Operand::Lit(99)));
    let none = Operand::Field(PRICE).gt(Operand::Lit(100_000));
    assert_eq!(update_where(&mut t, Actor { id: 10 }, &none, &cs), Ok(0));
    assert_eq!(rows_of(&t), vec![(1, vec![10, 500]), (2, vec![20, 1500])]);
}

#[test]
fn one_failing_row_blocks_all() {
    let mut t = Table::new(2);
    t.insert_row(vec![7, 1]).unwrap();
    t.insert_row(vec![7, 2]).unwrap();
    t.insert_row(vec![8, 3]).unwrap();
    let before = rows_of(&t);
    let all = Expr::Const(true);
    assert_eq!(update_where(&mut t, Actor { id: 7 }, &all, &price_to(0)), Err(Error::PolicyViolation));
    assert_eq!(rows_of(&t), before);
}

#[test]
fn all_passing_rows_are_written() {
    let mut t = Table::new(2);
    t.insert_row(vec![7, 1]).unwrap();
    t.insert_row(vec![7, 2]).unwrap();
    t.insert_row(vec![8, 3]).unwrap();
    let mine = Operand::Field(OWNER).eq(Operand::Lit(7));
    assert_eq!(update_where(&mut t, Actor { id: 7 }, &mine, &price_to(5)), Ok(2));
    assert_eq!(rows_of(&t), vec![(1, vec![7, 5]), (2, vec![7, 5]), (3, vec![8, 3])]);
}

fn two_field_changeset(owner_policy: Expr, price_policy: Expr) -> Changeset {
    let a = Field::with_policy(OWNER, owner_policy).assign(Operand::ActorId);
    let b = Field::with_policy(PRICE, price_policy).assign(Operand::Lit(1));
    Changeset::single(a).with(b)
}

#[test]
fn two_fields_succeed_when_both_policies_hold() {
    let mut t = listings();
    let cs = two_field_changeset(owner_only(), Operand::Field(PRICE).lt(Operand::Lit(2000)));
    assert_eq!(update_where(&mut t, Actor { id: 20 }, &expensive(), &cs), Ok(1));
    assert_eq!(rows_of(&t), vec![(1, vec![10, 500]), (2, vec![20, 1])]);
}

#[test]
fn two_fields_fail_when_first_policy_fails() {
    let mut t = listings();
    let cs = two_field_changeset(Expr::Const(false), Operand::Field(PRICE).lt(Operand::Lit(2000)));
    assert_eq!(update_where(&mut t, Actor { id: 20 }, &expensive(), &cs), Err(Error::PolicyViolation));
    assert_eq!(rows_of(&t), vec![(1, vec![10, 500]), (2, vec![20, 1500])]);
}

#[test]
fn two_fields_fail_when_second_policy_fails() {
    let mut t = listings();
    let cs = two_field_changeset(owner_only(), Operand::Field(PRICE).lt(Operand::Lit(1000)));
    assert_eq!(update_where(&mut t, Actor { id: 20 }, &expensive(), &cs), Err(Error::PolicyViolation));
    assert_eq!(rows_of(&t), vec![(1, vec![10, 500]), (2, vec![20, 1500])]);
}

#[test]
fn reads_ignore_policy_while_writes_are_gated() {
    let mut ctx = Context::new(Actor { id: 10 }, listings(), None);
    let rows = ctx.select_list(&expensive()).unwrap();
    assert_eq!(rows, vec![Row { id: 2, cells: vec![20, 1500] }]);
    assert_eq!(ctx.update_where(&expensive(), &price_to(0)), Err(Error::PolicyViolation));
    let again = ctx.select_list(&expensive()).unwrap();
    assert_eq!(again, vec![Row { id: 2, cells: vec![20, 1500] }]);
}

#[test]
fn repeated_denial_is_stable() {
    let mut ctx = Context::new(Actor { id: 10 }, listings(), None);
    let first = ctx.update_where(&expensive(), &price_to(0));
    let after_first = rows_of(ctx.table());
    let second = ctx.update_where(&expensive(), &price_to(0));
    let after_second = rows_of(ctx.table());
    assert_eq!(first, Err(Error::PolicyViolation));
    assert_eq!(second, first);
    assert_eq!(after_first, after_second);
    assert_eq!(after_second, vec![(1, vec![10, 500]), (2, vec![20, 1500])]);
}

#[test]
fn empty_changeset_is_rejected() {
    assert!(matches!(Changeset::new(Vec::new()), Err(Error::InvalidChangeset)));
    let cs = Changeset::new(vec![price_field().assign(Operand::Lit(3))]).unwrap();
    assert_eq!(cs.len(), 1);
}

#[test]
fn changeset_naming_missing_column_is_rejected() {
    let mut t = listings();
    let cs = Changeset::single(Field::with_policy(5, Expr::Const(true)).assign(Operand::Lit(0)));
    assert_eq!(update_where(&mut t, Actor { id: 10 }, &Expr::Const(true), &cs), Err(Error::InvalidChangeset));
    let cs = Changeset::single(Field::with_policy(PRICE, Expr::Const(true)).assign(Operand::Field(9)));
    assert_eq!(update_where(&mut t, Actor { id: 10 }, &Expr::Const(true), &cs), Err(Error::InvalidChangeset));
    assert_eq!(rows_of(&t), vec![(1, vec![10, 500]), (2, vec![20, 1500])]);
}

#[test]
fn filter_naming_missing_column_is_a_storage_error() {
    let mut t = listings();
    let bad = Operand::Field(4).eq(Operand::Lit(1));
    assert_eq!(select_list(&t, Actor { id: 10 }, &bad), Err(Error::StorageError));
    assert_eq!(select_first(&t, Actor { id: 10 }, &bad), Err(Error::StorageError));
    assert_eq!(update_where(&mut t, Actor { id: 10 }, &bad, &price_to(0)), Err(Error::StorageError));
}

#[test]
fn closed_context_refuses_everything() {
    let mut ctx = Context::new(Actor { id: 20 }, listings(), Some(Expr::Const(true)));
    assert!(!ctx.is_closed());
    ctx.close();
    assert!(ctx.is_closed());
    assert_eq!(ctx.select_list(&Expr::Const(true)), Err(Error::ContextClosed));
    assert_eq!(ctx.select_first(&Expr::Const(true)), Err(Error::ContextClosed));
    assert_eq!(ctx.update_where(&expensive(), &price_to(0)), Err(Error::ContextClosed));
    assert_eq!(ctx.insert(vec![20, 1]), Err(Error::ContextClosed));
    assert_eq!(rows_of(ctx.table()), vec![(1, vec![10, 500]), (2, vec![20, 1500])]);
}

#[test]
fn select_first_finds_first_match() {
    let t = listings();
    let any = Operand::Field(PRICE).gt(Operand::Lit(0));
    assert_eq!(select_first(&t, Actor { id: 1 }, &any), Ok(Some(Row { id: 1, cells: vec![10, 500] })));
    assert_eq!(select_first(&t, Actor { id: 1 }, &expensive()), Ok(Some(Row { id: 2, cells: vec![20, 1500] })));
    let none = Operand::Field(PRICE).lt(Operand::Lit(0));
    assert_eq!(select_first(&t, Actor { id: 1 }, &none), Ok(None));
}

#[test]
fn select_list_keeps_table_order() {
    let t = listings();
    let all = Expr::Const(true);
    let rows = select_list(&t, Actor { id: 1 }, &all).unwrap();
    assert_eq!(rows, vec![Row { id: 1, cells: vec![10, 500] }, Row { id: 2, cells: vec![20, 1500] }]);
    assert_eq!(select_list(&t, Actor { id: 1 }, &Expr::Const(false)), Ok(vec![]));
}

#[test]
fn expression_connectives_and_membership() {
    let row = vec![10, 1500];
    let actor = Actor { id: 10 };
    assert!(owner_only().eval(actor, &row));
    assert!(!owner_only().eval(Actor { id: 11 }, &row));
    assert!(Operand::Field(PRICE).eq_any(vec![3, 1500]).eval(actor, &row));
    assert!(!Operand::Field(PRICE).eq_any(vec![]).eval(actor, &row));
    assert!(expensive().and(owner_only()).eval(actor, &row));
    assert!(!expensive().and(Expr::Const(false)).eval(actor, &row));
    assert!(Expr::Const(false).or(expensive()).eval(actor, &row));
    assert!(!Operand::Field(PRICE).lt(Operand::Lit(1500)).eval(actor, &row));
    assert!(!Operand::Field(PRICE).gt(Operand::Lit(1500)).eval(actor, &row));
    assert_eq!(Operand::Field(OWNER).eval(actor, &row), 10);
    assert_eq!(Operand::ActorId.eval(Actor { id: -3 }, &row), -3);
}

#[test]
fn assignment_reads_the_row_before_the_write() {
    let mut t = Table::new(2);
    t.insert_row(vec![3, 4]).unwrap();
    let swap = Changeset::single(Field::with_policy(0, Expr::Const(true)).assign(Operand::Field(1)))
        .with(Field::with_policy(1, Expr::Const(true)).assign(Operand::Field(0)));
    assert_eq!(update_where(&mut t, Actor { id: 0 }, &Expr::Const(true), &swap), Ok(1));
    assert_eq!(rows_of(&t), vec![(1, vec![4, 3])]);
    let twice = Changeset::single(Field::with_policy(0, Expr::Const(true)).assign(Operand::Lit(1)))
        .with(Field::with_policy(0, Expr::Const(true)).assign(Operand::Lit(2)));
    assert_eq!(twice.apply(Actor { id: 0 }, &vec![0, 0]), vec![2, 0]);
}

#[test]
fn authorize_update_returns_ids_or_violation() {
    let rows = vec![Row { id: 4, cells: vec![10, 1] }, Row { id: 9, cells: vec![10, 2] }];
    assert_eq!(authorize_update(&rows, Actor { id: 10 }, &price_to(0)), Ok(vec![4, 9]));
    assert_eq!(authorize_update(&rows, Actor { id: 11 }, &price_to(0)), Err(Error::PolicyViolation));
    assert_eq!(authorize_update(&vec![], Actor { id: 11 }, &price_to(0)), Ok(vec![]));
}

#[test]
fn insert_is_gated() {
    let gate = Some(Operand::Field(OWNER).eq(Operand::ActorId));
    let mut ctx = Context::new(Actor { id: 30 }, listings(), gate);
    assert_eq!(ctx.insert(vec![30, 7]), Ok(3));
    assert_eq!(ctx.insert(vec![31, 7]), Err(Error::PolicyViolation));
    assert_eq!(ctx.insert(vec![30]), Err(Error::StorageError));
    assert_eq!(ctx.auth_user(), Actor { id: 30 });
    assert_eq!(rows_of(ctx.table()), vec![(1, vec![10, 500]), (2, vec![20, 1500]), (3, vec![30, 7])]);
    let mut closed_gate = Context::new(Actor { id: 30 }, listings(), None);
    assert_eq!(closed_gate.insert(vec![30, 7]), Err(Error::PolicyViolation));
}

#[test]
fn table_refuses_rows_of_wrong_width() {
    let mut t = Table::new(3);
    assert_eq!(t.arity(), 3);
    assert_eq!(t.insert_row(vec![1, 2]), Err(Error::StorageError));
    assert_eq!(t.len(), 0);
}

#[test]
fn filter_translates_to_sql_tokens() {
    let f = expensive().and(Operand::Field(OWNER).eq_any(vec![10, 20]));
    let tokens = f.to_diesel();
    let expected = vec![
        SqlToken::Open,
        SqlToken::Open,
        SqlToken::Column(PRICE),
        SqlToken::Gt,
        SqlToken::Value(1000),
        SqlToken::Close,
        SqlToken::And,
        SqlToken::Open,
        SqlToken::Column(OWNER),
        SqlToken::In,
        SqlToken::List(vec![10, 20]),
        SqlToken::Close,
        SqlToken::Close,
    ];
    assert_eq!(format!("{:?}", tokens), format!("{:?}", expected));
    let empty = Operand::ActorId.eq_any(vec![]).or(Expr::Const(true));
    let expected = vec![SqlToken::Open, SqlToken::Bool(false), SqlToken::Or, SqlToken::Bool(true), SqlToken::Close];
    assert_eq!(format!("{:?}", empty.to_diesel()), format!("{:?}", expected));
}

#[test]
fn assign_keeps_field_and_value() {
    let a: Assign = price_field().assign(Operand::Lit(8));
    assert_eq!(a.field.column, PRICE);
    assert!(a.field.policy.is_some());
    assert!(matches!(a.value, Operand::Lit(8)));
    assert!(matches!(price_field().value(), Operand::Field(PRICE)));
}

#[test]
fn insert_policy_is_evaluated_on_the_candidate() {
    let gate = Some(Operand::Field(PRICE).lt(Operand::Lit(100)));
    assert!(allow_insert(&gate, 2, Actor { id: 1 }, &vec![1, 99]));
    assert!(!allow_insert(&gate, 2, Actor { id: 1 }, &vec![1, 100]));
    assert!(!allow_insert(&None, 2, Actor { id: 1 }, &vec![1, 0]));
    let bad_gate = Some(Operand::Field(7).lt(Operand::Lit(100)));
    assert!(!allow_insert(&bad_gate, 2, Actor { id: 1 }, &vec![1, 0]));
}
