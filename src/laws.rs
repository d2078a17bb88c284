//! Properties of the renderer that hold for all inputs.
use vstd::prelude::*;
use crate::condition::{Condition, ConditionExpression, ConditionType};
use crate::expr::{BinOper, SimpleExpr};
use crate::render::{
    item_sql, item_values, items_sql, Dialect, condition_sql, distinct_sql, expr_sql, expr_values,
    iden_sql, items_values, select_body_sql, select_body_values, select_exprs_sql,
    select_exprs_values, select_head_values, select_sql, select_tail_sql, select_values,
    table_ref_sql,
};
use crate::select::SelectStatement;
use crate::table::{TableDropOpt, TableDropStatement};
use crate::table_builder::{
    all_ddl_tables_ok, ddl_table_sql, drop_error, drop_opt_sql, drop_opts_sql, drop_sql,
    join_comma,
};
use crate::types::{Iden, TableRef};
use crate::value::{lemma_same_values_both, same_values, Value};

verus! {

/// A select statement with only a select list and a table renders as
/// `SELECT <cols> FROM <table>`, with no further clause keyword, in every dialect.
pub proof fn lemma_plain_select(d: Dialect, inline: bool, s: SelectStatement, n: nat)
    requires
        s.distinct is None,
        s.from is Some,
        s.join@.len() == 0,
        s.wherei.condition.conditions@.len() == 0,
        s.groups@.len() == 0,
        s.having.condition.conditions@.len() == 0,
        s.orders@.len() == 0,
        s.limit is None,
        s.offset is None,
    ensures
        select_sql(d, inline, s, n) == "SELECT "@ + select_exprs_sql(d, inline, s.selects@, n) + " FROM "@
            + table_ref_sql(d, inline, *s.from->0, n + select_exprs_values(s.selects@).len()),
{
    let m = select_head_values(s).len();
    assert(select_body_sql(d, inline, s, n + m) =~= Seq::<char>::empty());
    assert(select_body_values(s) =~= Seq::<Value>::empty());
    assert(select_tail_sql(d, inline, s, n + m) =~= Seq::<char>::empty());
    assert(distinct_sql(d, s.distinct) =~= Seq::<char>::empty());
    assert(select_sql(d, inline, s, n) =~= "SELECT "@ + select_exprs_sql(d, inline, s.selects@, n) + " FROM "@
        + table_ref_sql(d, inline, *s.from->0, n + select_exprs_values(s.selects@).len()));
}

/// IN over an empty list renders as a false constant and NOT IN over one as a
/// true constant; neither writes `IN ()` nor binds a value.
pub proof fn lemma_empty_in_list(d: Dialect, inline: bool, left: SimpleExpr, vs: Vec<Value>, n: nat)
    requires
        vs@.len() == 0,
    ensures
        expr_sql(d, inline, SimpleExpr::Binary(Box::new(left), BinOper::In, Box::new(SimpleExpr::Values(vs))), n) == "1 = 2"@,
        expr_sql(d, inline, SimpleExpr::Binary(Box::new(left), BinOper::NotIn, Box::new(SimpleExpr::Values(vs))), n) == "1 = 1"@,
        expr_values(SimpleExpr::Binary(Box::new(left), BinOper::In, Box::new(SimpleExpr::Values(vs)))).len() == 0,
        expr_values(SimpleExpr::Binary(Box::new(left), BinOper::NotIn, Box::new(SimpleExpr::Values(vs)))).len() == 0,
{
}

/// An expression that is not an OR at its top.
pub open spec fn not_or(e: SimpleExpr) -> bool {
    !(e matches SimpleExpr::Binary(_, BinOper::Or, _))
}

/// `all[A, any[B, C]]` renders as `A AND (B OR C)`: the OR list is parenthesized.
#[verifier::rlimit(60)]
pub proof fn lemma_any_under_all(d: Dialect, inline: bool, c: Condition, inner: Condition, a: SimpleExpr, b: SimpleExpr, x: SimpleExpr, n: nat)
    requires
        !c.negate,
        c.condition_type == ConditionType::All,
        c.conditions@ == seq![ConditionExpression::SimpleExpr(a), ConditionExpression::Condition(inner)],
        !inner.negate,
        inner.condition_type == ConditionType::Any,
        inner.conditions@ == seq![ConditionExpression::SimpleExpr(b), ConditionExpression::SimpleExpr(x)],
        not_or(a),
    ensures
        condition_sql(d, inline, c, None, n) == expr_sql(d, inline, a, n) + " AND ("@
            + expr_sql(d, inline, b, n + expr_values(a).len()) + " OR "@
            + expr_sql(d, inline, x, n + expr_values(a).len() + expr_values(b).len()) + ")"@,
{
    let its = c.conditions@;
    let ins = inner.conditions@;
    assert(its.subrange(0, 1) =~= seq![ConditionExpression::SimpleExpr(a)]);
    assert(ins.subrange(0, 1) =~= seq![ConditionExpression::SimpleExpr(b)]);
    assert(seq![ConditionExpression::SimpleExpr(a)].subrange(0, 0) =~= Seq::<ConditionExpression>::empty());
    assert(seq![ConditionExpression::SimpleExpr(b)].subrange(0, 0) =~= Seq::<ConditionExpression>::empty());
    let na = n + expr_values(a).len();
    assert(its.subrange(0, 1).subrange(0, 0) =~= Seq::<ConditionExpression>::empty());
    assert(ins.subrange(0, 1).subrange(0, 0) =~= Seq::<ConditionExpression>::empty());
    assert(items_values(Seq::<ConditionExpression>::empty()) == Seq::<Value>::empty());
    let s1 = its.subrange(0, 1);
    let s2 = ins.subrange(0, 1);
    assert(s1[0] == ConditionExpression::SimpleExpr(a));
    assert(s2[0] == ConditionExpression::SimpleExpr(b));
    assert(item_values(ConditionExpression::SimpleExpr(a)) == expr_values(a));
    assert(item_values(ConditionExpression::SimpleExpr(b)) == expr_values(b));
    assert(items_values(s1) == items_values(s1.subrange(0, 0)) + item_values(s1[0]));
    assert(items_values(s2) == items_values(s2.subrange(0, 0)) + item_values(s2[0]));
    assert(items_values(its.subrange(0, 1)) =~= expr_values(a));
    assert(items_values(ins.subrange(0, 1)) =~= expr_values(b));
    let ea = expr_sql(d, inline, a, n);
    let eb = expr_sql(d, inline, b, na);
    let ex = expr_sql(d, inline, x, na + expr_values(b).len());
    assert(item_sql(d, inline, s1[0], Some(ConditionType::All), n) == ea);
    assert(items_sql(d, inline, s1, ConditionType::All, n) == ea);
    assert(item_sql(d, inline, s2[0], Some(ConditionType::Any), na) == eb);
    assert(items_sql(d, inline, s2, ConditionType::Any, na) == eb);
    assert(item_sql(d, inline, ins[1], Some(ConditionType::Any), na + expr_values(b).len()) == ex);
    reveal_strlit(" ");
    reveal_strlit("OR");
    reveal_strlit(" OR ");
    reveal_strlit("AND");
    reveal_strlit(" AND ");
    assert(items_sql(d, inline, ins, ConditionType::Any, na) =~= eb + " OR "@ + ex);
    assert(condition_sql(d, inline, inner, Some(ConditionType::All), na) == "("@ + (eb + " OR "@ + ex) + ")"@);
    assert(item_sql(d, inline, its[1], Some(ConditionType::All), na) == "("@ + (eb + " OR "@ + ex) + ")"@);
    assert(items_sql(d, inline, its, ConditionType::All, n) =~= ea + " AND "@ + ("("@ + (eb + " OR "@ + ex) + ")"@));
    reveal_strlit("(");
    reveal_strlit(")");
    reveal_strlit(" AND (");
    assert(condition_sql(d, inline, c, None, n) == items_sql(d, inline, its, ConditionType::All, n));
    assert(condition_sql(d, inline, c, None, n) =~= ea + " AND ("@ + eb + " OR "@ + ex + ")"@);
}

/// `all[A, all[B, C]]` renders as `A AND B AND C`: no parentheses appear.
#[verifier::rlimit(60)]
pub proof fn lemma_all_under_all(d: Dialect, inline: bool, c: Condition, inner: Condition, a: SimpleExpr, b: SimpleExpr, x: SimpleExpr, n: nat)
    requires
        !c.negate,
        c.condition_type == ConditionType::All,
        c.conditions@ == seq![ConditionExpression::SimpleExpr(a), ConditionExpression::Condition(inner)],
        !inner.negate,
        inner.condition_type == ConditionType::All,
        inner.conditions@ == seq![ConditionExpression::SimpleExpr(b), ConditionExpression::SimpleExpr(x)],
        not_or(a),
        not_or(b),
        not_or(x),
    ensures
        condition_sql(d, inline, c, None, n) == expr_sql(d, inline, a, n) + " AND "@
            + expr_sql(d, inline, b, n + expr_values(a).len()) + " AND "@
            + expr_sql(d, inline, x, n + expr_values(a).len() + expr_values(b).len()),
{
    let its = c.conditions@;
    let ins = inner.conditions@;
    assert(its.subrange(0, 1) =~= seq![ConditionExpression::SimpleExpr(a)]);
    assert(ins.subrange(0, 1) =~= seq![ConditionExpression::SimpleExpr(b)]);
    assert(seq![ConditionExpression::SimpleExpr(a)].subrange(0, 0) =~= Seq::<ConditionExpression>::empty());
    assert(seq![ConditionExpression::SimpleExpr(b)].subrange(0, 0) =~= Seq::<ConditionExpression>::empty());
    let na = n + expr_values(a).len();
    assert(its.subrange(0, 1).subrange(0, 0) =~= Seq::<ConditionExpression>::empty());
    assert(ins.subrange(0, 1).subrange(0, 0) =~= Seq::<ConditionExpression>::empty());
    assert(items_values(Seq::<ConditionExpression>::empty()) == Seq::<Value>::empty());
    let s1 = its.subrange(0, 1);
    let s2 = ins.subrange(0, 1);
    assert(s1[0] == ConditionExpression::SimpleExpr(a));
    assert(s2[0] == ConditionExpression::SimpleExpr(b));
    assert(item_values(ConditionExpression::SimpleExpr(a)) == expr_values(a));
    assert(item_values(ConditionExpression::SimpleExpr(b)) == expr_values(b));
    assert(items_values(s1) == items_values(s1.subrange(0, 0)) + item_values(s1[0]));
    assert(items_values(s2) == items_values(s2.subrange(0, 0)) + item_values(s2[0]));
    assert(items_values(its.subrange(0, 1)) =~= expr_values(a));
    assert(items_values(ins.subrange(0, 1)) =~= expr_values(b));
    let ea = expr_sql(d, inline, a, n);
    let eb = expr_sql(d, inline, b, na);
    let ex = expr_sql(d, inline, x, na + expr_values(b).len());
    assert(item_sql(d, inline, s1[0], Some(ConditionType::All), n) == ea);
    assert(items_sql(d, inline, s1, ConditionType::All, n) == ea);
    assert(item_sql(d, inline, s2[0], Some(ConditionType::All), na) == eb);
    assert(items_sql(d, inline, s2, ConditionType::All, na) == eb);
    assert(item_sql(d, inline, ins[1], Some(ConditionType::All), na + expr_values(b).len()) == ex);
    reveal_strlit(" ");
    reveal_strlit("AND");
    reveal_strlit(" AND ");
    assert(items_sql(d, inline, ins, ConditionType::All, na) =~= eb + " AND "@ + ex);
    assert(condition_sql(d, inline, inner, Some(ConditionType::All), na) == eb + " AND "@ + ex);
    assert(item_sql(d, inline, its[1], Some(ConditionType::All), na) == eb + " AND "@ + ex);
    assert(items_sql(d, inline, its, ConditionType::All, n) =~= ea + " AND "@ + (eb + " AND "@ + ex));
    assert(condition_sql(d, inline, c, None, n) =~= ea + " AND "@ + eb + " AND "@ + ex);
}

/// DROP TABLE over two tables with CASCADE names both, separated by a comma,
/// and ends with one CASCADE.
#[verifier::rlimit(60)]
pub proof fn lemma_drop_two_tables_cascade(d: Dialect, s: TableDropStatement, t1: Iden, t2: Iden)
    requires
        s.tables@ == seq![TableRef::Table(t1), TableRef::Table(t2)],
        s.options@ == seq![TableDropOpt::Cascade],
        !s.if_exists,
    ensures
        drop_error(d, s) is None,
        drop_sql(d, s) == "DROP TABLE "@ + iden_sql(d, t1) + ", "@ + iden_sql(d, t2) + " CASCADE"@,
{
    let names = s.tables@.map_values(|t: TableRef| ddl_table_sql(d, t));
    assert(names.len() == 2);
    assert(names[0] == iden_sql(d, t1));
    assert(names[1] == iden_sql(d, t2));
    assert(names.subrange(0, 1).len() == 1);
    assert(names.subrange(0, 1)[0] == iden_sql(d, t1));
    assert(join_comma(names.subrange(0, 1)) == iden_sql(d, t1));
    assert(join_comma(names) == iden_sql(d, t1) + ", "@ + iden_sql(d, t2));
    assert(s.options@.subrange(0, 0) =~= Seq::<TableDropOpt>::empty());
    assert(drop_opts_sql(Seq::<TableDropOpt>::empty()) == Seq::<char>::empty());
    assert(drop_opts_sql(s.options@) == drop_opts_sql(s.options@.subrange(0, 0)) + drop_opt_sql(TableDropOpt::Cascade));
    assert(drop_opts_sql(s.options@) =~= " CASCADE"@);
    assert(drop_sql(d, s) =~= "DROP TABLE "@ + iden_sql(d, t1) + ", "@ + iden_sql(d, t2) + " CASCADE"@);
}

/// DROP TABLE over any non-empty list of tables that the dialect can name, with
/// one option, names each table once, separated by commas, and ends with the
/// option's keyword once, whatever the number of tables.
pub proof fn lemma_drop_tables_one_option(d: Dialect, s: TableDropStatement, o: TableDropOpt)
    requires
        s.tables@.len() >= 1,
        all_ddl_tables_ok(d, s.tables@),
        s.options@ == seq![o],
    ensures
        drop_error(d, s) is None,
        drop_sql(d, s) == "DROP TABLE "@ + (if s.if_exists { "IF EXISTS "@ } else { Seq::<char>::empty() })
            + join_comma(s.tables@.map_values(|t: TableRef| ddl_table_sql(d, t))) + drop_opt_sql(o),
{
    assert(s.options@.subrange(0, 0) =~= Seq::<TableDropOpt>::empty());
    assert(drop_opts_sql(Seq::<TableDropOpt>::empty()) == Seq::<char>::empty());
    assert(drop_opts_sql(s.options@) == drop_opts_sql(s.options@.subrange(0, 0)) + drop_opt_sql(o));
    assert(drop_opts_sql(s.options@) =~= drop_opt_sql(o));
}

/// Rendering the same statement twice for one dialect gives the same text and
/// the same values: both results are fixed by the statement and the dialect.
pub proof fn lemma_render_twice(d: Dialect, s: SelectStatement, sql1: String, vals1: Vec<Value>, sql2: String, vals2: Vec<Value>)
    requires
        sql1@ == select_sql(d, false, s, 0),
        same_values(vals1@, select_values(s)),
        sql2@ == select_sql(d, false, s, 0),
        same_values(vals2@, select_values(s)),
    ensures
        sql1@ == sql2@,
        same_values(vals1@, vals2@),
{
    lemma_same_values_both(vals1@, vals2@, select_values(s));
}

} // verus!
