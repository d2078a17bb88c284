//! The value leaves of a statement, gathered by a plain left-to-right walk, and
//! the proof that the renderer binds exactly these values, in this order.
use vstd::prelude::*;
use crate::condition::{Condition, ConditionExpression, ConditionHolder};
use crate::expr::SimpleExpr;
use crate::render::{
    condition_values, expr_values, exprs_values, from_values, holder_values, is_empty_in,
    item_values, items_values, join_on_values, join_values, joins_values, option_value,
    orders_values, select_body_values, select_exprs_values, select_head_values, select_tail_values,
    select_values, table_ref_values,
};
use crate::select::{JoinExpr, SelectExpr, SelectStatement};
use crate::types::{JoinOn, OrderExpr, TableRef};
use crate::value::Value;

verus! {

// ---- The leaves: each `Value`, each element of each `Values` list, the limit
// ---- and the offset, walking the clauses in order and each clause left to right.

pub open spec fn value_leaves(e: SimpleExpr) -> Seq<Value>
    decreases e,
{
    match e {
        SimpleExpr::Value(v) => seq![v],
        SimpleExpr::Values(vs) => vs@,
        SimpleExpr::Unary(_, x) => value_leaves(*x),
        SimpleExpr::Binary(l, _, r) => value_leaves(*l) + value_leaves(*r),
        SimpleExpr::FunctionCall(_, args) => value_leaves_of(args@),
        SimpleExpr::SubQuery(q) => statement_leaves(*q),
        SimpleExpr::Tuple(es) => value_leaves_of(es@),
        SimpleExpr::AsEnum(_, x) => value_leaves(*x),
        _ => Seq::empty(),
    }
}

pub open spec fn value_leaves_of(es: Seq<SimpleExpr>) -> Seq<Value>
    decreases es,
{
    if es.len() == 0 {
        Seq::empty()
    } else {
        let k = es.len() - 1;
        value_leaves_of(es.subrange(0, k)) + value_leaves(es[k])
    }
}

pub open spec fn select_list_leaves(es: Seq<SelectExpr>) -> Seq<Value>
    decreases es,
{
    if es.len() == 0 {
        Seq::empty()
    } else {
        let k = es.len() - 1;
        select_list_leaves(es.subrange(0, k)) + value_leaves(es[k].expr)
    }
}

pub open spec fn table_leaves(t: TableRef) -> Seq<Value>
    decreases t,
{
    match t {
        TableRef::SubQuery(q, _) => statement_leaves(q),
        _ => Seq::empty(),
    }
}

pub open spec fn from_leaves(f: Option<Box<TableRef>>) -> Seq<Value>
    decreases f,
{
    match f {
        Some(t) => table_leaves(*t),
        None => Seq::empty(),
    }
}

pub open spec fn join_on_leaves(on: Option<JoinOn>) -> Seq<Value>
    decreases on,
{
    match on {
        Some(JoinOn::Condition(e)) => value_leaves(*e),
        _ => Seq::empty(),
    }
}

pub open spec fn join_leaves(j: JoinExpr) -> Seq<Value>
    decreases j,
{
    table_leaves(*j.table) + join_on_leaves(j.on)
}

pub open spec fn joins_leaves(js: Seq<JoinExpr>) -> Seq<Value>
    decreases js,
{
    if js.len() == 0 {
        Seq::empty()
    } else {
        let k = js.len() - 1;
        joins_leaves(js.subrange(0, k)) + join_leaves(js[k])
    }
}

pub open spec fn condition_leaves(c: Condition) -> Seq<Value>
    decreases c,
{
    parts_leaves(c.conditions@)
}

pub open spec fn part_leaves(it: ConditionExpression) -> Seq<Value>
    decreases it,
{
    match it {
        ConditionExpression::Condition(c) => condition_leaves(c),
        ConditionExpression::SimpleExpr(e) => value_leaves(e),
    }
}

pub open spec fn parts_leaves(its: Seq<ConditionExpression>) -> Seq<Value>
    decreases its,
{
    if its.len() == 0 {
        Seq::empty()
    } else {
        let k = its.len() - 1;
        parts_leaves(its.subrange(0, k)) + part_leaves(its[k])
    }
}

pub open spec fn order_leaves(os: Seq<OrderExpr>) -> Seq<Value>
    decreases os,
{
    if os.len() == 0 {
        Seq::empty()
    } else {
        let k = os.len() - 1;
        order_leaves(os.subrange(0, k)) + value_leaves(os[k].expr)
    }
}

pub open spec fn optional_leaf(v: Option<Value>) -> Seq<Value> {
    match v {
        Some(x) => seq![x],
        None => Seq::empty(),
    }
}

/// The leaves of a statement: select list, FROM, joins, WHERE, GROUP BY,
/// HAVING, ORDER BY, LIMIT, OFFSET.
pub open spec fn statement_leaves(s: SelectStatement) -> Seq<Value>
    decreases s,
{
    select_list_leaves(s.selects@) + from_leaves(s.from) + joins_leaves(s.join@)
        + condition_leaves(s.wherei.condition) + value_leaves_of(s.groups@)
        + condition_leaves(s.having.condition) + order_leaves(s.orders@) + optional_leaf(s.limit)
        + optional_leaf(s.offset)
}

// ---- Whether an IN or NOT IN over an empty list occurs anywhere ----

pub open spec fn has_empty_in_list(e: SimpleExpr) -> bool
    decreases e,
{
    match e {
        SimpleExpr::Unary(_, x) => has_empty_in_list(*x),
        SimpleExpr::Binary(l, op, r) => is_empty_in(op, *r) || has_empty_in_list(*l) || has_empty_in_list(*r),
        SimpleExpr::FunctionCall(_, args) => any_empty_in_list(args@),
        SimpleExpr::SubQuery(q) => statement_has_empty_in_list(*q),
        SimpleExpr::Tuple(es) => any_empty_in_list(es@),
        SimpleExpr::AsEnum(_, x) => has_empty_in_list(*x),
        _ => false,
    }
}

pub open spec fn any_empty_in_list(es: Seq<SimpleExpr>) -> bool
    decreases es,
{
    if es.len() == 0 {
        false
    } else {
        let k = es.len() - 1;
        any_empty_in_list(es.subrange(0, k)) || has_empty_in_list(es[k])
    }
}

pub open spec fn select_list_has_empty_in_list(es: Seq<SelectExpr>) -> bool
    decreases es,
{
    if es.len() == 0 {
        false
    } else {
        let k = es.len() - 1;
        select_list_has_empty_in_list(es.subrange(0, k)) || has_empty_in_list(es[k].expr)
    }
}

pub open spec fn table_has_empty_in_list(t: TableRef) -> bool
    decreases t,
{
    match t {
        TableRef::SubQuery(q, _) => statement_has_empty_in_list(q),
        _ => false,
    }
}

pub open spec fn from_has_empty_in_list(f: Option<Box<TableRef>>) -> bool
    decreases f,
{
    match f {
        Some(t) => table_has_empty_in_list(*t),
        None => false,
    }
}

pub open spec fn join_has_empty_in_list(j: JoinExpr) -> bool
    decreases j,
{
    table_has_empty_in_list(*j.table) || match j.on {
        Some(JoinOn::Condition(e)) => has_empty_in_list(*e),
        _ => false,
    }
}

pub open spec fn joins_have_empty_in_list(js: Seq<JoinExpr>) -> bool
    decreases js,
{
    if js.len() == 0 {
        false
    } else {
        let k = js.len() - 1;
        joins_have_empty_in_list(js.subrange(0, k)) || join_has_empty_in_list(js[k])
    }
}

pub open spec fn condition_has_empty_in_list(c: Condition) -> bool
    decreases c,
{
    parts_have_empty_in_list(c.conditions@)
}

pub open spec fn part_has_empty_in_list(it: ConditionExpression) -> bool
    decreases it,
{
    match it {
        ConditionExpression::Condition(c) => condition_has_empty_in_list(c),
        ConditionExpression::SimpleExpr(e) => has_empty_in_list(e),
    }
}

pub open spec fn parts_have_empty_in_list(its: Seq<ConditionExpression>) -> bool
    decreases its,
{
    if its.len() == 0 {
        false
    } else {
        let k = its.len() - 1;
        parts_have_empty_in_list(its.subrange(0, k)) || part_has_empty_in_list(its[k])
    }
}

pub open spec fn orders_have_empty_in_list(os: Seq<OrderExpr>) -> bool
    decreases os,
{
    if os.len() == 0 {
        false
    } else {
        let k = os.len() - 1;
        orders_have_empty_in_list(os.subrange(0, k)) || has_empty_in_list(os[k].expr)
    }
}

pub open spec fn statement_has_empty_in_list(s: SelectStatement) -> bool
    decreases s,
{
    select_list_has_empty_in_list(s.selects@) || from_has_empty_in_list(s.from) || joins_have_empty_in_list(s.join@)
        || condition_has_empty_in_list(s.wherei.condition) || any_empty_in_list(s.groups@)
        || condition_has_empty_in_list(s.having.condition) || orders_have_empty_in_list(s.orders@)
}

// ---- The renderer binds the leaves ----

/// The values bound for an expression are its value leaves, one for each, in
/// left-to-right order, sub-queries included. An empty IN-list, written as a
/// constant, binds none of its left side, so it is left out.
pub proof fn lemma_values_in_traversal_order(e: SimpleExpr)
    requires
        !has_empty_in_list(e),
    ensures
        expr_values(e) == value_leaves(e),
    decreases e,
{
    match e {
        SimpleExpr::Unary(_, x) => lemma_values_in_traversal_order(*x),
        SimpleExpr::Binary(l, _, r) => {
            lemma_values_in_traversal_order(*l);
            lemma_values_in_traversal_order(*r);
        },
        SimpleExpr::FunctionCall(_, args) => lemma_list_values_in_traversal_order(args@),
        SimpleExpr::SubQuery(q) => lemma_statement_values_in_traversal_order(*q),
        SimpleExpr::Tuple(es) => lemma_list_values_in_traversal_order(es@),
        SimpleExpr::AsEnum(_, x) => lemma_values_in_traversal_order(*x),
        _ => {},
    }
}

pub proof fn lemma_list_values_in_traversal_order(es: Seq<SimpleExpr>)
    requires
        !any_empty_in_list(es),
    ensures
        exprs_values(es) == value_leaves_of(es),
    decreases es,
{
    if es.len() > 0 {
        let k = es.len() - 1;
        lemma_list_values_in_traversal_order(es.subrange(0, k));
        lemma_values_in_traversal_order(es[k]);
    }
}

proof fn lemma_select_list_leaves(es: Seq<SelectExpr>)
    requires
        !select_list_has_empty_in_list(es),
    ensures
        select_exprs_values(es) == select_list_leaves(es),
    decreases es,
{
    if es.len() > 0 {
        let k = es.len() - 1;
        lemma_select_list_leaves(es.subrange(0, k));
        lemma_values_in_traversal_order(es[k].expr);
    }
}

proof fn lemma_table_leaves(t: TableRef)
    requires
        !table_has_empty_in_list(t),
    ensures
        table_ref_values(t) == table_leaves(t),
    decreases t,
{
    match t {
        TableRef::SubQuery(q, _) => lemma_statement_values_in_traversal_order(q),
        _ => {},
    }
}

proof fn lemma_from_leaves(f: Option<Box<TableRef>>)
    requires
        !from_has_empty_in_list(f),
    ensures
        from_values(f) == from_leaves(f),
    decreases f,
{
    match f {
        Some(t) => lemma_table_leaves(*t),
        None => {},
    }
}

proof fn lemma_join_leaves(j: JoinExpr)
    requires
        !join_has_empty_in_list(j),
    ensures
        join_values(j) == join_leaves(j),
    decreases j,
{
    lemma_table_leaves(*j.table);
    match j.on {
        Some(JoinOn::Condition(e)) => {
            lemma_values_in_traversal_order(*e);
            assert(join_on_values(j.on) == join_on_leaves(j.on));
        },
        _ => {},
    }
}

proof fn lemma_joins_leaves(js: Seq<JoinExpr>)
    requires
        !joins_have_empty_in_list(js),
    ensures
        joins_values(js) == joins_leaves(js),
    decreases js,
{
    if js.len() > 0 {
        let k = js.len() - 1;
        lemma_joins_leaves(js.subrange(0, k));
        lemma_join_leaves(js[k]);
    }
}

proof fn lemma_condition_leaves(c: Condition)
    requires
        !condition_has_empty_in_list(c),
    ensures
        condition_values(c) == condition_leaves(c),
    decreases c,
{
    lemma_parts_leaves(c.conditions@);
}

proof fn lemma_part_leaves(it: ConditionExpression)
    requires
        !part_has_empty_in_list(it),
    ensures
        item_values(it) == part_leaves(it),
    decreases it,
{
    match it {
        ConditionExpression::Condition(c) => lemma_condition_leaves(c),
        ConditionExpression::SimpleExpr(e) => lemma_values_in_traversal_order(e),
    }
}

proof fn lemma_parts_leaves(its: Seq<ConditionExpression>)
    requires
        !parts_have_empty_in_list(its),
    ensures
        items_values(its) == parts_leaves(its),
    decreases its,
{
    if its.len() > 0 {
        let k = its.len() - 1;
        lemma_parts_leaves(its.subrange(0, k));
        lemma_part_leaves(its[k]);
    }
}

proof fn lemma_holder_leaves(h: ConditionHolder)
    requires
        !condition_has_empty_in_list(h.condition),
    ensures
        holder_values(h) == condition_leaves(h.condition),
    decreases h,
{
    lemma_condition_leaves(h.condition);
    if h.condition.conditions@.len() == 0 {
        assert(parts_leaves(h.condition.conditions@) == Seq::<Value>::empty());
    }
}

proof fn lemma_order_leaves(os: Seq<OrderExpr>)
    requires
        !orders_have_empty_in_list(os),
    ensures
        orders_values(os) == order_leaves(os),
    decreases os,
{
    if os.len() > 0 {
        let k = os.len() - 1;
        lemma_order_leaves(os.subrange(0, k));
        lemma_values_in_traversal_order(os[k].expr);
    }
}

/// The values bound for a select statement (what `build` and `build_collect`
/// hand back) are exactly its value leaves: each value site once, none skipped,
/// in clause order and left to right within each clause, sub-queries included.
/// Statements with an empty IN-list are left out: its left side is not written.
#[verifier::rlimit(60)]
pub proof fn lemma_statement_values_in_traversal_order(s: SelectStatement)
    requires
        !statement_has_empty_in_list(s),
    ensures
        select_values(s) == statement_leaves(s),
        select_values(s).len() == statement_leaves(s).len(),
    decreases s,
{
    lemma_select_list_leaves(s.selects@);
    lemma_from_leaves(s.from);
    lemma_joins_leaves(s.join@);
    lemma_holder_leaves(s.wherei);
    lemma_list_values_in_traversal_order(s.groups@);
    lemma_holder_leaves(s.having);
    lemma_order_leaves(s.orders@);
    assert(option_value(s.limit) == optional_leaf(s.limit));
    assert(option_value(s.offset) == optional_leaf(s.offset));
    let a1 = select_list_leaves(s.selects@);
    let a2 = from_leaves(s.from);
    let a3 = joins_leaves(s.join@);
    let a4 = condition_leaves(s.wherei.condition);
    let a5 = value_leaves_of(s.groups@);
    let a6 = condition_leaves(s.having.condition);
    let a7 = order_leaves(s.orders@);
    let a8 = optional_leaf(s.limit);
    let a9 = optional_leaf(s.offset);
    let h = a1 + a2;
    let b = a3 + a4 + a5;
    let t = a6 + a7 + a8 + a9;
    assert(select_head_values(s) == h);
    assert(select_body_values(s) == b);
    assert(select_tail_values(s) == t);
    assert(h + b =~= a1 + a2 + a3 + a4 + a5);
    assert(h + b + t =~= a1 + a2 + a3 + a4 + a5 + a6 + a7 + a8 + a9);
    assert(statement_leaves(s) == a1 + a2 + a3 + a4 + a5 + a6 + a7 + a8 + a9);
}

} // verus!
