//! The renderer: writes AST nodes as SQL text and collects their bound values.
use vstd::prelude::*;
use crate::condition::{Condition, ConditionExpression, ConditionHolder, ConditionType};
use crate::expr::{BinOper, Function, Keyword, SimpleExpr};
use crate::render::{
    Dialect, having_order_sql, bin_oper_sql, column_sql, condition_sql, condition_values, distinct_sql, expr_sql,
    expr_values, exprs_sql, exprs_values, from_sql, from_values, function_name, holder_sql,
    holder_values, iden_sql, idens_sql, is_empty_in, item_sql, item_values, items_sql,
    items_values, join_on_sql, join_on_values, join_sql, join_type_sql, join_values, joins_sql,
    joins_values, keyword_sql, logic_oper, option_value, option_value_sql, order_expr_sql,
    orders_sql, orders_values, paren_left, paren_right, parens_if, placeholder, precedence,
    select_body_sql, select_body_values, select_expr_sql, select_exprs_sql, select_exprs_values,
    select_head_sql, select_head_values, select_sql, select_tail_sql, select_tail_values,
    select_values, table_ref_sql, table_ref_values, value_literal, value_sql, values_sql,
};
use crate::select::{JoinExpr, SelectDistinct, SelectExpr, SelectStatement};
use crate::text::{push_char, write_char_escaped, write_decimal, write_escaped, write_hex, write_signed};
use crate::types::{ColumnRef, Iden, JoinOn, JoinType, Order, OrderExpr, TableRef};
use crate::value::{
    lemma_same_values_chain, lemma_same_values_push, lemma_same_values_refl, same_values, Value,
};

verus! {

pub fn write_iden(d: Dialect, i: &Iden, sql: &mut String)
    ensures
        final(sql)@ == old(sql)@ + iden_sql(d, *i),
{
    let q = match d {
        Dialect::Postgres => '"',
        _ => '`',
    };
    push_char(sql, q);
    write_escaped(sql, i.name.as_str(), q);
    push_char(sql, q);
    assert(final(sql)@ =~= old(sql)@ + iden_sql(d, *i));
}

#[verifier::rlimit(60)]
pub fn write_value_literal(d: Dialect, v: &Value, sql: &mut String)
    ensures
        final(sql)@ == old(sql)@ + value_literal(d, *v),
{
    reveal(value_literal);
    match v {
        Value::Bool(Some(b)) => if *b { sql.append("TRUE") } else { sql.append("FALSE") },
        Value::TinyInt(Some(x)) => write_signed(sql, *x as i128),
        Value::SmallInt(Some(x)) => write_signed(sql, *x as i128),
        Value::Int(Some(x)) => write_signed(sql, *x as i128),
        Value::BigInt(Some(x)) => write_signed(sql, *x as i128),
        Value::TinyUnsigned(Some(x)) => write_decimal(sql, *x as u128),
        Value::SmallUnsigned(Some(x)) => write_decimal(sql, *x as u128),
        Value::Unsigned(Some(x)) => write_decimal(sql, *x as u128),
        Value::BigUnsigned(Some(x)) => write_decimal(sql, *x as u128),
        Value::String(Some(s)) => {
            proof { reveal_strlit("'"); }
            sql.append("'");
            write_escaped(sql, s.as_str(), '\'');
            sql.append("'");
            assert(final(sql)@ =~= old(sql)@ + value_literal(d, *v));
        },
        Value::Char(Some(c)) => {
            proof { reveal_strlit("'"); }
            sql.append("'");
            write_char_escaped(sql, *c, '\'');
            sql.append("'");
            assert(final(sql)@ =~= old(sql)@ + value_literal(d, *v));
        },
        Value::Bytes(Some(b)) => {
            match d {
                Dialect::Postgres => sql.append("'\\x"),
                _ => sql.append("x'"),
            }
            write_hex(sql, b);
            sql.append("'");
            assert(final(sql)@ =~= old(sql)@ + value_literal(d, *v));
        },
        _ => sql.append("NULL"),
    }
}

proof fn lemma_unchanged(v: Seq<Value>)
    ensures
        same_values(v, v + Seq::<Value>::empty()),
{
    assert(v + Seq::<Value>::empty() =~= v);
    lemma_same_values_refl(v);
}

/// Writes a value site: a literal when `inline`, else a placeholder; the value is collected.
#[verifier::rlimit(60)]
pub fn write_value(d: Dialect, inline: bool, v: &Value, sql: &mut String, vals: &mut Vec<Value>)
    ensures
        final(sql)@ == old(sql)@ + value_sql(d, inline, *v, old(vals)@.len()),
        same_values(final(vals)@, old(vals)@ + seq![*v]),
{
    let n = vals.len();
    if inline {
        write_value_literal(d, v, sql);
    } else {
        match d {
            Dialect::Postgres => {
                proof { reveal_strlit("$"); }
                sql.append("$");
                write_decimal(sql, n as u128 + 1);
                assert(final(sql)@ =~= old(sql)@ + value_sql(d, inline, *v, n as nat));
            },
            _ => {
                proof { reveal_strlit("?"); }
                sql.append("?");
            },
        }
    }
    let c = v.duplicate();
    vals.push(c);
    proof { lemma_same_values_push(old(vals)@, c, *v); }
}

/// Writes the values of an IN-list, separated by commas.
#[verifier::rlimit(60)]
pub fn write_values_list(d: Dialect, inline: bool, vs: &Vec<Value>, sql: &mut String, vals: &mut Vec<Value>)
    ensures
        final(sql)@ == old(sql)@ + values_sql(d, inline, vs@, old(vals)@.len()),
        same_values(final(vals)@, old(vals)@ + vs@),
{
    let ghost n0 = old(vals)@.len();
    let ghost v0 = old(vals)@;
    let mut i: usize = 0;
    proof {
        assert(vs@.subrange(0, 0) =~= Seq::<Value>::empty());
        lemma_unchanged(v0);
    }
    while i < vs.len()
        invariant
            i <= vs@.len(),
            n0 == v0.len(),
            sql@ == old(sql)@ + values_sql(d, inline, vs@.subrange(0, i as int), n0),
            same_values(vals@, v0 + vs@.subrange(0, i as int)),
        decreases vs@.len() - i,
    {
        let ghost v1 = vals@;
        if i > 0 {
            sql.append(", ");
        }
        write_value(d, inline, &vs[i], sql, vals);
        proof {
            let p = vs@.subrange(0, i + 1);
            assert(p.subrange(0, i as int) =~= vs@.subrange(0, i as int));
            assert(vs@.subrange(0, i as int) + seq![vs@[i as int]] =~= p);
            lemma_same_values_chain(v0, v1, vals@, vs@.subrange(0, i as int), seq![vs@[i as int]]);
            assert(sql@ =~= old(sql)@ + values_sql(d, inline, p, n0));
        }
        i = i + 1;
    }
    assert(vs@.subrange(0, vs@.len() as int) =~= vs@);
}

#[verifier::rlimit(60)]
pub fn write_column(d: Dialect, c: &ColumnRef, sql: &mut String)
    ensures
        final(sql)@ == old(sql)@ + column_sql(d, *c),
{
    match c {
        ColumnRef::Column(col) => write_iden(d, col, sql),
        ColumnRef::TableColumn(t, col) => {
            write_iden(d, t, sql);
            sql.append(".");
            write_iden(d, col, sql);
            assert(final(sql)@ =~= old(sql)@ + column_sql(d, *c));
        },
        ColumnRef::SchemaTableColumn(s, t, col) => {
            write_iden(d, s, sql);
            sql.append(".");
            write_iden(d, t, sql);
            sql.append(".");
            write_iden(d, col, sql);
            assert(final(sql)@ =~= old(sql)@ + column_sql(d, *c));
        },
        ColumnRef::Asterisk => sql.append("*"),
        ColumnRef::TableAsterisk(t) => {
            write_iden(d, t, sql);
            sql.append(".*");
            assert(final(sql)@ =~= old(sql)@ + column_sql(d, *c));
        },
    }
}

pub fn write_bin_oper(op: BinOper, sql: &mut String)
    ensures
        final(sql)@ == old(sql)@ + bin_oper_sql(op),
{
    let s = match op {
        BinOper::And => "AND",
        BinOper::Or => "OR",
        BinOper::Like => "LIKE",
        BinOper::NotLike => "NOT LIKE",
        BinOper::Is => "IS",
        BinOper::IsNot => "IS NOT",
        BinOper::In => "IN",
        BinOper::NotIn => "NOT IN",
        BinOper::Between => "BETWEEN",
        BinOper::NotBetween => "NOT BETWEEN",
        BinOper::Equal => "=",
        BinOper::NotEqual => "<>",
        BinOper::SmallerThan => "<",
        BinOper::GreaterThan => ">",
        BinOper::SmallerThanOrEqual => "<=",
        BinOper::GreaterThanOrEqual => ">=",
        BinOper::Add => "+",
        BinOper::Sub => "-",
        BinOper::Mul => "*",
        BinOper::Div => "/",
        BinOper::Mod => "%",
        BinOper::Glob => "GLOB",
        BinOper::Match => "MATCH",
        BinOper::GetJsonField => "->",
        BinOper::CastJsonField => "->>",
    };
    sql.append(s);
}

pub fn precedence_of(op: BinOper) -> (r: u8)
    ensures
        r as nat == precedence(op),
{
    match op {
        BinOper::Or => 1,
        BinOper::And => 2,
        BinOper::Add | BinOper::Sub => 4,
        BinOper::Mul | BinOper::Div | BinOper::Mod => 5,
        BinOper::GetJsonField | BinOper::CastJsonField => 6,
        _ => 3,
    }
}

fn needs_paren_left(op: BinOper, left: &SimpleExpr) -> (r: bool)
    ensures
        r == paren_left(op, *left),
{
    match left {
        SimpleExpr::Binary(_, lop, _) => {
            let a = precedence_of(*lop);
            let b = precedence_of(op);
            a < b || (a == b && b == 3)
        },
        _ => false,
    }
}

fn needs_paren_right(op: BinOper, right: &SimpleExpr) -> (r: bool)
    ensures
        r == paren_right(op, *right),
{
    match right {
        SimpleExpr::Binary(_, rop, _) => {
            let between = matches!(op, BinOper::Between | BinOper::NotBetween) && matches!(rop, BinOper::And);
            let assoc = matches!(op, BinOper::And | BinOper::Or | BinOper::Add | BinOper::Mul);
            let a = precedence_of(*rop);
            let b = precedence_of(op);
            !between && (a < b || (a == b && !assoc))
        },
        _ => false,
    }
}

fn empty_in_list(op: BinOper, right: &SimpleExpr) -> (r: bool)
    ensures
        r == is_empty_in(op, *right),
{
    match right {
        SimpleExpr::Values(vs) => matches!(op, BinOper::In | BinOper::NotIn) && vs.len() == 0,
        _ => false,
    }
}

fn write_function_name(f: &Function, sql: &mut String)
    ensures
        final(sql)@ == old(sql)@ + function_name(*f),
{
    match f {
        Function::Max => sql.append("MAX"),
        Function::Min => sql.append("MIN"),
        Function::Sum => sql.append("SUM"),
        Function::Avg => sql.append("AVG"),
        Function::Count => sql.append("COUNT"),
        Function::Coalesce => sql.append("COALESCE"),
        Function::Lower => sql.append("LOWER"),
        Function::Upper => sql.append("UPPER"),
        Function::Custom(name) => sql.append(name.name.as_str()),
    }
}

fn write_keyword(k: Keyword, sql: &mut String)
    ensures
        final(sql)@ == old(sql)@ + keyword_sql(k),
{
    match k {
        Keyword::Null => sql.append("NULL"),
        Keyword::CurrentTimestamp => sql.append("CURRENT_TIMESTAMP"),
        Keyword::CurrentDate => sql.append("CURRENT_DATE"),
        Keyword::CurrentTime => sql.append("CURRENT_TIME"),
    }
}

/// Writes an expression and collects its values.
#[verifier::rlimit(80)]
pub fn write_expr(d: Dialect, inline: bool, e: &SimpleExpr, sql: &mut String, vals: &mut Vec<Value>)
    ensures
        final(sql)@ == old(sql)@ + expr_sql(d, inline, *e, old(vals)@.len()),
        same_values(final(vals)@, old(vals)@ + expr_values(*e)),
    decreases e, 1int,
{
    let ghost v0 = old(vals)@;
    match e {
        SimpleExpr::Column(c) => {
            write_column(d, c, sql);
            proof { lemma_unchanged(v0); }
        },
        SimpleExpr::Value(v) => write_value(d, inline, v, sql, vals),
        SimpleExpr::Values(vs) => {
            sql.append("(");
            write_values_list(d, inline, vs, sql, vals);
            sql.append(")");
            assert(final(sql)@ =~= old(sql)@ + expr_sql(d, inline, *e, v0.len()));
        },
        SimpleExpr::Unary(..) => write_unary(d, inline, e, sql, vals),
        SimpleExpr::Binary(..) => write_binary(d, inline, e, sql, vals),
        SimpleExpr::FunctionCall(..) | SimpleExpr::Tuple(..) => write_call(d, inline, e, sql, vals),
        SimpleExpr::SubQuery(q) => {
            sql.append("(");
            write_select(d, inline, q, sql, vals);
            sql.append(")");
            assert(final(sql)@ =~= old(sql)@ + expr_sql(d, inline, *e, v0.len()));
        },
        SimpleExpr::Keyword(k) => {
            write_keyword(*k, sql);
            proof { lemma_unchanged(v0); }
        },
        SimpleExpr::AsEnum(..) => write_as_enum(d, inline, e, sql, vals),
        SimpleExpr::Custom(text) => {
            sql.append(text.as_str());
            proof { lemma_unchanged(v0); }
        },
    }
}

#[verifier::rlimit(80)]
fn write_unary(d: Dialect, inline: bool, e: &SimpleExpr, sql: &mut String, vals: &mut Vec<Value>)
    requires
        e is Unary,
    ensures
        final(sql)@ == old(sql)@ + expr_sql(d, inline, *e, old(vals)@.len()),
        same_values(final(vals)@, old(vals)@ + expr_values(*e)),
    decreases e, 0int,
{
    match e {
        SimpleExpr::Unary(_, x) => {
            sql.append("NOT ");
            let b = matches!(**x, SimpleExpr::Binary(..));
            write_operand(d, inline, b, x, sql, vals);
            assert(final(sql)@ =~= old(sql)@ + expr_sql(d, inline, *e, old(vals)@.len()));
        },
        _ => {},
    }
}

#[verifier::rlimit(80)]
fn write_call(d: Dialect, inline: bool, e: &SimpleExpr, sql: &mut String, vals: &mut Vec<Value>)
    requires
        e is FunctionCall || e is Tuple,
    ensures
        final(sql)@ == old(sql)@ + expr_sql(d, inline, *e, old(vals)@.len()),
        same_values(final(vals)@, old(vals)@ + expr_values(*e)),
    decreases e, 0int,
{
    match e {
        SimpleExpr::FunctionCall(f, args) => {
            write_function_name(f, sql);
            sql.append("(");
            write_exprs(d, inline, args, sql, vals);
            sql.append(")");
            assert(final(sql)@ =~= old(sql)@ + expr_sql(d, inline, *e, old(vals)@.len()));
        },
        SimpleExpr::Tuple(es) => {
            sql.append("(");
            write_exprs(d, inline, es, sql, vals);
            sql.append(")");
            assert(final(sql)@ =~= old(sql)@ + expr_sql(d, inline, *e, old(vals)@.len()));
        },
        _ => {},
    }
}

#[verifier::rlimit(80)]
fn write_as_enum(d: Dialect, inline: bool, e: &SimpleExpr, sql: &mut String, vals: &mut Vec<Value>)
    requires
        e is AsEnum,
    ensures
        final(sql)@ == old(sql)@ + expr_sql(d, inline, *e, old(vals)@.len()),
        same_values(final(vals)@, old(vals)@ + expr_values(*e)),
    decreases e, 0int,
{
    match e {
        SimpleExpr::AsEnum(t, x) => {
            match d {
                Dialect::Postgres => {
                    sql.append("CAST(");
                    write_expr(d, inline, x, sql, vals);
                    sql.append(" AS ");
                    sql.append(t.name.as_str());
                    sql.append(")");
                    assert(final(sql)@ =~= old(sql)@ + expr_sql(d, inline, *e, old(vals)@.len()));
                },
                _ => write_expr(d, inline, x, sql, vals),
            }
        },
        _ => {},
    }
}

/// Writes an operand, in parentheses when `paren` holds.
fn write_operand(d: Dialect, inline: bool, paren: bool, x: &SimpleExpr, sql: &mut String, vals: &mut Vec<Value>)
    ensures
        final(sql)@ == old(sql)@ + parens_if(paren, expr_sql(d, inline, *x, old(vals)@.len())),
        same_values(final(vals)@, old(vals)@ + expr_values(*x)),
    decreases x, 2int,
{
    if paren {
        sql.append("(");
        write_expr(d, inline, x, sql, vals);
        sql.append(")");
        assert(final(sql)@ =~= old(sql)@ + parens_if(paren, expr_sql(d, inline, *x, old(vals)@.len())));
    } else {
        write_expr(d, inline, x, sql, vals);
    }
}

/// Writes a binary expression: an empty IN-list as a constant condition, else
/// both operands around the operator, parenthesized by precedence.
#[verifier::rlimit(80)]
fn write_binary(d: Dialect, inline: bool, e: &SimpleExpr, sql: &mut String, vals: &mut Vec<Value>)
    requires
        e is Binary,
    ensures
        final(sql)@ == old(sql)@ + expr_sql(d, inline, *e, old(vals)@.len()),
        same_values(final(vals)@, old(vals)@ + expr_values(*e)),
    decreases e, 0int,
{
    let ghost v0 = old(vals)@;
    let ghost n0 = old(vals)@.len();
    match e {
        SimpleExpr::Binary(l, op, r) => {
            if empty_in_list(*op, r) {
                if matches!(op, BinOper::In) {
                    sql.append("1 = 2");
                } else {
                    sql.append("1 = 1");
                }
                proof { lemma_unchanged(v0); }
            } else {
                let pl = needs_paren_left(*op, l);
                let pr = needs_paren_right(*op, r);
                let ghost t0 = sql@;
                write_operand(d, inline, pl, l, sql, vals);
                let ghost v1 = vals@;
                let ghost t1 = sql@;
                sql.append(" ");
                write_bin_oper(*op, sql);
                sql.append(" ");
                let ghost t2 = sql@;
                write_operand(d, inline, pr, r, sql, vals);
                proof {
                    lemma_same_values_chain(v0, v1, vals@, expr_values(**l), expr_values(**r));
                    let lt = parens_if(pl, expr_sql(d, inline, **l, n0));
                    let rt = parens_if(pr, expr_sql(d, inline, **r, v1.len()));
                    assert(t1 == t0 + lt);
                    assert(t2 =~= t1 + " "@ + bin_oper_sql(*op) + " "@);
                    assert(sql@ == t2 + rt);
                    assert(expr_sql(d, inline, *e, n0) == lt + " "@ + bin_oper_sql(*op) + " "@ + rt);
                    assert(sql@ =~= t0 + (lt + " "@ + bin_oper_sql(*op) + " "@ + rt));
                }
            }
        },
        _ => {},
    }
}

/// Writes expressions separated by commas.
#[verifier::rlimit(80)]
pub fn write_exprs(d: Dialect, inline: bool, es: &Vec<SimpleExpr>, sql: &mut String, vals: &mut Vec<Value>)
    ensures
        final(sql)@ == old(sql)@ + exprs_sql(d, inline, es@, old(vals)@.len()),
        same_values(final(vals)@, old(vals)@ + exprs_values(es@)),
    decreases es, 0int,
{
    let ghost n0 = old(vals)@.len();
    let ghost v0 = old(vals)@;
    let mut i: usize = 0;
    proof {
        assert(es@.subrange(0, 0) =~= Seq::<SimpleExpr>::empty());
        lemma_unchanged(v0);
    }
    while i < es.len()
        invariant
            i <= es@.len(),
            n0 == v0.len(),
            sql@ == old(sql)@ + exprs_sql(d, inline, es@.subrange(0, i as int), n0),
            same_values(vals@, v0 + exprs_values(es@.subrange(0, i as int))),
        decreases es@.len() - i,
    {
        let ghost v1 = vals@;
        if i > 0 {
            sql.append(", ");
        }
        write_expr(d, inline, &es[i], sql, vals);
        proof {
            let p = es@.subrange(0, i + 1);
            assert(p.subrange(0, i as int) =~= es@.subrange(0, i as int));
            lemma_same_values_chain(v0, v1, vals@, exprs_values(es@.subrange(0, i as int)), expr_values(es@[i as int]));
            assert(sql@ =~= old(sql)@ + exprs_sql(d, inline, p, n0));
        }
        i = i + 1;
    }
    assert(es@.subrange(0, es@.len() as int) =~= es@);
}

#[verifier::rlimit(60)]
fn write_select_expr(d: Dialect, inline: bool, se: &SelectExpr, sql: &mut String, vals: &mut Vec<Value>)
    ensures
        final(sql)@ == old(sql)@ + select_expr_sql(d, inline, *se, old(vals)@.len()),
        same_values(final(vals)@, old(vals)@ + expr_values(se.expr)),
    decreases se,
{
    write_expr(d, inline, &se.expr, sql, vals);
    match &se.alias {
        Some(a) => {
            sql.append(" AS ");
            write_iden(d, a, sql);
        },
        None => {},
    }
    assert(final(sql)@ =~= old(sql)@ + select_expr_sql(d, inline, *se, old(vals)@.len()));
}

#[verifier::rlimit(80)]
fn write_select_exprs(d: Dialect, inline: bool, es: &Vec<SelectExpr>, sql: &mut String, vals: &mut Vec<Value>)
    ensures
        final(sql)@ == old(sql)@ + select_exprs_sql(d, inline, es@, old(vals)@.len()),
        same_values(final(vals)@, old(vals)@ + select_exprs_values(es@)),
    decreases es,
{
    let ghost n0 = old(vals)@.len();
    let ghost v0 = old(vals)@;
    let mut i: usize = 0;
    proof {
        assert(es@.subrange(0, 0) =~= Seq::<SelectExpr>::empty());
        lemma_unchanged(v0);
    }
    while i < es.len()
        invariant
            i <= es@.len(),
            n0 == v0.len(),
            sql@ == old(sql)@ + select_exprs_sql(d, inline, es@.subrange(0, i as int), n0),
            same_values(vals@, v0 + select_exprs_values(es@.subrange(0, i as int))),
        decreases es@.len() - i,
    {
        let ghost v1 = vals@;
        if i > 0 {
            sql.append(", ");
        }
        write_select_expr(d, inline, &es[i], sql, vals);
        proof {
            let p = es@.subrange(0, i + 1);
            assert(p.subrange(0, i as int) =~= es@.subrange(0, i as int));
            lemma_same_values_chain(v0, v1, vals@, select_exprs_values(es@.subrange(0, i as int)), expr_values(es@[i as int].expr));
            assert(sql@ =~= old(sql)@ + select_exprs_sql(d, inline, p, n0));
        }
        i = i + 1;
    }
    assert(es@.subrange(0, es@.len() as int) =~= es@);
}

/// Writes a table reference.
#[verifier::rlimit(80)]
pub fn write_table_ref(d: Dialect, inline: bool, t: &TableRef, sql: &mut String, vals: &mut Vec<Value>)
    ensures
        final(sql)@ == old(sql)@ + table_ref_sql(d, inline, *t, old(vals)@.len()),
        same_values(final(vals)@, old(vals)@ + table_ref_values(*t)),
    decreases t,
{
    let ghost v0 = old(vals)@;
    match t {
        TableRef::SubQuery(q, a) => {
            sql.append("(");
            write_select(d, inline, q, sql, vals);
            sql.append(") AS ");
            write_iden(d, a, sql);
        },
        _ => {
            write_table_name(d, t, sql);
            proof { lemma_unchanged(v0); }
        },
    }
    assert(final(sql)@ =~= old(sql)@ + table_ref_sql(d, inline, *t, old(vals)@.len()));
}

/// Writes a table reference that is not a sub-query.
pub fn write_table_name(d: Dialect, t: &TableRef, sql: &mut String)
    requires
        !(t is SubQuery),
    ensures
        forall|inline: bool, n: nat| final(sql)@ == old(sql)@ + #[trigger] table_ref_sql(d, inline, *t, n),
{
    match t {
        TableRef::Table(x) => write_iden(d, x, sql),
        TableRef::SchemaTable(s, x) => {
            write_iden(d, s, sql);
            sql.append(".");
            write_iden(d, x, sql);
        },
        TableRef::DatabaseSchemaTable(b, s, x) => {
            write_iden(d, b, sql);
            sql.append(".");
            write_iden(d, s, sql);
            sql.append(".");
            write_iden(d, x, sql);
        },
        TableRef::TableAlias(x, a) => {
            write_iden(d, x, sql);
            sql.append(" AS ");
            write_iden(d, a, sql);
        },
        TableRef::SchemaTableAlias(s, x, a) => {
            write_iden(d, s, sql);
            sql.append(".");
            write_iden(d, x, sql);
            sql.append(" AS ");
            write_iden(d, a, sql);
        },
        TableRef::DatabaseSchemaTableAlias(b, s, x, a) => {
            write_iden(d, b, sql);
            sql.append(".");
            write_iden(d, s, sql);
            sql.append(".");
            write_iden(d, x, sql);
            sql.append(" AS ");
            write_iden(d, a, sql);
        },
        TableRef::SubQuery(..) => {},
    }
    assert forall|inline: bool, n: nat| final(sql)@ == old(sql)@ + #[trigger] table_ref_sql(d, inline, *t, n) by {
        assert(final(sql)@ =~= old(sql)@ + table_ref_sql(d, inline, *t, n));
    }
}

fn write_join_type(j: JoinType, sql: &mut String)
    ensures
        final(sql)@ == old(sql)@ + join_type_sql(j),
{
    match j {
        JoinType::Join => sql.append("JOIN"),
        JoinType::InnerJoin => sql.append("INNER JOIN"),
        JoinType::LeftJoin => sql.append("LEFT JOIN"),
        JoinType::RightJoin => sql.append("RIGHT JOIN"),
        JoinType::FullOuterJoin => sql.append("FULL OUTER JOIN"),
        JoinType::CrossJoin => sql.append("CROSS JOIN"),
    }
}

/// Writes identifiers separated by commas.
#[verifier::rlimit(60)]
pub fn write_idens(d: Dialect, xs: &Vec<Iden>, sql: &mut String)
    ensures
        final(sql)@ == old(sql)@ + idens_sql(d, xs@),
{
    let mut i: usize = 0;
    while i < xs.len()
        invariant
            i <= xs@.len(),
            sql@ == old(sql)@ + idens_sql(d, xs@.subrange(0, i as int)),
        decreases xs@.len() - i,
    {
        if i > 0 {
            sql.append(", ");
        }
        write_iden(d, &xs[i], sql);
        proof {
            let p = xs@.subrange(0, i + 1);
            assert(p.subrange(0, i as int) =~= xs@.subrange(0, i as int));
            assert(sql@ =~= old(sql)@ + idens_sql(d, p));
        }
        i = i + 1;
    }
    assert(xs@.subrange(0, xs@.len() as int) =~= xs@);
}

#[verifier::rlimit(80)]
fn write_join(d: Dialect, inline: bool, j: &JoinExpr, sql: &mut String, vals: &mut Vec<Value>)
    ensures
        final(sql)@ == old(sql)@ + join_sql(d, inline, *j, old(vals)@.len()),
        same_values(final(vals)@, old(vals)@ + join_values(*j)),
    decreases j,
{
    let ghost v0 = old(vals)@;
    sql.append(" ");
    write_join_type(j.join, sql);
    sql.append(" ");
    let ghost t1 = sql@;
    write_table_ref(d, inline, &j.table, sql, vals);
    let ghost v1 = vals@;
    write_join_on(d, inline, &j.on, sql, vals);
    proof {
        lemma_same_values_chain(v0, v1, vals@, table_ref_values(*j.table), join_on_values(j.on));
        let a = " "@ + join_type_sql(j.join) + " "@;
        let b = table_ref_sql(d, inline, *j.table, v0.len());
        let c = join_on_sql(d, inline, j.on, v1.len());
        assert(t1 =~= old(sql)@ + a);
        assert(sql@ == old(sql)@ + a + b + c);
        assert(join_sql(d, inline, *j, v0.len()) =~= a + b + c);
        assert(old(sql)@ + a + b + c =~= old(sql)@ + (a + b + c));
    }
}

#[verifier::rlimit(60)]
fn write_join_on(d: Dialect, inline: bool, on: &Option<JoinOn>, sql: &mut String, vals: &mut Vec<Value>)
    ensures
        final(sql)@ == old(sql)@ + join_on_sql(d, inline, *on, old(vals)@.len()),
        same_values(final(vals)@, old(vals)@ + join_on_values(*on)),
    decreases on,
{
    match on {
        Some(JoinOn::Condition(e)) => {
            sql.append(" ON ");
            write_expr(d, inline, e, sql, vals);
        },
        Some(JoinOn::Columns(cols)) => {
            sql.append(" USING (");
            write_idens(d, cols, sql);
            sql.append(")");
            proof { lemma_unchanged(old(vals)@); }
        },
        None => {
            proof { lemma_unchanged(old(vals)@); }
        },
    }
    assert(final(sql)@ =~= old(sql)@ + join_on_sql(d, inline, *on, old(vals)@.len()));
}

#[verifier::rlimit(80)]
fn write_joins(d: Dialect, inline: bool, js: &Vec<JoinExpr>, sql: &mut String, vals: &mut Vec<Value>)
    ensures
        final(sql)@ == old(sql)@ + joins_sql(d, inline, js@, old(vals)@.len()),
        same_values(final(vals)@, old(vals)@ + joins_values(js@)),
    decreases js,
{
    let ghost n0 = old(vals)@.len();
    let ghost v0 = old(vals)@;
    let mut i: usize = 0;
    proof {
        assert(js@.subrange(0, 0) =~= Seq::<JoinExpr>::empty());
        lemma_unchanged(v0);
    }
    while i < js.len()
        invariant
            i <= js@.len(),
            n0 == v0.len(),
            sql@ == old(sql)@ + joins_sql(d, inline, js@.subrange(0, i as int), n0),
            same_values(vals@, v0 + joins_values(js@.subrange(0, i as int))),
        decreases js@.len() - i,
    {
        let ghost v1 = vals@;
        write_join(d, inline, &js[i], sql, vals);
        proof {
            let p = js@.subrange(0, i + 1);
            assert(p.subrange(0, i as int) =~= js@.subrange(0, i as int));
            lemma_same_values_chain(v0, v1, vals@, joins_values(js@.subrange(0, i as int)), join_values(js@[i as int]));
            assert(sql@ =~= old(sql)@ + joins_sql(d, inline, p, n0));
        }
        i = i + 1;
    }
    assert(js@.subrange(0, js@.len() as int) =~= js@);
}

fn logic_oper_of(t: ConditionType) -> (r: BinOper)
    ensures
        r == logic_oper(t),
{
    match t {
        ConditionType::All => BinOper::And,
        ConditionType::Any => BinOper::Or,
    }
}

/// Writes a condition; `ctx` is the combinator of an enclosing list of two or more parts.
#[verifier::rlimit(80)]
pub fn write_condition(
    d: Dialect,
    inline: bool,
    c: &Condition,
    ctx: Option<ConditionType>,
    sql: &mut String,
    vals: &mut Vec<Value>,
)
    ensures
        final(sql)@ == old(sql)@ + condition_sql(d, inline, *c, ctx, old(vals)@.len()),
        same_values(final(vals)@, old(vals)@ + condition_values(*c)),
    decreases c,
{
    let ghost v0 = old(vals)@;
    let ghost n0 = old(vals)@.len();
    let outer = if c.negate { None } else { ctx };
    if c.negate {
        sql.append("NOT (");
    }
    let len = c.conditions.len();
    proof { assert(c.conditions@.subrange(0, 0) =~= Seq::<ConditionExpression>::empty()); }
    if len == 0 {
        match c.condition_type {
            ConditionType::All => sql.append("TRUE"),
            ConditionType::Any => sql.append("FALSE"),
        }
        proof { lemma_unchanged(v0); }
    } else if len == 1 {
        write_item(d, inline, &c.conditions[0], outer, sql, vals);
        proof {
            assert(condition_values(*c) =~= item_values(c.conditions@[0]));
        }
    } else {
        let p = match outer {
            Some(ConditionType::All) => matches!(c.condition_type, ConditionType::Any),
            Some(ConditionType::Any) => matches!(c.condition_type, ConditionType::All),
            None => false,
        };
        if p {
            sql.append("(");
        }
        write_items(d, inline, &c.conditions, c.condition_type, sql, vals);
        if p {
            sql.append(")");
        }
    }
    if c.negate {
        sql.append(")");
    }
    assert(final(sql)@ =~= old(sql)@ + condition_sql(d, inline, *c, ctx, n0));
}

#[verifier::rlimit(80)]
fn write_item(
    d: Dialect,
    inline: bool,
    it: &ConditionExpression,
    ctx: Option<ConditionType>,
    sql: &mut String,
    vals: &mut Vec<Value>,
)
    ensures
        final(sql)@ == old(sql)@ + item_sql(d, inline, *it, ctx, old(vals)@.len()),
        same_values(final(vals)@, old(vals)@ + item_values(*it)),
    decreases it,
{
    match it {
        ConditionExpression::Condition(c) => write_condition(d, inline, c, ctx, sql, vals),
        ConditionExpression::SimpleExpr(e) => {
            let p = match (ctx, e) {
                (Some(t), SimpleExpr::Binary(_, op, _)) => precedence_of(*op) < precedence_of(logic_oper_of(t)),
                _ => false,
            };
            if p {
                sql.append("(");
            }
            write_expr(d, inline, e, sql, vals);
            if p {
                sql.append(")");
            }
            assert(final(sql)@ =~= old(sql)@ + item_sql(d, inline, *it, ctx, old(vals)@.len()));
        },
    }
}

#[verifier::rlimit(80)]
#[verifier::rlimit(80)]
fn write_items(
    d: Dialect,
    inline: bool,
    its: &Vec<ConditionExpression>,
    t: ConditionType,
    sql: &mut String,
    vals: &mut Vec<Value>,
)
    ensures
        final(sql)@ == old(sql)@ + items_sql(d, inline, its@, t, old(vals)@.len()),
        same_values(final(vals)@, old(vals)@ + items_values(its@)),
    decreases its,
{
    let ghost n0 = old(vals)@.len();
    let ghost v0 = old(vals)@;
    let op = logic_oper_of(t);
    let mut i: usize = 0;
    proof {
        assert(its@.subrange(0, 0) =~= Seq::<ConditionExpression>::empty());
        lemma_unchanged(v0);
    }
    while i < its.len()
        invariant
            i <= its@.len(),
            n0 == v0.len(),
            op == logic_oper(t),
            sql@ == old(sql)@ + items_sql(d, inline, its@.subrange(0, i as int), t, n0),
            same_values(vals@, v0 + items_values(its@.subrange(0, i as int))),
        decreases its@.len() - i,
    {
        let ghost v1 = vals@;
        if i > 0 {
            sql.append(" ");
            write_bin_oper(op, sql);
            sql.append(" ");
        }
        write_item(d, inline, &its[i], Some(t), sql, vals);
        proof {
            let p = its@.subrange(0, i + 1);
            assert(p.subrange(0, i as int) =~= its@.subrange(0, i as int));
            lemma_same_values_chain(v0, v1, vals@, items_values(its@.subrange(0, i as int)), item_values(its@[i as int]));
            assert(sql@ =~= old(sql)@ + items_sql(d, inline, p, t, n0));
        }
        i = i + 1;
    }
    assert(its@.subrange(0, its@.len() as int) =~= its@);
}

/// Writes a WHERE or HAVING clause under the keyword `kw`, or nothing when it is empty.
#[verifier::rlimit(60)]
pub fn write_holder(d: Dialect, inline: bool, kw: &str, h: &ConditionHolder, sql: &mut String, vals: &mut Vec<Value>)
    ensures
        final(sql)@ == old(sql)@ + holder_sql(d, inline, kw@, *h, old(vals)@.len()),
        same_values(final(vals)@, old(vals)@ + holder_values(*h)),
    decreases h,
{
    if h.condition.conditions.len() == 0 {
        proof { lemma_unchanged(old(vals)@); }
    } else {
        sql.append(" ");
        sql.append(kw);
        sql.append(" ");
        write_condition(d, inline, &h.condition, None, sql, vals);
        assert(final(sql)@ =~= old(sql)@ + holder_sql(d, inline, kw@, *h, old(vals)@.len()));
    }
}

#[verifier::rlimit(60)]
fn write_order_expr(d: Dialect, inline: bool, o: &OrderExpr, sql: &mut String, vals: &mut Vec<Value>)
    ensures
        final(sql)@ == old(sql)@ + order_expr_sql(d, inline, *o, old(vals)@.len()),
        same_values(final(vals)@, old(vals)@ + expr_values(o.expr)),
    decreases o,
{
    write_expr(d, inline, &o.expr, sql, vals);
    match o.order {
        Order::Asc => sql.append(" ASC"),
        Order::Desc => sql.append(" DESC"),
    }
    assert(final(sql)@ =~= old(sql)@ + order_expr_sql(d, inline, *o, old(vals)@.len()));
}

#[verifier::rlimit(80)]
fn write_orders(d: Dialect, inline: bool, os: &Vec<OrderExpr>, sql: &mut String, vals: &mut Vec<Value>)
    ensures
        final(sql)@ == old(sql)@ + orders_sql(d, inline, os@, old(vals)@.len()),
        same_values(final(vals)@, old(vals)@ + orders_values(os@)),
    decreases os, 0int,
{
    let ghost n0 = old(vals)@.len();
    let ghost v0 = old(vals)@;
    let mut i: usize = 0;
    proof {
        assert(os@.subrange(0, 0) =~= Seq::<OrderExpr>::empty());
        lemma_unchanged(v0);
    }
    while i < os.len()
        invariant
            i <= os@.len(),
            n0 == v0.len(),
            sql@ == old(sql)@ + orders_sql(d, inline, os@.subrange(0, i as int), n0),
            same_values(vals@, v0 + orders_values(os@.subrange(0, i as int))),
        decreases os@.len() - i,
    {
        let ghost v1 = vals@;
        if i > 0 {
            sql.append(", ");
        }
        write_order_expr(d, inline, &os[i], sql, vals);
        proof {
            let p = os@.subrange(0, i + 1);
            assert(p.subrange(0, i as int) =~= os@.subrange(0, i as int));
            lemma_same_values_chain(v0, v1, vals@, orders_values(os@.subrange(0, i as int)), expr_values(os@[i as int].expr));
            assert(sql@ =~= old(sql)@ + orders_sql(d, inline, p, n0));
        }
        i = i + 1;
    }
    assert(os@.subrange(0, os@.len() as int) =~= os@);
}

#[verifier::rlimit(60)]
fn write_option_value(d: Dialect, inline: bool, kw: &str, v: &Option<Value>, sql: &mut String, vals: &mut Vec<Value>)
    ensures
        final(sql)@ == old(sql)@ + option_value_sql(d, inline, kw@, *v, old(vals)@.len()),
        same_values(final(vals)@, old(vals)@ + option_value(*v)),
{
    match v {
        Some(x) => {
            sql.append(" ");
            sql.append(kw);
            sql.append(" ");
            write_value(d, inline, x, sql, vals);
            assert(final(sql)@ =~= old(sql)@ + option_value_sql(d, inline, kw@, *v, old(vals)@.len()));
        },
        None => {
            proof { lemma_unchanged(old(vals)@); }
        },
    }
}

/// Writes a select statement and collects its values.
#[verifier::rlimit(80)]
pub fn write_select(d: Dialect, inline: bool, s: &SelectStatement, sql: &mut String, vals: &mut Vec<Value>)
    ensures
        final(sql)@ == old(sql)@ + select_sql(d, inline, *s, old(vals)@.len()),
        same_values(final(vals)@, old(vals)@ + select_values(*s)),
    decreases s, 2int,
{
    let ghost v0 = old(vals)@;
    let ghost t0 = old(sql)@;
    write_select_head(d, inline, s, sql, vals);
    let ghost v1 = vals@;
    let ghost t1 = sql@;
    write_select_body(d, inline, s, sql, vals);
    let ghost v2 = vals@;
    let ghost t2 = sql@;
    write_select_tail(d, inline, s, sql, vals);
    proof {
        lemma_same_values_chain(v0, v1, v2, select_head_values(*s), select_body_values(*s));
        lemma_same_values_chain(v0, v2, vals@, select_head_values(*s) + select_body_values(*s), select_tail_values(*s));
        let a = select_head_sql(d, inline, *s, v0.len());
        let b = select_body_sql(d, inline, *s, v1.len());
        let c = select_tail_sql(d, inline, *s, v2.len());
        assert(t1 == t0 + a);
        assert(t2 == t1 + b);
        assert(sql@ == t2 + c);
        assert(select_sql(d, inline, *s, v0.len()) == a + b + c);
        assert(t0 + a + b + c =~= t0 + (a + b + c));
    }
}

#[verifier::rlimit(80)]
fn write_select_head(d: Dialect, inline: bool, s: &SelectStatement, sql: &mut String, vals: &mut Vec<Value>)
    ensures
        final(sql)@ == old(sql)@ + select_head_sql(d, inline, *s, old(vals)@.len()),
        same_values(final(vals)@, old(vals)@ + select_head_values(*s)),
    decreases s, 0int,
{
    let ghost v0 = old(vals)@;
    sql.append("SELECT ");
    write_distinct(d, s.distinct, sql);
    let ghost t1 = sql@;
    write_select_exprs(d, inline, &s.selects, sql, vals);
    let ghost t2 = sql@;
    let ghost v1 = vals@;
    write_from(d, inline, &s.from, sql, vals);
    proof {
        lemma_same_values_chain(v0, v1, vals@, select_exprs_values(s.selects@), from_values(s.from));
        let a = "SELECT "@ + distinct_sql(d, s.distinct);
        let b = select_exprs_sql(d, inline, s.selects@, v0.len());
        let c = from_sql(d, inline, s.from, v1.len());
        assert(t1 == old(sql)@ + a);
        assert(t2 == old(sql)@ + a + b);
        assert(sql@ == old(sql)@ + a + b + c);
        assert(select_head_sql(d, inline, *s, v0.len()) == a + b + c);
        assert(old(sql)@ + a + b + c =~= old(sql)@ + (a + b + c));
    }
}

fn write_distinct(d: Dialect, x: Option<SelectDistinct>, sql: &mut String)
    ensures
        final(sql)@ == old(sql)@ + distinct_sql(d, x),
{
    match x {
        Some(SelectDistinct::All) => sql.append("ALL "),
        Some(SelectDistinct::Distinct) => sql.append("DISTINCT "),
        Some(SelectDistinct::DistinctRow) => match d {
            Dialect::MySql => sql.append("DISTINCTROW "),
            _ => sql.append("DISTINCT "),
        },
        None => {
            assert(old(sql)@ + distinct_sql(d, x) =~= old(sql)@);
        },
    }
}

#[verifier::rlimit(60)]
fn write_from(d: Dialect, inline: bool, f: &Option<Box<TableRef>>, sql: &mut String, vals: &mut Vec<Value>)
    ensures
        final(sql)@ == old(sql)@ + from_sql(d, inline, *f, old(vals)@.len()),
        same_values(final(vals)@, old(vals)@ + from_values(*f)),
    decreases f,
{
    match f {
        Some(t) => {
            sql.append(" FROM ");
            write_table_ref(d, inline, t, sql, vals);
            assert(final(sql)@ =~= old(sql)@ + from_sql(d, inline, *f, old(vals)@.len()));
        },
        None => {
            proof { lemma_unchanged(old(vals)@); }
            assert(old(sql)@ + from_sql(d, inline, *f, old(vals)@.len()) =~= old(sql)@);
        },
    }
}

#[verifier::rlimit(80)]
fn write_select_body(d: Dialect, inline: bool, s: &SelectStatement, sql: &mut String, vals: &mut Vec<Value>)
    ensures
        final(sql)@ == old(sql)@ + select_body_sql(d, inline, *s, old(vals)@.len()),
        same_values(final(vals)@, old(vals)@ + select_body_values(*s)),
    decreases s, 0int,
{
    let ghost v0 = old(vals)@;
    write_joins(d, inline, &s.join, sql, vals);
    let ghost v1 = vals@;
    write_holder(d, inline, "WHERE", &s.wherei, sql, vals);
    let ghost v2 = vals@;
    proof { lemma_same_values_chain(v0, v1, v2, joins_values(s.join@), holder_values(s.wherei)); }
    write_group_by(d, inline, &s.groups, sql, vals);
    proof {
        lemma_same_values_chain(v0, v2, vals@, joins_values(s.join@) + holder_values(s.wherei), exprs_values(s.groups@));
        let a = joins_sql(d, inline, s.join@, v0.len());
        let b = holder_sql(d, inline, "WHERE"@, s.wherei, v1.len());
        let c = if s.groups@.len() == 0 { Seq::empty() } else { " GROUP BY "@ + exprs_sql(d, inline, s.groups@, v2.len()) };
        assert(sql@ == old(sql)@ + a + b + c);
        assert(select_body_sql(d, inline, *s, v0.len()) == a + b + c);
        assert(old(sql)@ + a + b + c =~= old(sql)@ + (a + b + c));
    }
}

#[verifier::rlimit(60)]
fn write_group_by(d: Dialect, inline: bool, gs: &Vec<SimpleExpr>, sql: &mut String, vals: &mut Vec<Value>)
    ensures
        final(sql)@ == old(sql)@ + (if gs@.len() == 0 { Seq::empty() } else { " GROUP BY "@ + exprs_sql(d, inline, gs@, old(vals)@.len()) }),
        same_values(final(vals)@, old(vals)@ + exprs_values(gs@)),
    decreases gs, 1int,
{
    if gs.len() > 0 {
        sql.append(" GROUP BY ");
        write_exprs(d, inline, gs, sql, vals);
        assert(final(sql)@ =~= old(sql)@ + (" GROUP BY "@ + exprs_sql(d, inline, gs@, old(vals)@.len())));
    } else {
        proof {
            lemma_unchanged(old(vals)@);
            assert(exprs_values(gs@) == Seq::<Value>::empty());
        }
        assert(old(sql)@ + Seq::<char>::empty() =~= old(sql)@);
    }
}

#[verifier::rlimit(60)]
fn write_order_by(d: Dialect, inline: bool, os: &Vec<OrderExpr>, sql: &mut String, vals: &mut Vec<Value>)
    ensures
        final(sql)@ == old(sql)@ + (if os@.len() == 0 { Seq::empty() } else { " ORDER BY "@ + orders_sql(d, inline, os@, old(vals)@.len()) }),
        same_values(final(vals)@, old(vals)@ + orders_values(os@)),
    decreases os, 1int,
{
    if os.len() > 0 {
        sql.append(" ORDER BY ");
        write_orders(d, inline, os, sql, vals);
        assert(final(sql)@ =~= old(sql)@ + (" ORDER BY "@ + orders_sql(d, inline, os@, old(vals)@.len())));
    } else {
        proof {
            lemma_unchanged(old(vals)@);
            assert(orders_values(os@) == Seq::<Value>::empty());
        }
        assert(old(sql)@ + Seq::<char>::empty() =~= old(sql)@);
    }
}

#[verifier::rlimit(80)]
fn write_select_tail(d: Dialect, inline: bool, s: &SelectStatement, sql: &mut String, vals: &mut Vec<Value>)
    ensures
        final(sql)@ == old(sql)@ + select_tail_sql(d, inline, *s, old(vals)@.len()),
        same_values(final(vals)@, old(vals)@ + select_tail_values(*s)),
    decreases s, 1int,
{
    let ghost v0 = old(vals)@;
    let ghost t0 = old(sql)@;
    write_having_order(d, inline, s, sql, vals);
    let ghost v2 = vals@;
    let ghost t2 = sql@;
    write_limit_offset(d, inline, &s.limit, &s.offset, sql, vals);
    proof {
        let a2 = holder_values(s.having) + orders_values(s.orders@);
        lemma_same_values_chain(v0, v2, vals@, a2, option_value(s.limit) + option_value(s.offset));
        assert(a2 + (option_value(s.limit) + option_value(s.offset)) =~= select_tail_values(*s));
        let ab = having_order_sql(d, inline, *s, v0.len());
        let ce = option_value_sql(d, inline, "LIMIT"@, s.limit, v2.len())
            + option_value_sql(d, inline, "OFFSET"@, s.offset, v2.len() + option_value(s.limit).len());
        assert(t2 == t0 + ab);
        assert(sql@ == t2 + ce);
        assert(select_tail_sql(d, inline, *s, v0.len()) =~= ab + ce);
        assert(t0 + ab + ce =~= t0 + (ab + ce));
    }
}

#[verifier::rlimit(80)]
fn write_having_order(d: Dialect, inline: bool, s: &SelectStatement, sql: &mut String, vals: &mut Vec<Value>)
    ensures
        final(sql)@ == old(sql)@ + having_order_sql(d, inline, *s, old(vals)@.len()),
        same_values(final(vals)@, old(vals)@ + (holder_values(s.having) + orders_values(s.orders@))),
    decreases s, 0int,
{
    let ghost v0 = old(vals)@;
    let ghost t0 = old(sql)@;
    write_holder(d, inline, "HAVING", &s.having, sql, vals);
    let ghost v1 = vals@;
    let ghost t1 = sql@;
    write_order_by(d, inline, &s.orders, sql, vals);
    proof {
        lemma_same_values_chain(v0, v1, vals@, holder_values(s.having), orders_values(s.orders@));
        let a = holder_sql(d, inline, "HAVING"@, s.having, v0.len());
        let b = if s.orders@.len() == 0 { Seq::empty() } else { " ORDER BY "@ + orders_sql(d, inline, s.orders@, v1.len()) };
        assert(t1 == t0 + a);
        assert(sql@ == t1 + b);
        assert(having_order_sql(d, inline, *s, v0.len()) == a + b);
        assert(t0 + a + b =~= t0 + (a + b));
    }
}

#[verifier::rlimit(60)]
fn write_limit_offset(
    d: Dialect,
    inline: bool,
    limit: &Option<Value>,
    offset: &Option<Value>,
    sql: &mut String,
    vals: &mut Vec<Value>,
)
    ensures
        final(sql)@ == old(sql)@ + (option_value_sql(d, inline, "LIMIT"@, *limit, old(vals)@.len())
            + option_value_sql(d, inline, "OFFSET"@, *offset, old(vals)@.len() + option_value(*limit).len())),
        same_values(final(vals)@, old(vals)@ + (option_value(*limit) + option_value(*offset))),
{
    let ghost v0 = old(vals)@;
    write_option_value(d, inline, "LIMIT", limit, sql, vals);
    let ghost v1 = vals@;
    write_option_value(d, inline, "OFFSET", offset, sql, vals);
    proof {
        lemma_same_values_chain(v0, v1, vals@, option_value(*limit), option_value(*offset));
    }
    assert(final(sql)@ =~= old(sql)@ + (option_value_sql(d, inline, "LIMIT"@, *limit, old(vals)@.len())
        + option_value_sql(d, inline, "OFFSET"@, *offset, old(vals)@.len() + option_value(*limit).len())));
}

impl SelectStatement {
    /// Renders the statement with placeholders and returns the text with the
    /// values to bind, in placeholder order.
    pub fn build(&self, d: Dialect) -> (r: (String, Vec<Value>))
        ensures
            r.0@ == select_sql(d, false, *self, 0),
            same_values(r.1@, select_values(*self)),
    {
        let mut sql = String::new();
        let mut vals: Vec<Value> = Vec::new();
        write_select(d, false, self, &mut sql, &mut vals);
        proof {
            assert(Seq::<char>::empty() + select_sql(d, false, *self, 0) == select_sql(d, false, *self, 0));
            assert(Seq::<Value>::empty() + select_values(*self) =~= select_values(*self));
        }
        (sql, vals)
    }

    /// Renders the statement with placeholders numbered after the values
    /// already in `collector`, and appends its values there.
    pub fn build_collect(&self, d: Dialect, collector: &mut Vec<Value>) -> (r: String)
        ensures
            r@ == select_sql(d, false, *self, old(collector)@.len()),
            same_values(final(collector)@, old(collector)@ + select_values(*self)),
    {
        let mut sql = String::new();
        write_select(d, false, self, &mut sql, collector);
        assert(Seq::<char>::empty() + select_sql(d, false, *self, old(collector)@.len()) =~= sql@);
        sql
    }

    /// Renders the statement with every value written as a literal.
    pub fn to_string(&self, d: Dialect) -> (r: String)
        ensures
            r@ == select_sql(d, true, *self, 0),
    {
        let mut sql = String::new();
        let mut vals: Vec<Value> = Vec::new();
        write_select(d, true, self, &mut sql, &mut vals);
        assert(Seq::<char>::empty() + select_sql(d, true, *self, 0) == select_sql(d, true, *self, 0));
        sql
    }
}

} // verus!
