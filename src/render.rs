//! The SQL text and the bound values of every AST node, as spec functions.
use vstd::prelude::*;
use crate::condition::{Condition, ConditionExpression, ConditionHolder, ConditionType};
use crate::expr::{BinOper, Function, Keyword, SimpleExpr};
use crate::select::{JoinExpr, SelectDistinct, SelectExpr, SelectStatement};
use crate::types::{ColumnRef, Iden, JoinOn, JoinType, Order, OrderExpr, TableRef};
use crate::value::Value;

verus! {

/// The three SQL dialects.
#[derive(Debug, Clone, Copy, PartialEq, Eq)]
pub enum Dialect {
    MySql,
    Postgres,
    Sqlite,
}

pub open spec fn quote_char(d: Dialect) -> char {
    match d {
        Dialect::Postgres => '"',
        _ => '`',
    }
}

/// An identifier between the dialect's quote characters; a quote character
/// inside the name is doubled.
pub open spec fn iden_sql(d: Dialect, i: Iden) -> Seq<char> {
    seq![quote_char(d)] + escape_char(i.name@, quote_char(d)) + seq![quote_char(d)]
}

pub open spec fn digit_char(k: nat) -> char {
    if k == 0 { '0' } else if k == 1 { '1' } else if k == 2 { '2' } else if k == 3 { '3' }
    else if k == 4 { '4' } else if k == 5 { '5' } else if k == 6 { '6' } else if k == 7 { '7' }
    else if k == 8 { '8' } else { '9' }
}

/// The decimal digits of `n`, most significant first, without leading zeros.
pub open spec fn decimal(n: nat) -> Seq<char>
    decreases n,
{
    if n < 10 {
        seq![digit_char(n)]
    } else {
        decimal(n / 10) + seq![digit_char(n % 10)]
    }
}

/// A signed integer in decimal.
pub open spec fn signed_decimal(x: int) -> Seq<char> {
    if x < 0 { seq!['-'] + decimal((-x) as nat) } else { decimal(x as nat) }
}

pub open spec fn hex_char(k: nat) -> char {
    if k < 10 { digit_char(k) } else if k == 10 { 'A' } else if k == 11 { 'B' } else if k == 12 { 'C' }
    else if k == 13 { 'D' } else if k == 14 { 'E' } else { 'F' }
}

/// Two upper-case hexadecimal digits per byte.
pub open spec fn hex_sql(b: Seq<u8>) -> Seq<char>
    decreases b.len(),
{
    if b.len() == 0 {
        Seq::empty()
    } else {
        let last = b[b.len() - 1];
        hex_sql(b.subrange(0, b.len() - 1)) + seq![hex_char((last / 16) as nat), hex_char((last % 16) as nat)]
    }
}

/// The characters of `s` with each `q` doubled: the body of a literal or a
/// name quoted by `q`.
pub open spec fn escape_char(s: Seq<char>, q: char) -> Seq<char>
    decreases s.len(),
{
    if s.len() == 0 {
        Seq::empty()
    } else {
        let last = s[s.len() - 1];
        escape_char(s.subrange(0, s.len() - 1), q) + if last == q { seq![q, q] } else { seq![last] }
    }
}

pub open spec fn string_literal(s: Seq<char>) -> Seq<char> {
    seq!['\''] + escape_char(s, '\'') + seq!['\'']
}

/// A value written out as a literal.
#[verifier::opaque]
pub open spec fn value_literal(d: Dialect, v: Value) -> Seq<char> {
    match v {
        Value::Bool(Some(b)) => if b { "TRUE"@ } else { "FALSE"@ },
        Value::TinyInt(Some(x)) => signed_decimal(x as int),
        Value::SmallInt(Some(x)) => signed_decimal(x as int),
        Value::Int(Some(x)) => signed_decimal(x as int),
        Value::BigInt(Some(x)) => signed_decimal(x as int),
        Value::TinyUnsigned(Some(x)) => decimal(x as nat),
        Value::SmallUnsigned(Some(x)) => decimal(x as nat),
        Value::Unsigned(Some(x)) => decimal(x as nat),
        Value::BigUnsigned(Some(x)) => decimal(x as nat),
        Value::String(Some(s)) => string_literal(s@),
        Value::Char(Some(c)) => string_literal(seq![c]),
        Value::Bytes(Some(b)) => match d {
            Dialect::Postgres => "'\\x"@ + hex_sql(b@) + "'"@,
            _ => "x'"@ + hex_sql(b@) + "'"@,
        },
        _ => "NULL"@,
    }
}

/// The placeholder of the value bound at position `n` (counted from 0).
pub open spec fn placeholder(d: Dialect, n: nat) -> Seq<char> {
    match d {
        Dialect::Postgres => seq!['$'] + decimal(n + 1),
        _ => seq!['?'],
    }
}

/// A value at a value site: a literal when inlining, else the placeholder of its position.
pub open spec fn value_sql(d: Dialect, inline: bool, v: Value, n: nat) -> Seq<char> {
    if inline { value_literal(d, v) } else { placeholder(d, n) }
}

/// The values of an IN-list, separated by commas; the k-th is bound at `n + k`.
pub open spec fn values_sql(d: Dialect, inline: bool, vs: Seq<Value>, n: nat) -> Seq<char>
    decreases vs.len(),
{
    if vs.len() == 0 {
        Seq::empty()
    } else if vs.len() == 1 {
        value_sql(d, inline, vs[0], n)
    } else {
        let k = (vs.len() - 1) as int;
        values_sql(d, inline, vs.subrange(0, k), n) + ", "@ + value_sql(d, inline, vs[k], n + k as nat)
    }
}

pub open spec fn column_sql(d: Dialect, c: ColumnRef) -> Seq<char> {
    match c {
        ColumnRef::Column(col) => iden_sql(d, col),
        ColumnRef::TableColumn(t, col) => iden_sql(d, t) + "."@ + iden_sql(d, col),
        ColumnRef::SchemaTableColumn(s, t, col) => iden_sql(d, s) + "."@ + iden_sql(d, t) + "."@ + iden_sql(d, col),
        ColumnRef::Asterisk => "*"@,
        ColumnRef::TableAsterisk(t) => iden_sql(d, t) + ".*"@,
    }
}

pub open spec fn bin_oper_sql(op: BinOper) -> Seq<char> {
    match op {
        BinOper::And => "AND"@,
        BinOper::Or => "OR"@,
        BinOper::Like => "LIKE"@,
        BinOper::NotLike => "NOT LIKE"@,
        BinOper::Is => "IS"@,
        BinOper::IsNot => "IS NOT"@,
        BinOper::In => "IN"@,
        BinOper::NotIn => "NOT IN"@,
        BinOper::Between => "BETWEEN"@,
        BinOper::NotBetween => "NOT BETWEEN"@,
        BinOper::Equal => "="@,
        BinOper::NotEqual => "<>"@,
        BinOper::SmallerThan => "<"@,
        BinOper::GreaterThan => ">"@,
        BinOper::SmallerThanOrEqual => "<="@,
        BinOper::GreaterThanOrEqual => ">="@,
        BinOper::Add => "+"@,
        BinOper::Sub => "-"@,
        BinOper::Mul => "*"@,
        BinOper::Div => "/"@,
        BinOper::Mod => "%"@,
        BinOper::Glob => "GLOB"@,
        BinOper::Match => "MATCH"@,
        BinOper::GetJsonField => "->"@,
        BinOper::CastJsonField => "->>"@,
    }
}

/// Binding strength of an operator: the higher, the tighter.
pub open spec fn precedence(op: BinOper) -> nat {
    match op {
        BinOper::Or => 1,
        BinOper::And => 2,
        BinOper::Add | BinOper::Sub => 4,
        BinOper::Mul | BinOper::Div | BinOper::Mod => 5,
        BinOper::GetJsonField | BinOper::CastJsonField => 6,
        _ => 3,
    }
}

/// Operators for which `a op (b op c)` means `a op b op c`.
pub open spec fn associative(op: BinOper) -> bool {
    op == BinOper::And || op == BinOper::Or || op == BinOper::Add || op == BinOper::Mul
}

/// An IN or NOT IN whose right side is an empty list.
pub open spec fn is_empty_in(op: BinOper, right: SimpleExpr) -> bool {
    (op == BinOper::In || op == BinOper::NotIn) && match right {
        SimpleExpr::Values(vs) => vs@.len() == 0,
        _ => false,
    }
}

/// Whether the left operand of `op` is written in parentheses.
pub open spec fn paren_left(op: BinOper, left: SimpleExpr) -> bool {
    match left {
        SimpleExpr::Binary(_, lop, _) => precedence(lop) < precedence(op) || (precedence(lop)
            == precedence(op) && precedence(op) == 3),
        _ => false,
    }
}

/// Whether the right operand of `op` is written in parentheses.
pub open spec fn paren_right(op: BinOper, right: SimpleExpr) -> bool {
    match right {
        SimpleExpr::Binary(_, rop, _) => !((op == BinOper::Between || op == BinOper::NotBetween)
            && rop == BinOper::And) && (precedence(rop) < precedence(op) || (precedence(rop)
            == precedence(op) && !associative(op))),
        _ => false,
    }
}

pub open spec fn parens_if(b: bool, s: Seq<char>) -> Seq<char> {
    if b { "("@ + s + ")"@ } else { s }
}

pub open spec fn is_binary(e: SimpleExpr) -> bool {
    e is Binary
}

pub open spec fn function_name(f: Function) -> Seq<char> {
    match f {
        Function::Max => "MAX"@,
        Function::Min => "MIN"@,
        Function::Sum => "SUM"@,
        Function::Avg => "AVG"@,
        Function::Count => "COUNT"@,
        Function::Coalesce => "COALESCE"@,
        Function::Lower => "LOWER"@,
        Function::Upper => "UPPER"@,
        Function::Custom(name) => name.name@,
    }
}

pub open spec fn keyword_sql(k: Keyword) -> Seq<char> {
    match k {
        Keyword::Null => "NULL"@,
        Keyword::CurrentTimestamp => "CURRENT_TIMESTAMP"@,
        Keyword::CurrentDate => "CURRENT_DATE"@,
        Keyword::CurrentTime => "CURRENT_TIME"@,
    }
}

// ---- Bound values, in the order in which the renderer meets them ----

/// The values of an expression, left to right.
pub open spec fn expr_values(e: SimpleExpr) -> Seq<Value>
    decreases e,
{
    match e {
        SimpleExpr::Value(v) => seq![v],
        SimpleExpr::Values(vs) => vs@,
        SimpleExpr::Unary(_, x) => expr_values(*x),
        SimpleExpr::Binary(l, op, r) => if is_empty_in(op, *r) {
            Seq::empty()
        } else {
            expr_values(*l) + expr_values(*r)
        },
        SimpleExpr::FunctionCall(_, args) => exprs_values(args@),
        SimpleExpr::SubQuery(q) => select_values(*q),
        SimpleExpr::Tuple(es) => exprs_values(es@),
        SimpleExpr::AsEnum(_, x) => expr_values(*x),
        _ => Seq::empty(),
    }
}

pub open spec fn exprs_values(es: Seq<SimpleExpr>) -> Seq<Value>
    decreases es,
{
    if es.len() == 0 {
        Seq::empty()
    } else {
        let k = es.len() - 1;
        exprs_values(es.subrange(0, k)) + expr_values(es[k])
    }
}

pub open spec fn select_exprs_values(es: Seq<SelectExpr>) -> Seq<Value>
    decreases es,
{
    if es.len() == 0 {
        Seq::empty()
    } else {
        let k = es.len() - 1;
        select_exprs_values(es.subrange(0, k)) + expr_values(es[k].expr)
    }
}

pub open spec fn table_ref_values(t: TableRef) -> Seq<Value>
    decreases t,
{
    match t {
        TableRef::SubQuery(q, _) => select_values(q),
        _ => Seq::empty(),
    }
}

pub open spec fn join_on_values(on: Option<JoinOn>) -> Seq<Value>
    decreases on,
{
    match on {
        Some(JoinOn::Condition(e)) => expr_values(*e),
        _ => Seq::empty(),
    }
}

pub open spec fn join_values(j: JoinExpr) -> Seq<Value>
    decreases j,
{
    table_ref_values(*j.table) + join_on_values(j.on)
}

pub open spec fn joins_values(js: Seq<JoinExpr>) -> Seq<Value>
    decreases js,
{
    if js.len() == 0 {
        Seq::empty()
    } else {
        let k = js.len() - 1;
        joins_values(js.subrange(0, k)) + join_values(js[k])
    }
}

pub open spec fn condition_values(c: Condition) -> Seq<Value>
    decreases c,
{
    items_values(c.conditions@)
}

pub open spec fn item_values(it: ConditionExpression) -> Seq<Value>
    decreases it,
{
    match it {
        ConditionExpression::Condition(c) => condition_values(c),
        ConditionExpression::SimpleExpr(e) => expr_values(e),
    }
}

pub open spec fn items_values(its: Seq<ConditionExpression>) -> Seq<Value>
    decreases its,
{
    if its.len() == 0 {
        Seq::empty()
    } else {
        let k = its.len() - 1;
        items_values(its.subrange(0, k)) + item_values(its[k])
    }
}

pub open spec fn holder_values(h: ConditionHolder) -> Seq<Value>
    decreases h,
{
    if h.condition.conditions@.len() == 0 {
        Seq::empty()
    } else {
        condition_values(h.condition)
    }
}

pub open spec fn orders_values(os: Seq<OrderExpr>) -> Seq<Value>
    decreases os,
{
    if os.len() == 0 {
        Seq::empty()
    } else {
        let k = os.len() - 1;
        orders_values(os.subrange(0, k)) + expr_values(os[k].expr)
    }
}

pub open spec fn option_value(v: Option<Value>) -> Seq<Value> {
    match v {
        Some(x) => seq![x],
        None => Seq::empty(),
    }
}

pub open spec fn from_values(f: Option<Box<TableRef>>) -> Seq<Value>
    decreases f,
{
    match f {
        Some(t) => table_ref_values(*t),
        None => Seq::empty(),
    }
}

/// The values of the select list and the FROM clause.
pub open spec fn select_head_values(s: SelectStatement) -> Seq<Value>
    decreases s, 0int,
{
    select_exprs_values(s.selects@) + from_values(s.from)
}

/// The values of the joins, the WHERE and the GROUP BY clauses.
pub open spec fn select_body_values(s: SelectStatement) -> Seq<Value>
    decreases s, 0int,
{
    joins_values(s.join@) + holder_values(s.wherei) + exprs_values(s.groups@)
}

/// The values of the HAVING and ORDER BY clauses, the limit and the offset.
pub open spec fn select_tail_values(s: SelectStatement) -> Seq<Value>
    decreases s, 0int,
{
    holder_values(s.having) + orders_values(s.orders@) + option_value(s.limit) + option_value(s.offset)
}

/// The values of a select statement: select list, FROM, joins, WHERE, GROUP BY,
/// HAVING, ORDER BY, LIMIT and OFFSET, in this order.
pub open spec fn select_values(s: SelectStatement) -> Seq<Value>
    decreases s, 1int,
{
    select_head_values(s) + select_body_values(s) + select_tail_values(s)
}

// ---- SQL text; `n` is the number of values bound before the node ----

/// The SQL text of an expression.
pub open spec fn expr_sql(d: Dialect, inline: bool, e: SimpleExpr, n: nat) -> Seq<char>
    decreases e,
{
    match e {
        SimpleExpr::Column(c) => column_sql(d, c),
        SimpleExpr::Value(v) => value_sql(d, inline, v, n),
        SimpleExpr::Values(vs) => "("@ + values_sql(d, inline, vs@, n) + ")"@,
        SimpleExpr::Unary(_, x) => "NOT "@ + parens_if(is_binary(*x), expr_sql(d, inline, *x, n)),
        SimpleExpr::Binary(l, op, r) => if is_empty_in(op, *r) {
            if op == BinOper::In { "1 = 2"@ } else { "1 = 1"@ }
        } else {
            parens_if(paren_left(op, *l), expr_sql(d, inline, *l, n)) + " "@ + bin_oper_sql(op) + " "@
                + parens_if(paren_right(op, *r), expr_sql(d, inline, *r, n + expr_values(*l).len()))
        },
        SimpleExpr::FunctionCall(f, args) => function_name(f) + "("@ + exprs_sql(d, inline, args@, n) + ")"@,
        SimpleExpr::SubQuery(q) => "("@ + select_sql(d, inline, *q, n) + ")"@,
        SimpleExpr::Tuple(es) => "("@ + exprs_sql(d, inline, es@, n) + ")"@,
        SimpleExpr::Keyword(k) => keyword_sql(k),
        SimpleExpr::AsEnum(t, x) => match d {
            Dialect::Postgres => "CAST("@ + expr_sql(d, inline, *x, n) + " AS "@ + t.name@ + ")"@,
            _ => expr_sql(d, inline, *x, n),
        },
        SimpleExpr::Custom(text) => text@,
    }
}

/// Expressions separated by commas.
pub open spec fn exprs_sql(d: Dialect, inline: bool, es: Seq<SimpleExpr>, n: nat) -> Seq<char>
    decreases es,
{
    if es.len() == 0 {
        Seq::empty()
    } else if es.len() == 1 {
        expr_sql(d, inline, es[0], n)
    } else {
        let k = es.len() - 1;
        exprs_sql(d, inline, es.subrange(0, k), n) + ", "@
            + expr_sql(d, inline, es[k], n + exprs_values(es.subrange(0, k)).len())
    }
}

pub open spec fn select_expr_sql(d: Dialect, inline: bool, se: SelectExpr, n: nat) -> Seq<char>
    decreases se,
{
    expr_sql(d, inline, se.expr, n) + match se.alias {
        Some(a) => " AS "@ + iden_sql(d, a),
        None => Seq::empty(),
    }
}

pub open spec fn select_exprs_sql(d: Dialect, inline: bool, es: Seq<SelectExpr>, n: nat) -> Seq<char>
    decreases es,
{
    if es.len() == 0 {
        Seq::empty()
    } else if es.len() == 1 {
        select_expr_sql(d, inline, es[0], n)
    } else {
        let k = es.len() - 1;
        select_exprs_sql(d, inline, es.subrange(0, k), n) + ", "@
            + select_expr_sql(d, inline, es[k], n + select_exprs_values(es.subrange(0, k)).len())
    }
}

/// A table reference; aliases follow `AS`, a sub-query stands in parentheses.
pub open spec fn table_ref_sql(d: Dialect, inline: bool, t: TableRef, n: nat) -> Seq<char>
    decreases t,
{
    match t {
        TableRef::Table(x) => iden_sql(d, x),
        TableRef::SchemaTable(s, x) => iden_sql(d, s) + "."@ + iden_sql(d, x),
        TableRef::DatabaseSchemaTable(b, s, x) => iden_sql(d, b) + "."@ + iden_sql(d, s) + "."@ + iden_sql(d, x),
        TableRef::TableAlias(x, a) => iden_sql(d, x) + " AS "@ + iden_sql(d, a),
        TableRef::SchemaTableAlias(s, x, a) => iden_sql(d, s) + "."@ + iden_sql(d, x) + " AS "@ + iden_sql(d, a),
        TableRef::DatabaseSchemaTableAlias(b, s, x, a) => iden_sql(d, b) + "."@ + iden_sql(d, s) + "."@
            + iden_sql(d, x) + " AS "@ + iden_sql(d, a),
        TableRef::SubQuery(q, a) => "("@ + select_sql(d, inline, q, n) + ") AS "@ + iden_sql(d, a),
    }
}

pub open spec fn join_type_sql(j: JoinType) -> Seq<char> {
    match j {
        JoinType::Join => "JOIN"@,
        JoinType::InnerJoin => "INNER JOIN"@,
        JoinType::LeftJoin => "LEFT JOIN"@,
        JoinType::RightJoin => "RIGHT JOIN"@,
        JoinType::FullOuterJoin => "FULL OUTER JOIN"@,
        JoinType::CrossJoin => "CROSS JOIN"@,
    }
}

/// Identifiers separated by commas.
pub open spec fn idens_sql(d: Dialect, xs: Seq<Iden>) -> Seq<char>
    decreases xs.len(),
{
    if xs.len() == 0 {
        Seq::empty()
    } else if xs.len() == 1 {
        iden_sql(d, xs[0])
    } else {
        let k = xs.len() - 1;
        idens_sql(d, xs.subrange(0, k)) + ", "@ + iden_sql(d, xs[k])
    }
}

pub open spec fn join_sql(d: Dialect, inline: bool, j: JoinExpr, n: nat) -> Seq<char>
    decreases j,
{
    " "@ + join_type_sql(j.join) + " "@ + table_ref_sql(d, inline, *j.table, n)
        + join_on_sql(d, inline, j.on, n + table_ref_values(*j.table).len())
}

pub open spec fn join_on_sql(d: Dialect, inline: bool, on: Option<JoinOn>, n: nat) -> Seq<char>
    decreases on,
{
    match on {
        Some(JoinOn::Condition(e)) => " ON "@ + expr_sql(d, inline, *e, n),
        Some(JoinOn::Columns(cols)) => " USING ("@ + idens_sql(d, cols@) + ")"@,
        None => Seq::empty(),
    }
}

pub open spec fn joins_sql(d: Dialect, inline: bool, js: Seq<JoinExpr>, n: nat) -> Seq<char>
    decreases js,
{
    if js.len() == 0 {
        Seq::empty()
    } else {
        let k = js.len() - 1;
        joins_sql(d, inline, js.subrange(0, k), n) + join_sql(d, inline, js[k], n + joins_values(js.subrange(0, k)).len())
    }
}

pub open spec fn logic_oper(t: ConditionType) -> BinOper {
    match t {
        ConditionType::All => BinOper::And,
        ConditionType::Any => BinOper::Or,
    }
}

/// A condition. `ctx` is the combinator of the enclosing list when that list has
/// two or more parts: a list of the other combinator is then parenthesized.
pub open spec fn condition_sql(d: Dialect, inline: bool, c: Condition, ctx: Option<ConditionType>, n: nat) -> Seq<char>
    decreases c,
{
    let outer = if c.negate { None } else { ctx };
    let its = c.conditions@;
    let body = if its.len() == 0 {
        if c.condition_type == ConditionType::All { "TRUE"@ } else { "FALSE"@ }
    } else if its.len() == 1 {
        item_sql(d, inline, its[0], outer, n)
    } else {
        parens_if(
            outer is Some && outer->0 != c.condition_type,
            items_sql(d, inline, its, c.condition_type, n),
        )
    };
    if c.negate { "NOT ("@ + body + ")"@ } else { body }
}

/// One part of a condition list.
pub open spec fn item_sql(d: Dialect, inline: bool, it: ConditionExpression, ctx: Option<ConditionType>, n: nat) -> Seq<char>
    decreases it,
{
    match it {
        ConditionExpression::Condition(c) => condition_sql(d, inline, c, ctx, n),
        ConditionExpression::SimpleExpr(e) => parens_if(
            ctx is Some && match e {
                SimpleExpr::Binary(_, op, _) => precedence(op) < precedence(logic_oper(ctx->0)),
                _ => false,
            },
            expr_sql(d, inline, e, n),
        ),
    }
}

/// The parts of a condition list joined by AND or OR.
pub open spec fn items_sql(d: Dialect, inline: bool, its: Seq<ConditionExpression>, t: ConditionType, n: nat) -> Seq<char>
    decreases its,
{
    if its.len() == 0 {
        Seq::empty()
    } else if its.len() == 1 {
        item_sql(d, inline, its[0], Some(t), n)
    } else {
        let k = its.len() - 1;
        items_sql(d, inline, its.subrange(0, k), t, n) + " "@ + bin_oper_sql(logic_oper(t)) + " "@
            + item_sql(d, inline, its[k], Some(t), n + items_values(its.subrange(0, k)).len())
    }
}

/// A WHERE or HAVING clause under the keyword `kw`; nothing when it has no parts.
pub open spec fn holder_sql(d: Dialect, inline: bool, kw: Seq<char>, h: ConditionHolder, n: nat) -> Seq<char>
    decreases h,
{
    if h.condition.conditions@.len() == 0 {
        Seq::empty()
    } else {
        " "@ + kw + " "@ + condition_sql(d, inline, h.condition, None, n)
    }
}

pub open spec fn order_expr_sql(d: Dialect, inline: bool, o: OrderExpr, n: nat) -> Seq<char>
    decreases o,
{
    expr_sql(d, inline, o.expr, n) + match o.order {
        Order::Asc => " ASC"@,
        Order::Desc => " DESC"@,
    }
}

pub open spec fn orders_sql(d: Dialect, inline: bool, os: Seq<OrderExpr>, n: nat) -> Seq<char>
    decreases os,
{
    if os.len() == 0 {
        Seq::empty()
    } else if os.len() == 1 {
        order_expr_sql(d, inline, os[0], n)
    } else {
        let k = os.len() - 1;
        orders_sql(d, inline, os.subrange(0, k), n) + ", "@
            + order_expr_sql(d, inline, os[k], n + orders_values(os.subrange(0, k)).len())
    }
}

/// The DISTINCT keyword; DISTINCTROW, MySQL's synonym of DISTINCT, is written
/// as DISTINCT elsewhere.
pub open spec fn distinct_sql(d: Dialect, x: Option<SelectDistinct>) -> Seq<char> {
    match x {
        Some(SelectDistinct::All) => "ALL "@,
        Some(SelectDistinct::Distinct) => "DISTINCT "@,
        Some(SelectDistinct::DistinctRow) => if d == Dialect::MySql { "DISTINCTROW "@ } else { "DISTINCT "@ },
        None => Seq::empty(),
    }
}

pub open spec fn from_sql(d: Dialect, inline: bool, f: Option<Box<TableRef>>, n: nat) -> Seq<char>
    decreases f,
{
    match f {
        Some(t) => " FROM "@ + table_ref_sql(d, inline, *t, n),
        None => Seq::empty(),
    }
}

pub open spec fn option_value_sql(d: Dialect, inline: bool, kw: Seq<char>, v: Option<Value>, n: nat) -> Seq<char> {
    match v {
        Some(x) => " "@ + kw + " "@ + value_sql(d, inline, x, n),
        None => Seq::empty(),
    }
}

/// `SELECT`, the DISTINCT keyword, the select list and the FROM clause.
pub open spec fn select_head_sql(d: Dialect, inline: bool, s: SelectStatement, n: nat) -> Seq<char>
    decreases s, 0int,
{
    "SELECT "@ + distinct_sql(d, s.distinct) + select_exprs_sql(d, inline, s.selects@, n)
        + from_sql(d, inline, s.from, n + select_exprs_values(s.selects@).len())
}

/// The joins, the WHERE clause and the GROUP BY clause.
pub open spec fn select_body_sql(d: Dialect, inline: bool, s: SelectStatement, n: nat) -> Seq<char>
    decreases s, 0int,
{
    let n1 = n + joins_values(s.join@).len();
    let n2 = n1 + holder_values(s.wherei).len();
    joins_sql(d, inline, s.join@, n) + holder_sql(d, inline, "WHERE"@, s.wherei, n1)
        + if s.groups@.len() == 0 { Seq::empty() } else { " GROUP BY "@ + exprs_sql(d, inline, s.groups@, n2) }
}

/// The HAVING and ORDER BY clauses.
pub open spec fn having_order_sql(d: Dialect, inline: bool, s: SelectStatement, n: nat) -> Seq<char>
    decreases s, 0int,
{
    holder_sql(d, inline, "HAVING"@, s.having, n) + (if s.orders@.len() == 0 {
        Seq::empty()
    } else {
        " ORDER BY "@ + orders_sql(d, inline, s.orders@, n + holder_values(s.having).len())
    })
}

/// The HAVING and ORDER BY clauses, LIMIT and OFFSET.
pub open spec fn select_tail_sql(d: Dialect, inline: bool, s: SelectStatement, n: nat) -> Seq<char>
    decreases s, 1int,
{
    let n2 = n + holder_values(s.having).len() + orders_values(s.orders@).len();
    let n3 = n2 + option_value(s.limit).len();
    having_order_sql(d, inline, s, n) + option_value_sql(d, inline, "LIMIT"@, s.limit, n2)
        + option_value_sql(d, inline, "OFFSET"@, s.offset, n3)
}

/// A select statement: its clauses in fixed order, each left out when unset.
pub open spec fn select_sql(d: Dialect, inline: bool, s: SelectStatement, n: nat) -> Seq<char>
    decreases s, 2int,
{
    let n1 = n + select_head_values(s).len();
    let n2 = n1 + select_body_values(s).len();
    select_head_sql(d, inline, s, n) + select_body_sql(d, inline, s, n1) + select_tail_sql(d, inline, s, n2)
}

} // verus!
