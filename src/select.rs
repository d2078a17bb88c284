use vstd::prelude::*;
use crate::condition::{
    combined, Condition, ConditionExpression, ConditionHolder, ConditionType, LogicalChainOper,
};
use crate::expr::SimpleExpr;
use crate::types::{spec_alias, ColumnRef, Iden, JoinOn, JoinType, Order, OrderExpr, TableRef};
use crate::value::Value;

verus! {

/// DISTINCT keywords of a select statement.
#[derive(Debug, Clone, Copy, PartialEq, Eq)]
pub enum SelectDistinct {
    All,
    Distinct,
    DistinctRow,
}

/// One entry of the select list, with an optional alias.
#[derive(Debug)]
pub struct SelectExpr {
    pub expr: SimpleExpr,
    pub alias: Option<Iden>,
}

/// One join of a select statement.
#[derive(Debug)]
pub struct JoinExpr {
    pub join: JoinType,
    pub table: Box<TableRef>,
    pub on: Option<JoinOn>,
}

/// A SELECT statement.
#[derive(Debug)]
pub struct SelectStatement {
    pub distinct: Option<SelectDistinct>,
    pub selects: Vec<SelectExpr>,
    pub from: Option<Box<TableRef>>,
    pub join: Vec<JoinExpr>,
    pub wherei: ConditionHolder,
    pub groups: Vec<SimpleExpr>,
    pub having: ConditionHolder,
    pub orders: Vec<OrderExpr>,
    pub limit: Option<Value>,
    pub offset: Option<Value>,
}

/// The clauses of a select statement, as named in contracts.
pub enum Clause {
    Distinct,
    Selects,
    From,
    Join,
    Where,
    Groups,
    Having,
    Orders,
    Limit,
    Offset,
}

/// `a` and `b` agree on every clause but `k`.
pub open spec fn agree_except(a: SelectStatement, b: SelectStatement, k: Clause) -> bool {
    &&& (k is Distinct || a.distinct == b.distinct)
    &&& (k is Selects || a.selects == b.selects)
    &&& (k is From || a.from == b.from)
    &&& (k is Join || a.join == b.join)
    &&& (k is Where || a.wherei == b.wherei)
    &&& (k is Groups || a.groups == b.groups)
    &&& (k is Having || a.having == b.having)
    &&& (k is Orders || a.orders == b.orders)
    &&& (k is Limit || a.limit == b.limit)
    &&& (k is Offset || a.offset == b.offset)
}

/// A holder with no condition.
pub open spec fn empty_holder(h: ConditionHolder) -> bool {
    &&& h.condition.conditions@.len() == 0
    &&& !h.condition.negate
    &&& h.condition.condition_type == ConditionType::All
}

/// A statement with no clause set.
pub open spec fn is_blank(s: SelectStatement) -> bool {
    &&& s.distinct is None
    &&& s.selects@.len() == 0
    &&& s.from is None
    &&& s.join@.len() == 0
    &&& empty_holder(s.wherei)
    &&& s.groups@.len() == 0
    &&& empty_holder(s.having)
    &&& s.orders@.len() == 0
    &&& s.limit is None
    &&& s.offset is None
}

/// Expressions as select-list entries without alias.
pub open spec fn select_items(es: Seq<SimpleExpr>) -> Seq<SelectExpr> {
    es.map_values(|e: SimpleExpr| SelectExpr { expr: e, alias: None })
}

/// Columns as expressions.
pub open spec fn column_exprs(cols: Seq<ColumnRef>) -> Seq<SimpleExpr> {
    cols.map_values(|c: ColumnRef| SimpleExpr::Column(c))
}

/// Table and column pairs as qualified column references.
pub open spec fn table_column_refs(cols: Seq<(Iden, Iden)>) -> Seq<ColumnRef> {
    cols.map_values(|p: (Iden, Iden)| ColumnRef::TableColumn(p.0, p.1))
}

/// The join entry for `table` under `join`, matched by the condition `on`.
pub open spec fn join_entry(join: JoinType, table: TableRef, on: SimpleExpr) -> JoinExpr {
    JoinExpr { join, table: Box::new(table), on: Some(JoinOn::Condition(Box::new(on))) }
}

fn column_expr_vec(cols: Vec<ColumnRef>) -> (r: Vec<SimpleExpr>)
    ensures
        r@ == column_exprs(cols@),
{
    let ghost orig = cols@;
    let mut rest = cols;
    let mut out: Vec<SimpleExpr> = Vec::new();
    while rest.len() > 0
        invariant
            rest@.len() <= orig.len(),
            rest@ == orig.subrange(orig.len() - rest@.len(), orig.len() as int),
            out@ == column_exprs(orig.subrange(0, orig.len() - rest@.len())),
        decreases rest@.len(),
    {
        let ghost k = orig.len() - rest@.len();
        let c = rest.remove(0);
        out.push(SimpleExpr::Column(c));
        assert(rest@ =~= orig.subrange(orig.len() - rest@.len(), orig.len() as int));
        assert(out@ =~= column_exprs(orig.subrange(0, k + 1)));
    }
    assert(orig.subrange(0, orig.len() as int) =~= orig);
    out
}

fn table_column_vec(cols: Vec<(Iden, Iden)>) -> (r: Vec<ColumnRef>)
    ensures
        r@ == table_column_refs(cols@),
{
    let ghost orig = cols@;
    let mut rest = cols;
    let mut out: Vec<ColumnRef> = Vec::new();
    while rest.len() > 0
        invariant
            rest@.len() <= orig.len(),
            rest@ == orig.subrange(orig.len() - rest@.len(), orig.len() as int),
            out@ == table_column_refs(orig.subrange(0, orig.len() - rest@.len())),
        decreases rest@.len(),
    {
        let ghost k = orig.len() - rest@.len();
        let (t, c) = rest.remove(0);
        out.push(ColumnRef::TableColumn(t, c));
        assert(rest@ =~= orig.subrange(orig.len() - rest@.len(), orig.len() as int));
        assert(out@ =~= table_column_refs(orig.subrange(0, k + 1)));
    }
    assert(orig.subrange(0, orig.len() as int) =~= orig);
    out
}

fn select_item_vec(es: Vec<SimpleExpr>) -> (r: Vec<SelectExpr>)
    ensures
        r@ == select_items(es@),
{
    let ghost orig = es@;
    let mut rest = es;
    let mut out: Vec<SelectExpr> = Vec::new();
    while rest.len() > 0
        invariant
            rest@.len() <= orig.len(),
            rest@ == orig.subrange(orig.len() - rest@.len(), orig.len() as int),
            out@ == select_items(orig.subrange(0, orig.len() - rest@.len())),
        decreases rest@.len(),
    {
        let ghost k = orig.len() - rest@.len();
        let e = rest.remove(0);
        out.push(SelectExpr { expr: e, alias: None });
        assert(rest@ =~= orig.subrange(orig.len() - rest@.len(), orig.len() as int));
        assert(out@ =~= select_items(orig.subrange(0, k + 1)));
    }
    assert(orig.subrange(0, orig.len() as int) =~= orig);
    out
}

/// Entry points for building statements.
pub struct Query;

impl Query {
    /// A select statement with no clause set.
    pub fn select() -> (r: SelectStatement)
        ensures
            is_blank(r),
    {
        SelectStatement::new()
    }
}

impl Default for SelectStatement {
    fn default() -> (r: Self)
        ensures
            is_blank(r),
    {
        Self::new()
    }
}

impl From<SimpleExpr> for SelectExpr {
    fn from(e: SimpleExpr) -> (r: SelectExpr)
        ensures
            r == (SelectExpr { expr: e, alias: None }),
    {
        SelectExpr { expr: e, alias: None }
    }
}

impl vstd::std_specs::convert::FromSpecImpl<SimpleExpr> for SelectExpr {
    open spec fn obeys_from_spec() -> bool {
        true
    }

    open spec fn from_spec(e: SimpleExpr) -> SelectExpr {
        SelectExpr { expr: e, alias: None }
    }
}

impl SelectStatement {
    /// A statement with no clause set.
    pub fn new() -> (r: Self)
        ensures
            is_blank(r),
    {
        SelectStatement {
            distinct: None,
            selects: Vec::new(),
            from: None,
            join: Vec::new(),
            wherei: ConditionHolder::new(),
            groups: Vec::new(),
            having: ConditionHolder::new(),
            orders: Vec::new(),
            limit: None,
            offset: None,
        }
    }

    /// Moves the statement out, leaving a blank one behind.
    pub fn take(&mut self) -> (r: Self)
        ensures
            r == *old(self),
            is_blank(*final(self)),
    {
        let mut r = SelectStatement::new();
        std::mem::swap(self, &mut r);
        r
    }

    /// Empties the select list.
    pub fn clear_selects(&mut self) -> (r: &mut Self)
        ensures
            agree_except(*old(self), *r, Clause::Selects),
            r.selects@.len() == 0,
            *final(self) == *final(r),
    {
        self.selects = Vec::new();
        self
    }

    /// Adds an expression to the select list.
    pub fn expr(&mut self, e: SimpleExpr) -> (r: &mut Self)
        ensures
            agree_except(*old(self), *r, Clause::Selects),
            r.selects@ == old(self).selects@.push(SelectExpr { expr: e, alias: None }),
            *final(self) == *final(r),
    {
        self.selects.push(SelectExpr { expr: e, alias: None });
        self
    }

    /// Adds expressions to the select list, in order.
    pub fn exprs(&mut self, es: Vec<SimpleExpr>) -> (r: &mut Self)
        ensures
            agree_except(*old(self), *r, Clause::Selects),
            r.selects@ == old(self).selects@ + select_items(es@),
            *final(self) == *final(r),
    {
        let mut items = select_item_vec(es);
        self.selects.append(&mut items);
        self
    }

    /// Selects DISTINCT rows.
    pub fn distinct(&mut self) -> (r: &mut Self)
        ensures
            agree_except(*old(self), *r, Clause::Distinct),
            r.distinct == Some(SelectDistinct::Distinct),
            *final(self) == *final(r),
    {
        self.distinct = Some(SelectDistinct::Distinct);
        self
    }

    /// Adds a column to the select list.
    pub fn column(&mut self, col: ColumnRef) -> (r: &mut Self)
        ensures
            agree_except(*old(self), *r, Clause::Selects),
            r.selects@ == old(self).selects@.push(SelectExpr { expr: SimpleExpr::Column(col), alias: None }),
            *final(self) == *final(r),
    {
        self.expr(SimpleExpr::Column(col))
    }

    /// Adds a table-qualified column to the select list.
    pub fn table_column(&mut self, t: Iden, c: Iden) -> (r: &mut Self)
        ensures
            agree_except(*old(self), *r, Clause::Selects),
            r.selects@ == old(self).selects@.push(
                SelectExpr { expr: SimpleExpr::Column(ColumnRef::TableColumn(t, c)), alias: None },
            ),
            *final(self) == *final(r),
    {
        self.column(ColumnRef::TableColumn(t, c))
    }

    /// Adds columns to the select list, in order.
    pub fn columns(&mut self, cols: Vec<ColumnRef>) -> (r: &mut Self)
        ensures
            agree_except(*old(self), *r, Clause::Selects),
            r.selects@ == old(self).selects@ + select_items(column_exprs(cols@)),
            *final(self) == *final(r),
    {
        self.exprs(column_expr_vec(cols))
    }

    /// Adds table-qualified columns to the select list, in order.
    pub fn table_columns(&mut self, cols: Vec<(Iden, Iden)>) -> (r: &mut Self)
        ensures
            agree_except(*old(self), *r, Clause::Selects),
            r.selects@ == old(self).selects@ + select_items(column_exprs(table_column_refs(cols@))),
            *final(self) == *final(r),
    {
        self.columns(table_column_vec(cols))
    }

    /// Adds an expression under an alias to the select list.
    pub fn expr_as(&mut self, e: SimpleExpr, alias: Iden) -> (r: &mut Self)
        ensures
            agree_except(*old(self), *r, Clause::Selects),
            r.selects@ == old(self).selects@.push(SelectExpr { expr: e, alias: Some(alias) }),
            *final(self) == *final(r),
    {
        self.selects.push(SelectExpr { expr: e, alias: Some(alias) });
        self
    }

    /// Same as `expr_as`.
    pub fn expr_alias(&mut self, e: SimpleExpr, alias: Iden) -> (r: &mut Self)
        ensures
            agree_except(*old(self), *r, Clause::Selects),
            r.selects@ == old(self).selects@.push(SelectExpr { expr: e, alias: Some(alias) }),
            *final(self) == *final(r),
    {
        self.expr_as(e, alias)
    }

    /// Sets the table of the FROM clause.
    pub fn from(&mut self, t: TableRef) -> (r: &mut Self)
        ensures
            agree_except(*old(self), *r, Clause::From),
            r.from == Some(Box::new(t)),
            *final(self) == *final(r),
    {
        self.from_from(t)
    }

    /// Sets a schema-qualified table as the FROM clause.
    pub fn from_schema(&mut self, schema: Iden, t: Iden) -> (r: &mut Self)
        ensures
            agree_except(*old(self), *r, Clause::From),
            r.from == Some(Box::new(TableRef::SchemaTable(schema, t))),
            *final(self) == *final(r),
    {
        self.from_from(TableRef::SchemaTable(schema, t))
    }

    /// Sets an aliased table as the FROM clause.
    pub fn from_as(&mut self, t: TableRef, alias: Iden) -> (r: &mut Self)
        ensures
            agree_except(*old(self), *r, Clause::From),
            r.from == Some(Box::new(spec_alias(t, alias))),
            *final(self) == *final(r),
    {
        self.from_from(t.alias(alias))
    }

    /// Same as `from_as`.
    pub fn from_alias(&mut self, t: TableRef, alias: Iden) -> (r: &mut Self)
        ensures
            agree_except(*old(self), *r, Clause::From),
            r.from == Some(Box::new(spec_alias(t, alias))),
            *final(self) == *final(r),
    {
        self.from_as(t, alias)
    }

    /// Sets an aliased schema-qualified table as the FROM clause.
    pub fn from_schema_as(&mut self, schema: Iden, t: Iden, alias: Iden) -> (r: &mut Self)
        ensures
            agree_except(*old(self), *r, Clause::From),
            r.from == Some(Box::new(TableRef::SchemaTableAlias(schema, t, alias))),
            *final(self) == *final(r),
    {
        self.from_from(TableRef::SchemaTableAlias(schema, t, alias))
    }

    /// Sets a sub-query under an alias as the FROM clause.
    pub fn from_subquery(&mut self, query: SelectStatement, alias: Iden) -> (r: &mut Self)
        ensures
            agree_except(*old(self), *r, Clause::From),
            r.from == Some(Box::new(TableRef::SubQuery(query, alias))),
            *final(self) == *final(r),
    {
        self.from_from(TableRef::SubQuery(query, alias))
    }

    /// Adds a LEFT JOIN on a condition.
    pub fn left_join(&mut self, t: TableRef, condition: SimpleExpr) -> (r: &mut Self)
        ensures
            agree_except(*old(self), *r, Clause::Join),
            r.join@ == old(self).join@.push(join_entry(JoinType::LeftJoin, t, condition)),
            *final(self) == *final(r),
    {
        self.join(JoinType::LeftJoin, t, condition)
    }

    /// Adds an INNER JOIN on a condition.
    pub fn inner_join(&mut self, t: TableRef, condition: SimpleExpr) -> (r: &mut Self)
        ensures
            agree_except(*old(self), *r, Clause::Join),
            r.join@ == old(self).join@.push(join_entry(JoinType::InnerJoin, t, condition)),
            *final(self) == *final(r),
    {
        self.join(JoinType::InnerJoin, t, condition)
    }

    /// Adds a join of the given kind on a condition.
    pub fn join(&mut self, join: JoinType, t: TableRef, condition: SimpleExpr) -> (r: &mut Self)
        ensures
            agree_except(*old(self), *r, Clause::Join),
            r.join@ == old(self).join@.push(join_entry(join, t, condition)),
            *final(self) == *final(r),
    {
        self.join_join(join, t, JoinOn::Condition(Box::new(condition)))
    }

    /// Adds a join of an aliased table on a condition.
    pub fn join_as(&mut self, join: JoinType, t: TableRef, alias: Iden, condition: SimpleExpr) -> (r: &mut Self)
        ensures
            agree_except(*old(self), *r, Clause::Join),
            r.join@ == old(self).join@.push(join_entry(join, spec_alias(t, alias), condition)),
            *final(self) == *final(r),
    {
        self.join_join(join, t.alias(alias), JoinOn::Condition(Box::new(condition)))
    }

    /// Same as `join_as`.
    pub fn join_alias(&mut self, join: JoinType, t: TableRef, alias: Iden, condition: SimpleExpr) -> (r: &mut Self)
        ensures
            agree_except(*old(self), *r, Clause::Join),
            r.join@ == old(self).join@.push(join_entry(join, spec_alias(t, alias), condition)),
            *final(self) == *final(r),
    {
        self.join_as(join, t, alias, condition)
    }

    /// Adds a join of a sub-query under an alias on a condition.
    pub fn join_subquery(&mut self, join: JoinType, query: SelectStatement, alias: Iden, condition: SimpleExpr) -> (r: &mut Self)
        ensures
            agree_except(*old(self), *r, Clause::Join),
            r.join@ == old(self).join@.push(join_entry(join, TableRef::SubQuery(query, alias), condition)),
            *final(self) == *final(r),
    {
        self.join_join(join, TableRef::SubQuery(query, alias), JoinOn::Condition(Box::new(condition)))
    }

    /// Adds a join matched by a USING column list.
    pub fn join_using(&mut self, join: JoinType, t: TableRef, cols: Vec<Iden>) -> (r: &mut Self)
        ensures
            agree_except(*old(self), *r, Clause::Join),
            r.join@ == old(self).join@.push(JoinExpr { join, table: Box::new(t), on: Some(JoinOn::Columns(cols)) }),
            *final(self) == *final(r),
    {
        self.join_join(join, t, JoinOn::Columns(cols))
    }

    /// Adds columns to the GROUP BY list, in order.
    pub fn group_by_columns(&mut self, cols: Vec<ColumnRef>) -> (r: &mut Self)
        ensures
            agree_except(*old(self), *r, Clause::Groups),
            r.groups@ == old(self).groups@ + column_exprs(cols@),
            *final(self) == *final(r),
    {
        self.add_group_by(column_expr_vec(cols))
    }

    /// Adds a column to the GROUP BY list.
    pub fn group_by_col(&mut self, col: ColumnRef) -> (r: &mut Self)
        ensures
            agree_except(*old(self), *r, Clause::Groups),
            r.groups@ == old(self).groups@.push(SimpleExpr::Column(col)),
            *final(self) == *final(r),
    {
        self.groups.push(SimpleExpr::Column(col));
        self
    }

    /// Adds table-qualified columns to the GROUP BY list, in order.
    pub fn group_by_table_columns(&mut self, cols: Vec<(Iden, Iden)>) -> (r: &mut Self)
        ensures
            agree_except(*old(self), *r, Clause::Groups),
            r.groups@ == old(self).groups@ + column_exprs(table_column_refs(cols@)),
            *final(self) == *final(r),
    {
        self.group_by_columns(table_column_vec(cols))
    }

    /// Adds expressions to the GROUP BY list, in order.
    pub fn add_group_by(&mut self, es: Vec<SimpleExpr>) -> (r: &mut Self)
        ensures
            agree_except(*old(self), *r, Clause::Groups),
            r.groups@ == old(self).groups@ + es@,
            *final(self) == *final(r),
    {
        let mut es = es;
        self.groups.append(&mut es);
        self
    }

    /// Adds a condition to the HAVING clause.
    pub fn cond_having(&mut self, condition: Condition) -> (r: &mut Self)
        ensures
            agree_except(*old(self), *r, Clause::Having),
            if old(self).having.condition.conditions@.len() == 0 {
                r.having.condition == condition
            } else {
                combined(old(self).having.condition, ConditionType::All, ConditionExpression::Condition(condition), r.having.condition)
            },
            *final(self) == *final(r),
    {
        self.having.add_condition(condition);
        self
    }

    /// Adds an expression to the HAVING clause, joined by AND.
    pub fn and_having(&mut self, e: SimpleExpr) -> (r: &mut Self)
        ensures
            agree_except(*old(self), *r, Clause::Having),
            combined(old(self).having.condition, ConditionType::All, ConditionExpression::SimpleExpr(e), r.having.condition),
            *final(self) == *final(r),
    {
        self.having.add_and_or(LogicalChainOper::And(e));
        self
    }

    /// Adds an expression to the HAVING clause, joined by OR.
    pub fn or_having(&mut self, e: SimpleExpr) -> (r: &mut Self)
        ensures
            agree_except(*old(self), *r, Clause::Having),
            combined(old(self).having.condition, ConditionType::Any, ConditionExpression::SimpleExpr(e), r.having.condition),
            *final(self) == *final(r),
    {
        self.having.add_and_or(LogicalChainOper::Or(e));
        self
    }

    /// Adds a condition to the WHERE clause.
    pub fn cond_where(&mut self, condition: Condition) -> (r: &mut Self)
        ensures
            agree_except(*old(self), *r, Clause::Where),
            if old(self).wherei.condition.conditions@.len() == 0 {
                r.wherei.condition == condition
            } else {
                combined(old(self).wherei.condition, ConditionType::All, ConditionExpression::Condition(condition), r.wherei.condition)
            },
            *final(self) == *final(r),
    {
        self.wherei.add_condition(condition);
        self
    }

    /// Adds an expression to the WHERE clause, joined by AND.
    pub fn and_where(&mut self, e: SimpleExpr) -> (r: &mut Self)
        ensures
            agree_except(*old(self), *r, Clause::Where),
            combined(old(self).wherei.condition, ConditionType::All, ConditionExpression::SimpleExpr(e), r.wherei.condition),
            *final(self) == *final(r),
    {
        self.wherei.add_and_or(LogicalChainOper::And(e));
        self
    }

    /// Adds an expression to the WHERE clause, joined by OR.
    pub fn or_where(&mut self, e: SimpleExpr) -> (r: &mut Self)
        ensures
            agree_except(*old(self), *r, Clause::Where),
            combined(old(self).wherei.condition, ConditionType::Any, ConditionExpression::SimpleExpr(e), r.wherei.condition),
            *final(self) == *final(r),
    {
        self.wherei.add_and_or(LogicalChainOper::Or(e));
        self
    }

    /// Adds an expression to the WHERE clause, joined as the link says.
    pub fn and_or_where(&mut self, condition: LogicalChainOper) -> (r: &mut Self)
        ensures
            agree_except(*old(self), *r, Clause::Where),
            match condition {
                LogicalChainOper::And(e) => combined(
                    old(self).wherei.condition,
                    ConditionType::All,
                    ConditionExpression::SimpleExpr(e),
                    r.wherei.condition,
                ),
                LogicalChainOper::Or(e) => combined(
                    old(self).wherei.condition,
                    ConditionType::Any,
                    ConditionExpression::SimpleExpr(e),
                    r.wherei.condition,
                ),
            },
            *final(self) == *final(r),
    {
        self.wherei.add_and_or(condition);
        self
    }

    /// Adds an entry to the ORDER BY list.
    pub fn add_order_by(&mut self, order: OrderExpr) -> (r: &mut Self)
        ensures
            agree_except(*old(self), *r, Clause::Orders),
            r.orders@ == old(self).orders@.push(order),
            *final(self) == *final(r),
    {
        self.orders.push(order);
        self
    }

    /// Orders by a column.
    pub fn order_by(&mut self, col: ColumnRef, order: Order) -> (r: &mut Self)
        ensures
            agree_except(*old(self), *r, Clause::Orders),
            r.orders@ == old(self).orders@.push(OrderExpr { expr: SimpleExpr::Column(col), order }),
            *final(self) == *final(r),
    {
        self.add_order_by(OrderExpr { expr: SimpleExpr::Column(col), order })
    }

    /// Orders by an expression.
    pub fn order_by_expr(&mut self, e: SimpleExpr, order: Order) -> (r: &mut Self)
        ensures
            agree_except(*old(self), *r, Clause::Orders),
            r.orders@ == old(self).orders@.push(OrderExpr { expr: e, order }),
            *final(self) == *final(r),
    {
        self.add_order_by(OrderExpr { expr: e, order })
    }

    /// Sets the row limit.
    pub fn limit(&mut self, limit: u64) -> (r: &mut Self)
        ensures
            agree_except(*old(self), *r, Clause::Limit),
            r.limit == Some(Value::BigUnsigned(Some(limit))),
            *final(self) == *final(r),
    {
        self.limit = Some(Value::BigUnsigned(Some(limit)));
        self
    }

    /// Removes the row limit.
    pub fn reset_limit(&mut self) -> (r: &mut Self)
        ensures
            agree_except(*old(self), *r, Clause::Limit),
            r.limit is None,
            *final(self) == *final(r),
    {
        self.limit = None;
        self
    }

    /// Sets the row offset.
    pub fn offset(&mut self, offset: u64) -> (r: &mut Self)
        ensures
            agree_except(*old(self), *r, Clause::Offset),
            r.offset == Some(Value::BigUnsigned(Some(offset))),
            *final(self) == *final(r),
    {
        self.offset = Some(Value::BigUnsigned(Some(offset)));
        self
    }

    /// Removes the row offset.
    pub fn reset_offset(&mut self) -> (r: &mut Self)
        ensures
            agree_except(*old(self), *r, Clause::Offset),
            r.offset is None,
            *final(self) == *final(r),
    {
        self.offset = None;
        self
    }

    /// Replaces the statement by `if_true` of it when `b` holds, else by `if_false` of it.
    pub fn conditions<T, F>(&mut self, b: bool, if_true: T, if_false: F) -> (r: &mut Self)
        where
            T: FnOnce(SelectStatement) -> SelectStatement,
            F: FnOnce(SelectStatement) -> SelectStatement,
        requires
            b ==> if_true.requires((*old(self),)),
            !b ==> if_false.requires((*old(self),)),
        ensures
            b ==> if_true.ensures((*old(self),), *r),
            !b ==> if_false.ensures((*old(self),), *r),
            *final(self) == *final(r),
    {
        let s = self.take();
        let n = if b {
            if_true(s)
        } else {
            if_false(s)
        };
        *self = n;
        self
    }

    /// Replaces each select-list entry `x` by `func(x)`, in order.
    pub fn exprs_mut_for_each<F>(&mut self, func: F)
        where
            F: Fn(SelectExpr) -> SelectExpr,
        requires
            forall|x: SelectExpr| func.requires((x,)),
        ensures
            agree_except(*old(self), *final(self), Clause::Selects),
            final(self).selects@.len() == old(self).selects@.len(),
            forall|i: int|
                0 <= i < old(self).selects@.len() ==> func.ensures(
                    (old(self).selects@[i],),
                    #[trigger] final(self).selects@[i],
                ),
    {
        let mut rest = Vec::new();
        std::mem::swap(&mut rest, &mut self.selects);
        let ghost orig = rest@;
        let mut out: Vec<SelectExpr> = Vec::new();
        while rest.len() > 0
            invariant
                forall|x: SelectExpr| func.requires((x,)),
                rest@.len() <= orig.len(),
                rest@ == orig.subrange(orig.len() - rest@.len(), orig.len() as int),
                out@.len() == orig.len() - rest@.len(),
                forall|i: int| 0 <= i < out@.len() ==> func.ensures((orig[i],), #[trigger] out@[i]),
            decreases rest@.len(),
        {
            let x = rest.remove(0);
            let y = func(x);
            out.push(y);
            assert(rest@ =~= orig.subrange(orig.len() - rest@.len(), orig.len() as int));
        }
        self.selects = out;
    }

    fn from_from(&mut self, t: TableRef) -> (r: &mut Self)
        ensures
            agree_except(*old(self), *r, Clause::From),
            r.from == Some(Box::new(t)),
            *final(self) == *final(r),
    {
        self.from = Some(Box::new(t));
        self
    }

    fn join_join(&mut self, join: JoinType, t: TableRef, on: JoinOn) -> (r: &mut Self)
        ensures
            agree_except(*old(self), *r, Clause::Join),
            r.join@ == old(self).join@.push(JoinExpr { join, table: Box::new(t), on: Some(on) }),
            *final(self) == *final(r),
    {
        self.join.push(JoinExpr { join, table: Box::new(t), on: Some(on) });
        self
    }
}

} // verus!
