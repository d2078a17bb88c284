use vstd::prelude::*;
use crate::expr::SimpleExpr;
use crate::select::SelectStatement;

verus! {

/// A name of a table, column, schema, alias or index, held unquoted.
#[derive(Debug, Clone, PartialEq, Eq)]
pub struct Iden {
    pub name: String,
}

impl Iden {
    /// An identifier with the given unquoted name.
    pub fn new(name: &str) -> (r: Iden)
        ensures
            r.name@ == name@,
    {
        Iden { name: name.to_owned() }
    }
}

/// A reference to a column, bare or qualified.
#[derive(Debug)]
pub enum ColumnRef {
    Column(Iden),
    TableColumn(Iden, Iden),
    SchemaTableColumn(Iden, Iden, Iden),
    Asterisk,
    TableAsterisk(Iden),
}

/// A reference to a table, qualified or aliased, or a sub-query with its alias.
#[derive(Debug)]
pub enum TableRef {
    Table(Iden),
    SchemaTable(Iden, Iden),
    DatabaseSchemaTable(Iden, Iden, Iden),
    TableAlias(Iden, Iden),
    SchemaTableAlias(Iden, Iden, Iden),
    DatabaseSchemaTableAlias(Iden, Iden, Iden, Iden),
    SubQuery(SelectStatement, Iden),
}

/// What `TableRef::alias` gives: the same reference under a new alias.
pub open spec fn spec_alias(t: TableRef, a: Iden) -> TableRef {
    match t {
        TableRef::Table(n) => TableRef::TableAlias(n, a),
        TableRef::SchemaTable(s, n) => TableRef::SchemaTableAlias(s, n, a),
        TableRef::DatabaseSchemaTable(d, s, n) => TableRef::DatabaseSchemaTableAlias(d, s, n, a),
        TableRef::TableAlias(n, _) => TableRef::TableAlias(n, a),
        TableRef::SchemaTableAlias(s, n, _) => TableRef::SchemaTableAlias(s, n, a),
        TableRef::DatabaseSchemaTableAlias(d, s, n, _) => TableRef::DatabaseSchemaTableAlias(d, s, n, a),
        TableRef::SubQuery(q, _) => TableRef::SubQuery(q, a),
    }
}

impl TableRef {
    /// The same table reference under the alias `a`, replacing any earlier alias.
    pub fn alias(self, a: Iden) -> (r: TableRef)
        ensures
            r == spec_alias(self, a),
    {
        match self {
            TableRef::Table(n) => TableRef::TableAlias(n, a),
            TableRef::SchemaTable(s, n) => TableRef::SchemaTableAlias(s, n, a),
            TableRef::DatabaseSchemaTable(d, s, n) => TableRef::DatabaseSchemaTableAlias(d, s, n, a),
            TableRef::TableAlias(n, _) => TableRef::TableAlias(n, a),
            TableRef::SchemaTableAlias(s, n, _) => TableRef::SchemaTableAlias(s, n, a),
            TableRef::DatabaseSchemaTableAlias(d, s, n, _) => TableRef::DatabaseSchemaTableAlias(d, s, n, a),
            TableRef::SubQuery(q, _) => TableRef::SubQuery(q, a),
        }
    }
}

/// The kind of a join.
#[derive(Debug, Clone, Copy, PartialEq, Eq)]
pub enum JoinType {
    Join,
    InnerJoin,
    LeftJoin,
    RightJoin,
    FullOuterJoin,
    CrossJoin,
}

/// How a join matches rows: an `ON` condition or a `USING` column list.
#[derive(Debug)]
pub enum JoinOn {
    Condition(Box<SimpleExpr>),
    Columns(Vec<Iden>),
}

/// Sort direction.
#[derive(Debug, Clone, Copy, PartialEq, Eq)]
pub enum Order {
    Asc,
    Desc,
}

/// One entry of an `ORDER BY` list.
#[derive(Debug)]
pub struct OrderExpr {
    pub expr: SimpleExpr,
    pub order: Order,
}

} // verus!
