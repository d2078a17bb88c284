use vstd::prelude::*;
use crate::select::SelectStatement;
use crate::types::{ColumnRef, Iden};
use crate::value::Value;

verus! {

/// Binary operators.
#[derive(Debug, Clone, Copy, PartialEq, Eq)]
pub enum BinOper {
    And,
    Or,
    Like,
    NotLike,
    Is,
    IsNot,
    In,
    NotIn,
    Between,
    NotBetween,
    Equal,
    NotEqual,
    SmallerThan,
    GreaterThan,
    SmallerThanOrEqual,
    GreaterThanOrEqual,
    Add,
    Sub,
    Mul,
    Div,
    Mod,
    Glob,
    Match,
    GetJsonField,
    CastJsonField,
}

/// Unary operators.
#[derive(Debug, Clone, Copy, PartialEq, Eq)]
pub enum UnOper {
    Not,
}

/// Keywords that stand as expressions.
#[derive(Debug, Clone, Copy, PartialEq, Eq)]
pub enum Keyword {
    Null,
    CurrentTimestamp,
    CurrentDate,
    CurrentTime,
}

/// SQL functions.
#[derive(Debug)]
pub enum Function {
    Max,
    Min,
    Sum,
    Avg,
    Count,
    Coalesce,
    Lower,
    Upper,
    Custom(Iden),
}

/// The expression tree.
#[derive(Debug)]
pub enum SimpleExpr {
    Column(ColumnRef),
    Value(Value),
    Values(Vec<Value>),
    Unary(UnOper, Box<SimpleExpr>),
    Binary(Box<SimpleExpr>, BinOper, Box<SimpleExpr>),
    FunctionCall(Function, Vec<SimpleExpr>),
    SubQuery(Box<SelectStatement>),
    Tuple(Vec<SimpleExpr>),
    Keyword(Keyword),
    AsEnum(Iden, Box<SimpleExpr>),
    Custom(String),
}

/// Constructors of common expressions.
pub struct Expr;

impl Expr {
    /// A bare column.
    pub fn col(c: Iden) -> (r: SimpleExpr)
        ensures
            r == SimpleExpr::Column(ColumnRef::Column(c)),
    {
        SimpleExpr::Column(ColumnRef::Column(c))
    }

    /// A table-qualified column.
    pub fn tbl(t: Iden, c: Iden) -> (r: SimpleExpr)
        ensures
            r == SimpleExpr::Column(ColumnRef::TableColumn(t, c)),
    {
        SimpleExpr::Column(ColumnRef::TableColumn(t, c))
    }

    /// A value.
    pub fn val(v: Value) -> (r: SimpleExpr)
        ensures
            r == SimpleExpr::Value(v),
    {
        SimpleExpr::Value(v)
    }

    /// A keyword such as `CURRENT_TIMESTAMP`.
    pub fn keyword(k: Keyword) -> (r: SimpleExpr)
        ensures
            r == SimpleExpr::Keyword(k),
    {
        SimpleExpr::Keyword(k)
    }

    /// Raw SQL text, written as it is.
    pub fn cust(text: &str) -> (r: SimpleExpr)
        ensures
            r matches SimpleExpr::Custom(t) && t@ == text@,
    {
        SimpleExpr::Custom(text.to_owned())
    }

    /// A tuple of expressions.
    pub fn tuple(es: Vec<SimpleExpr>) -> (r: SimpleExpr)
        ensures
            r == SimpleExpr::Tuple(es),
    {
        SimpleExpr::Tuple(es)
    }

    /// A function applied to arguments.
    pub fn func(f: Function, args: Vec<SimpleExpr>) -> (r: SimpleExpr)
        ensures
            r == SimpleExpr::FunctionCall(f, args),
    {
        SimpleExpr::FunctionCall(f, args)
    }

    /// A sub-query used as an expression.
    pub fn subquery(q: SelectStatement) -> (r: SimpleExpr)
        ensures
            r == SimpleExpr::SubQuery(Box::new(q)),
    {
        SimpleExpr::SubQuery(Box::new(q))
    }
}

impl SimpleExpr {
    /// `self op right`.
    pub fn binary(self, op: BinOper, right: SimpleExpr) -> (r: SimpleExpr)
        ensures
            r == SimpleExpr::Binary(Box::new(self), op, Box::new(right)),
    {
        SimpleExpr::Binary(Box::new(self), op, Box::new(right))
    }

    pub fn eq(self, right: SimpleExpr) -> (r: SimpleExpr)
        ensures
            r == SimpleExpr::Binary(Box::new(self), BinOper::Equal, Box::new(right)),
    {
        self.binary(BinOper::Equal, right)
    }

    pub fn ne(self, right: SimpleExpr) -> (r: SimpleExpr)
        ensures
            r == SimpleExpr::Binary(Box::new(self), BinOper::NotEqual, Box::new(right)),
    {
        self.binary(BinOper::NotEqual, right)
    }

    pub fn lt(self, right: SimpleExpr) -> (r: SimpleExpr)
        ensures
            r == SimpleExpr::Binary(Box::new(self), BinOper::SmallerThan, Box::new(right)),
    {
        self.binary(BinOper::SmallerThan, right)
    }

    pub fn gt(self, right: SimpleExpr) -> (r: SimpleExpr)
        ensures
            r == SimpleExpr::Binary(Box::new(self), BinOper::GreaterThan, Box::new(right)),
    {
        self.binary(BinOper::GreaterThan, right)
    }

    pub fn lte(self, right: SimpleExpr) -> (r: SimpleExpr)
        ensures
            r == SimpleExpr::Binary(Box::new(self), BinOper::SmallerThanOrEqual, Box::new(right)),
    {
        self.binary(BinOper::SmallerThanOrEqual, right)
    }

    pub fn gte(self, right: SimpleExpr) -> (r: SimpleExpr)
        ensures
            r == SimpleExpr::Binary(Box::new(self), BinOper::GreaterThanOrEqual, Box::new(right)),
    {
        self.binary(BinOper::GreaterThanOrEqual, right)
    }

    pub fn and(self, right: SimpleExpr) -> (r: SimpleExpr)
        ensures
            r == SimpleExpr::Binary(Box::new(self), BinOper::And, Box::new(right)),
    {
        self.binary(BinOper::And, right)
    }

    pub fn or(self, right: SimpleExpr) -> (r: SimpleExpr)
        ensures
            r == SimpleExpr::Binary(Box::new(self), BinOper::Or, Box::new(right)),
    {
        self.binary(BinOper::Or, right)
    }

    /// `self LIKE 'pattern'`.
    pub fn like(self, pattern: String) -> (r: SimpleExpr)
        ensures
            r == SimpleExpr::Binary(
                Box::new(self),
                BinOper::Like,
                Box::new(SimpleExpr::Value(Value::String(Some(pattern)))),
            ),
    {
        self.binary(BinOper::Like, SimpleExpr::Value(Value::String(Some(pattern))))
    }

    pub fn add(self, right: SimpleExpr) -> (r: SimpleExpr)
        ensures
            r == SimpleExpr::Binary(Box::new(self), BinOper::Add, Box::new(right)),
    {
        self.binary(BinOper::Add, right)
    }

    pub fn sub(self, right: SimpleExpr) -> (r: SimpleExpr)
        ensures
            r == SimpleExpr::Binary(Box::new(self), BinOper::Sub, Box::new(right)),
    {
        self.binary(BinOper::Sub, right)
    }

    pub fn mul(self, right: SimpleExpr) -> (r: SimpleExpr)
        ensures
            r == SimpleExpr::Binary(Box::new(self), BinOper::Mul, Box::new(right)),
    {
        self.binary(BinOper::Mul, right)
    }

    pub fn div(self, right: SimpleExpr) -> (r: SimpleExpr)
        ensures
            r == SimpleExpr::Binary(Box::new(self), BinOper::Div, Box::new(right)),
    {
        self.binary(BinOper::Div, right)
    }

    /// `self IN (values...)`.
    pub fn is_in(self, values: Vec<Value>) -> (r: SimpleExpr)
        ensures
            r == SimpleExpr::Binary(Box::new(self), BinOper::In, Box::new(SimpleExpr::Values(values))),
    {
        self.binary(BinOper::In, SimpleExpr::Values(values))
    }

    /// `self NOT IN (values...)`.
    pub fn is_not_in(self, values: Vec<Value>) -> (r: SimpleExpr)
        ensures
            r == SimpleExpr::Binary(Box::new(self), BinOper::NotIn, Box::new(SimpleExpr::Values(values))),
    {
        self.binary(BinOper::NotIn, SimpleExpr::Values(values))
    }

    /// `self IS NULL`.
    pub fn is_null(self) -> (r: SimpleExpr)
        ensures
            r == SimpleExpr::Binary(Box::new(self), BinOper::Is, Box::new(SimpleExpr::Keyword(Keyword::Null))),
    {
        self.binary(BinOper::Is, SimpleExpr::Keyword(Keyword::Null))
    }

    /// `self IS NOT NULL`.
    pub fn is_not_null(self) -> (r: SimpleExpr)
        ensures
            r == SimpleExpr::Binary(Box::new(self), BinOper::IsNot, Box::new(SimpleExpr::Keyword(Keyword::Null))),
    {
        self.binary(BinOper::IsNot, SimpleExpr::Keyword(Keyword::Null))
    }

    /// `self BETWEEN a AND b`.
    pub fn between(self, a: SimpleExpr, b: SimpleExpr) -> (r: SimpleExpr)
        ensures
            r == SimpleExpr::Binary(
                Box::new(self),
                BinOper::Between,
                Box::new(SimpleExpr::Binary(Box::new(a), BinOper::And, Box::new(b))),
            ),
    {
        self.binary(BinOper::Between, SimpleExpr::Binary(Box::new(a), BinOper::And, Box::new(b)))
    }

    /// `NOT self`.
    pub fn not(self) -> (r: SimpleExpr)
        ensures
            r == SimpleExpr::Unary(UnOper::Not, Box::new(self)),
    {
        SimpleExpr::Unary(UnOper::Not, Box::new(self))
    }

    /// `MAX(self)`.
    pub fn max(self) -> (r: SimpleExpr)
        ensures
            r matches SimpleExpr::FunctionCall(Function::Max, args) && args@ == seq![self],
    {
        let mut args: Vec<SimpleExpr> = Vec::new();
        args.push(self);
        SimpleExpr::FunctionCall(Function::Max, args)
    }

    /// `COUNT(self)`.
    pub fn count(self) -> (r: SimpleExpr)
        ensures
            r matches SimpleExpr::FunctionCall(Function::Count, args) && args@ == seq![self],
    {
        let mut args: Vec<SimpleExpr> = Vec::new();
        args.push(self);
        SimpleExpr::FunctionCall(Function::Count, args)
    }

    /// `CAST(self AS enum_name)` where the dialect has typed casts.
    pub fn as_enum(self, enum_name: Iden) -> (r: SimpleExpr)
        ensures
            r == SimpleExpr::AsEnum(enum_name, Box::new(self)),
    {
        SimpleExpr::AsEnum(enum_name, Box::new(self))
    }
}

/// SQLite's own binary operators.
pub trait SqliteExpr: Sized {
    /// `self GLOB right`.
    fn glob(self, right: SimpleExpr) -> (r: SimpleExpr);

    /// `self MATCH right`.
    fn matches(self, right: SimpleExpr) -> (r: SimpleExpr);

    /// `self -> right`.
    fn get_json_field(self, right: SimpleExpr) -> (r: SimpleExpr);

    /// `self ->> right`.
    fn cast_json_field(self, right: SimpleExpr) -> (r: SimpleExpr);
}

impl SqliteExpr for SimpleExpr {
    fn glob(self, right: SimpleExpr) -> (r: SimpleExpr)
        ensures
            r == SimpleExpr::Binary(Box::new(self), BinOper::Glob, Box::new(right)),
    {
        self.binary(BinOper::Glob, right)
    }

    fn matches(self, right: SimpleExpr) -> (r: SimpleExpr)
        ensures
            r == SimpleExpr::Binary(Box::new(self), BinOper::Match, Box::new(right)),
    {
        self.binary(BinOper::Match, right)
    }

    fn get_json_field(self, right: SimpleExpr) -> (r: SimpleExpr)
        ensures
            r == SimpleExpr::Binary(Box::new(self), BinOper::GetJsonField, Box::new(right)),
    {
        self.binary(BinOper::GetJsonField, right)
    }

    fn cast_json_field(self, right: SimpleExpr) -> (r: SimpleExpr)
        ensures
            r == SimpleExpr::Binary(Box::new(self), BinOper::CastJsonField, Box::new(right)),
    {
        self.binary(BinOper::CastJsonField, right)
    }
}

} // verus!
