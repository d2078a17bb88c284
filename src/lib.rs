//! A relational query AST with verified renderers for three SQL dialects.
//!
//! Statements are built with mutating builder methods, then rendered for one
//! dialect to SQL text and the list of values to bind, in placeholder order.
//! What each renderer writes is stated by the spec functions of `render`,
//! `table_builder` and `index`.
pub mod backend;
pub mod builder;
pub mod condition;
pub mod expr;
pub mod index;
pub mod laws;
pub mod naming;
pub mod render;
pub mod select;
pub mod table;
pub mod table_builder;
pub mod text;
pub mod traversal;
pub mod types;
pub mod value;

pub use builder::{IndexBuilder, MysqlQueryBuilder, PostgresQueryBuilder, QueryBuilder, SqliteQueryBuilder, TableBuilder};
pub use condition::{Condition, ConditionExpression, ConditionHolder, ConditionType, LogicalChainOper};
pub use expr::{BinOper, Expr, Function, Keyword, SimpleExpr, SqliteExpr, UnOper};
pub use render::Dialect;
pub use select::{JoinExpr, Query, SelectDistinct, SelectExpr, SelectStatement};
pub use table::{
    BuildError, ColumnDef, ColumnSpec, ColumnType, ForeignKey, ForeignKeyAction, IndexCreateStatement,
    IndexDropStatement, IndexKind, IndexType, TableCreateStatement, TableDropOpt, TableDropStatement, TableIndex,
    TableOpt, TableTruncateStatement,
};
pub use types::{ColumnRef, Iden, JoinOn, JoinType, Order, OrderExpr, TableRef};
pub use value::Value;
