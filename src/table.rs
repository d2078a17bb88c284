//! DDL statements: tables and indexes.
use vstd::prelude::*;
use crate::expr::SimpleExpr;
use crate::types::{Iden, TableRef};

verus! {

/// Why a statement cannot be rendered for a dialect.
#[derive(Debug, Clone, Copy, PartialEq, Eq, Structural)]
pub enum BuildError {
    /// A table reference of a kind that the statement or the dialect cannot name.
    UnsupportedTableRef,
    /// The statement names no table.
    MissingTable,
    /// The index statement names no index.
    MissingIndexName,
    /// The dialect has no form for a feature the statement uses.
    UnsupportedFeature,
}

/// Column types.
#[derive(Debug)]
pub enum ColumnType {
    Char(Option<u32>),
    String(Option<u32>),
    Text,
    SmallInteger,
    Integer,
    BigInteger,
    Boolean,
    Binary,
    Timestamp,
    Json,
    Custom(Iden),
}

/// Column constraints and attributes.
#[derive(Debug)]
pub enum ColumnSpec {
    Null,
    NotNull,
    Default(SimpleExpr),
    AutoIncrement,
    UniqueKey,
    PrimaryKey,
    Check(SimpleExpr),
    Extra(String),
}

/// A column definition of CREATE TABLE.
#[derive(Debug)]
pub struct ColumnDef {
    pub name: Iden,
    pub types: Option<ColumnType>,
    pub spec: Vec<ColumnSpec>,
}

/// Table options; only the MySQL dialect writes them.
#[derive(Debug)]
pub enum TableOpt {
    Engine(String),
    Collate(String),
    CharacterSet(String),
}

/// The kind of a key declared inside CREATE TABLE.
#[derive(Debug, Clone, Copy, PartialEq, Eq)]
pub enum IndexKind {
    PrimaryKey,
    Unique,
}

/// A key declared inside CREATE TABLE.
#[derive(Debug)]
pub struct TableIndex {
    pub name: Option<Iden>,
    pub kind: IndexKind,
    pub columns: Vec<Iden>,
}

/// What a foreign key does when the referenced row changes.
#[derive(Debug, Clone, Copy, PartialEq, Eq)]
pub enum ForeignKeyAction {
    Restrict,
    Cascade,
    SetNull,
    NoAction,
    SetDefault,
}

/// A foreign key declared inside CREATE TABLE.
#[derive(Debug)]
pub struct ForeignKey {
    pub name: Option<Iden>,
    pub columns: Vec<Iden>,
    pub ref_table: Iden,
    pub ref_columns: Vec<Iden>,
    pub on_delete: Option<ForeignKeyAction>,
    pub on_update: Option<ForeignKeyAction>,
}

/// CREATE TABLE.
#[derive(Debug)]
pub struct TableCreateStatement {
    pub table: Option<TableRef>,
    pub columns: Vec<ColumnDef>,
    pub indexes: Vec<TableIndex>,
    pub foreign_keys: Vec<ForeignKey>,
    pub check: Vec<SimpleExpr>,
    pub options: Vec<TableOpt>,
    pub if_not_exists: bool,
}

/// The suffix of DROP TABLE.
#[derive(Debug, Clone, Copy, PartialEq, Eq)]
pub enum TableDropOpt {
    Restrict,
    Cascade,
}

/// DROP TABLE over one or more tables.
#[derive(Debug)]
pub struct TableDropStatement {
    pub tables: Vec<TableRef>,
    pub options: Vec<TableDropOpt>,
    pub if_exists: bool,
}

/// TRUNCATE TABLE.
#[derive(Debug)]
pub struct TableTruncateStatement {
    pub table: Option<TableRef>,
}

/// Index methods.
#[derive(Debug)]
pub enum IndexType {
    BTree,
    FullText,
    Hash,
    Custom(Iden),
}

/// CREATE INDEX.
#[derive(Debug)]
pub struct IndexCreateStatement {
    pub table: Option<TableRef>,
    pub name: Option<Iden>,
    pub columns: Vec<Iden>,
    pub primary: bool,
    pub unique: bool,
    pub index_type: Option<IndexType>,
    pub if_not_exists: bool,
}

/// DROP INDEX.
#[derive(Debug)]
pub struct IndexDropStatement {
    pub table: Option<TableRef>,
    pub name: Option<Iden>,
}

impl TableCreateStatement {
    /// A CREATE TABLE with nothing set.
    pub fn new() -> (r: Self)
        ensures
            r.table is None,
            r.columns@.len() == 0,
            r.indexes@.len() == 0,
            r.foreign_keys@.len() == 0,
            r.check@.len() == 0,
            r.options@.len() == 0,
            !r.if_not_exists,
    {
        TableCreateStatement {
            table: None,
            columns: Vec::new(),
            indexes: Vec::new(),
            foreign_keys: Vec::new(),
            check: Vec::new(),
            options: Vec::new(),
            if_not_exists: false,
        }
    }
}

impl TableDropStatement {
    /// A DROP TABLE with no table yet.
    pub fn new() -> (r: Self)
        ensures
            r.tables@.len() == 0,
            r.options@.len() == 0,
            !r.if_exists,
    {
        TableDropStatement { tables: Vec::new(), options: Vec::new(), if_exists: false }
    }

    /// Adds a table to drop.
    pub fn table(&mut self, t: TableRef)
        ensures
            final(self).tables@ == old(self).tables@.push(t),
            final(self).options == old(self).options,
            final(self).if_exists == old(self).if_exists,
    {
        self.tables.push(t);
    }

    /// Ends the statement with CASCADE.
    pub fn cascade(&mut self)
        ensures
            final(self).options@ == old(self).options@.push(TableDropOpt::Cascade),
            final(self).tables == old(self).tables,
            final(self).if_exists == old(self).if_exists,
    {
        self.options.push(TableDropOpt::Cascade);
    }

    /// Ends the statement with RESTRICT.
    pub fn restrict(&mut self)
        ensures
            final(self).options@ == old(self).options@.push(TableDropOpt::Restrict),
            final(self).tables == old(self).tables,
            final(self).if_exists == old(self).if_exists,
    {
        self.options.push(TableDropOpt::Restrict);
    }
}

} // verus!
