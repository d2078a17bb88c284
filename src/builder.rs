//! The three dialect builders and the capabilities they share.
use vstd::prelude::*;
use crate::backend::write_table_name;
use crate::expr::SimpleExpr;
use crate::index::{
    index_create_error, index_create_sql, index_drop_error, index_drop_sql, index_prefix_sql, index_table_ok,
    index_table_supported, pg_index_type_sql, write_index_create, write_index_drop, write_index_prefix,
    write_pg_index_type,
};
use crate::render::{table_ref_sql, Dialect};
use crate::table::{
    BuildError, ColumnDef, ColumnSpec, ColumnType, IndexCreateStatement, IndexDropStatement, IndexType,
    TableCreateStatement, TableDropOpt, TableDropStatement, TableOpt, TableTruncateStatement,
};
use crate::table_builder::{
    auto_increment_keyword, auto_increment_sql, check_sql, column_def_sql, column_spec_sql, column_type_sql,
    create_error, create_sql, ddl_table_ok, ddl_table_sql, ddl_table_supported, drop_error, drop_opt_sql, drop_sql,
    table_opt_sql, truncate_error, truncate_sql, write_check, write_column_def, write_column_spec, write_column_type,
    write_ddl_table, write_table_create, write_table_drop, write_table_drop_opt, write_table_opt,
    write_table_truncate,
};
use crate::types::TableRef;

verus! {

/// The MySQL dialect: backquoted names, `?` placeholders.
pub struct MysqlQueryBuilder;

/// The Postgres dialect: double-quoted names, `$1`, `$2`, ... placeholders.
pub struct PostgresQueryBuilder;

/// The SQLite dialect: backquoted names, `?` placeholders.
pub struct SqliteQueryBuilder;

/// A builder for one dialect.
pub trait QueryBuilder {
    spec fn spec_dialect(&self) -> Dialect;

    /// The dialect this builder writes.
    fn dialect(&self) -> (d: Dialect)
        ensures
            d == self.spec_dialect(),
    ;
}

impl QueryBuilder for MysqlQueryBuilder {
    open spec fn spec_dialect(&self) -> Dialect {
        Dialect::MySql
    }

    fn dialect(&self) -> (d: Dialect) {
        Dialect::MySql
    }
}

impl QueryBuilder for PostgresQueryBuilder {
    open spec fn spec_dialect(&self) -> Dialect {
        Dialect::Postgres
    }

    fn dialect(&self) -> (d: Dialect) {
        Dialect::Postgres
    }
}

impl QueryBuilder for SqliteQueryBuilder {
    open spec fn spec_dialect(&self) -> Dialect {
        Dialect::Sqlite
    }

    fn dialect(&self) -> (d: Dialect) {
        Dialect::Sqlite
    }
}

/// Table DDL: each statement is written in full, or not at all and an error
/// comes back.
pub trait TableBuilder: QueryBuilder {
    /// Writes the name of the table of a DDL statement, or nothing and an error
    /// when the dialect cannot name it there.
    fn prepare_table_ref_table_stmt(&self, table_ref: &TableRef, sql: &mut String) -> (r: Result<(), BuildError>)
        ensures
            match r {
                Ok(()) => ddl_table_ok(self.spec_dialect(), *table_ref)
                    && final(sql)@ == old(sql)@ + ddl_table_sql(self.spec_dialect(), *table_ref),
                Err(e) => !ddl_table_ok(self.spec_dialect(), *table_ref) && e == BuildError::UnsupportedTableRef
                    && final(sql)@ == old(sql)@,
            },
    {
        if ddl_table_supported(self.dialect(), table_ref) {
            write_ddl_table(self.dialect(), table_ref, sql);
            Ok(())
        } else {
            Err(BuildError::UnsupportedTableRef)
        }
    }

    fn prepare_column_def(&self, column_def: &ColumnDef, sql: &mut String)
        ensures
            final(sql)@ == old(sql)@ + column_def_sql(self.spec_dialect(), *column_def),
    {
        write_column_def(self.dialect(), column_def, sql)
    }

    fn prepare_column_type(&self, column_type: &ColumnType, sql: &mut String)
        ensures
            final(sql)@ == old(sql)@ + column_type_sql(self.spec_dialect(), *column_type),
    {
        write_column_type(self.dialect(), column_type, sql)
    }

    fn prepare_column_spec(&self, column_spec: &ColumnSpec, sql: &mut String)
        ensures
            final(sql)@ == old(sql)@ + column_spec_sql(self.spec_dialect(), *column_spec),
    {
        write_column_spec(self.dialect(), column_spec, sql)
    }

    fn column_spec_auto_increment_keyword(&self) -> (r: &'static str)
        ensures
            r@ == auto_increment_sql(self.spec_dialect()),
    {
        auto_increment_keyword(self.dialect())
    }

    fn prepare_table_opt(&self, table_opt: &TableOpt, sql: &mut String)
        ensures
            final(sql)@ == old(sql)@ + table_opt_sql(*table_opt),
    {
        write_table_opt(table_opt, sql)
    }

    fn prepare_table_drop_opt(&self, drop_opt: &TableDropOpt, sql: &mut String)
        ensures
            final(sql)@ == old(sql)@ + drop_opt_sql(*drop_opt),
    {
        write_table_drop_opt(*drop_opt, sql)
    }

    fn prepare_check_constraint(&self, check: &SimpleExpr, sql: &mut String)
        ensures
            final(sql)@ == old(sql)@ + check_sql(self.spec_dialect(), *check),
    {
        write_check(self.dialect(), check, sql)
    }

    fn prepare_table_create_statement(&self, create: &TableCreateStatement, sql: &mut String) -> (r: Result<(), BuildError>)
        ensures
            match r {
                Ok(()) => create_error(self.spec_dialect(), *create) is None
                    && final(sql)@ == old(sql)@ + create_sql(self.spec_dialect(), *create),
                Err(e) => create_error(self.spec_dialect(), *create) == Some(e) && final(sql)@ == old(sql)@,
            },
    {
        write_table_create(self.dialect(), create, sql)
    }

    fn prepare_table_drop_statement(&self, drop: &TableDropStatement, sql: &mut String) -> (r: Result<(), BuildError>)
        ensures
            match r {
                Ok(()) => drop_error(self.spec_dialect(), *drop) is None
                    && final(sql)@ == old(sql)@ + drop_sql(self.spec_dialect(), *drop),
                Err(e) => drop_error(self.spec_dialect(), *drop) == Some(e) && final(sql)@ == old(sql)@,
            },
    {
        write_table_drop(self.dialect(), drop, sql)
    }

    fn prepare_table_truncate_statement(&self, truncate: &TableTruncateStatement, sql: &mut String) -> (r: Result<(), BuildError>)
        ensures
            match r {
                Ok(()) => truncate_error(self.spec_dialect(), *truncate) is None
                    && final(sql)@ == old(sql)@ + truncate_sql(self.spec_dialect(), *truncate),
                Err(e) => truncate_error(self.spec_dialect(), *truncate) == Some(e) && final(sql)@ == old(sql)@,
            },
    {
        write_table_truncate(self.dialect(), truncate, sql)
    }
}

/// Index DDL: each statement is written in full, or not at all and an error
/// comes back.
pub trait IndexBuilder: QueryBuilder {
    /// Writes the table of an index statement, or nothing and an error when the
    /// dialect cannot name it there.
    fn prepare_table_ref_index_stmt(&self, table_ref: &TableRef, sql: &mut String) -> (r: Result<(), BuildError>)
        ensures
            match r {
                Ok(()) => index_table_ok(self.spec_dialect(), *table_ref)
                    && final(sql)@ == old(sql)@ + table_ref_sql(self.spec_dialect(), true, *table_ref, 0),
                Err(e) => !index_table_ok(self.spec_dialect(), *table_ref) && e == BuildError::UnsupportedTableRef
                    && final(sql)@ == old(sql)@,
            },
    {
        if index_table_supported(self.dialect(), table_ref) {
            write_table_name(self.dialect(), table_ref, sql);
            Ok(())
        } else {
            Err(BuildError::UnsupportedTableRef)
        }
    }

    fn prepare_index_prefix(&self, create: &IndexCreateStatement, sql: &mut String)
        ensures
            final(sql)@ == old(sql)@ + index_prefix_sql(self.spec_dialect(), *create),
    {
        write_index_prefix(self.dialect(), create, sql)
    }

    /// Writes the index method that stands before the column list.
    fn prepare_index_type(&self, index_type: &Option<IndexType>, sql: &mut String)
        ensures
            final(sql)@ == old(sql)@ + pg_index_type_sql(self.spec_dialect(), *index_type),
    {
        write_pg_index_type(self.dialect(), index_type, sql)
    }

    fn prepare_index_create_statement(&self, create: &IndexCreateStatement, sql: &mut String) -> (r: Result<(), BuildError>)
        ensures
            match r {
                Ok(()) => index_create_error(self.spec_dialect(), *create) is None
                    && final(sql)@ == old(sql)@ + index_create_sql(self.spec_dialect(), *create),
                Err(e) => index_create_error(self.spec_dialect(), *create) == Some(e) && final(sql)@ == old(sql)@,
            },
    {
        write_index_create(self.dialect(), create, sql)
    }

    fn prepare_index_drop_statement(&self, drop: &IndexDropStatement, sql: &mut String) -> (r: Result<(), BuildError>)
        ensures
            match r {
                Ok(()) => index_drop_error(self.spec_dialect(), *drop) is None
                    && final(sql)@ == old(sql)@ + index_drop_sql(self.spec_dialect(), *drop),
                Err(e) => index_drop_error(self.spec_dialect(), *drop) == Some(e) && final(sql)@ == old(sql)@,
            },
    {
        write_index_drop(self.dialect(), drop, sql)
    }
}

impl TableBuilder for MysqlQueryBuilder {}

impl TableBuilder for PostgresQueryBuilder {}

impl TableBuilder for SqliteQueryBuilder {}

impl IndexBuilder for MysqlQueryBuilder {}

impl IndexBuilder for PostgresQueryBuilder {}

impl IndexBuilder for SqliteQueryBuilder {}

} // verus!
