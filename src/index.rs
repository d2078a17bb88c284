//! Rendering of CREATE INDEX and DROP INDEX for each dialect.
use vstd::prelude::*;
use crate::backend::{write_iden, write_idens, write_table_name};
use crate::render::{idens_sql, iden_sql, table_ref_sql, Dialect};
use crate::table::{BuildError, IndexCreateStatement, IndexDropStatement, IndexType};
use crate::types::{Iden, TableRef};

verus! {

/// A table reference that an index statement of dialect `d` can name.
pub open spec fn index_table_ok(d: Dialect, t: TableRef) -> bool {
    match t {
        TableRef::Table(_) => true,
        TableRef::SchemaTable(_, _) => d != Dialect::Sqlite,
        _ => false,
    }
}

/// The index name followed by a space; Postgres lets an index go unnamed.
pub open spec fn index_name_sql(d: Dialect, name: Option<Iden>) -> Seq<char> {
    match name {
        Some(n) => iden_sql(d, n) + " "@,
        None => Seq::empty(),
    }
}

pub open spec fn index_create_error(d: Dialect, c: IndexCreateStatement) -> Option<BuildError> {
    if c.name is None && d != Dialect::Postgres {
        Some(BuildError::MissingIndexName)
    } else if c.table is None {
        Some(BuildError::MissingTable)
    } else if !index_table_ok(d, c.table->0) {
        Some(BuildError::UnsupportedTableRef)
    } else if d != Dialect::Postgres && c.primary {
        Some(BuildError::UnsupportedFeature)
    } else if d == Dialect::MySql && (c.if_not_exists || c.index_type matches Some(IndexType::Custom(_))) {
        Some(BuildError::UnsupportedFeature)
    } else if d == Dialect::Sqlite && c.index_type is Some {
        Some(BuildError::UnsupportedFeature)
    } else {
        None
    }
}

/// `PRIMARY KEY `, `UNIQUE ` and, for a MySQL full-text index, `FULLTEXT `.
pub open spec fn index_prefix_sql(d: Dialect, c: IndexCreateStatement) -> Seq<char> {
    (if c.primary { "PRIMARY KEY "@ } else { Seq::empty() })
        + (if c.unique { "UNIQUE "@ } else { Seq::empty() })
        + (if d == Dialect::MySql && c.index_type matches Some(IndexType::FullText) { "FULLTEXT "@ } else { Seq::empty() })
}

/// The index method of Postgres, before the column list.
pub open spec fn pg_index_type_sql(d: Dialect, t: Option<IndexType>) -> Seq<char> {
    if d != Dialect::Postgres {
        Seq::empty()
    } else {
        match t {
            Some(IndexType::BTree) => " USING BTREE"@,
            Some(IndexType::FullText) => " USING GIN"@,
            Some(IndexType::Hash) => " USING HASH"@,
            Some(IndexType::Custom(name)) => " USING "@ + name.name@,
            None => Seq::empty(),
        }
    }
}

/// The index method of MySQL, after the column list.
pub open spec fn mysql_index_type_sql(d: Dialect, t: Option<IndexType>) -> Seq<char> {
    if d != Dialect::MySql {
        Seq::empty()
    } else {
        match t {
            Some(IndexType::BTree) => " USING BTREE"@,
            Some(IndexType::Hash) => " USING HASH"@,
            _ => Seq::empty(),
        }
    }
}

/// CREATE INDEX up to the table name.
pub open spec fn index_head_sql(d: Dialect, c: IndexCreateStatement) -> Seq<char> {
    "CREATE "@ + index_prefix_sql(d, c) + "INDEX "@ + (if c.if_not_exists { "IF NOT EXISTS "@ } else { Seq::empty() })
        + index_name_sql(d, c.name) + "ON "@
}

/// CREATE INDEX after the table name.
pub open spec fn index_tail_sql(d: Dialect, c: IndexCreateStatement) -> Seq<char> {
    pg_index_type_sql(d, c.index_type) + " ("@ + idens_sql(d, c.columns@) + ")"@ + mysql_index_type_sql(d, c.index_type)
}

pub open spec fn index_create_sql(d: Dialect, c: IndexCreateStatement) -> Seq<char> {
    "CREATE "@ + index_prefix_sql(d, c) + "INDEX "@ + (if c.if_not_exists { "IF NOT EXISTS "@ } else { Seq::empty() })
        + index_name_sql(d, c.name) + "ON "@ + table_ref_sql(d, true, c.table->0, 0)
        + pg_index_type_sql(d, c.index_type) + " ("@ + idens_sql(d, c.columns@) + ")"@
        + mysql_index_type_sql(d, c.index_type)
}

pub open spec fn index_drop_error(d: Dialect, s: IndexDropStatement) -> Option<BuildError> {
    if s.name is None {
        Some(BuildError::MissingIndexName)
    } else {
        match s.table {
            None => if d == Dialect::MySql { Some(BuildError::MissingTable) } else { None },
            Some(TableRef::Table(_)) | Some(TableRef::SchemaTable(_, _)) => None,
            Some(_) => Some(BuildError::UnsupportedTableRef),
        }
    }
}

pub open spec fn index_drop_sql(d: Dialect, s: IndexDropStatement) -> Seq<char> {
    if d == Dialect::MySql {
        "DROP INDEX "@ + iden_sql(d, s.name->0) + " ON "@ + table_ref_sql(d, true, s.table->0, 0)
    } else {
        "DROP INDEX "@ + match s.table {
            Some(TableRef::SchemaTable(schema, _)) => iden_sql(d, schema) + "."@,
            _ => Seq::empty(),
        } + iden_sql(d, s.name->0)
    }
}

/// Whether an index statement of dialect `d` can name the table.
pub fn index_table_supported(d: Dialect, t: &TableRef) -> (r: bool)
    ensures
        r == index_table_ok(d, *t),
{
    match t {
        TableRef::Table(_) => true,
        TableRef::SchemaTable(_, _) => !matches!(d, Dialect::Sqlite),
        _ => false,
    }
}

fn index_create_check(d: Dialect, c: &IndexCreateStatement) -> (r: Option<BuildError>)
    ensures
        r == index_create_error(d, *c),
{
    if c.name.is_none() && !matches!(d, Dialect::Postgres) {
        return Some(BuildError::MissingIndexName);
    }
    let ok = match &c.table {
        None => return Some(BuildError::MissingTable),
        Some(TableRef::Table(_)) => true,
        Some(TableRef::SchemaTable(_, _)) => !matches!(d, Dialect::Sqlite),
        Some(_) => false,
    };
    if !ok {
        return Some(BuildError::UnsupportedTableRef);
    }
    if !matches!(d, Dialect::Postgres) && c.primary {
        return Some(BuildError::UnsupportedFeature);
    }
    if matches!(d, Dialect::MySql) && (c.if_not_exists || matches!(c.index_type, Some(IndexType::Custom(_)))) {
        return Some(BuildError::UnsupportedFeature);
    }
    if matches!(d, Dialect::Sqlite) && c.index_type.is_some() {
        return Some(BuildError::UnsupportedFeature);
    }
    None
}

pub fn write_index_prefix(d: Dialect, c: &IndexCreateStatement, sql: &mut String)
    ensures
        final(sql)@ == old(sql)@ + index_prefix_sql(d, *c),
{
    if c.primary {
        sql.append("PRIMARY KEY ");
    }
    if c.unique {
        sql.append("UNIQUE ");
    }
    if matches!(d, Dialect::MySql) && matches!(c.index_type, Some(IndexType::FullText)) {
        sql.append("FULLTEXT ");
    }
    assert(final(sql)@ =~= old(sql)@ + index_prefix_sql(d, *c));
}

pub fn write_pg_index_type(d: Dialect, t: &Option<IndexType>, sql: &mut String)
    ensures
        final(sql)@ == old(sql)@ + pg_index_type_sql(d, *t),
{
    if matches!(d, Dialect::Postgres) {
        match t {
            Some(IndexType::BTree) => sql.append(" USING BTREE"),
            Some(IndexType::FullText) => sql.append(" USING GIN"),
            Some(IndexType::Hash) => sql.append(" USING HASH"),
            Some(IndexType::Custom(name)) => {
                sql.append(" USING ");
                sql.append(name.name.as_str());
            },
            None => {},
        }
    }
    assert(final(sql)@ =~= old(sql)@ + pg_index_type_sql(d, *t));
}

fn write_mysql_index_type(d: Dialect, t: &Option<IndexType>, sql: &mut String)
    ensures
        final(sql)@ == old(sql)@ + mysql_index_type_sql(d, *t),
{
    if matches!(d, Dialect::MySql) {
        match t {
            Some(IndexType::BTree) => sql.append(" USING BTREE"),
            Some(IndexType::Hash) => sql.append(" USING HASH"),
            _ => {},
        }
    }
    assert(final(sql)@ =~= old(sql)@ + mysql_index_type_sql(d, *t));
}

#[verifier::rlimit(60)]
fn write_index_head(d: Dialect, c: &IndexCreateStatement, sql: &mut String)
    ensures
        final(sql)@ == old(sql)@ + index_head_sql(d, *c),
{
    sql.append("CREATE ");
    write_index_prefix(d, c, sql);
    sql.append("INDEX ");
    if c.if_not_exists {
        sql.append("IF NOT EXISTS ");
    }
    match &c.name {
        Some(name) => {
            write_iden(d, name, sql);
            sql.append(" ");
        },
        None => {},
    }
    sql.append("ON ");
    assert(final(sql)@ =~= old(sql)@ + index_head_sql(d, *c));
}

#[verifier::rlimit(60)]
fn write_index_tail(d: Dialect, c: &IndexCreateStatement, sql: &mut String)
    ensures
        final(sql)@ == old(sql)@ + index_tail_sql(d, *c),
{
    write_pg_index_type(d, &c.index_type, sql);
    sql.append(" (");
    write_idens(d, &c.columns, sql);
    sql.append(")");
    write_mysql_index_type(d, &c.index_type, sql);
    assert(final(sql)@ =~= old(sql)@ + index_tail_sql(d, *c));
}

/// Writes CREATE INDEX, or nothing and the error when the statement lacks a
/// name or table, or uses what the dialect cannot express.
#[verifier::rlimit(60)]
pub fn write_index_create(d: Dialect, c: &IndexCreateStatement, sql: &mut String) -> (r: Result<(), BuildError>)
    ensures
        match r {
            Ok(()) => index_create_error(d, *c) is None && final(sql)@ == old(sql)@ + index_create_sql(d, *c),
            Err(e) => index_create_error(d, *c) == Some(e) && final(sql)@ == old(sql)@,
        },
{
    match index_create_check(d, c) {
        Some(e) => return Err(e),
        None => {},
    }
    let table = match &c.table {
        Some(t) => t,
        None => return Err(BuildError::MissingTable),
    };
    let ghost t0 = sql@;
    write_index_head(d, c, sql);
    let ghost t1 = sql@;
    write_table_name(d, table, sql);
    let ghost t2 = sql@;
    write_index_tail(d, c, sql);
    proof {
        let a = index_head_sql(d, *c);
        let b = table_ref_sql(d, true, *table, 0);
        let e = index_tail_sql(d, *c);
        assert(t1 == t0 + a);
        assert(t2 == t1 + b);
        assert(sql@ == t2 + e);
        assert(index_create_sql(d, *c) =~= a + b + e);
        assert(t0 + a + b + e =~= t0 + (a + b + e));
    }
    Ok(())
}

/// Writes DROP INDEX, or nothing and the error when the statement lacks a name,
/// or (MySQL) a table, or names a table the dialect cannot.
#[verifier::rlimit(60)]
pub fn write_index_drop(d: Dialect, s: &IndexDropStatement, sql: &mut String) -> (r: Result<(), BuildError>)
    ensures
        match r {
            Ok(()) => index_drop_error(d, *s) is None && final(sql)@ == old(sql)@ + index_drop_sql(d, *s),
            Err(e) => index_drop_error(d, *s) == Some(e) && final(sql)@ == old(sql)@,
        },
{
    let name = match &s.name {
        Some(n) => n,
        None => return Err(BuildError::MissingIndexName),
    };
    match &s.table {
        None => if matches!(d, Dialect::MySql) {
            return Err(BuildError::MissingTable);
        },
        Some(TableRef::Table(_)) | Some(TableRef::SchemaTable(_, _)) => {},
        Some(_) => return Err(BuildError::UnsupportedTableRef),
    }
    sql.append("DROP INDEX ");
    if matches!(d, Dialect::MySql) {
        write_iden(d, name, sql);
        sql.append(" ON ");
        match &s.table {
            Some(t) => {
                let ghost t1 = sql@;
                write_table_name(d, t, sql);
                assert(sql@ == t1 + table_ref_sql(d, true, *t, 0));
            },
            None => {},
        }
    } else {
        match &s.table {
            Some(TableRef::SchemaTable(schema, _)) => {
                write_iden(d, schema, sql);
                sql.append(".");
            },
            _ => {},
        }
        write_iden(d, name, sql);
    }
    assert(final(sql)@ =~= old(sql)@ + index_drop_sql(d, *s));
    Ok(())
}

impl IndexCreateStatement {
    /// Renders the statement for the dialect `d`.
    pub fn build(&self, d: Dialect) -> (r: Result<String, BuildError>)
        ensures
            match r {
                Ok(s) => index_create_error(d, *self) is None && s@ == index_create_sql(d, *self),
                Err(e) => index_create_error(d, *self) == Some(e),
            },
    {
        let mut sql = String::new();
        match write_index_create(d, self, &mut sql) {
            Ok(()) => {
                assert(sql@ =~= index_create_sql(d, *self));
                Ok(sql)
            },
            Err(e) => Err(e),
        }
    }
}

impl IndexDropStatement {
    /// Renders the statement for the dialect `d`.
    pub fn build(&self, d: Dialect) -> (r: Result<String, BuildError>)
        ensures
            match r {
                Ok(s) => index_drop_error(d, *self) is None && s@ == index_drop_sql(d, *self),
                Err(e) => index_drop_error(d, *self) == Some(e),
            },
    {
        let mut sql = String::new();
        match write_index_drop(d, self, &mut sql) {
            Ok(()) => {
                assert(sql@ =~= index_drop_sql(d, *self));
                Ok(sql)
            },
            Err(e) => Err(e),
        }
    }
}

} // verus!
