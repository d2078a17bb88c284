//! Rendering of DDL statements for each dialect.
use vstd::prelude::*;
use crate::backend::{write_expr, write_iden, write_idens, write_table_name};
use crate::expr::SimpleExpr;
use crate::render::{decimal, expr_sql, idens_sql, iden_sql, table_ref_sql, Dialect};
use crate::table::{
    BuildError, ColumnDef, ColumnSpec, ColumnType, ForeignKey, ForeignKeyAction, IndexKind,
    TableCreateStatement, TableDropOpt, TableDropStatement, TableIndex, TableOpt,
    TableTruncateStatement,
};
use crate::text::write_decimal;
use crate::types::{Iden, TableRef};
use crate::value::Value;

verus! {

/// Pieces joined by `", "`.
pub open spec fn join_comma(ps: Seq<Seq<char>>) -> Seq<char>
    decreases ps.len(),
{
    if ps.len() == 0 {
        Seq::empty()
    } else if ps.len() == 1 {
        ps[0]
    } else {
        join_comma(ps.subrange(0, ps.len() - 1)) + ", "@ + ps[ps.len() - 1]
    }
}

/// A table reference that a DDL statement of dialect `d` can name: a table,
/// schema-qualified, or (Postgres only) database-and-schema-qualified.
pub open spec fn ddl_table_ok(d: Dialect, t: TableRef) -> bool {
    match t {
        TableRef::Table(_) | TableRef::SchemaTable(_, _) => true,
        TableRef::DatabaseSchemaTable(_, _, _) => d == Dialect::Postgres,
        _ => false,
    }
}

/// A table name as DDL writes it.
pub open spec fn ddl_table_sql(d: Dialect, t: TableRef) -> Seq<char> {
    table_ref_sql(d, true, t, 0)
}

/// An expression inside DDL: values are written as literals.
pub open spec fn ddl_expr_sql(d: Dialect, e: SimpleExpr) -> Seq<char> {
    expr_sql(d, true, e, 0)
}

pub open spec fn column_type_sql(d: Dialect, t: ColumnType) -> Seq<char> {
    match t {
        ColumnType::Char(Some(n)) => "char("@ + decimal(n as nat) + ")"@,
        ColumnType::Char(None) => "char"@,
        ColumnType::String(Some(n)) => "varchar("@ + decimal(n as nat) + ")"@,
        ColumnType::String(None) => if d == Dialect::MySql { "varchar(255)"@ } else { "varchar"@ },
        ColumnType::Text => "text"@,
        ColumnType::SmallInteger => "smallint"@,
        ColumnType::Integer => if d == Dialect::MySql { "int"@ } else { "integer"@ },
        ColumnType::BigInteger => "bigint"@,
        ColumnType::Boolean => if d == Dialect::Sqlite { "boolean"@ } else { "bool"@ },
        ColumnType::Binary => if d == Dialect::Postgres { "bytea"@ } else { "blob"@ },
        ColumnType::Timestamp => "timestamp"@,
        ColumnType::Json => if d == Dialect::Sqlite { "text"@ } else { "json"@ },
        ColumnType::Custom(name) => name.name@,
    }
}

/// The keyword that makes a column auto-incrementing.
pub open spec fn auto_increment_sql(d: Dialect) -> Seq<char> {
    match d {
        Dialect::MySql => "AUTO_INCREMENT"@,
        Dialect::Sqlite => "AUTOINCREMENT"@,
        Dialect::Postgres => "GENERATED BY DEFAULT AS IDENTITY"@,
    }
}

pub open spec fn check_sql(d: Dialect, e: SimpleExpr) -> Seq<char> {
    "CHECK ("@ + ddl_expr_sql(d, e) + ")"@
}

pub open spec fn column_spec_sql(d: Dialect, s: ColumnSpec) -> Seq<char> {
    match s {
        ColumnSpec::Null => "NULL"@,
        ColumnSpec::NotNull => "NOT NULL"@,
        ColumnSpec::Default(e) => "DEFAULT "@ + ddl_expr_sql(d, e),
        ColumnSpec::AutoIncrement => auto_increment_sql(d),
        ColumnSpec::UniqueKey => "UNIQUE"@,
        ColumnSpec::PrimaryKey => "PRIMARY KEY"@,
        ColumnSpec::Check(e) => check_sql(d, e),
        ColumnSpec::Extra(text) => text@,
    }
}

/// Each column spec preceded by a space.
pub open spec fn column_specs_sql(d: Dialect, ss: Seq<ColumnSpec>) -> Seq<char>
    decreases ss.len(),
{
    if ss.len() == 0 {
        Seq::empty()
    } else {
        column_specs_sql(d, ss.subrange(0, ss.len() - 1)) + " "@ + column_spec_sql(d, ss[ss.len() - 1])
    }
}

pub open spec fn column_def_sql(d: Dialect, c: ColumnDef) -> Seq<char> {
    iden_sql(d, c.name) + match c.types {
        Some(t) => " "@ + column_type_sql(d, t),
        None => Seq::empty(),
    } + column_specs_sql(d, c.spec@)
}

pub open spec fn constraint_name_sql(d: Dialect, name: Option<Iden>) -> Seq<char> {
    match name {
        Some(n) => "CONSTRAINT "@ + iden_sql(d, n) + " "@,
        None => Seq::empty(),
    }
}

pub open spec fn table_index_sql(d: Dialect, i: TableIndex) -> Seq<char> {
    constraint_name_sql(d, i.name) + match i.kind {
        IndexKind::PrimaryKey => "PRIMARY KEY"@,
        IndexKind::Unique => "UNIQUE"@,
    } + " ("@ + idens_sql(d, i.columns@) + ")"@
}

pub open spec fn fk_action_sql(a: ForeignKeyAction) -> Seq<char> {
    match a {
        ForeignKeyAction::Restrict => "RESTRICT"@,
        ForeignKeyAction::Cascade => "CASCADE"@,
        ForeignKeyAction::SetNull => "SET NULL"@,
        ForeignKeyAction::NoAction => "NO ACTION"@,
        ForeignKeyAction::SetDefault => "SET DEFAULT"@,
    }
}

pub open spec fn fk_rule_sql(kw: Seq<char>, a: Option<ForeignKeyAction>) -> Seq<char> {
    match a {
        Some(x) => " "@ + kw + " "@ + fk_action_sql(x),
        None => Seq::empty(),
    }
}

pub open spec fn foreign_key_sql(d: Dialect, f: ForeignKey) -> Seq<char> {
    constraint_name_sql(d, f.name) + "FOREIGN KEY ("@ + idens_sql(d, f.columns@) + ") REFERENCES "@
        + iden_sql(d, f.ref_table) + " ("@ + idens_sql(d, f.ref_columns@) + ")"@
        + fk_rule_sql("ON DELETE"@, f.on_delete) + fk_rule_sql("ON UPDATE"@, f.on_update)
}

/// The parts inside the parentheses of CREATE TABLE: columns, keys, foreign
/// keys, then checks, each in insertion order.
pub open spec fn create_pieces(d: Dialect, c: TableCreateStatement) -> Seq<Seq<char>> {
    c.columns@.map_values(|x: ColumnDef| column_def_sql(d, x))
        + c.indexes@.map_values(|x: TableIndex| table_index_sql(d, x))
        + c.foreign_keys@.map_values(|x: ForeignKey| foreign_key_sql(d, x))
        + c.check@.map_values(|x: SimpleExpr| check_sql(d, x))
}

pub open spec fn table_opt_sql(o: TableOpt) -> Seq<char> {
    match o {
        TableOpt::Engine(s) => "ENGINE="@ + s@,
        TableOpt::Collate(s) => "COLLATE="@ + s@,
        TableOpt::CharacterSet(s) => "DEFAULT CHARSET="@ + s@,
    }
}

/// Table options, each preceded by a space; the dialects but MySQL have none.
pub open spec fn table_opts_sql(d: Dialect, os: Seq<TableOpt>) -> Seq<char>
    decreases os.len(),
{
    if d != Dialect::MySql || os.len() == 0 {
        Seq::empty()
    } else {
        table_opts_sql(d, os.subrange(0, os.len() - 1)) + " "@ + table_opt_sql(os[os.len() - 1])
    }
}

pub open spec fn create_error(d: Dialect, c: TableCreateStatement) -> Option<BuildError> {
    match c.table {
        None => Some(BuildError::MissingTable),
        Some(t) => if ddl_table_ok(d, t) { None } else { Some(BuildError::UnsupportedTableRef) },
    }
}

pub open spec fn create_sql(d: Dialect, c: TableCreateStatement) -> Seq<char> {
    "CREATE TABLE "@ + (if c.if_not_exists { "IF NOT EXISTS "@ } else { Seq::empty() })
        + ddl_table_sql(d, c.table->0) + " ( "@ + join_comma(create_pieces(d, c)) + " )"@
        + table_opts_sql(d, c.options@)
}

/// Every table of the list is one that the dialect can name in DDL.
pub open spec fn all_ddl_tables_ok(d: Dialect, ts: Seq<TableRef>) -> bool {
    forall|i: int| 0 <= i < ts.len() ==> ddl_table_ok(d, #[trigger] ts[i])
}

pub open spec fn drop_error(d: Dialect, s: TableDropStatement) -> Option<BuildError> {
    if s.tables@.len() == 0 {
        Some(BuildError::MissingTable)
    } else if !all_ddl_tables_ok(d, s.tables@) {
        Some(BuildError::UnsupportedTableRef)
    } else {
        None
    }
}

pub open spec fn drop_opt_sql(o: TableDropOpt) -> Seq<char> {
    match o {
        TableDropOpt::Restrict => " RESTRICT"@,
        TableDropOpt::Cascade => " CASCADE"@,
    }
}

pub open spec fn drop_opts_sql(os: Seq<TableDropOpt>) -> Seq<char>
    decreases os.len(),
{
    if os.len() == 0 {
        Seq::empty()
    } else {
        drop_opts_sql(os.subrange(0, os.len() - 1)) + drop_opt_sql(os[os.len() - 1])
    }
}

/// DROP TABLE: the tables separated by commas, then the options once.
pub open spec fn drop_sql(d: Dialect, s: TableDropStatement) -> Seq<char> {
    "DROP TABLE "@ + (if s.if_exists { "IF EXISTS "@ } else { Seq::empty() })
        + join_comma(s.tables@.map_values(|t: TableRef| ddl_table_sql(d, t))) + drop_opts_sql(s.options@)
}

pub open spec fn truncate_error(d: Dialect, s: TableTruncateStatement) -> Option<BuildError> {
    if d == Dialect::Sqlite {
        Some(BuildError::UnsupportedFeature)
    } else {
        match s.table {
            None => Some(BuildError::MissingTable),
            Some(t) => if ddl_table_ok(d, t) { None } else { Some(BuildError::UnsupportedTableRef) },
        }
    }
}

pub open spec fn truncate_sql(d: Dialect, s: TableTruncateStatement) -> Seq<char> {
    "TRUNCATE TABLE "@ + ddl_table_sql(d, s.table->0)
}

pub proof fn lemma_join_comma_push(ps: Seq<Seq<char>>, p: Seq<char>)
    ensures
        join_comma(ps.push(p)) == join_comma(ps) + (if ps.len() == 0 { Seq::<char>::empty() } else { ", "@ }) + p,
{
    assert(ps.push(p).subrange(0, ps.len() as int) =~= ps);
    if ps.len() == 0 {
        assert(join_comma(ps) + Seq::<char>::empty() + p =~= p);
    }
}

/// Writes an expression of a DDL statement, values as literals.
fn write_ddl_expr(d: Dialect, e: &SimpleExpr, sql: &mut String)
    ensures
        final(sql)@ == old(sql)@ + ddl_expr_sql(d, *e),
{
    let mut scratch: Vec<Value> = Vec::new();
    write_expr(d, true, e, sql, &mut scratch);
}

pub fn write_ddl_table(d: Dialect, t: &TableRef, sql: &mut String)
    requires
        ddl_table_ok(d, *t),
    ensures
        final(sql)@ == old(sql)@ + ddl_table_sql(d, *t),
{
    write_table_name(d, t, sql);
    assert(final(sql)@ == old(sql)@ + table_ref_sql(d, true, *t, 0));
}

pub fn write_column_type(d: Dialect, t: &ColumnType, sql: &mut String)
    ensures
        final(sql)@ == old(sql)@ + column_type_sql(d, *t),
{
    match t {
        ColumnType::Char(Some(n)) => {
            sql.append("char(");
            write_decimal(sql, *n as u128);
            sql.append(")");
            assert(final(sql)@ =~= old(sql)@ + column_type_sql(d, *t));
        },
        ColumnType::Char(None) => sql.append("char"),
        ColumnType::String(Some(n)) => {
            sql.append("varchar(");
            write_decimal(sql, *n as u128);
            sql.append(")");
            assert(final(sql)@ =~= old(sql)@ + column_type_sql(d, *t));
        },
        ColumnType::String(None) => match d {
            Dialect::MySql => sql.append("varchar(255)"),
            _ => sql.append("varchar"),
        },
        ColumnType::Text => sql.append("text"),
        ColumnType::SmallInteger => sql.append("smallint"),
        ColumnType::Integer => match d {
            Dialect::MySql => sql.append("int"),
            _ => sql.append("integer"),
        },
        ColumnType::BigInteger => sql.append("bigint"),
        ColumnType::Boolean => match d {
            Dialect::Sqlite => sql.append("boolean"),
            _ => sql.append("bool"),
        },
        ColumnType::Binary => match d {
            Dialect::Postgres => sql.append("bytea"),
            _ => sql.append("blob"),
        },
        ColumnType::Timestamp => sql.append("timestamp"),
        ColumnType::Json => match d {
            Dialect::Sqlite => sql.append("text"),
            _ => sql.append("json"),
        },
        ColumnType::Custom(name) => sql.append(name.name.as_str()),
    }
}

pub fn write_check(d: Dialect, e: &SimpleExpr, sql: &mut String)
    ensures
        final(sql)@ == old(sql)@ + check_sql(d, *e),
{
    sql.append("CHECK (");
    write_ddl_expr(d, e, sql);
    sql.append(")");
    assert(final(sql)@ =~= old(sql)@ + check_sql(d, *e));
}

pub fn write_column_spec(d: Dialect, s: &ColumnSpec, sql: &mut String)
    ensures
        final(sql)@ == old(sql)@ + column_spec_sql(d, *s),
{
    match s {
        ColumnSpec::Null => sql.append("NULL"),
        ColumnSpec::NotNull => sql.append("NOT NULL"),
        ColumnSpec::Default(e) => {
            sql.append("DEFAULT ");
            write_ddl_expr(d, e, sql);
            assert(final(sql)@ =~= old(sql)@ + column_spec_sql(d, *s));
        },
        ColumnSpec::AutoIncrement => sql.append(auto_increment_keyword(d)),
        ColumnSpec::UniqueKey => sql.append("UNIQUE"),
        ColumnSpec::PrimaryKey => sql.append("PRIMARY KEY"),
        ColumnSpec::Check(e) => write_check(d, e, sql),
        ColumnSpec::Extra(text) => sql.append(text.as_str()),
    }
}

#[verifier::rlimit(80)]
pub fn write_column_def(d: Dialect, c: &ColumnDef, sql: &mut String)
    ensures
        final(sql)@ == old(sql)@ + column_def_sql(d, *c),
{
    write_iden(d, &c.name, sql);
    match &c.types {
        Some(t) => {
            sql.append(" ");
            write_column_type(d, t, sql);
        },
        None => {},
    }
    let ghost t1 = sql@;
    let mut i: usize = 0;
    while i < c.spec.len()
        invariant
            i <= c.spec@.len(),
            sql@ == t1 + column_specs_sql(d, c.spec@.subrange(0, i as int)),
        decreases c.spec@.len() - i,
    {
        sql.append(" ");
        write_column_spec(d, &c.spec[i], sql);
        proof {
            let p = c.spec@.subrange(0, i + 1);
            assert(p.subrange(0, i as int) =~= c.spec@.subrange(0, i as int));
            assert(sql@ =~= t1 + column_specs_sql(d, p));
        }
        i = i + 1;
    }
    assert(c.spec@.subrange(0, c.spec@.len() as int) =~= c.spec@);
    assert(final(sql)@ =~= old(sql)@ + column_def_sql(d, *c));
}

fn write_constraint_name(d: Dialect, name: &Option<Iden>, sql: &mut String)
    ensures
        final(sql)@ == old(sql)@ + constraint_name_sql(d, *name),
{
    match name {
        Some(n) => {
            sql.append("CONSTRAINT ");
            write_iden(d, n, sql);
            sql.append(" ");
            assert(final(sql)@ =~= old(sql)@ + constraint_name_sql(d, *name));
        },
        None => {
            assert(final(sql)@ =~= old(sql)@ + constraint_name_sql(d, *name));
        },
    }
}

#[verifier::rlimit(60)]
fn write_table_index(d: Dialect, i: &TableIndex, sql: &mut String)
    ensures
        final(sql)@ == old(sql)@ + table_index_sql(d, *i),
{
    write_constraint_name(d, &i.name, sql);
    match i.kind {
        IndexKind::PrimaryKey => sql.append("PRIMARY KEY"),
        IndexKind::Unique => sql.append("UNIQUE"),
    }
    sql.append(" (");
    write_idens(d, &i.columns, sql);
    sql.append(")");
    assert(final(sql)@ =~= old(sql)@ + table_index_sql(d, *i));
}

fn write_fk_rule(kw: &str, a: Option<ForeignKeyAction>, sql: &mut String)
    ensures
        final(sql)@ == old(sql)@ + fk_rule_sql(kw@, a),
{
    match a {
        Some(x) => {
            sql.append(" ");
            sql.append(kw);
            sql.append(" ");
            match x {
                ForeignKeyAction::Restrict => sql.append("RESTRICT"),
                ForeignKeyAction::Cascade => sql.append("CASCADE"),
                ForeignKeyAction::SetNull => sql.append("SET NULL"),
                ForeignKeyAction::NoAction => sql.append("NO ACTION"),
                ForeignKeyAction::SetDefault => sql.append("SET DEFAULT"),
            }
            assert(final(sql)@ =~= old(sql)@ + fk_rule_sql(kw@, a));
        },
        None => {
            assert(final(sql)@ =~= old(sql)@ + fk_rule_sql(kw@, a));
        },
    }
}

#[verifier::rlimit(60)]
fn write_foreign_key(d: Dialect, f: &ForeignKey, sql: &mut String)
    ensures
        final(sql)@ == old(sql)@ + foreign_key_sql(d, *f),
{
    write_constraint_name(d, &f.name, sql);
    sql.append("FOREIGN KEY (");
    write_idens(d, &f.columns, sql);
    sql.append(") REFERENCES ");
    write_iden(d, &f.ref_table, sql);
    sql.append(" (");
    write_idens(d, &f.ref_columns, sql);
    sql.append(")");
    write_fk_rule("ON DELETE", f.on_delete, sql);
    write_fk_rule("ON UPDATE", f.on_update, sql);
    assert(final(sql)@ =~= old(sql)@ + foreign_key_sql(d, *f));
}

/// Writes the column definitions as further pieces of a comma-separated list.
#[verifier::rlimit(60)]
fn write_column_defs(
    d: Dialect,
    xs: &Vec<ColumnDef>,
    first: bool,
    sql: &mut String,
    Ghost(base): Ghost<Seq<char>>,
    Ghost(done): Ghost<Seq<Seq<char>>>,
) -> (r: bool)
    requires
        old(sql)@ == base + join_comma(done),
        first == (done.len() == 0),
    ensures
        final(sql)@ == base + join_comma(done + xs@.map_values(|x: ColumnDef| column_def_sql(d, x))),
        r == (done.len() + xs@.len() == 0),
{
    let mut i: usize = 0;
    assert(done + xs@.subrange(0, 0).map_values(|x: ColumnDef| column_def_sql(d, x)) =~= done);
    while i < xs.len()
        invariant
            i <= xs@.len(),
            first == (done.len() == 0),
            sql@ == base + join_comma(done + xs@.subrange(0, i as int).map_values(|x: ColumnDef| column_def_sql(d, x))),
        decreases xs@.len() - i,
    {
        let ghost ps = done + xs@.subrange(0, i as int).map_values(|x: ColumnDef| column_def_sql(d, x));
        if !first || i > 0 {
            sql.append(", ");
        }
        let ghost t1 = sql@;
        write_column_def(d, &xs[i], sql);
        proof {
            assert(ps.len() == done.len() + i);
            let p = column_def_sql(d, xs@[i as int]);
            assert(p == column_def_sql(d, xs@[i as int]));
            assert(sql@ == t1 + p);
            lemma_join_comma_push(ps, p);
            assert(ps.push(column_def_sql(d, xs@[i as int])) =~= done + xs@.subrange(0, i + 1).map_values(|x: ColumnDef| column_def_sql(d, x)));
            assert(sql@ =~= base + join_comma(ps.push(column_def_sql(d, xs@[i as int]))));
        }
        i = i + 1;
    }
    assert(xs@.subrange(0, xs@.len() as int) =~= xs@);
    first && xs.len() == 0
}

#[verifier::rlimit(60)]
fn write_table_indexes(
    d: Dialect,
    xs: &Vec<TableIndex>,
    first: bool,
    sql: &mut String,
    Ghost(base): Ghost<Seq<char>>,
    Ghost(done): Ghost<Seq<Seq<char>>>,
) -> (r: bool)
    requires
        old(sql)@ == base + join_comma(done),
        first == (done.len() == 0),
    ensures
        final(sql)@ == base + join_comma(done + xs@.map_values(|x: TableIndex| table_index_sql(d, x))),
        r == (done.len() + xs@.len() == 0),
{
    let mut i: usize = 0;
    assert(done + xs@.subrange(0, 0).map_values(|x: TableIndex| table_index_sql(d, x)) =~= done);
    while i < xs.len()
        invariant
            i <= xs@.len(),
            first == (done.len() == 0),
            sql@ == base + join_comma(done + xs@.subrange(0, i as int).map_values(|x: TableIndex| table_index_sql(d, x))),
        decreases xs@.len() - i,
    {
        let ghost ps = done + xs@.subrange(0, i as int).map_values(|x: TableIndex| table_index_sql(d, x));
        if !first || i > 0 {
            sql.append(", ");
        }
        let ghost t1 = sql@;
        write_table_index(d, &xs[i], sql);
        proof {
            assert(ps.len() == done.len() + i);
            let p = table_index_sql(d, xs@[i as int]);
            assert(p == table_index_sql(d, xs@[i as int]));
            assert(sql@ == t1 + p);
            lemma_join_comma_push(ps, p);
            assert(ps.push(table_index_sql(d, xs@[i as int])) =~= done + xs@.subrange(0, i + 1).map_values(|x: TableIndex| table_index_sql(d, x)));
            assert(sql@ =~= base + join_comma(ps.push(table_index_sql(d, xs@[i as int]))));
        }
        i = i + 1;
    }
    assert(xs@.subrange(0, xs@.len() as int) =~= xs@);
    first && xs.len() == 0
}

#[verifier::rlimit(60)]
fn write_foreign_keys(
    d: Dialect,
    xs: &Vec<ForeignKey>,
    first: bool,
    sql: &mut String,
    Ghost(base): Ghost<Seq<char>>,
    Ghost(done): Ghost<Seq<Seq<char>>>,
) -> (r: bool)
    requires
        old(sql)@ == base + join_comma(done),
        first == (done.len() == 0),
    ensures
        final(sql)@ == base + join_comma(done + xs@.map_values(|x: ForeignKey| foreign_key_sql(d, x))),
        r == (done.len() + xs@.len() == 0),
{
    let mut i: usize = 0;
    assert(done + xs@.subrange(0, 0).map_values(|x: ForeignKey| foreign_key_sql(d, x)) =~= done);
    while i < xs.len()
        invariant
            i <= xs@.len(),
            first == (done.len() == 0),
            sql@ == base + join_comma(done + xs@.subrange(0, i as int).map_values(|x: ForeignKey| foreign_key_sql(d, x))),
        decreases xs@.len() - i,
    {
        let ghost ps = done + xs@.subrange(0, i as int).map_values(|x: ForeignKey| foreign_key_sql(d, x));
        if !first || i > 0 {
            sql.append(", ");
        }
        let ghost t1 = sql@;
        write_foreign_key(d, &xs[i], sql);
        proof {
            assert(ps.len() == done.len() + i);
            let p = foreign_key_sql(d, xs@[i as int]);
            assert(p == foreign_key_sql(d, xs@[i as int]));
            assert(sql@ == t1 + p);
            lemma_join_comma_push(ps, p);
            assert(ps.push(foreign_key_sql(d, xs@[i as int])) =~= done + xs@.subrange(0, i + 1).map_values(|x: ForeignKey| foreign_key_sql(d, x)));
            assert(sql@ =~= base + join_comma(ps.push(foreign_key_sql(d, xs@[i as int]))));
        }
        i = i + 1;
    }
    assert(xs@.subrange(0, xs@.len() as int) =~= xs@);
    first && xs.len() == 0
}

#[verifier::rlimit(60)]
fn write_checks(
    d: Dialect,
    xs: &Vec<SimpleExpr>,
    first: bool,
    sql: &mut String,
    Ghost(base): Ghost<Seq<char>>,
    Ghost(done): Ghost<Seq<Seq<char>>>,
) -> (r: bool)
    requires
        old(sql)@ == base + join_comma(done),
        first == (done.len() == 0),
    ensures
        final(sql)@ == base + join_comma(done + xs@.map_values(|x: SimpleExpr| check_sql(d, x))),
        r == (done.len() + xs@.len() == 0),
{
    let mut i: usize = 0;
    assert(done + xs@.subrange(0, 0).map_values(|x: SimpleExpr| check_sql(d, x)) =~= done);
    while i < xs.len()
        invariant
            i <= xs@.len(),
            first == (done.len() == 0),
            sql@ == base + join_comma(done + xs@.subrange(0, i as int).map_values(|x: SimpleExpr| check_sql(d, x))),
        decreases xs@.len() - i,
    {
        let ghost ps = done + xs@.subrange(0, i as int).map_values(|x: SimpleExpr| check_sql(d, x));
        if !first || i > 0 {
            sql.append(", ");
        }
        let ghost t1 = sql@;
        write_check(d, &xs[i], sql);
        proof {
            assert(ps.len() == done.len() + i);
            let p = check_sql(d, xs@[i as int]);
            assert(p == check_sql(d, xs@[i as int]));
            assert(sql@ == t1 + p);
            lemma_join_comma_push(ps, p);
            assert(ps.push(check_sql(d, xs@[i as int])) =~= done + xs@.subrange(0, i + 1).map_values(|x: SimpleExpr| check_sql(d, x)));
            assert(sql@ =~= base + join_comma(ps.push(check_sql(d, xs@[i as int]))));
        }
        i = i + 1;
    }
    assert(xs@.subrange(0, xs@.len() as int) =~= xs@);
    first && xs.len() == 0
}

pub fn ddl_table_supported(d: Dialect, t: &TableRef) -> (r: bool)
    ensures
        r == ddl_table_ok(d, *t),
{
    match t {
        TableRef::Table(_) | TableRef::SchemaTable(_, _) => true,
        TableRef::DatabaseSchemaTable(_, _, _) => matches!(d, Dialect::Postgres),
        _ => false,
    }
}

/// Writes one table option.
pub fn write_table_opt(o: &TableOpt, sql: &mut String)
    ensures
        final(sql)@ == old(sql)@ + table_opt_sql(*o),
{
    match o {
        TableOpt::Engine(v) => {
            sql.append("ENGINE=");
            sql.append(v.as_str());
        },
        TableOpt::Collate(v) => {
            sql.append("COLLATE=");
            sql.append(v.as_str());
        },
        TableOpt::CharacterSet(v) => {
            sql.append("DEFAULT CHARSET=");
            sql.append(v.as_str());
        },
    }
    assert(final(sql)@ =~= old(sql)@ + table_opt_sql(*o));
}

/// Writes the suffix of DROP TABLE.
pub fn write_table_drop_opt(o: TableDropOpt, sql: &mut String)
    ensures
        final(sql)@ == old(sql)@ + drop_opt_sql(o),
{
    match o {
        TableDropOpt::Restrict => sql.append(" RESTRICT"),
        TableDropOpt::Cascade => sql.append(" CASCADE"),
    }
}

/// The keyword that makes a column auto-incrementing.
pub fn auto_increment_keyword(d: Dialect) -> (r: &'static str)
    ensures
        r@ == auto_increment_sql(d),
{
    match d {
        Dialect::MySql => "AUTO_INCREMENT",
        Dialect::Sqlite => "AUTOINCREMENT",
        Dialect::Postgres => "GENERATED BY DEFAULT AS IDENTITY",
    }
}

#[verifier::rlimit(80)]
fn write_table_opts(d: Dialect, os: &Vec<TableOpt>, sql: &mut String)
    ensures
        final(sql)@ == old(sql)@ + table_opts_sql(d, os@),
{
    if !matches!(d, Dialect::MySql) {
        assert(old(sql)@ + table_opts_sql(d, os@) =~= old(sql)@);
        return;
    }
    let mut i: usize = 0;
    assert(table_opts_sql(d, os@.subrange(0, 0)) == Seq::<char>::empty());
    assert(old(sql)@ + Seq::<char>::empty() =~= old(sql)@);
    while i < os.len()
        invariant
            d == Dialect::MySql,
            i <= os@.len(),
            sql@ == old(sql)@ + table_opts_sql(d, os@.subrange(0, i as int)),
        decreases os@.len() - i,
    {
        sql.append(" ");
        write_table_opt(&os[i], sql);
        proof {
            let p = os@.subrange(0, i + 1);
            assert(p.subrange(0, i as int) =~= os@.subrange(0, i as int));
            assert(sql@ =~= old(sql)@ + table_opts_sql(d, p));
        }
        i = i + 1;
    }
    assert(os@.subrange(0, os@.len() as int) =~= os@);
}

/// Writes CREATE TABLE, or nothing and the error when the statement names no
/// table or one that the dialect cannot name.
#[verifier::rlimit(80)]
pub fn write_table_create(d: Dialect, c: &TableCreateStatement, sql: &mut String) -> (r: Result<(), BuildError>)
    ensures
        match r {
            Ok(()) => create_error(d, *c) is None && final(sql)@ == old(sql)@ + create_sql(d, *c),
            Err(e) => create_error(d, *c) == Some(e) && final(sql)@ == old(sql)@,
        },
{
    let t = match &c.table {
        None => return Err(BuildError::MissingTable),
        Some(t) => t,
    };
    if !ddl_table_supported(d, t) {
        return Err(BuildError::UnsupportedTableRef);
    }
    sql.append("CREATE TABLE ");
    if c.if_not_exists {
        sql.append("IF NOT EXISTS ");
    }
    write_ddl_table(d, t, sql);
    sql.append(" ( ");
    let ghost base = sql@;
    let ghost col_parts = c.columns@.map_values(|x: ColumnDef| column_def_sql(d, x));
    let ghost key_parts = c.indexes@.map_values(|x: TableIndex| table_index_sql(d, x));
    let ghost fk_parts = c.foreign_keys@.map_values(|x: ForeignKey| foreign_key_sql(d, x));
    assert(Seq::<Seq<char>>::empty() + col_parts =~= col_parts);
    let first = write_column_defs(d, &c.columns, true, sql, Ghost(base), Ghost(Seq::empty()));
    let first = write_table_indexes(d, &c.indexes, first, sql, Ghost(base), Ghost(col_parts));
    let first = write_foreign_keys(d, &c.foreign_keys, first, sql, Ghost(base), Ghost(col_parts + key_parts));
    let _ = write_checks(d, &c.check, first, sql, Ghost(base), Ghost(col_parts + key_parts + fk_parts));
    sql.append(" )");
    write_table_opts(d, &c.options, sql);
    assert(final(sql)@ =~= old(sql)@ + create_sql(d, *c));
    Ok(())
}

fn all_tables_supported(d: Dialect, ts: &Vec<TableRef>) -> (r: bool)
    ensures
        r == all_ddl_tables_ok(d, ts@),
{
    let mut i: usize = 0;
    while i < ts.len()
        invariant
            i <= ts@.len(),
            forall|k: int| 0 <= k < i ==> ddl_table_ok(d, #[trigger] ts@[k]),
        decreases ts@.len() - i,
    {
        if !ddl_table_supported(d, &ts[i]) {
            return false;
        }
        i = i + 1;
    }
    true
}

/// Writes DROP TABLE, or nothing and the error when it names no table or one
/// that the dialect cannot name.
#[verifier::rlimit(80)]
pub fn write_table_drop(d: Dialect, s: &TableDropStatement, sql: &mut String) -> (r: Result<(), BuildError>)
    ensures
        match r {
            Ok(()) => drop_error(d, *s) is None && final(sql)@ == old(sql)@ + drop_sql(d, *s),
            Err(e) => drop_error(d, *s) == Some(e) && final(sql)@ == old(sql)@,
        },
{
    if s.tables.len() == 0 {
        return Err(BuildError::MissingTable);
    }
    if !all_tables_supported(d, &s.tables) {
        return Err(BuildError::UnsupportedTableRef);
    }
    sql.append("DROP TABLE ");
    if s.if_exists {
        sql.append("IF EXISTS ");
    }
    let ghost base = sql@;
    let mut i: usize = 0;
    assert(s.tables@.subrange(0, 0).map_values(|t: TableRef| ddl_table_sql(d, t)) =~= Seq::<Seq<char>>::empty());
    assert(base + Seq::<char>::empty() =~= base);
    while i < s.tables.len()
        invariant
            i <= s.tables@.len(),
            all_ddl_tables_ok(d, s.tables@),
            sql@ == base + join_comma(s.tables@.subrange(0, i as int).map_values(|t: TableRef| ddl_table_sql(d, t))),
        decreases s.tables@.len() - i,
    {
        let ghost ps = s.tables@.subrange(0, i as int).map_values(|t: TableRef| ddl_table_sql(d, t));
        if i > 0 {
            sql.append(", ");
        }
        let ghost t1 = sql@;
        write_ddl_table(d, &s.tables[i], sql);
        proof {
            let p = ddl_table_sql(d, s.tables@[i as int]);
            assert(sql@ == t1 + p);
            lemma_join_comma_push(ps, p);
            assert(ps.push(p) =~= s.tables@.subrange(0, i + 1).map_values(|t: TableRef| ddl_table_sql(d, t)));
            assert(sql@ =~= base + join_comma(ps.push(p)));
        }
        i = i + 1;
    }
    assert(s.tables@.subrange(0, s.tables@.len() as int) =~= s.tables@);
    let ghost t2 = sql@;
    let mut k: usize = 0;
    while k < s.options.len()
        invariant
            k <= s.options@.len(),
            sql@ == t2 + drop_opts_sql(s.options@.subrange(0, k as int)),
        decreases s.options@.len() - k,
    {
        write_table_drop_opt(s.options[k], sql);
        proof {
            let p = s.options@.subrange(0, k + 1);
            assert(p.subrange(0, k as int) =~= s.options@.subrange(0, k as int));
            assert(sql@ =~= t2 + drop_opts_sql(p));
        }
        k = k + 1;
    }
    assert(s.options@.subrange(0, s.options@.len() as int) =~= s.options@);
    assert(final(sql)@ =~= old(sql)@ + drop_sql(d, *s));
    Ok(())
}

/// Writes TRUNCATE TABLE, or nothing and the error: SQLite has no TRUNCATE.
#[verifier::rlimit(60)]
pub fn write_table_truncate(d: Dialect, s: &TableTruncateStatement, sql: &mut String) -> (r: Result<(), BuildError>)
    ensures
        match r {
            Ok(()) => truncate_error(d, *s) is None && final(sql)@ == old(sql)@ + truncate_sql(d, *s),
            Err(e) => truncate_error(d, *s) == Some(e) && final(sql)@ == old(sql)@,
        },
{
    if matches!(d, Dialect::Sqlite) {
        return Err(BuildError::UnsupportedFeature);
    }
    let t = match &s.table {
        None => return Err(BuildError::MissingTable),
        Some(t) => t,
    };
    if !ddl_table_supported(d, t) {
        return Err(BuildError::UnsupportedTableRef);
    }
    sql.append("TRUNCATE TABLE ");
    write_ddl_table(d, t, sql);
    assert(final(sql)@ =~= old(sql)@ + truncate_sql(d, *s));
    Ok(())
}

impl TableCreateStatement {
    /// Renders the statement for the dialect `d`.
    pub fn build(&self, d: Dialect) -> (r: Result<String, BuildError>)
        ensures
            match r {
                Ok(s) => create_error(d, *self) is None && s@ == create_sql(d, *self),
                Err(e) => create_error(d, *self) == Some(e),
            },
    {
        let mut sql = String::new();
        match write_table_create(d, self, &mut sql) {
            Ok(()) => {
                assert(sql@ =~= create_sql(d, *self));
                Ok(sql)
            },
            Err(e) => Err(e),
        }
    }
}

impl TableDropStatement {
    /// Renders the statement for the dialect `d`.
    pub fn build(&self, d: Dialect) -> (r: Result<String, BuildError>)
        ensures
            match r {
                Ok(s) => drop_error(d, *self) is None && s@ == drop_sql(d, *self),
                Err(e) => drop_error(d, *self) == Some(e),
            },
    {
        let mut sql = String::new();
        match write_table_drop(d, self, &mut sql) {
            Ok(()) => {
                assert(sql@ =~= drop_sql(d, *self));
                Ok(sql)
            },
            Err(e) => Err(e),
        }
    }
}

impl TableTruncateStatement {
    /// Renders the statement for the dialect `d`.
    pub fn build(&self, d: Dialect) -> (r: Result<String, BuildError>)
        ensures
            match r {
                Ok(s) => truncate_error(d, *self) is None && s@ == truncate_sql(d, *self),
                Err(e) => truncate_error(d, *self) == Some(e),
            },
    {
        let mut sql = String::new();
        match write_table_truncate(d, self, &mut sql) {
            Ok(()) => {
                assert(sql@ =~= truncate_sql(d, *self));
                Ok(sql)
            },
            Err(e) => Err(e),
        }
    }
}

} // verus!
