use sea_query::{
    BuildError, ColumnDef, ColumnSpec, ColumnType, Dialect, Expr, ForeignKey, ForeignKeyAction, Iden,
    IndexBuilder, IndexCreateStatement, IndexDropStatement, IndexKind, IndexType, MysqlQueryBuilder,
    PostgresQueryBuilder, SelectStatement, SqliteQueryBuilder, TableBuilder, TableCreateStatement, TableDropStatement,
    TableIndex, TableOpt, TableRef, TableTruncateStatement, Value,
};

fn tbl(name: &str) -> TableRef {
    TableRef::Table(Iden::new(name))
}

fn sample_create() -> TableCreateStatement {
    let mut c = TableCreateStatement::new();
    c.table = Some(tbl("font"));
    c.if_not_exists = true;
    c.columns.push(ColumnDef {
        name: Iden::new("id"),
        types: Some(ColumnType::Integer),
        spec: vec![ColumnSpec::NotNull, ColumnSpec::AutoIncrement, ColumnSpec::PrimaryKey],
    });
    c.columns.push(ColumnDef {
        name: Iden::new("name"),
        types: Some(ColumnType::String(Some(40))),
        spec: vec![ColumnSpec::Default(Expr::val(Value::String(Some("a'b".to_string()))))],
    });
    c.columns.push(ColumnDef { name: Iden::new("size"), types: None, spec: vec![ColumnSpec::Null] });
    c.indexes.push(TableIndex { name: Some(Iden::new("u_name")), kind: IndexKind::Unique, columns: vec![Iden::new("name")] });
    c.foreign_keys.push(ForeignKey {
        name: None,
        columns: vec![Iden::new("size")],
        ref_table: Iden::new("sizes"),
        ref_columns: vec![Iden::new("id")],
        on_delete: Some(ForeignKeyAction::Cascade),
        on_update: None,
    });
    c.check.push(Expr::col(Iden::new("size")).gt(Expr::val(Value::Int(Some(0)))));
    c.options.push(TableOpt::Engine("InnoDB".to_string()));
    c.options.push(TableOpt::CharacterSet("utf8mb4".to_string()));
    c
}

#[test]
fn create_table_mysql() {
    assert_eq!(
        sample_create().build(Dialect::MySql),
        Ok("CREATE TABLE IF NOT EXISTS `font` ( `id` int NOT NULL AUTO_INCREMENT PRIMARY KEY, `name` varchar(40) DEFAULT 'a''b', `size` NULL, CONSTRAINT `u_name` UNIQUE (`name`), FOREIGN KEY (`size`) REFERENCES `sizes` (`id`) ON DELETE CASCADE, CHECK (`size` > 0) ) ENGINE=InnoDB DEFAULT CHARSET=utf8mb4".to_string())
    );
}

#[test]
fn create_table_postgres_drops_table_options() {
    assert_eq!(
        sample_create().build(Dialect::Postgres),
        Ok("CREATE TABLE IF NOT EXISTS \"font\" ( \"id\" integer NOT NULL GENERATED BY DEFAULT AS IDENTITY PRIMARY KEY, \"name\" varchar(40) DEFAULT 'a''b', \"size\" NULL, CONSTRAINT \"u_name\" UNIQUE (\"name\"), FOREIGN KEY (\"size\") REFERENCES \"sizes\" (\"id\") ON DELETE CASCADE, CHECK (\"size\" > 0) )".to_string())
    );
}

#[test]
fn create_table_through_builder_trait() {
    let mut c = TableCreateStatement::new();
    c.table = Some(tbl("t"));
    c.columns.push(ColumnDef { name: Iden::new("flag"), types: Some(ColumnType::Boolean), spec: vec![] });
    c.columns.push(ColumnDef { name: Iden::new("data"), types: Some(ColumnType::Json), spec: vec![] });
    let mut sql = String::new();
    assert_eq!(SqliteQueryBuilder.prepare_table_create_statement(&c, &mut sql), Ok(()));
    assert_eq!(sql, "CREATE TABLE `t` ( `flag` boolean, `data` text )");
}

#[test]
fn create_table_errors() {
    let c = TableCreateStatement::new();
    assert_eq!(c.build(Dialect::MySql), Err(BuildError::MissingTable));
    let mut c = TableCreateStatement::new();
    c.table = Some(TableRef::SubQuery(SelectStatement::new(), Iden::new("s")));
    assert_eq!(c.build(Dialect::Postgres), Err(BuildError::UnsupportedTableRef));
    let mut c = TableCreateStatement::new();
    c.table = Some(TableRef::DatabaseSchemaTable(Iden::new("d"), Iden::new("s"), Iden::new("t")));
    assert_eq!(c.build(Dialect::Sqlite), Err(BuildError::UnsupportedTableRef));
    let mut sql = String::from("x");
    assert_eq!(MysqlQueryBuilder.prepare_table_create_statement(&c, &mut sql), Err(BuildError::UnsupportedTableRef));
    assert_eq!(sql, "x");
}

#[test]
fn drop_two_tables_cascade() {
    let mut d = TableDropStatement::new();
    d.table(tbl("t1"));
    d.table(tbl("t2"));
    d.cascade();
    assert_eq!(d.build(Dialect::Postgres), Ok("DROP TABLE \"t1\", \"t2\" CASCADE".to_string()));
    assert_eq!(d.build(Dialect::MySql), Ok("DROP TABLE `t1`, `t2` CASCADE".to_string()));
}

#[test]
fn drop_table_options_and_errors() {
    let mut d = TableDropStatement::new();
    d.if_exists = true;
    d.table(TableRef::SchemaTable(Iden::new("s"), Iden::new("t")));
    d.restrict();
    let mut sql = String::new();
    assert_eq!(PostgresQueryBuilder.prepare_table_drop_statement(&d, &mut sql), Ok(()));
    assert_eq!(sql, "DROP TABLE IF EXISTS \"s\".\"t\" RESTRICT");
    assert_eq!(TableDropStatement::new().build(Dialect::Sqlite), Err(BuildError::MissingTable));
    let mut d = TableDropStatement::new();
    d.table(tbl("ok"));
    d.table(TableRef::TableAlias(Iden::new("t"), Iden::new("a")));
    assert_eq!(d.build(Dialect::MySql), Err(BuildError::UnsupportedTableRef));
}

#[test]
fn truncate_table() {
    let t = TableTruncateStatement { table: Some(tbl("t")) };
    assert_eq!(t.build(Dialect::MySql), Ok("TRUNCATE TABLE `t`".to_string()));
    assert_eq!(t.build(Dialect::Sqlite), Err(BuildError::UnsupportedFeature));
    let mut sql = String::new();
    assert_eq!(PostgresQueryBuilder.prepare_table_truncate_statement(&t, &mut sql), Ok(()));
    assert_eq!(sql, "TRUNCATE TABLE \"t\"");
    let none = TableTruncateStatement { table: None };
    assert_eq!(none.build(Dialect::Postgres), Err(BuildError::MissingTable));
}

fn index(t: TableRef) -> IndexCreateStatement {
    IndexCreateStatement {
        table: Some(t),
        name: Some(Iden::new("idx")),
        columns: vec![Iden::new("a"), Iden::new("b")],
        primary: false,
        unique: true,
        index_type: Some(IndexType::BTree),
        if_not_exists: false,
    }
}

#[test]
fn create_index_postgres() {
    let mut i = index(TableRef::SchemaTable(Iden::new("s"), Iden::new("t")));
    i.if_not_exists = true;
    assert_eq!(
        i.build(Dialect::Postgres),
        Ok("CREATE UNIQUE INDEX IF NOT EXISTS \"idx\" ON \"s\".\"t\" USING BTREE (\"a\", \"b\")".to_string())
    );
    let mut ft = index(tbl("t"));
    ft.unique = false;
    ft.index_type = Some(IndexType::FullText);
    let mut sql = String::new();
    assert_eq!(PostgresQueryBuilder.prepare_index_create_statement(&ft, &mut sql), Ok(()));
    assert_eq!(sql, "CREATE INDEX \"idx\" ON \"t\" USING GIN (\"a\", \"b\")");
}

#[test]
fn create_index_mysql_and_sqlite() {
    let i = index(tbl("t"));
    assert_eq!(i.build(Dialect::MySql), Ok("CREATE UNIQUE INDEX `idx` ON `t` (`a`, `b`) USING BTREE".to_string()));
    assert_eq!(i.build(Dialect::Sqlite), Err(BuildError::UnsupportedFeature));
    let mut ft = index(tbl("t"));
    ft.unique = false;
    ft.index_type = Some(IndexType::FullText);
    assert_eq!(ft.build(Dialect::MySql), Ok("CREATE FULLTEXT INDEX `idx` ON `t` (`a`, `b`)".to_string()));
    let mut plain = index(tbl("t"));
    plain.index_type = None;
    let mut sql = String::new();
    assert_eq!(SqliteQueryBuilder.prepare_index_create_statement(&plain, &mut sql), Ok(()));
    assert_eq!(sql, "CREATE UNIQUE INDEX `idx` ON `t` (`a`, `b`)");
}

#[test]
fn create_index_errors() {
    let mut i = index(tbl("t"));
    i.name = None;
    assert_eq!(i.build(Dialect::MySql), Err(BuildError::MissingIndexName));
    let mut i = index(tbl("t"));
    i.table = None;
    assert_eq!(i.build(Dialect::Postgres), Err(BuildError::MissingTable));
    let i = index(TableRef::DatabaseSchemaTable(Iden::new("d"), Iden::new("s"), Iden::new("t")));
    assert_eq!(i.build(Dialect::Postgres), Err(BuildError::UnsupportedTableRef));
    let mut i = index(tbl("t"));
    i.primary = true;
    assert_eq!(i.build(Dialect::MySql), Err(BuildError::UnsupportedFeature));
    assert_eq!(
        i.build(Dialect::Postgres),
        Ok("CREATE PRIMARY KEY UNIQUE INDEX \"idx\" ON \"t\" USING BTREE (\"a\", \"b\")".to_string())
    );
    let mut i = index(tbl("t"));
    i.if_not_exists = true;
    assert_eq!(i.build(Dialect::MySql), Err(BuildError::UnsupportedFeature));
}

#[test]
fn drop_index_each_dialect() {
    let d = IndexDropStatement { table: Some(TableRef::SchemaTable(Iden::new("s"), Iden::new("t"))), name: Some(Iden::new("idx")) };
    assert_eq!(d.build(Dialect::Postgres), Ok("DROP INDEX \"s\".\"idx\"".to_string()));
    assert_eq!(d.build(Dialect::MySql), Ok("DROP INDEX `idx` ON `s`.`t`".to_string()));
    let mut sql = String::new();
    assert_eq!(MysqlQueryBuilder.prepare_index_drop_statement(&d, &mut sql), Ok(()));
    assert_eq!(sql, "DROP INDEX `idx` ON `s`.`t`");
    let bare = IndexDropStatement { table: None, name: Some(Iden::new("idx")) };
    assert_eq!(bare.build(Dialect::Sqlite), Ok("DROP INDEX `idx`".to_string()));
    assert_eq!(bare.build(Dialect::MySql), Err(BuildError::MissingTable));
    let nameless = IndexDropStatement { table: Some(tbl("t")), name: None };
    assert_eq!(nameless.build(Dialect::Postgres), Err(BuildError::MissingIndexName));
}

#[test]
fn column_types_per_dialect() {
    let mut c = TableCreateStatement::new();
    c.table = Some(tbl("t"));
    for (n, ty) in [
        ("a", ColumnType::Char(Some(2))),
        ("b", ColumnType::Char(None)),
        ("c", ColumnType::String(None)),
        ("d", ColumnType::Text),
        ("e", ColumnType::SmallInteger),
        ("f", ColumnType::BigInteger),
        ("g", ColumnType::Binary),
        ("h", ColumnType::Timestamp),
        ("i", ColumnType::Custom(Iden::new("citext"))),
    ] {
        c.columns.push(ColumnDef { name: Iden::new(n), types: Some(ty), spec: vec![] });
    }
    c.columns.push(ColumnDef {
        name: Iden::new("j"),
        types: None,
        spec: vec![
            ColumnSpec::UniqueKey,
            ColumnSpec::Check(Expr::col(Iden::new("j")).lt(Expr::val(Value::Int(Some(9))))),
            ColumnSpec::Extra("COMMENT 'x'".to_string()),
        ],
    });
    assert_eq!(
        c.build(Dialect::MySql),
        Ok("CREATE TABLE `t` ( `a` char(2), `b` char, `c` varchar(255), `d` text, `e` smallint, `f` bigint, `g` blob, `h` timestamp, `i` citext, `j` UNIQUE CHECK (`j` < 9) COMMENT 'x' )".to_string())
    );
    assert_eq!(
        c.build(Dialect::Postgres),
        Ok("CREATE TABLE \"t\" ( \"a\" char(2), \"b\" char, \"c\" varchar, \"d\" text, \"e\" smallint, \"f\" bigint, \"g\" bytea, \"h\" timestamp, \"i\" citext, \"j\" UNIQUE CHECK (\"j\" < 9) COMMENT 'x' )".to_string())
    );
}

#[test]
fn primary_key_and_named_foreign_key() {
    let mut c = TableCreateStatement::new();
    c.table = Some(tbl("t"));
    c.columns.push(ColumnDef { name: Iden::new("a"), types: Some(ColumnType::Integer), spec: vec![] });
    c.indexes.push(TableIndex { name: None, kind: IndexKind::PrimaryKey, columns: vec![Iden::new("a")] });
    c.foreign_keys.push(ForeignKey {
        name: Some(Iden::new("fk")),
        columns: vec![Iden::new("a")],
        ref_table: Iden::new("u"),
        ref_columns: vec![Iden::new("id")],
        on_delete: Some(ForeignKeyAction::SetNull),
        on_update: Some(ForeignKeyAction::NoAction),
    });
    c.options.push(TableOpt::Collate("utf8mb4_bin".to_string()));
    assert_eq!(
        c.build(Dialect::Sqlite),
        Ok("CREATE TABLE `t` ( `a` integer, PRIMARY KEY (`a`), CONSTRAINT `fk` FOREIGN KEY (`a`) REFERENCES `u` (`id`) ON DELETE SET NULL ON UPDATE NO ACTION )".to_string())
    );
    assert_eq!(
        c.build(Dialect::MySql),
        Ok("CREATE TABLE `t` ( `a` int, PRIMARY KEY (`a`), CONSTRAINT `fk` FOREIGN KEY (`a`) REFERENCES `u` (`id`) ON DELETE SET NULL ON UPDATE NO ACTION ) COLLATE=utf8mb4_bin".to_string())
    );
}

#[test]
fn builder_trait_pieces() {
    let mut sql = String::new();
    assert_eq!(MysqlQueryBuilder.prepare_table_ref_table_stmt(&TableRef::SchemaTable(Iden::new("s"), Iden::new("t")), &mut sql), Ok(()));
    assert_eq!(sql, "`s`.`t`");
    let mut sql = String::new();
    assert_eq!(
        SqliteQueryBuilder.prepare_table_ref_table_stmt(&TableRef::TableAlias(Iden::new("t"), Iden::new("a")), &mut sql),
        Err(BuildError::UnsupportedTableRef)
    );
    assert_eq!(sql, "");
    assert_eq!(MysqlQueryBuilder.column_spec_auto_increment_keyword(), "AUTO_INCREMENT");
    assert_eq!(SqliteQueryBuilder.column_spec_auto_increment_keyword(), "AUTOINCREMENT");
    let mut sql = String::new();
    PostgresQueryBuilder.prepare_table_drop_opt(&sea_query::TableDropOpt::Restrict, &mut sql);
    PostgresQueryBuilder.prepare_table_opt(&TableOpt::Collate("c".to_string()), &mut sql);
    PostgresQueryBuilder.prepare_check_constraint(&Expr::col(Iden::new("a")).gt(Expr::val(Value::Int(Some(1)))), &mut sql);
    PostgresQueryBuilder.prepare_column_type(&ColumnType::Binary, &mut sql);
    PostgresQueryBuilder.prepare_column_spec(&ColumnSpec::NotNull, &mut sql);
    assert_eq!(sql, " RESTRICTCOLLATE=cCHECK (\"a\" > 1)byteaNOT NULL");
    let i = index(tbl("t"));
    let mut sql = String::new();
    PostgresQueryBuilder.prepare_index_prefix(&i, &mut sql);
    PostgresQueryBuilder.prepare_index_type(&i.index_type, &mut sql);
    assert_eq!(sql, "UNIQUE  USING BTREE");
    let mut sql = String::new();
    assert_eq!(
        SqliteQueryBuilder.prepare_table_ref_index_stmt(&TableRef::SchemaTable(Iden::new("s"), Iden::new("t")), &mut sql),
        Err(BuildError::UnsupportedTableRef)
    );
    assert_eq!(PostgresQueryBuilder.prepare_table_ref_index_stmt(&tbl("t"), &mut sql), Ok(()));
    assert_eq!(sql, "\"t\"");
}

#[test]
fn three_part_names_only_in_postgres() {
    let t = TableTruncateStatement { table: Some(TableRef::DatabaseSchemaTable(Iden::new("d"), Iden::new("s"), Iden::new("t"))) };
    assert_eq!(t.build(Dialect::Postgres), Ok("TRUNCATE TABLE \"d\".\"s\".\"t\"".to_string()));
    assert_eq!(t.build(Dialect::MySql), Err(BuildError::UnsupportedTableRef));
}

#[test]
fn unnamed_index_in_postgres_only() {
    let mut i = index(tbl("t"));
    i.name = None;
    i.unique = false;
    i.index_type = None;
    assert_eq!(i.build(Dialect::Postgres), Ok("CREATE INDEX ON \"t\" (\"a\", \"b\")".to_string()));
    let mut sql = String::new();
    assert_eq!(PostgresQueryBuilder.prepare_index_create_statement(&i, &mut sql), Ok(()));
    assert_eq!(sql, "CREATE INDEX ON \"t\" (\"a\", \"b\")");
    assert_eq!(i.build(Dialect::MySql), Err(BuildError::MissingIndexName));
    assert_eq!(i.build(Dialect::Sqlite), Err(BuildError::MissingIndexName));
}

#[test]
fn drop_three_tables_restrict() {
    let mut d = TableDropStatement::new();
    d.table(tbl("a"));
    d.table(TableRef::SchemaTable(Iden::new("s"), Iden::new("b")));
    d.table(tbl("c"));
    d.restrict();
    assert_eq!(d.build(Dialect::Sqlite), Ok("DROP TABLE `a`, `s`.`b`, `c` RESTRICT".to_string()));
}
