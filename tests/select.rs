use sea_query::{
    BinOper, ColumnRef, Query, Condition, ConditionExpression, Dialect, Expr, Function, Iden, JoinType, Order, SelectExpr,
    SelectStatement, SimpleExpr, SqliteExpr, TableRef, Value,
};

fn col(name: &str) -> ColumnRef {
    ColumnRef::Column(Iden::new(name))
}

fn tbl(name: &str) -> TableRef {
    TableRef::Table(Iden::new(name))
}

fn int_val(v: i32) -> SimpleExpr {
    Expr::val(Value::Int(Some(v)))
}

#[test]
fn round_trip_three_dialects() {
    let mut q = Query::select();
    q.column(col("a")).from(tbl("t")).and_where(Expr::col(Iden::new("a")).eq(int_val(5)));
    assert_eq!(q.build(Dialect::MySql), ("SELECT `a` FROM `t` WHERE `a` = ?".to_string(), vec![Value::Int(Some(5))]));
    assert_eq!(q.build(Dialect::Postgres), ("SELECT \"a\" FROM \"t\" WHERE \"a\" = $1".to_string(), vec![Value::Int(Some(5))]));
    assert_eq!(q.build(Dialect::Sqlite), ("SELECT `a` FROM `t` WHERE `a` = ?".to_string(), vec![Value::Int(Some(5))]));
}

#[test]
fn plain_select_has_no_trailing_clause() {
    let mut q = SelectStatement::new();
    q.columns(vec![col("a"), col("b")]).from(tbl("t"));
    assert_eq!(q.build(Dialect::MySql), ("SELECT `a`, `b` FROM `t`".to_string(), vec![]));
    assert_eq!(q.build(Dialect::Postgres), ("SELECT \"a\", \"b\" FROM \"t\"".to_string(), vec![]));
    assert_eq!(q.build(Dialect::Sqlite), ("SELECT `a`, `b` FROM `t`".to_string(), vec![]));
}

#[test]
fn values_follow_traversal_order() {
    let mut q = SelectStatement::new();
    q.column(col("a"))
        .from(tbl("t"))
        .and_where(Expr::col(Iden::new("a")).eq(int_val(1)))
        .and_where(Expr::col(Iden::new("b")).is_in(vec![Value::Int(Some(2)), Value::Int(Some(3))]))
        .limit(10)
        .offset(20);
    let (sql, vals) = q.build(Dialect::Postgres);
    assert_eq!(sql, "SELECT \"a\" FROM \"t\" WHERE \"a\" = $1 AND \"b\" IN ($2, $3) LIMIT $4 OFFSET $5");
    assert_eq!(
        vals,
        vec![
            Value::Int(Some(1)),
            Value::Int(Some(2)),
            Value::Int(Some(3)),
            Value::BigUnsigned(Some(10)),
            Value::BigUnsigned(Some(20)),
        ]
    );
}

#[test]
fn empty_in_list_is_constant() {
    let mut q = SelectStatement::new();
    q.column(col("a")).from(tbl("t")).and_where(Expr::col(Iden::new("a")).is_in(vec![]));
    assert_eq!(q.build(Dialect::MySql), ("SELECT `a` FROM `t` WHERE 1 = 2".to_string(), vec![]));
    let mut q = SelectStatement::new();
    q.column(col("a")).from(tbl("t")).and_where(Expr::col(Iden::new("a")).is_not_in(vec![]));
    assert_eq!(q.to_string(Dialect::Sqlite), "SELECT `a` FROM `t` WHERE 1 = 1");
}

fn eq_int(c: &str, v: i32) -> SimpleExpr {
    Expr::col(Iden::new(c)).eq(int_val(v))
}

#[test]
fn or_under_and_is_parenthesized() {
    let inner = Condition::any().add_expr(eq_int("b", 2)).add_expr(eq_int("c", 3));
    let cond = Condition::all().add_expr(eq_int("a", 1)).add_condition(inner);
    let mut q = SelectStatement::new();
    q.column(col("a")).from(tbl("t")).cond_where(cond);
    assert_eq!(q.to_string(Dialect::MySql), "SELECT `a` FROM `t` WHERE `a` = 1 AND (`b` = 2 OR `c` = 3)");
}

#[test]
fn and_under_and_is_not_parenthesized() {
    let inner = Condition::all().add_expr(eq_int("b", 2)).add_expr(eq_int("c", 3));
    let cond = Condition::all().add_expr(eq_int("a", 1)).add_condition(inner);
    let mut q = SelectStatement::new();
    q.column(col("a")).from(tbl("t")).cond_where(cond);
    assert_eq!(q.to_string(Dialect::MySql), "SELECT `a` FROM `t` WHERE `a` = 1 AND `b` = 2 AND `c` = 3");
}

#[test]
fn negated_and_single_conditions() {
    let cond = Condition::any().add_expr(eq_int("a", 1)).add_expr(eq_int("b", 2)).not();
    let mut q = SelectStatement::new();
    q.column(col("a")).from(tbl("t")).cond_where(cond);
    assert_eq!(q.to_string(Dialect::Postgres), "SELECT \"a\" FROM \"t\" WHERE NOT (\"a\" = 1 OR \"b\" = 2)");
    let mut q = SelectStatement::new();
    q.column(col("a")).from(tbl("t")).cond_where(Condition::any());
    assert_eq!(q.to_string(Dialect::Postgres), "SELECT \"a\" FROM \"t\"");
}

#[test]
fn or_where_then_and_where() {
    let mut q = SelectStatement::new();
    q.column(col("a")).from(tbl("t")).or_where(eq_int("a", 1)).or_where(eq_int("b", 2)).and_where(eq_int("c", 3));
    assert_eq!(q.to_string(Dialect::MySql), "SELECT `a` FROM `t` WHERE (`a` = 1 OR `b` = 2) AND `c` = 3");
}

#[test]
fn build_twice_is_identical() {
    let mut q = SelectStatement::new();
    q.column(col("a")).from(tbl("t")).and_where(eq_int("a", 7)).order_by(col("a"), Order::Desc);
    let first = q.build(Dialect::Postgres);
    let second = q.build(Dialect::Postgres);
    assert_eq!(first, second);
    assert_eq!(q.to_string(Dialect::MySql), q.to_string(Dialect::MySql));
}

#[test]
fn all_clauses_in_fixed_order() {
    let mut q = SelectStatement::new();
    q.distinct()
        .column(col("a"))
        .expr_as(Expr::col(Iden::new("b")).count(), Iden::new("n"))
        .from_as(tbl("t"), Iden::new("x"))
        .left_join(tbl("u"), Expr::tbl(Iden::new("x"), Iden::new("id")).eq(Expr::tbl(Iden::new("u"), Iden::new("tid"))))
        .and_where(eq_int("a", 1))
        .group_by_col(col("a"))
        .and_having(Expr::col(Iden::new("n")).gt(int_val(2)))
        .order_by(col("a"), Order::Asc)
        .limit(5)
        .offset(1);
    assert_eq!(
        q.build(Dialect::Postgres).0,
        "SELECT DISTINCT \"a\", COUNT(\"b\") AS \"n\" FROM \"t\" AS \"x\" LEFT JOIN \"u\" ON \"x\".\"id\" = \"u\".\"tid\" WHERE \"a\" = $1 GROUP BY \"a\" HAVING \"n\" > $2 ORDER BY \"a\" ASC LIMIT $3 OFFSET $4"
    );
}

#[test]
fn join_using_columns() {
    let mut q = SelectStatement::new();
    q.column(ColumnRef::Asterisk).from(tbl("a")).join_using(JoinType::InnerJoin, tbl("b"), vec![Iden::new("id")]);
    assert_eq!(q.to_string(Dialect::Sqlite), "SELECT * FROM `a` INNER JOIN `b` USING (`id`)");
}

#[test]
fn placeholders_count_across_subquery() {
    let mut sub = SelectStatement::new();
    sub.column(col("id")).from(tbl("u")).and_where(eq_int("k", 1));
    let mut q = SelectStatement::new();
    q.column(col("id")).from_subquery(sub, Iden::new("s")).and_where(eq_int("id", 2));
    let (sql, vals) = q.build(Dialect::Postgres);
    assert_eq!(sql, "SELECT \"id\" FROM (SELECT \"id\" FROM \"u\" WHERE \"k\" = $1) AS \"s\" WHERE \"id\" = $2");
    assert_eq!(vals, vec![Value::Int(Some(1)), Value::Int(Some(2))]);
}

#[test]
fn subquery_in_expression_and_join() {
    let mut sub = SelectStatement::new();
    sub.column(col("id")).from(tbl("u"));
    let mut joined = SelectStatement::new();
    joined.column(col("id")).from(tbl("v"));
    let mut q = SelectStatement::new();
    q.column(col("a"))
        .from(tbl("t"))
        .join_subquery(JoinType::Join, joined, Iden::new("j"), Expr::tbl(Iden::new("j"), Iden::new("id")).eq(Expr::col(Iden::new("a"))))
        .and_where(Expr::col(Iden::new("a")).binary(BinOper::In, Expr::subquery(sub)));
    assert_eq!(
        q.to_string(Dialect::MySql),
        "SELECT `a` FROM `t` JOIN (SELECT `id` FROM `v`) AS `j` ON `j`.`id` = `a` WHERE `a` IN (SELECT `id` FROM `u`)"
    );
}

#[test]
fn precedence_parentheses() {
    let a = || Expr::col(Iden::new("a"));
    let b = || Expr::col(Iden::new("b"));
    let c = || Expr::col(Iden::new("c"));
    let mut q = SelectStatement::new();
    q.expr(a().or(b()).and(c()))
        .expr(a().sub(b().sub(c())))
        .expr(a().add(b()).mul(c()))
        .expr(a().add(b().add(c())))
        .expr(a().between(int_val(1), int_val(2)))
        .expr(a().eq(b()).not());
    assert_eq!(
        q.to_string(Dialect::MySql),
        "SELECT (`a` OR `b`) AND `c`, `a` - (`b` - `c`), (`a` + `b`) * `c`, `a` + `b` + `c`, `a` BETWEEN 1 AND 2, NOT (`a` = `b`)"
    );
}

#[test]
fn literals_when_inlined() {
    let mut q = SelectStatement::new();
    q.expr(Expr::val(Value::String(Some("it's".to_string()))))
        .expr(Expr::val(Value::BigInt(Some(-42))))
        .expr(Expr::val(Value::Bool(Some(true))))
        .expr(Expr::val(Value::Bytes(Some(vec![0x0f, 0xa0]))))
        .expr(Expr::val(Value::Char(Some('\''))))
        .expr(Expr::val(Value::Char(Some('z'))))
        .expr(Expr::val(Value::Int(None)))
        .expr(Expr::val(Value::BigUnsigned(Some(18446744073709551615))))
        .expr(Expr::val(Value::TinyInt(Some(-128))));
    assert_eq!(
        q.to_string(Dialect::MySql),
        "SELECT 'it''s', -42, TRUE, x'0FA0', '''', 'z', NULL, 18446744073709551615, -128"
    );
    let mut q = SelectStatement::new();
    q.expr(Expr::val(Value::Bytes(Some(vec![1]))));
    assert_eq!(q.to_string(Dialect::Postgres), "SELECT '\\x01'");
}

#[test]
fn sqlite_operators_and_cast() {
    let mut q = SelectStatement::new();
    q.expr(Expr::col(Iden::new("a")).glob(Expr::val(Value::String(Some("x*".to_string())))))
        .expr(Expr::col(Iden::new("j")).get_json_field(Expr::val(Value::String(Some("k".to_string())))))
        .expr(Expr::col(Iden::new("j")).cast_json_field(Expr::val(Value::String(Some("k".to_string())))))
        .expr(Expr::col(Iden::new("a")).matches(Expr::val(Value::String(Some("q".to_string())))));
    assert_eq!(q.to_string(Dialect::Sqlite), "SELECT `a` GLOB 'x*', `j` -> 'k', `j` ->> 'k', `a` MATCH 'q'");
    let mut q = SelectStatement::new();
    q.expr(Expr::col(Iden::new("f")).as_enum(Iden::new("font_size")));
    assert_eq!(q.to_string(Dialect::Postgres), "SELECT CAST(\"f\" AS font_size)");
    assert_eq!(q.to_string(Dialect::MySql), "SELECT `f`");
}

#[test]
fn functions_keywords_tuples() {
    let mut q = SelectStatement::new();
    q.expr(Expr::func(Function::Coalesce, vec![Expr::col(Iden::new("a")), int_val(0)]))
        .expr(Expr::keyword(sea_query::Keyword::CurrentTimestamp))
        .expr(Expr::tuple(vec![int_val(1), int_val(2)]))
        .expr(Expr::col(Iden::new("a")).max())
        .expr(Expr::cust("1 + 1"))
        .expr(Expr::col(Iden::new("a")).is_null());
    let (sql, vals) = q.build(Dialect::Postgres);
    assert_eq!(sql, "SELECT COALESCE(\"a\", $1), CURRENT_TIMESTAMP, ($2, $3), MAX(\"a\"), 1 + 1, \"a\" IS NULL");
    assert_eq!(vals, vec![Value::Int(Some(0)), Value::Int(Some(1)), Value::Int(Some(2))]);
}

#[test]
fn take_leaves_blank_statement() {
    let mut q = SelectStatement::new();
    q.column(col("a")).from(tbl("t"));
    let taken = q.take();
    assert_eq!(taken.to_string(Dialect::MySql), "SELECT `a` FROM `t`");
    assert_eq!(q.to_string(Dialect::MySql), "SELECT ");
}

#[test]
fn builders_of_the_select_list() {
    let mut q = SelectStatement::new();
    q.table_column(Iden::new("t"), Iden::new("a"))
        .table_columns(vec![(Iden::new("t"), Iden::new("b"))])
        .exprs(vec![int_val(1)])
        .expr_alias(int_val(2), Iden::new("two"))
        .from_schema(Iden::new("s"), Iden::new("t"));
    assert_eq!(q.to_string(Dialect::MySql), "SELECT `t`.`a`, `t`.`b`, 1, 2 AS `two` FROM `s`.`t`");
    q.clear_selects().column(col("c")).from_schema_as(Iden::new("s"), Iden::new("t"), Iden::new("x"));
    assert_eq!(q.to_string(Dialect::MySql), "SELECT `c` FROM `s`.`t` AS `x`");
    q.from_alias(tbl("u"), Iden::new("y"));
    assert_eq!(q.to_string(Dialect::MySql), "SELECT `c` FROM `u` AS `y`");
}

#[test]
fn group_by_and_having_builders() {
    let mut q = SelectStatement::new();
    q.column(col("a"))
        .from(tbl("t"))
        .group_by_columns(vec![col("a")])
        .group_by_table_columns(vec![(Iden::new("t"), Iden::new("b"))])
        .add_group_by(vec![Expr::col(Iden::new("c"))])
        .cond_having(Condition::all().add_expr(eq_int("a", 1)))
        .or_having(eq_int("b", 2));
    assert_eq!(
        q.to_string(Dialect::MySql),
        "SELECT `a` FROM `t` GROUP BY `a`, `t`.`b`, `c` HAVING `a` = 1 OR `b` = 2"
    );
}

#[test]
fn joins_of_each_builder() {
    let on = || Expr::tbl(Iden::new("a"), Iden::new("id")).eq(Expr::tbl(Iden::new("b"), Iden::new("id")));
    let mut q = SelectStatement::new();
    q.column(ColumnRef::Asterisk)
        .from(tbl("a"))
        .inner_join(tbl("b"), on())
        .join(JoinType::RightJoin, tbl("b"), on())
        .join_as(JoinType::FullOuterJoin, tbl("c"), Iden::new("b"), on())
        .join_alias(JoinType::CrossJoin, tbl("d"), Iden::new("b"), on());
    assert_eq!(
        q.to_string(Dialect::MySql),
        "SELECT * FROM `a` INNER JOIN `b` ON `a`.`id` = `b`.`id` RIGHT JOIN `b` ON `a`.`id` = `b`.`id` FULL OUTER JOIN `c` AS `b` ON `a`.`id` = `b`.`id` CROSS JOIN `d` AS `b` ON `a`.`id` = `b`.`id`"
    );
}

#[test]
fn limit_and_offset_reset() {
    let mut q = SelectStatement::new();
    q.column(col("a")).from(tbl("t")).limit(3).offset(4).reset_limit().reset_offset();
    assert_eq!(q.build(Dialect::MySql), ("SELECT `a` FROM `t`".to_string(), vec![]));
}

#[test]
fn conditions_picks_a_branch() {
    let mut q = SelectStatement::new();
    q.column(col("a")).from(tbl("t")).conditions(
        true,
        |mut s: SelectStatement| {
            s.and_where(eq_int("a", 5));
            s
        },
        |mut s: SelectStatement| {
            s.and_where(eq_int("a", 10));
            s
        },
    );
    assert_eq!(q.to_string(Dialect::MySql), "SELECT `a` FROM `t` WHERE `a` = 5");
}

#[test]
fn exprs_mut_for_each_rewrites_entries() {
    let mut q = SelectStatement::new();
    q.columns(vec![col("a"), col("b")]).from(tbl("t"));
    q.exprs_mut_for_each(|e: SelectExpr| SelectExpr { expr: e.expr, alias: Some(Iden::new("x")) });
    assert_eq!(q.to_string(Dialect::MySql), "SELECT `a` AS `x`, `b` AS `x` FROM `t`");
}

#[test]
fn build_collect_continues_numbering() {
    let mut q = SelectStatement::new();
    q.column(col("a")).from(tbl("t")).and_where(eq_int("a", 9));
    let mut collected = vec![Value::Int(Some(1))];
    let sql = q.build_collect(Dialect::Postgres, &mut collected);
    assert_eq!(sql, "SELECT \"a\" FROM \"t\" WHERE \"a\" = $2");
    assert_eq!(collected, vec![Value::Int(Some(1)), Value::Int(Some(9))]);
}

#[test]
fn like_and_comparisons() {
    let mut q = SelectStatement::new();
    q.column(col("a"))
        .from(tbl("t"))
        .and_where(Expr::col(Iden::new("a")).like("A%".to_string()))
        .and_where(Expr::col(Iden::new("b")).ne(int_val(1)))
        .and_where(Expr::col(Iden::new("c")).lte(int_val(2)))
        .and_where(Expr::col(Iden::new("d")).gte(int_val(3)))
        .and_where(Expr::col(Iden::new("e")).lt(int_val(4)))
        .and_where(Expr::col(Iden::new("f")).div(int_val(5)).is_not_null());
    assert_eq!(
        q.to_string(Dialect::Sqlite),
        "SELECT `a` FROM `t` WHERE `a` LIKE 'A%' AND `b` <> 1 AND `c` <= 2 AND `d` >= 3 AND `e` < 4 AND `f` / 5 IS NOT NULL"
    );
}

#[test]
fn distinct_row_per_dialect() {
    let mut q = SelectStatement::new();
    q.column(col("a")).from(tbl("t"));
    q.distinct = Some(sea_query::SelectDistinct::DistinctRow);
    assert_eq!(q.to_string(Dialect::MySql), "SELECT DISTINCTROW `a` FROM `t`");
    assert_eq!(q.to_string(Dialect::Postgres), "SELECT DISTINCT \"a\" FROM \"t\"");
    q.distinct = Some(sea_query::SelectDistinct::All);
    assert_eq!(q.to_string(Dialect::Sqlite), "SELECT ALL `a` FROM `t`");
}

#[test]
fn quote_characters_in_names_are_doubled() {
    let mut q = SelectStatement::new();
    q.column(col("we\"ird")).from(tbl("a`b"));
    assert_eq!(q.to_string(Dialect::Postgres), "SELECT \"we\"\"ird\" FROM \"a`b\"");
    assert_eq!(q.to_string(Dialect::MySql), "SELECT `we\"ird` FROM `a``b`");
}

#[test]
fn integer_extremes_inline() {
    let mut q = SelectStatement::new();
    q.expr(Expr::val(Value::BigInt(Some(i64::MIN))))
        .expr(Expr::val(Value::SmallUnsigned(Some(0))))
        .expr(Expr::val(Value::Unsigned(Some(4294967295))))
        .expr(Expr::val(Value::SmallInt(Some(-7))))
        .expr(Expr::val(Value::TinyUnsigned(Some(255))))
        .expr(Expr::val(Value::Bool(Some(false))))
        .expr(Expr::val(Value::String(None)));
    assert_eq!(
        q.to_string(Dialect::Postgres),
        "SELECT -9223372036854775808, 0, 4294967295, -7, 255, FALSE, NULL"
    );
}

#[test]
fn in_list_inline_and_with_placeholders() {
    let mut q = SelectStatement::new();
    q.column(col("a")).from(tbl("t")).and_where(
        Expr::col(Iden::new("a")).is_in(vec![Value::String(Some("x".to_string())), Value::String(Some("y".to_string()))]),
    );
    assert_eq!(q.to_string(Dialect::MySql), "SELECT `a` FROM `t` WHERE `a` IN ('x', 'y')");
    assert_eq!(q.build(Dialect::Sqlite).0, "SELECT `a` FROM `t` WHERE `a` IN (?, ?)");
}

#[test]
fn many_placeholders_are_numbered_in_order() {
    let mut q = SelectStatement::new();
    let vals: Vec<Value> = (0..12).map(|i| Value::Int(Some(i))).collect();
    q.column(col("a")).from(tbl("t")).and_where(Expr::col(Iden::new("a")).is_in(vals.clone()));
    let (sql, got) = q.build(Dialect::Postgres);
    assert_eq!(sql, "SELECT \"a\" FROM \"t\" WHERE \"a\" IN ($1, $2, $3, $4, $5, $6, $7, $8, $9, $10, $11, $12)");
    assert_eq!(got, vals);
}

#[test]
fn every_value_site_collected_once_in_clause_order() {
    let mut sub = SelectStatement::new();
    sub.column(col("id")).from(tbl("u")).and_where(eq_int("k", 3));
    let mut q = SelectStatement::new();
    q.expr(int_val(1))
        .from(tbl("t"))
        .left_join(tbl("v"), Expr::col(Iden::new("x")).eq(int_val(2)))
        .and_where(Expr::col(Iden::new("a")).binary(BinOper::In, Expr::subquery(sub)))
        .add_group_by(vec![Expr::col(Iden::new("g")).add(int_val(4))])
        .and_having(eq_int("h", 5))
        .order_by_expr(Expr::col(Iden::new("o")).mul(int_val(6)), Order::Asc)
        .limit(7)
        .offset(8);
    let mut collected = Vec::new();
    let sql = q.build_collect(Dialect::Postgres, &mut collected);
    assert_eq!(
        sql,
        "SELECT $1 FROM \"t\" LEFT JOIN \"v\" ON \"x\" = $2 WHERE \"a\" IN (SELECT \"id\" FROM \"u\" WHERE \"k\" = $3) GROUP BY \"g\" + $4 HAVING \"h\" = $5 ORDER BY \"o\" * $6 ASC LIMIT $7 OFFSET $8"
    );
    assert_eq!(
        collected,
        vec![
            Value::Int(Some(1)),
            Value::Int(Some(2)),
            Value::Int(Some(3)),
            Value::Int(Some(4)),
            Value::Int(Some(5)),
            Value::Int(Some(6)),
            Value::BigUnsigned(Some(7)),
            Value::BigUnsigned(Some(8)),
        ]
    );
}
