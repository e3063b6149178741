use sql_generate::ast::{
    BinaryOperator, ColumnDef, ColumnOption, ColumnOptionDef, DataType, DateTimeField, Expr, Join,
    JoinConstraint, JoinOperator, ObjectName, Query, Select, SelectItem, SetExpr, Statement,
    TableFactor, TableWithJoins, UnaryOperator, Value,
};
use sql_generate::{MsSqlWriter, RenderError};

fn ident(s: &str) -> Expr {
    Expr::Identifier(s.to_string())
}

fn table(name: &str) -> TableFactor {
    TableFactor::Table {
        name: ObjectName(vec![name.to_string()]),
        alias: None,
        args: vec![],
        with_hints: vec![],
    }
}

fn select_of(cols: &[&str], from: &str) -> Select {
    Select {
        distinct: false,
        projection: cols.iter().map(|c| SelectItem::UnnamedExpr(ident(c))).collect(),
        from: vec![TableWithJoins { relation: table(from), joins: vec![] }],
        selection: None,
        group_by: vec![],
        having: None,
    }
}

fn render_expr(e: &Expr) -> Result<String, RenderError> {
    let mut w = MsSqlWriter::new("    ");
    w.write_expr(e)?;
    Ok(w.into_inner())
}

fn render_value(v: &Value) -> String {
    let mut w = MsSqlWriter::new("    ");
    w.write_value(v).unwrap();
    w.into_inner()
}

#[test]
fn basic_select() {
    let s = Select {
        distinct: false,
        projection: vec![
            SelectItem::UnnamedExpr(Expr::Identifier("first".to_string())),
            SelectItem::UnnamedExpr(Expr::Identifier("second".to_string())),
            SelectItem::UnnamedExpr(Expr::Identifier("thrid".to_string())),
            SelectItem::UnnamedExpr(Expr::Identifier("fourth".to_string())),
            SelectItem::UnnamedExpr(Expr::Identifier("fifth".to_string())),
        ],
        from: vec![TableWithJoins {
            relation: TableFactor::Table {
                name: ObjectName(vec!["table".to_string()]),
                alias: None,
                args: vec![],
                with_hints: vec![],
            },
            joins: vec![],
        }],
        selection: None,
        group_by: vec![],
        having: None,
    };
    let mut w = MsSqlWriter::new("    ");
    w.write_select(&s).unwrap();
    let out = w.into_inner();
    assert_eq!(out, "SELECT first, second, thrid, fourth, fifth\nFROM table")
}

#[test]
fn select_five_columns_has_no_trailing_clause() {
    let s = select_of(&["first", "second", "third", "fourth", "fifth"], "table");
    let mut w = MsSqlWriter::new("    ");
    w.write_select(&s).unwrap();
    assert_eq!(w.into_inner(), "SELECT first, second, third, fourth, fifth\nFROM table");
}

#[test]
fn binary_operator_tokens_are_nonempty() {
    let ops = vec![
        (BinaryOperator::And, "AND"),
        (BinaryOperator::Or, "OR"),
        (BinaryOperator::Eq, "="),
        (BinaryOperator::Gt, ">"),
        (BinaryOperator::GtEq, ">="),
        (BinaryOperator::Lt, "<"),
        (BinaryOperator::LtEq, "<="),
        (BinaryOperator::NotEq, "!="),
        (BinaryOperator::Like, "LIKE"),
        (BinaryOperator::NotLike, "NOT LIKE"),
        (BinaryOperator::Plus, "+"),
        (BinaryOperator::Minus, "-"),
        (BinaryOperator::Multiply, "*"),
        (BinaryOperator::Divide, "/"),
        (BinaryOperator::Modulus, "%"),
    ];
    for (op, tok) in ops {
        let mut w = MsSqlWriter::new("    ");
        w.write_binary_operator(&op).unwrap();
        let out = w.into_inner();
        assert!(!out.is_empty());
        assert_eq!(out, tok);
    }
}

#[test]
fn unary_operator_tokens_are_nonempty() {
    for (op, tok) in vec![(UnaryOperator::Minus, "-"), (UnaryOperator::Not, "NOT"), (UnaryOperator::Plus, "+")] {
        let mut w = MsSqlWriter::new("    ");
        w.write_unary_operator(&op).unwrap();
        assert_eq!(w.into_inner(), tok);
    }
}

#[test]
fn object_name_keeps_part_order() {
    let mut w = MsSqlWriter::new("    ");
    w.write_object_name(&ObjectName(vec!["schema".to_string(), "table".to_string()])).unwrap();
    assert_eq!(w.into_inner(), "schema.table");
}

#[test]
fn empty_object_name_is_malformed() {
    let mut w = MsSqlWriter::new("    ");
    assert_eq!(w.write_object_name(&ObjectName(vec![])), Err(RenderError::MalformedNode));
    assert_eq!(w.into_inner(), "");
}

#[test]
fn column_def_keeps_option_order() {
    let c = ColumnDef {
        name: "id".to_string(),
        data_type: DataType::Int,
        collation: None,
        options: vec![
            ColumnOptionDef { name: None, option: ColumnOption::NotNull },
            ColumnOptionDef { name: None, option: ColumnOption::Unique { is_primary: true } },
        ],
    };
    let mut w = MsSqlWriter::new("    ");
    w.write_column_def(&c).unwrap();
    assert_eq!(w.into_inner(), "id INT NOT NULL PRIMARY KEY");
}

#[test]
fn named_column_option_and_varchar_length() {
    let c = ColumnDef {
        name: "code".to_string(),
        data_type: DataType::Varchar(Some(255)),
        collation: None,
        options: vec![ColumnOptionDef {
            name: Some("pk_code".to_string()),
            option: ColumnOption::Unique { is_primary: false },
        }],
    };
    let mut w = MsSqlWriter::new("    ");
    w.write_column_def(&c).unwrap();
    assert_eq!(w.into_inner(), "code VARCHAR(255) CONSTRAINT pk_code UNIQUE");
}

#[test]
fn interval_with_and_without_precision() {
    let plain = Value::Interval {
        value: "1".to_string(),
        leading_field: DateTimeField::Year,
        leading_precision: None,
        last_field: None,
        fractional_seconds_precision: None,
    };
    assert_eq!(render_value(&plain), "INTERVAL '1' YEAR");
    let precise = Value::Interval {
        value: "1".to_string(),
        leading_field: DateTimeField::Year,
        leading_precision: Some(2),
        last_field: None,
        fractional_seconds_precision: None,
    };
    assert_eq!(render_value(&precise), "INTERVAL '1' YEAR(2)");
}

#[test]
fn interval_to_last_field() {
    let v = Value::Interval {
        value: "1:30".to_string(),
        leading_field: DateTimeField::Minute,
        leading_precision: Some(3),
        last_field: Some(DateTimeField::Second),
        fractional_seconds_precision: Some(10),
    };
    assert_eq!(render_value(&v), "INTERVAL '1:30' MINUTE(3) TO SECOND(10)");
}

#[test]
fn literal_quoting() {
    assert_eq!(render_value(&Value::Boolean(true)), "true");
    assert_eq!(render_value(&Value::Number("42".to_string())), "42");
    assert_eq!(render_value(&Value::SingleQuotedString("a b".to_string())), "'a b'");
    assert_eq!(render_value(&Value::HexStringLiteral("FF".to_string())), "X'FF'");
    assert_eq!(render_value(&Value::NationalStringLiteral("x".to_string())), "n'x'");
    assert_eq!(render_value(&Value::Null), "NULL");
}

#[test]
fn case_expression_is_unsupported_and_writes_nothing() {
    let case = Expr::Case {
        operand: None,
        conditions: vec![ident("a")],
        results: vec![ident("b")],
        else_result: None,
    };
    let mut w = MsSqlWriter::new("    ");
    w.write_expr(&ident("x")).unwrap();
    assert_eq!(w.write_expr(&case), Err(RenderError::UnsupportedConstruct));
    assert_eq!(w.into_inner(), "x");
}

#[test]
fn two_fresh_writers_agree() {
    let q = Query {
        ctes: vec![],
        body: SetExpr::Select(Box::new(select_of(&["a", "b"], "t"))),
        order_by: vec![],
    };
    let stmt = Statement::Query(Box::new(q));
    let mut w1 = MsSqlWriter::new("  ");
    let mut w2 = MsSqlWriter::new("  ");
    w1.write_statement(&stmt).unwrap();
    w2.write_statement(&stmt).unwrap();
    let a = w1.into_inner();
    assert_eq!(a, w2.into_inner());
    assert_eq!(a, "SELECT a, b\nFROM t");
}

#[test]
fn between_keeps_low_then_high() {
    let e = Expr::Between {
        expr: Box::new(ident("x")),
        negated: true,
        low: Box::new(Expr::Value(Value::Number("1".to_string()))),
        high: Box::new(Expr::Value(Value::Number("9".to_string()))),
    };
    assert_eq!(render_expr(&e).unwrap(), "x NOT BETWEEN 1 AND 9");
}

#[test]
fn binary_plus_and_in_list() {
    let e = Expr::BinaryOp {
        left: Box::new(ident("a")),
        op: BinaryOperator::Plus,
        right: Box::new(ident("b")),
    };
    assert_eq!(render_expr(&e).unwrap(), "a + b");
    let l = Expr::InList { expr: Box::new(ident("a")), list: vec![ident("b"), ident("c")], negated: false };
    assert_eq!(render_expr(&l).unwrap(), "a IN (b, c)");
    let n = Expr::IsNotNull(Box::new(ident("a")));
    assert_eq!(render_expr(&n).unwrap(), "a IS NOT NULL");
}

#[test]
fn select_with_where_group_by_and_having() {
    let mut s = select_of(&["a"], "t");
    s.distinct = true;
    s.selection = Some(Expr::IsNull(Box::new(ident("b"))));
    s.group_by = vec![ident("a"), ident("c")];
    s.having = Some(ident("h"));
    let mut w = MsSqlWriter::new("    ");
    w.write_select(&s).unwrap();
    assert_eq!(w.into_inner(), "SELECT DISTINCT a\nFROM t\nWHERE b IS NULL\nGROUP BY a, c\nHAVING h");
}

#[test]
fn join_constraint_is_indented_one_level() {
    let t = TableWithJoins {
        relation: table("a"),
        joins: vec![Join {
            relation: table("b"),
            join_operator: JoinOperator::LeftOuter(JoinConstraint::On(Expr::BinaryOp {
                left: Box::new(Expr::CompoundIdentifier(vec!["a".to_string(), "id".to_string()])),
                op: BinaryOperator::Eq,
                right: Box::new(Expr::CompoundIdentifier(vec!["b".to_string(), "id".to_string()])),
            })),
        }],
    };
    let mut w = MsSqlWriter::new("  ");
    w.write_table_with_joins(&t).unwrap();
    assert_eq!(w.into_inner(), "a\nLEFT OUTER JOIN b\n  ON a.id = b.id");
}

#[test]
fn cross_join_and_several_tables_are_unsupported() {
    let j = Join { relation: table("b"), join_operator: JoinOperator::CrossJoin };
    let mut w = MsSqlWriter::new("  ");
    assert_eq!(w.write_join(&j), Err(RenderError::UnsupportedConstruct));
    let mut s = select_of(&["a"], "t");
    s.from.push(TableWithJoins { relation: table("u"), joins: vec![] });
    assert_eq!(w.write_select(&s), Err(RenderError::UnsupportedConstruct));
    assert_eq!(w.into_inner(), "");
}

#[test]
fn empty_projection_is_malformed() {
    let s = select_of(&[], "t");
    let mut w = MsSqlWriter::new("  ");
    assert_eq!(w.write_select(&s), Err(RenderError::MalformedNode));
}

#[test]
fn other_statements_are_unsupported() {
    let mut w = MsSqlWriter::new("  ");
    assert_eq!(w.write_statement(&Statement::Other), Err(RenderError::UnsupportedConstruct));
}

fn query_of(cols: &[&str], from: &str) -> Query {
    Query { ctes: vec![], body: SetExpr::Select(Box::new(select_of(cols, from))), order_by: vec![] }
}

#[test]
fn subquery_and_exists_write_the_query_verbatim() {
    let sub = Expr::Subquery(Box::new(query_of(&["a"], "t")));
    assert_eq!(render_expr(&sub).unwrap(), "SELECT a\nFROM t");
    let ex = Expr::Exists(Box::new(query_of(&["b"], "u")));
    assert_eq!(render_expr(&ex).unwrap(), "SELECT b\nFROM u");
    let inq = Expr::InSubquery {
        expr: Box::new(ident("x")),
        subquery: Box::new(query_of(&["a"], "t")),
        negated: false,
    };
    assert_eq!(render_expr(&inq).unwrap(), "x IN (SELECT a\nFROM t)");
}

#[test]
fn nested_query_body_is_the_query_text() {
    let mut w = MsSqlWriter::new("    ");
    w.write_set_expr(&SetExpr::Query(Box::new(query_of(&["a"], "t")))).unwrap();
    assert_eq!(w.into_inner(), "SELECT a\nFROM t");
}

#[test]
fn nested_binary_operations_follow_the_tree_without_parentheses() {
    // (a + b) * c, as the tree nests it; no parentheses are added.
    let sum = Expr::BinaryOp { left: Box::new(ident("a")), op: BinaryOperator::Plus, right: Box::new(ident("b")) };
    let product = Expr::BinaryOp { left: Box::new(sum), op: BinaryOperator::Multiply, right: Box::new(ident("c")) };
    assert_eq!(render_expr(&product).unwrap(), "a + b * c");
    let negated = Expr::UnaryOp {
        op: UnaryOperator::Not,
        expr: Box::new(Expr::BinaryOp { left: Box::new(ident("p")), op: BinaryOperator::And, right: Box::new(ident("q")) }),
    };
    assert_eq!(render_expr(&negated).unwrap(), "NOT p AND q");
}
