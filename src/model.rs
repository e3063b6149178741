//! What each node renders to: the text of a node as a spec function, or the
//! error that rendering it reports. Errors come from the first failing part in
//! the order in which the text is written.
use vstd::prelude::*;
use crate::ast::{
    Assignment, BinaryOperator, ColumnDef, ColumnOption, ColumnOptionDef, DataType, DateTimeField, Expr,
    Join, JoinConstraint, JoinOperator, ObjectName, OrderByExpr, Query, Select, SelectItem, SetExpr,
    SetOperator, Statement, TableAlias, TableFactor, TableWithJoins, UnaryOperator, Value,
};

verus! {

/// Why a node could not be rendered.
#[derive(Debug, Clone, Copy, PartialEq, Eq, Structural)]
pub enum RenderError {
    /// A node kind or feature that this dialect's writer does not render.
    UnsupportedConstruct,
    /// Fields in a combination that the grammar does not allow.
    MalformedNode,
    /// Join nesting deeper than the indentation depth can count.
    NestingTooDeep,
}

/// Concatenation of texts is associative, with the empty text as unit.
pub broadcast proof fn lemma_cat_assoc(a: Seq<char>, b: Seq<char>, c: Seq<char>)
    ensures
        #[trigger] ((a + b) + c) == a + (b + c),
{
    assert((a + b) + c =~= a + (b + c));
}

pub broadcast proof fn lemma_cat_empty_right(a: Seq<char>)
    ensures
        #[trigger] (a + Seq::<char>::empty()) == a,
{
    assert(a + Seq::<char>::empty() =~= a);
}

pub broadcast proof fn lemma_cat_empty_left(a: Seq<char>)
    ensures
        #[trigger] (Seq::<char>::empty() + a) == a,
{
    assert(Seq::<char>::empty() + a =~= a);
}

pub broadcast group group_cat {
    lemma_cat_assoc,
    lemma_cat_empty_right,
    lemma_cat_empty_left,
}

/// Appending text keeps what was there as a prefix.
pub broadcast proof fn lemma_prefix_of_append(a: Seq<char>, t: Seq<char>)
    ensures
        #[trigger] a.is_prefix_of(a + t),
{
    assert(a =~= (a + t).subrange(0, a.len() as int));
}

/// Rendered text, or the reason why there is none.
pub type Text = Result<Seq<char>, RenderError>;

/// Text of `a` followed by text of `b`; the first error wins.
pub open spec fn chain(a: Text, b: Text) -> Text {
    match a {
        Ok(x) => match b {
            Ok(y) => Ok(x + y),
            Err(k) => Err(k),
        },
        Err(k) => Err(k),
    }
}

/// The relation between a render call's result, the sink before and after
/// the call, and the model of the node: on success exactly the node's text is
/// appended; on failure the model's error is returned.
pub open spec fn emitted(r: Result<(), RenderError>, before: Seq<char>, after: Seq<char>, model: Text) -> bool {
    match model {
        Ok(t) => r == Ok::<(), RenderError>(()) && after == before + t,
        Err(k) => r == Err::<(), RenderError>(k),
    }
}

/// `d` copies of the indentation unit `u`.
#[verifier::opaque]
pub open spec fn prefix(u: Seq<char>, d: nat) -> Seq<char>
    decreases d,
{
    if d == 0 {
        Seq::empty()
    } else {
        prefix(u, (d - 1) as nat) + u
    }
}

/// The parts joined by `sep`, in order, with no separator at either end.
pub open spec fn joined(parts: Seq<Seq<char>>, sep: Seq<char>) -> Seq<char>
    decreases parts.len(),
{
    if parts.len() == 0 {
        Seq::empty()
    } else if parts.len() == 1 {
        parts[0]
    } else {
        joined(parts.drop_last(), sep) + sep + parts.last()
    }
}

pub open spec fn names(v: Seq<String>) -> Seq<Seq<char>> {
    v.map_values(|s: String| s@)
}

pub open spec fn digit(d: nat) -> Seq<char> {
    if d == 0 { "0"@ } else if d == 1 { "1"@ } else if d == 2 { "2"@ } else if d == 3 { "3"@ }
    else if d == 4 { "4"@ } else if d == 5 { "5"@ } else if d == 6 { "6"@ } else if d == 7 { "7"@ }
    else if d == 8 { "8"@ } else { "9"@ }
}

/// Decimal digits of `n`, without leading zeros.
pub open spec fn digits(n: nat) -> Seq<char>
    decreases n,
{
    if n < 10 {
        digit(n)
    } else {
        digits(n / 10) + digit(n % 10)
    }
}

pub open spec fn binary_token(op: BinaryOperator) -> Seq<char> {
    match op {
        BinaryOperator::And => "AND"@,
        BinaryOperator::Or => "OR"@,
        BinaryOperator::Eq => "="@,
        BinaryOperator::Gt => ">"@,
        BinaryOperator::GtEq => ">="@,
        BinaryOperator::Lt => "<"@,
        BinaryOperator::LtEq => "<="@,
        BinaryOperator::NotEq => "!="@,
        BinaryOperator::Like => "LIKE"@,
        BinaryOperator::NotLike => "NOT LIKE"@,
        BinaryOperator::Plus => "+"@,
        BinaryOperator::Minus => "-"@,
        BinaryOperator::Multiply => "*"@,
        BinaryOperator::Divide => "/"@,
        BinaryOperator::Modulus => "%"@,
    }
}

pub open spec fn unary_token(op: UnaryOperator) -> Seq<char> {
    match op {
        UnaryOperator::Minus => "-"@,
        UnaryOperator::Not => "NOT"@,
        UnaryOperator::Plus => "+"@,
    }
}

pub open spec fn field_name(f: DateTimeField) -> Seq<char> {
    match f {
        DateTimeField::Year => "YEAR"@,
        DateTimeField::Month => "MONTH"@,
        DateTimeField::Day => "DAY"@,
        DateTimeField::Hour => "HOUR"@,
        DateTimeField::Minute => "MINUTE"@,
        DateTimeField::Second => "SECOND"@,
    }
}

pub open spec fn set_operator_keyword(op: SetOperator) -> Seq<char> {
    match op {
        SetOperator::Union => "UNION"@,
        SetOperator::Except => "EXCEPT"@,
        SetOperator::Intersect => "INTERSECT"@,
    }
}

/// `"(" + n + ")"`.
pub open spec fn paren_number(n: u64) -> Seq<char> {
    "("@ + digits(n as nat) + ")"@
}

pub open spec fn quoted(open: Seq<char>, s: Seq<char>) -> Seq<char> {
    open + s + "'"@
}

pub open spec fn object_name_sql(n: ObjectName) -> Text {
    if n.0@.len() == 0 {
        Err(RenderError::MalformedNode)
    } else {
        Ok(joined(names(n.0@), "."@))
    }
}

pub open spec fn interval_sql(
    value: Seq<char>,
    leading: DateTimeField,
    lp: Option<u64>,
    last: Option<DateTimeField>,
    fsp: Option<u64>,
) -> Text {
    let head = "INTERVAL '"@ + value + "' "@ + field_name(leading);
    match last {
        None => match (lp, fsp) {
            (None, None) => Ok(head),
            (Some(p), None) => Ok(head + paren_number(p)),
            (Some(p), Some(f)) => Ok(head + "("@ + digits(p as nat) + ", "@ + digits(f as nat) + ")"@),
            (None, Some(_)) => Err(RenderError::MalformedNode),
        },
        Some(lf) => {
            let lead = match lp {
                Some(p) => head + paren_number(p),
                None => head,
            };
            let tail = match fsp {
                Some(f) => " TO "@ + field_name(lf) + paren_number(f),
                None => " TO "@ + field_name(lf),
            };
            Ok(lead + tail)
        },
    }
}

pub open spec fn value_sql(v: Value) -> Text {
    match v {
        Value::Boolean(b) => Ok(if b { "true"@ } else { "false"@ }),
        Value::Number(s) => Ok(s@),
        Value::SingleQuotedString(s) => Ok(quoted("'"@, s@)),
        Value::Date(s) => Ok(quoted("'"@, s@)),
        Value::Time(s) => Ok(quoted("'"@, s@)),
        Value::Timestamp(s) => Ok(quoted("'"@, s@)),
        Value::HexStringLiteral(s) => Ok(quoted("X'"@, s@)),
        Value::NationalStringLiteral(s) => Ok(quoted("n'"@, s@)),
        Value::Null => Ok("NULL"@),
        Value::Interval { value, leading_field, leading_precision, last_field, fractional_seconds_precision } =>
            interval_sql(value@, leading_field, leading_precision, last_field, fractional_seconds_precision),
    }
}

pub open spec fn opt_len(name: Seq<char>, n: Option<u64>) -> Seq<char> {
    match n {
        Some(k) => name + paren_number(k),
        None => name,
    }
}

pub open spec fn data_type_sql(t: DataType) -> Text {
    match t {
        DataType::Char(n) => Ok(opt_len("CHAR"@, n)),
        DataType::Varchar(n) => Ok(opt_len("VARCHAR"@, n)),
        DataType::Float(n) => Ok(opt_len("FLOAT"@, n)),
        DataType::Decimal(p, s) => match (p, s) {
            (None, None) => Ok("DECIMAL"@),
            (Some(a), None) => Ok("DECIMAL"@ + paren_number(a)),
            (Some(a), Some(b)) => Ok("DECIMAL("@ + digits(a as nat) + ", "@ + digits(b as nat) + ")"@),
            (None, Some(_)) => Err(RenderError::MalformedNode),
        },
        DataType::SmallInt => Ok("SMALLINT"@),
        DataType::Int => Ok("INT"@),
        DataType::BigInt => Ok("BIGINT"@),
        DataType::Real => Ok("REAL"@),
        DataType::Double => Ok("DOUBLE"@),
        DataType::Boolean => Ok("BOOLEAN"@),
        DataType::Date => Ok("DATE"@),
        DataType::Time => Ok("TIME"@),
        DataType::Timestamp => Ok("TIMESTAMP"@),
        DataType::Text => Ok("TEXT"@),
        DataType::Custom(n) => object_name_sql(n),
    }
}


pub open spec fn alias_text(a: Option<TableAlias>) -> Seq<char> {
    match a {
        None => Seq::empty(),
        Some(t) => if t.columns@.len() == 0 {
            " AS "@ + t.name@
        } else {
            " AS "@ + t.name@ + " ("@ + joined(names(t.columns@), ", "@) + ")"@
        },
    }
}

pub open spec fn join_keyword(op: JoinOperator) -> Seq<char> {
    match op {
        JoinOperator::Inner(_) => "INNER JOIN "@,
        JoinOperator::LeftOuter(_) => "LEFT OUTER JOIN "@,
        JoinOperator::RightOuter(_) => "RIGHT OUTER JOIN "@,
        JoinOperator::FullOuter(_) => "FULL OUTER JOIN "@,
        JoinOperator::CrossJoin => "CROSS JOIN "@,
    }
}

/// Text of an expression, with `u` the indentation unit and `d` the depth.
///
/// No parentheses are synthesized: a binary or unary operation writes its
/// operands exactly as the tree nests them, so the tree must already encode
/// the intended grouping (a parenthesized operand arrives as `Nested`, which
/// this writer does not render). `EXISTS` and a scalar subquery write the
/// nested query verbatim; the caller supplies any surrounding parentheses.
pub open spec fn expr_sql(e: Expr, u: Seq<char>, d: nat) -> Text
    decreases e, 0int,
{
    match e {
        Expr::Identifier(s) => Ok(s@),
        Expr::Wildcard => Ok("*"@),
        Expr::QualifiedWildcard(v) => Ok(joined(names(v@), "."@) + ".*"@),
        Expr::CompoundIdentifier(v) => Ok(joined(names(v@), "."@)),
        Expr::IsNull(x) => chain(expr_sql(*x, u, d), Ok(" IS NULL"@)),
        Expr::IsNotNull(x) => chain(expr_sql(*x, u, d), Ok(" IS NOT NULL"@)),
        Expr::InList { expr, list, negated } => chain(
            expr_sql(*expr, u, d),
            chain(
                Ok(if negated { " NOT IN ("@ } else { " IN ("@ }),
                chain(list_sql(list@, ", "@, 0, u, d), Ok(")"@)),
            ),
        ),
        Expr::InSubquery { expr, subquery, negated } => chain(
            expr_sql(*expr, u, d),
            chain(
                Ok(if negated { " NOT IN ("@ } else { " IN ("@ }),
                chain(query_sql(*subquery, u, d), Ok(")"@)),
            ),
        ),
        Expr::Between { expr, negated, low, high } => chain(
            expr_sql(*expr, u, d),
            chain(
                Ok(if negated { " NOT BETWEEN "@ } else { " BETWEEN "@ }),
                chain(expr_sql(*low, u, d), chain(Ok(" AND "@), expr_sql(*high, u, d))),
            ),
        ),
        Expr::BinaryOp { left, op, right } => chain(
            expr_sql(*left, u, d),
            chain(Ok(" "@ + binary_token(op) + " "@), expr_sql(*right, u, d)),
        ),
        Expr::UnaryOp { op, expr } => chain(Ok(unary_token(op) + " "@), expr_sql(*expr, u, d)),
        Expr::Value(v) => value_sql(v),
        Expr::Function(f) => if f.over {
            Err(RenderError::UnsupportedConstruct)
        } else {
            chain(
                object_name_sql(f.name),
                chain(
                    Ok(if f.distinct { "(DISTINCT "@ } else { "("@ }),
                    chain(list_sql(f.args@, ", "@, 0, u, d), Ok(")"@)),
                ),
            )
        },
        Expr::Exists(q) => query_sql(*q, u, d),
        Expr::Subquery(q) => query_sql(*q, u, d),
        Expr::Cast { .. } => Err(RenderError::UnsupportedConstruct),
        Expr::Extract { .. } => Err(RenderError::UnsupportedConstruct),
        Expr::Collate { .. } => Err(RenderError::UnsupportedConstruct),
        Expr::Nested(_) => Err(RenderError::UnsupportedConstruct),
        Expr::Case { .. } => Err(RenderError::UnsupportedConstruct),
    }
}

/// Text of the expressions of `s` from index `i` on, separated by `sep`.
pub open spec fn list_sql(s: Seq<Expr>, sep: Seq<char>, i: int, u: Seq<char>, d: nat) -> Text
    decreases s, s.len() - i,
{
    if i < 0 || i >= s.len() {
        Ok(Seq::empty())
    } else if i == 0 {
        chain(expr_sql(s[i], u, d), list_sql(s, sep, i + 1, u, d))
    } else {
        chain(Ok(sep), chain(expr_sql(s[i], u, d), list_sql(s, sep, i + 1, u, d)))
    }
}

pub open spec fn order_by_expr_sql(o: OrderByExpr, u: Seq<char>, d: nat) -> Text
    decreases o, 0int,
{
    match o.asc {
        None => expr_sql(o.expr, u, d),
        Some(b) => chain(expr_sql(o.expr, u, d), Ok(if b { " ASC"@ } else { " DESC"@ })),
    }
}

pub open spec fn order_bys_sql(s: Seq<OrderByExpr>, i: int, u: Seq<char>, d: nat) -> Text
    decreases s, s.len() - i,
{
    if i < 0 || i >= s.len() {
        Ok(Seq::empty())
    } else if i == 0 {
        chain(order_by_expr_sql(s[i], u, d), order_bys_sql(s, i + 1, u, d))
    } else {
        chain(Ok(", "@), chain(order_by_expr_sql(s[i], u, d), order_bys_sql(s, i + 1, u, d)))
    }
}

pub open spec fn query_sql(q: Query, u: Seq<char>, d: nat) -> Text
    decreases q, 0int,
{
    if q.ctes@.len() > 0 {
        Err(RenderError::UnsupportedConstruct)
    } else if q.order_by@.len() == 0 {
        set_expr_sql(q.body, u, d)
    } else {
        chain(
            set_expr_sql(q.body, u, d),
            chain(Ok("\n"@ + prefix(u, d) + "ORDER BY "@), order_bys_sql(q.order_by@, 0, u, d)),
        )
    }
}

pub open spec fn set_expr_sql(s: SetExpr, u: Seq<char>, d: nat) -> Text
    decreases s, 0int,
{
    match s {
        SetExpr::Select(sel) => select_sql(*sel, u, d),
        SetExpr::Query(q) => query_sql(*q, u, d),
        SetExpr::SetOperation { op, all, left, right } => chain(
            set_expr_sql(*left, u, d),
            chain(
                Ok("\n"@ + set_operator_keyword(op) + if all { " ALL\n"@ } else { "\n"@ }),
                set_expr_sql(*right, u, d),
            ),
        ),
        SetExpr::Values(v) => if v.0@.len() == 0 {
            Err(RenderError::MalformedNode)
        } else {
            chain(Ok("VALUES "@), rows_sql(v.0@, 0, u, d))
        },
    }
}

/// Text of the rows of a `VALUES` list from index `i` on.
pub open spec fn rows_sql(rows: Seq<Vec<Expr>>, i: int, u: Seq<char>, d: nat) -> Text
    decreases rows, rows.len() - i,
{
    if i < 0 || i >= rows.len() {
        Ok(Seq::empty())
    } else {
        let row = chain(Ok("("@), chain(list_sql(rows[i]@, ", "@, 0, u, d), Ok(")"@)));
        if i == 0 {
            chain(row, rows_sql(rows, i + 1, u, d))
        } else {
            chain(Ok(", "@), chain(row, rows_sql(rows, i + 1, u, d)))
        }
    }
}

pub open spec fn select_item_sql(it: SelectItem, u: Seq<char>, d: nat) -> Text
    decreases it, 0int,
{
    match it {
        SelectItem::UnnamedExpr(e) => expr_sql(e, u, d),
        SelectItem::ExprWithAlias { expr, alias } => chain(expr_sql(expr, u, d), Ok(" AS "@ + alias@)),
        SelectItem::QualifiedWildcard(n) => chain(object_name_sql(n), Ok(".*"@)),
        SelectItem::Wildcard => Ok("*"@),
    }
}

pub open spec fn items_sql(s: Seq<SelectItem>, i: int, u: Seq<char>, d: nat) -> Text
    decreases s, s.len() - i,
{
    if i < 0 || i >= s.len() {
        Ok(Seq::empty())
    } else if i == 0 {
        chain(select_item_sql(s[i], u, d), items_sql(s, i + 1, u, d))
    } else {
        chain(Ok(", "@), chain(select_item_sql(s[i], u, d), items_sql(s, i + 1, u, d)))
    }
}

/// Text of one `SELECT` block: each optional clause only where present.
pub open spec fn select_sql(s: Select, u: Seq<char>, d: nat) -> Text
    decreases s, 2int,
{
    if s.projection@.len() == 0 {
        Err(RenderError::MalformedNode)
    } else {
        chain(
            Ok(if s.distinct { "SELECT DISTINCT "@ } else { "SELECT "@ }),
            chain(items_sql(s.projection@, 0, u, d), clauses_sql(s, u, d)),
        )
    }
}

/// The clauses after the projection, in their fixed order.
pub open spec fn clauses_sql(s: Select, u: Seq<char>, d: nat) -> Text
    decreases s, 1int,
{
    chain(from_sql(s, u, d), chain(where_sql(s, u, d), chain(group_by_sql(s, u, d), having_sql(s, u, d))))
}

/// The FROM clause: none without tables, one table per statement.
pub open spec fn from_sql(s: Select, u: Seq<char>, d: nat) -> Text
    decreases s, 0int,
{
    if s.from@.len() == 0 {
        Ok(Seq::empty())
    } else if s.from@.len() > 1 {
        Err(RenderError::UnsupportedConstruct)
    } else {
        chain(Ok("\nFROM "@ + prefix(u, d)), twj_sql(s.from@[0], u, d))
    }
}

pub open spec fn where_sql(s: Select, u: Seq<char>, d: nat) -> Text
    decreases s, 0int,
{
    match s.selection {
        None => Ok(Seq::empty()),
        Some(w) => chain(Ok("\nWHERE "@), expr_sql(w, u, d)),
    }
}

pub open spec fn group_by_sql(s: Select, u: Seq<char>, d: nat) -> Text
    decreases s, 0int,
{
    if s.group_by@.len() == 0 {
        Ok(Seq::empty())
    } else {
        chain(Ok("\n"@ + prefix(u, d) + "GROUP BY "@), list_sql(s.group_by@, ", "@, 0, u, d))
    }
}

pub open spec fn having_sql(s: Select, u: Seq<char>, d: nat) -> Text
    decreases s, 0int,
{
    match s.having {
        None => Ok(Seq::empty()),
        Some(h) => chain(Ok("\n"@ + prefix(u, d) + "HAVING "@), expr_sql(h, u, d)),
    }
}

/// Text of a FROM entry: its table, then each join on a line of its own.
pub open spec fn twj_sql(t: TableWithJoins, u: Seq<char>, d: nat) -> Text
    decreases t, 0int,
{
    chain(factor_sql(t.relation, u, d), joins_sql(t.joins@, 0, u, d))
}

pub open spec fn factor_sql(f: TableFactor, u: Seq<char>, d: nat) -> Text
    decreases f, 0int,
{
    match f {
        TableFactor::Table { name, alias, args, with_hints } => chain(
            object_name_sql(name),
            chain(
                Ok(alias_text(alias)),
                chain(
                    if args@.len() == 0 {
                        Ok(Seq::empty())
                    } else {
                        chain(Ok(" ("@), chain(list_sql(args@, ", "@, 0, u, d), Ok(")"@)))
                    },
                    if with_hints@.len() == 0 {
                        Ok(Seq::empty())
                    } else {
                        chain(Ok(" WITH ("@), chain(list_sql(with_hints@, ", "@, 0, u, d), Ok(")"@)))
                    },
                ),
            ),
        ),
        TableFactor::Derived { lateral, subquery, alias } => if lateral {
            Err(RenderError::UnsupportedConstruct)
        } else {
            chain(Ok("("@), chain(query_sql(*subquery, u, d), Ok(")"@ + alias_text(alias))))
        },
        TableFactor::NestedJoin(t) => chain(Ok("("@), chain(twj_sql(*t, u, d), Ok(")"@))),
    }
}

pub open spec fn joins_sql(s: Seq<Join>, i: int, u: Seq<char>, d: nat) -> Text
    decreases s, s.len() - i,
{
    if i < 0 || i >= s.len() {
        Ok(Seq::empty())
    } else {
        chain(Ok("\n"@ + prefix(u, d)), chain(join_sql(s[i], u, d), joins_sql(s, i + 1, u, d)))
    }
}

/// Text of a join: keyword, table, then its constraint one level deeper.
pub open spec fn join_sql(j: Join, u: Seq<char>, d: nat) -> Text
    decreases j, 0int,
{
    match j.join_operator {
        JoinOperator::CrossJoin => Err(RenderError::UnsupportedConstruct),
        JoinOperator::Inner(c) | JoinOperator::LeftOuter(c) | JoinOperator::RightOuter(c)
        | JoinOperator::FullOuter(c) => chain(
            Ok(join_keyword(j.join_operator)),
            chain(
                factor_sql(j.relation, u, d),
                if d + 1 > usize::MAX {
                    Err(RenderError::NestingTooDeep)
                } else {
                    chain(Ok("\n"@ + prefix(u, d + 1)), constraint_sql(c, u, d + 1))
                },
            ),
        ),
    }
}

pub open spec fn constraint_sql(c: JoinConstraint, u: Seq<char>, d: nat) -> Text
    decreases c, 0int,
{
    match c {
        JoinConstraint::On(e) => chain(Ok("ON "@), expr_sql(e, u, d)),
        JoinConstraint::Using(cols) => Ok("USING ("@ + joined(names(cols@), ", "@) + ")"@),
        JoinConstraint::Natural => Err(RenderError::UnsupportedConstruct),
    }
}

pub open spec fn statement_sql(s: Statement, u: Seq<char>, d: nat) -> Text {
    match s {
        Statement::Query(q) => query_sql(*q, u, d),
        Statement::Other => Err(RenderError::UnsupportedConstruct),
    }
}

pub open spec fn column_option_sql(o: ColumnOption, u: Seq<char>, d: nat) -> Text {
    match o {
        ColumnOption::Null => Ok("NULL"@),
        ColumnOption::NotNull => Ok("NOT NULL"@),
        ColumnOption::Default(e) => chain(Ok("DEFAULT "@), expr_sql(e, u, d)),
        ColumnOption::Unique { is_primary } => Ok(if is_primary { "PRIMARY KEY"@ } else { "UNIQUE"@ }),
        ColumnOption::ForeignKey { foreign_table, referred_columns } => chain(
            Ok("FOREIGN KEY "@),
            chain(object_name_sql(foreign_table), Ok(" ("@ + joined(names(referred_columns@), " "@) + ")"@)),
        ),
        ColumnOption::Check(e) => chain(Ok("CHECK ("@), chain(expr_sql(e, u, d), Ok(")"@))),
    }
}

pub open spec fn column_option_def_sql(o: ColumnOptionDef, u: Seq<char>, d: nat) -> Text {
    match o.name {
        Some(n) => chain(Ok("CONSTRAINT "@ + n@ + " "@), column_option_sql(o.option, u, d)),
        None => column_option_sql(o.option, u, d),
    }
}

/// Each option of `s` from index `i` on, each preceded by a space.
pub open spec fn options_sql(s: Seq<ColumnOptionDef>, i: int, u: Seq<char>, d: nat) -> Text
    decreases s.len() - i,
{
    if i < 0 || i >= s.len() {
        Ok(Seq::empty())
    } else {
        chain(Ok(" "@), chain(column_option_def_sql(s[i], u, d), options_sql(s, i + 1, u, d)))
    }
}

pub open spec fn column_def_sql(c: ColumnDef, u: Seq<char>, d: nat) -> Text {
    chain(
        Ok(c.name@ + " "@),
        chain(
            data_type_sql(c.data_type),
            chain(
                match c.collation {
                    None => Ok(Seq::empty()),
                    Some(n) => chain(Ok(" COLLATE "@), object_name_sql(n)),
                },
                options_sql(c.options@, 0, u, d),
            ),
        ),
    )
}

pub open spec fn assignment_sql(a: Assignment, u: Seq<char>, d: nat) -> Text {
    chain(Ok(a.id@ + " = "@), chain(expr_sql(a.value, u, d), Ok(";\n"@)))
}

} // verus!
