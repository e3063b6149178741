//! Emitters: each appends the text of one node to a buffer, or reports why the
//! node cannot be rendered. On failure the buffer may hold part of the text;
//! the writer discards it.
use vstd::prelude::*;
use crate::ast::{
    BinaryOperator, DataType, DateTimeField, Expr, Join, JoinConstraint, JoinOperator, ObjectName,
    OrderByExpr, Query, Select, SelectItem, SetExpr, SetOperator, TableAlias, TableFactor,
    TableWithJoins, UnaryOperator, Value,
};
use crate::model::{
    binary_token, data_type_sql, digit, digits, emitted, field_name, interval_sql, joined, names,
    object_name_sql, prefix, set_operator_keyword, unary_token, value_sql, alias_text, RenderError,
    chain, constraint_sql, expr_sql, factor_sql, items_sql, join_keyword, join_sql, joins_sql,
    list_sql, order_by_expr_sql, clauses_sql, from_sql, where_sql, group_by_sql, having_sql, order_bys_sql, query_sql, rows_sql, select_item_sql, select_sql,
    set_expr_sql, twj_sql,
};

verus! {

broadcast use crate::model::lemma_cat_assoc, crate::model::lemma_cat_empty_left;

/// Appends `d` copies of the indentation unit.
pub fn emit_prefix(out: &mut String, u: &str, d: usize)
    ensures
        final(out)@ == old(out)@ + prefix(u@, d as nat),
{
    let ghost o = out@;
    proof {
        reveal_with_fuel(prefix, 1);
    }
    let mut i: usize = 0;
    while i < d
        invariant
            i <= d,
            out@ == o + prefix(u@, i as nat),
        decreases d - i,
    {
        proof {
            reveal_with_fuel(prefix, 2);
        }
        out.append(u);
        i = i + 1;
    }
}

fn digit_str(n: u64) -> (r: &'static str)
    requires
        n < 10,
    ensures
        r@ == digit(n as nat),
{
    if n == 0 { "0" } else if n == 1 { "1" } else if n == 2 { "2" } else if n == 3 { "3" }
    else if n == 4 { "4" } else if n == 5 { "5" } else if n == 6 { "6" } else if n == 7 { "7" }
    else if n == 8 { "8" } else { "9" }
}

/// Appends the decimal digits of `n`.
pub fn emit_u64(out: &mut String, n: u64)
    ensures
        final(out)@ == old(out)@ + digits(n as nat),
    decreases n,
{
    if n >= 10 {
        emit_u64(out, n / 10);
    }
    out.append(digit_str(n % 10));
}

/// Appends `(n)`.
pub fn emit_paren_u64(out: &mut String, n: u64)
    ensures
        final(out)@ == old(out)@ + ("("@ + digits(n as nat) + ")"@),
{
    out.append("(");
    emit_u64(out, n);
    out.append(")");
}

/// Appends the parts joined by `sep`.
pub fn emit_joined(out: &mut String, parts: &Vec<String>, sep: &str)
    ensures
        final(out)@ == old(out)@ + joined(names(parts@), sep@),
{
    let ghost o = out@;
    let ghost all = names(parts@);
    let mut i: usize = 0;
    while i < parts.len()
        invariant
            i <= parts.len(),
            all == names(parts@),
            out@ == o + joined(all.take(i as int), sep@),
        decreases parts.len() - i,
    {
        proof {
            assert(all.take(i + 1).drop_last() =~= all.take(i as int));
        }
        if i > 0 {
            out.append(sep);
        }
        out.append(parts[i].as_str());
        i = i + 1;
    }
    assert(all.take(parts.len() as int) =~= all);
}

pub fn emit_object_name(out: &mut String, n: &ObjectName) -> (r: Result<(), RenderError>)
    ensures
        emitted(r, old(out)@, final(out)@, object_name_sql(*n)),
{
    if n.0.len() == 0 {
        return Err(RenderError::MalformedNode);
    }
    emit_joined(out, &n.0, ".");
    Ok(())
}

pub fn binary_operator_token(op: &BinaryOperator) -> (r: &'static str)
    ensures
        r@ == binary_token(*op),
{
    match op {
        BinaryOperator::And => "AND",
        BinaryOperator::Or => "OR",
        BinaryOperator::Eq => "=",
        BinaryOperator::Gt => ">",
        BinaryOperator::GtEq => ">=",
        BinaryOperator::Lt => "<",
        BinaryOperator::LtEq => "<=",
        BinaryOperator::NotEq => "!=",
        BinaryOperator::Like => "LIKE",
        BinaryOperator::NotLike => "NOT LIKE",
        BinaryOperator::Plus => "+",
        BinaryOperator::Minus => "-",
        BinaryOperator::Multiply => "*",
        BinaryOperator::Divide => "/",
        BinaryOperator::Modulus => "%",
    }
}

pub fn unary_operator_token(op: &UnaryOperator) -> (r: &'static str)
    ensures
        r@ == unary_token(*op),
{
    match op {
        UnaryOperator::Minus => "-",
        UnaryOperator::Not => "NOT",
        UnaryOperator::Plus => "+",
    }
}

pub fn field_keyword(f: &DateTimeField) -> (r: &'static str)
    ensures
        r@ == field_name(*f),
{
    match f {
        DateTimeField::Year => "YEAR",
        DateTimeField::Month => "MONTH",
        DateTimeField::Day => "DAY",
        DateTimeField::Hour => "HOUR",
        DateTimeField::Minute => "MINUTE",
        DateTimeField::Second => "SECOND",
    }
}

pub fn set_operator_word(op: &SetOperator) -> (r: &'static str)
    ensures
        r@ == set_operator_keyword(*op),
{
    match op {
        SetOperator::Union => "UNION",
        SetOperator::Except => "EXCEPT",
        SetOperator::Intersect => "INTERSECT",
    }
}

fn emit_quoted(out: &mut String, open: &str, s: &String)
    ensures
        final(out)@ == old(out)@ + (open@ + s@ + "'"@),
{
    out.append(open);
    out.append(s.as_str());
    out.append("'");
}

fn emit_interval(
    out: &mut String,
    value: &String,
    leading: &DateTimeField,
    lp: &Option<u64>,
    last: &Option<DateTimeField>,
    fsp: &Option<u64>,
) -> (r: Result<(), RenderError>)
    ensures
        emitted(r, old(out)@, final(out)@, interval_sql(value@, *leading, *lp, *last, *fsp)),
{
    if last.is_none() && lp.is_none() && fsp.is_some() {
        return Err(RenderError::MalformedNode);
    }
    out.append("INTERVAL '");
    out.append(value.as_str());
    out.append("' ");
    out.append(field_keyword(leading));
    match last {
        None => {
            match (lp, fsp) {
                (Some(p), Some(f)) => {
                    out.append("(");
                    emit_u64(out, *p);
                    out.append(", ");
                    emit_u64(out, *f);
                    out.append(")");
                },
                (Some(p), None) => emit_paren_u64(out, *p),
                _ => {},
            }
        },
        Some(lf) => {
            if let Some(p) = lp {
                emit_paren_u64(out, *p);
            }
            out.append(" TO ");
            out.append(field_keyword(lf));
            if let Some(f) = fsp {
                emit_paren_u64(out, *f);
            }
        },
    }
    Ok(())
}

pub fn emit_value(out: &mut String, v: &Value) -> (r: Result<(), RenderError>)
    ensures
        emitted(r, old(out)@, final(out)@, value_sql(*v)),
{
    match v {
        Value::Boolean(b) => {
            out.append(if *b { "true" } else { "false" });
        },
        Value::Number(s) => out.append(s.as_str()),
        Value::SingleQuotedString(s) => emit_quoted(out, "'", s),
        Value::Date(s) => emit_quoted(out, "'", s),
        Value::Time(s) => emit_quoted(out, "'", s),
        Value::Timestamp(s) => emit_quoted(out, "'", s),
        Value::HexStringLiteral(s) => emit_quoted(out, "X'", s),
        Value::NationalStringLiteral(s) => emit_quoted(out, "n'", s),
        Value::Null => out.append("NULL"),
        Value::Interval { value, leading_field, leading_precision, last_field, fractional_seconds_precision } => {
            return emit_interval(out, value, leading_field, leading_precision, last_field, fractional_seconds_precision);
        },
    }
    Ok(())
}

fn emit_opt_len(out: &mut String, name: &str, n: &Option<u64>)
    ensures
        final(out)@ == old(out)@ + crate::model::opt_len(name@, *n),
{
    out.append(name);
    if let Some(k) = n {
        emit_paren_u64(out, *k);
    }
}

pub fn emit_data_type(out: &mut String, t: &DataType) -> (r: Result<(), RenderError>)
    ensures
        emitted(r, old(out)@, final(out)@, data_type_sql(*t)),
{
    match t {
        DataType::Char(n) => emit_opt_len(out, "CHAR", n),
        DataType::Varchar(n) => emit_opt_len(out, "VARCHAR", n),
        DataType::Float(n) => emit_opt_len(out, "FLOAT", n),
        DataType::Decimal(p, s) => {
            match (p, s) {
                (None, Some(_)) => return Err(RenderError::MalformedNode),
                (Some(a), Some(b)) => {
                    out.append("DECIMAL(");
                    emit_u64(out, *a);
                    out.append(", ");
                    emit_u64(out, *b);
                    out.append(")");
                },
                (Some(a), None) => {
                    out.append("DECIMAL");
                    emit_paren_u64(out, *a);
                },
                (None, None) => out.append("DECIMAL"),
            }
        },
        DataType::SmallInt => out.append("SMALLINT"),
        DataType::Int => out.append("INT"),
        DataType::BigInt => out.append("BIGINT"),
        DataType::Real => out.append("REAL"),
        DataType::Double => out.append("DOUBLE"),
        DataType::Boolean => out.append("BOOLEAN"),
        DataType::Date => out.append("DATE"),
        DataType::Time => out.append("TIME"),
        DataType::Timestamp => out.append("TIMESTAMP"),
        DataType::Text => out.append("TEXT"),
        DataType::Custom(n) => return emit_object_name(out, n),
    }
    Ok(())
}

/// Appends ` AS name` and the column list, where an alias is present.
pub fn emit_alias(out: &mut String, a: &Option<TableAlias>)
    ensures
        final(out)@ == old(out)@ + alias_text(*a),
{
    match a {
        None => {},
        Some(t) => {
            out.append(" AS ");
            out.append(t.name.as_str());
            if t.columns.len() > 0 {
                out.append(" (");
                emit_joined(out, &t.columns, ", ");
                out.append(")");
            }
        },
    }
}


pub fn join_operator_keyword(op: &JoinOperator) -> (r: &'static str)
    ensures
        r@ == join_keyword(*op),
{
    match op {
        JoinOperator::Inner(_) => "INNER JOIN ",
        JoinOperator::LeftOuter(_) => "LEFT OUTER JOIN ",
        JoinOperator::RightOuter(_) => "RIGHT OUTER JOIN ",
        JoinOperator::FullOuter(_) => "FULL OUTER JOIN ",
        JoinOperator::CrossJoin => "CROSS JOIN ",
    }
}

pub fn emit_expr(out: &mut String, u: &str, d: usize, e: &Expr) -> (r: Result<(), RenderError>)
    ensures
        emitted(r, old(out)@, final(out)@, expr_sql(*e, u@, d as nat)),
    decreases *e, 0int,
{
    match e {
        Expr::Identifier(s) => out.append(s.as_str()),
        Expr::Wildcard => out.append("*"),
        Expr::QualifiedWildcard(v) => {
            emit_joined(out, v, ".");
            out.append(".*");
        },
        Expr::CompoundIdentifier(v) => emit_joined(out, v, "."),
        Expr::IsNull(x) => {
            if let Err(k) = emit_expr(out, u, d, x) {
                return Err(k);
            }
            out.append(" IS NULL");
        },
        Expr::IsNotNull(x) => {
            if let Err(k) = emit_expr(out, u, d, x) {
                return Err(k);
            }
            out.append(" IS NOT NULL");
        },
        Expr::InList { expr, list, negated } => {
            if let Err(k) = emit_expr(out, u, d, expr) {
                return Err(k);
            }
            out.append(if *negated { " NOT IN (" } else { " IN (" });
            if let Err(k) = emit_list(out, u, d, list, ", ") {
                return Err(k);
            }
            out.append(")");
        },
        Expr::InSubquery { expr, subquery, negated } => {
            if let Err(k) = emit_expr(out, u, d, expr) {
                return Err(k);
            }
            out.append(if *negated { " NOT IN (" } else { " IN (" });
            if let Err(k) = emit_query(out, u, d, subquery) {
                return Err(k);
            }
            out.append(")");
        },
        Expr::Between { expr, negated, low, high } => {
            if let Err(k) = emit_expr(out, u, d, expr) {
                return Err(k);
            }
            out.append(if *negated { " NOT BETWEEN " } else { " BETWEEN " });
            if let Err(k) = emit_expr(out, u, d, low) {
                return Err(k);
            }
            out.append(" AND ");
            if let Err(k) = emit_expr(out, u, d, high) {
                return Err(k);
            }
        },
        Expr::BinaryOp { left, op, right } => {
            if let Err(k) = emit_expr(out, u, d, left) {
                return Err(k);
            }
            out.append(" ");
            out.append(binary_operator_token(op));
            out.append(" ");
            if let Err(k) = emit_expr(out, u, d, right) {
                return Err(k);
            }
        },
        Expr::UnaryOp { op, expr } => {
            out.append(unary_operator_token(op));
            out.append(" ");
            if let Err(k) = emit_expr(out, u, d, expr) {
                return Err(k);
            }
        },
        Expr::Value(v) => {
            return emit_value(out, v);
        },
        Expr::Function(f) => {
            if f.over {
                return Err(RenderError::UnsupportedConstruct);
            }
            if let Err(k) = emit_object_name(out, &f.name) {
                return Err(k);
            }
            out.append(if f.distinct { "(DISTINCT " } else { "(" });
            if let Err(k) = emit_list(out, u, d, &f.args, ", ") {
                return Err(k);
            }
            out.append(")");
        },
        Expr::Exists(q) => {
            return emit_query(out, u, d, q);
        },
        Expr::Subquery(q) => {
            return emit_query(out, u, d, q);
        },
        Expr::Cast { .. } => return Err(RenderError::UnsupportedConstruct),
        Expr::Extract { .. } => return Err(RenderError::UnsupportedConstruct),
        Expr::Collate { .. } => return Err(RenderError::UnsupportedConstruct),
        Expr::Nested(_) => return Err(RenderError::UnsupportedConstruct),
        Expr::Case { .. } => return Err(RenderError::UnsupportedConstruct),
    }
    Ok(())
}

/// Appends the expressions of `v` separated by `sep`.
pub fn emit_list(out: &mut String, u: &str, d: usize, v: &Vec<Expr>, sep: &str) -> (r: Result<(), RenderError>)
    ensures
        emitted(r, old(out)@, final(out)@, list_sql(v@, sep@, 0, u@, d as nat)),
    decreases v@, 1int,
{
    let ghost o = out@;
    let ghost mut done: Seq<char> = Seq::empty();
    let mut i: usize = 0;
    while i < v.len()
        invariant
            i <= v.len(),
            out@ == o + done,
            chain(Ok(done), list_sql(v@, sep@, i as int, u@, d as nat)) == list_sql(v@, sep@, 0, u@, d as nat),
        decreases v.len() - i,
    {
        if i > 0 {
            out.append(sep);
        }
        if let Err(k) = emit_expr(out, u, d, &v[i]) {
            return Err(k);
        }
        proof {
            let t = expr_sql(v@[i as int], u@, d as nat)->Ok_0;
            done = if i > 0 { done + sep@ + t } else { done + t };
        }
        i = i + 1;
    }
    Ok(())
}

pub fn emit_order_by_expr(out: &mut String, u: &str, d: usize, o: &OrderByExpr) -> (r: Result<(), RenderError>)
    ensures
        emitted(r, old(out)@, final(out)@, order_by_expr_sql(*o, u@, d as nat)),
    decreases *o, 0int,
{
    if let Err(k) = emit_expr(out, u, d, &o.expr) {
        return Err(k);
    }
    match o.asc {
        Some(b) => out.append(if b { " ASC" } else { " DESC" }),
        None => {},
    }
    Ok(())
}

fn emit_order_bys(out: &mut String, u: &str, d: usize, v: &Vec<OrderByExpr>) -> (r: Result<(), RenderError>)
    ensures
        emitted(r, old(out)@, final(out)@, order_bys_sql(v@, 0, u@, d as nat)),
    decreases v@, 1int,
{
    let ghost o = out@;
    let ghost mut done: Seq<char> = Seq::empty();
    let mut i: usize = 0;
    while i < v.len()
        invariant
            i <= v.len(),
            out@ == o + done,
            chain(Ok(done), order_bys_sql(v@, i as int, u@, d as nat)) == order_bys_sql(v@, 0, u@, d as nat),
        decreases v.len() - i,
    {
        if i > 0 {
            out.append(", ");
        }
        if let Err(k) = emit_order_by_expr(out, u, d, &v[i]) {
            return Err(k);
        }
        proof {
            let t = order_by_expr_sql(v@[i as int], u@, d as nat)->Ok_0;
            done = if i > 0 { done + ", "@ + t } else { done + t };
        }
        i = i + 1;
    }
    Ok(())
}

#[verifier::rlimit(100)]
pub fn emit_query(out: &mut String, u: &str, d: usize, q: &Query) -> (r: Result<(), RenderError>)
    ensures
        emitted(r, old(out)@, final(out)@, query_sql(*q, u@, d as nat)),
    decreases *q, 0int,
{
    if q.ctes.len() > 0 {
        return Err(RenderError::UnsupportedConstruct);
    }
    if let Err(k) = emit_set_expr(out, u, d, &q.body) {
        return Err(k);
    }
    if q.order_by.len() > 0 {
        out.append("\n");
        emit_prefix(out, u, d);
        out.append("ORDER BY ");
        if let Err(k) = emit_order_bys(out, u, d, &q.order_by) {
            return Err(k);
        }
    }
    Ok(())
}

#[verifier::rlimit(100)]
pub fn emit_set_expr(out: &mut String, u: &str, d: usize, s: &SetExpr) -> (r: Result<(), RenderError>)
    ensures
        emitted(r, old(out)@, final(out)@, set_expr_sql(*s, u@, d as nat)),
    decreases *s, 0int,
{
    match s {
        SetExpr::Select(sel) => {
            return emit_select(out, u, d, sel);
        },
        SetExpr::Query(q) => {
            return emit_query(out, u, d, q);
        },
        SetExpr::SetOperation { op, all, left, right } => {
            if let Err(k) = emit_set_expr(out, u, d, left) {
                return Err(k);
            }
            out.append("\n");
            out.append(set_operator_word(op));
            out.append(if *all { " ALL\n" } else { "\n" });
            if let Err(k) = emit_set_expr(out, u, d, right) {
                return Err(k);
            }
        },
        SetExpr::Values(v) => {
            if v.0.len() == 0 {
                return Err(RenderError::MalformedNode);
            }
            out.append("VALUES ");
            if let Err(k) = emit_rows(out, u, d, &v.0) {
                return Err(k);
            }
        },
    }
    Ok(())
}

fn emit_rows(out: &mut String, u: &str, d: usize, rows: &Vec<Vec<Expr>>) -> (r: Result<(), RenderError>)
    ensures
        emitted(r, old(out)@, final(out)@, rows_sql(rows@, 0, u@, d as nat)),
    decreases rows@, 1int,
{
    let ghost o = out@;
    let ghost mut done: Seq<char> = Seq::empty();
    let mut i: usize = 0;
    while i < rows.len()
        invariant
            i <= rows.len(),
            out@ == o + done,
            chain(Ok(done), rows_sql(rows@, i as int, u@, d as nat)) == rows_sql(rows@, 0, u@, d as nat),
        decreases rows.len() - i,
    {
        if i > 0 {
            out.append(", ");
        }
        out.append("(");
        if let Err(k) = emit_list(out, u, d, &rows[i], ", ") {
            return Err(k);
        }
        out.append(")");
        proof {
            let t = "("@ + list_sql(rows@[i as int]@, ", "@, 0, u@, d as nat)->Ok_0 + ")"@;
            done = if i > 0 { done + ", "@ + t } else { done + t };
        }
        i = i + 1;
    }
    Ok(())
}

pub fn emit_select_item(out: &mut String, u: &str, d: usize, it: &SelectItem) -> (r: Result<(), RenderError>)
    ensures
        emitted(r, old(out)@, final(out)@, select_item_sql(*it, u@, d as nat)),
    decreases *it, 0int,
{
    match it {
        SelectItem::UnnamedExpr(e) => {
            return emit_expr(out, u, d, e);
        },
        SelectItem::ExprWithAlias { expr, alias } => {
            if let Err(k) = emit_expr(out, u, d, expr) {
                return Err(k);
            }
            out.append(" AS ");
            out.append(alias.as_str());
        },
        SelectItem::QualifiedWildcard(n) => {
            if let Err(k) = emit_object_name(out, n) {
                return Err(k);
            }
            out.append(".*");
        },
        SelectItem::Wildcard => out.append("*"),
    }
    Ok(())
}

fn emit_items(out: &mut String, u: &str, d: usize, v: &Vec<SelectItem>) -> (r: Result<(), RenderError>)
    ensures
        emitted(r, old(out)@, final(out)@, items_sql(v@, 0, u@, d as nat)),
    decreases v@, 1int,
{
    let ghost o = out@;
    let ghost mut done: Seq<char> = Seq::empty();
    let mut i: usize = 0;
    while i < v.len()
        invariant
            i <= v.len(),
            out@ == o + done,
            chain(Ok(done), items_sql(v@, i as int, u@, d as nat)) == items_sql(v@, 0, u@, d as nat),
        decreases v.len() - i,
    {
        if i > 0 {
            out.append(", ");
        }
        if let Err(k) = emit_select_item(out, u, d, &v[i]) {
            return Err(k);
        }
        proof {
            let t = select_item_sql(v@[i as int], u@, d as nat)->Ok_0;
            done = if i > 0 { done + ", "@ + t } else { done + t };
        }
        i = i + 1;
    }
    Ok(())
}

#[verifier::rlimit(100)]
pub fn emit_select(out: &mut String, u: &str, d: usize, s: &Select) -> (r: Result<(), RenderError>)
    ensures
        emitted(r, old(out)@, final(out)@, select_sql(*s, u@, d as nat)),
    decreases *s, 2int,
{
    if s.projection.len() == 0 {
        return Err(RenderError::MalformedNode);
    }
    out.append(if s.distinct { "SELECT DISTINCT " } else { "SELECT " });
    proof {
        assert(decreases_to!(*s => s.projection));
    }
    if let Err(k) = emit_items(out, u, d, &s.projection) {
        return Err(k);
    }
    emit_clauses(out, u, d, s)
}

#[verifier::rlimit(100)]
fn emit_clauses(out: &mut String, u: &str, d: usize, s: &Select) -> (r: Result<(), RenderError>)
    ensures
        emitted(r, old(out)@, final(out)@, clauses_sql(*s, u@, d as nat)),
    decreases *s, 1int,
{
    if let Err(k) = emit_from(out, u, d, s) {
        return Err(k);
    }
    if let Err(k) = emit_where(out, u, d, s) {
        return Err(k);
    }
    if let Err(k) = emit_group_by(out, u, d, s) {
        return Err(k);
    }
    emit_having(out, u, d, s)
}

#[verifier::rlimit(100)]
fn emit_from(out: &mut String, u: &str, d: usize, s: &Select) -> (r: Result<(), RenderError>)
    ensures
        emitted(r, old(out)@, final(out)@, from_sql(*s, u@, d as nat)),
    decreases *s, 0int,
{
    if s.from.len() > 1 {
        return Err(RenderError::UnsupportedConstruct);
    }
    if s.from.len() == 1 {
        proof {
            assert(decreases_to!(*s => s.from));
            assert(decreases_to!(s.from => s.from[0]));
        }
        let ghost o = out@;
        let ghost p = "\nFROM "@ + prefix(u@, d as nat);
        out.append("\nFROM ");
        emit_prefix(out, u, d);
        assert(out@ == o + p);
        let t = &s.from[0];
        assert(*t == s.from@[0]);
        let r = emit_twj(out, u, d, t);
        proof {
            if r is Ok {
                let x = twj_sql(*t, u@, d as nat)->Ok_0;
                assert(out@ == o + (p + x));
            }
        }
        return r;
    }
    Ok(())
}

fn emit_where(out: &mut String, u: &str, d: usize, s: &Select) -> (r: Result<(), RenderError>)
    ensures
        emitted(r, old(out)@, final(out)@, where_sql(*s, u@, d as nat)),
    decreases *s, 0int,
{
    if let Some(w) = &s.selection {
        out.append("\nWHERE ");
        return emit_expr(out, u, d, w);
    }
    Ok(())
}

#[verifier::rlimit(100)]
fn emit_group_by(out: &mut String, u: &str, d: usize, s: &Select) -> (r: Result<(), RenderError>)
    ensures
        emitted(r, old(out)@, final(out)@, group_by_sql(*s, u@, d as nat)),
    decreases *s, 0int,
{
    if s.group_by.len() > 0 {
        let ghost o = out@;
        let ghost p = "\n"@ + prefix(u@, d as nat) + "GROUP BY "@;
        out.append("\n");
        emit_prefix(out, u, d);
        out.append("GROUP BY ");
        assert(out@ == o + p);
        proof {
            assert(decreases_to!(*s => s.group_by));
        }
        let r = emit_list(out, u, d, &s.group_by, ", ");
        proof {
            if r is Ok {
                let t = list_sql(s.group_by@, ", "@, 0, u@, d as nat)->Ok_0;
                assert(out@ == o + (p + t));
            }
        }
        return r;
    }
    Ok(())
}

fn emit_having(out: &mut String, u: &str, d: usize, s: &Select) -> (r: Result<(), RenderError>)
    ensures
        emitted(r, old(out)@, final(out)@, having_sql(*s, u@, d as nat)),
    decreases *s, 0int,
{
    if let Some(h) = &s.having {
        out.append("\n");
        emit_prefix(out, u, d);
        out.append("HAVING ");
        return emit_expr(out, u, d, h);
    }
    Ok(())
}

pub fn emit_twj(out: &mut String, u: &str, d: usize, t: &TableWithJoins) -> (r: Result<(), RenderError>)
    ensures
        emitted(r, old(out)@, final(out)@, twj_sql(*t, u@, d as nat)),
    decreases *t, 0int,
{
    if let Err(k) = emit_factor(out, u, d, &t.relation) {
        return Err(k);
    }
    emit_joins(out, u, d, &t.joins)
}

#[verifier::rlimit(100)]
pub fn emit_factor(out: &mut String, u: &str, d: usize, f: &TableFactor) -> (r: Result<(), RenderError>)
    ensures
        emitted(r, old(out)@, final(out)@, factor_sql(*f, u@, d as nat)),
    decreases *f, 0int,
{
    match f {
        TableFactor::Table { name, alias, args, with_hints } => {
            if let Err(k) = emit_object_name(out, name) {
                return Err(k);
            }
            emit_alias(out, alias);
            if args.len() > 0 {
                out.append(" (");
                if let Err(k) = emit_list(out, u, d, args, ", ") {
                    return Err(k);
                }
                out.append(")");
            }
            if with_hints.len() > 0 {
                out.append(" WITH (");
                if let Err(k) = emit_list(out, u, d, with_hints, ", ") {
                    return Err(k);
                }
                out.append(")");
            }
        },
        TableFactor::Derived { lateral, subquery, alias } => {
            if *lateral {
                return Err(RenderError::UnsupportedConstruct);
            }
            out.append("(");
            if let Err(k) = emit_query(out, u, d, subquery) {
                return Err(k);
            }
            out.append(")");
            emit_alias(out, alias);
        },
        TableFactor::NestedJoin(t) => {
            out.append("(");
            if let Err(k) = emit_twj(out, u, d, t) {
                return Err(k);
            }
            out.append(")");
        },
    }
    Ok(())
}

fn emit_joins(out: &mut String, u: &str, d: usize, v: &Vec<Join>) -> (r: Result<(), RenderError>)
    ensures
        emitted(r, old(out)@, final(out)@, joins_sql(v@, 0, u@, d as nat)),
    decreases v@, 1int,
{
    let ghost o = out@;
    let ghost mut done: Seq<char> = Seq::empty();
    let mut i: usize = 0;
    while i < v.len()
        invariant
            i <= v.len(),
            out@ == o + done,
            chain(Ok(done), joins_sql(v@, i as int, u@, d as nat)) == joins_sql(v@, 0, u@, d as nat),
        decreases v.len() - i,
    {
        out.append("\n");
        emit_prefix(out, u, d);
        if let Err(k) = emit_join(out, u, d, &v[i]) {
            return Err(k);
        }
        proof {
            let t = join_sql(v@[i as int], u@, d as nat)->Ok_0;
            done = done + ("\n"@ + prefix(u@, d as nat)) + t;
        }
        i = i + 1;
    }
    Ok(())
}

#[verifier::rlimit(100)]
pub fn emit_join(out: &mut String, u: &str, d: usize, j: &Join) -> (r: Result<(), RenderError>)
    ensures
        emitted(r, old(out)@, final(out)@, join_sql(*j, u@, d as nat)),
    decreases *j, 0int,
{
    match &j.join_operator {
        JoinOperator::CrossJoin => Err(RenderError::UnsupportedConstruct),
        JoinOperator::Inner(c) | JoinOperator::LeftOuter(c) | JoinOperator::RightOuter(c)
        | JoinOperator::FullOuter(c) => {
            out.append(join_operator_keyword(&j.join_operator));
            if let Err(k) = emit_factor(out, u, d, &j.relation) {
                return Err(k);
            }
            if d == usize::MAX {
                return Err(RenderError::NestingTooDeep);
            }
            out.append("\n");
            emit_prefix(out, u, d + 1);
            emit_constraint(out, u, d + 1, c)
        },
    }
}

pub fn emit_constraint(out: &mut String, u: &str, d: usize, c: &JoinConstraint) -> (r: Result<(), RenderError>)
    ensures
        emitted(r, old(out)@, final(out)@, constraint_sql(*c, u@, d as nat)),
    decreases *c, 0int,
{
    match c {
        JoinConstraint::On(e) => {
            out.append("ON ");
            emit_expr(out, u, d, e)
        },
        JoinConstraint::Using(cols) => {
            out.append("USING (");
            emit_joined(out, cols, ", ");
            out.append(")");
            Ok(())
        },
        JoinConstraint::Natural => Err(RenderError::UnsupportedConstruct),
    }
}

} // verus!
