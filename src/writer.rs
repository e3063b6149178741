//! The writer for the Microsoft SQL Server dialect.
use vstd::prelude::*;
use crate::ast::{
    Assignment, BinaryOperator, ColumnDef, ColumnOption, ColumnOptionDef, DataType, DateTimeField, Expr,
    Join, JoinConstraint, JoinOperator, ObjectName, OrderByExpr, Query, Select, SelectItem, SetExpr,
    SetOperator, Statement, TableFactor, TableWithJoins, UnaryOperator, Value,
};
use crate::ddl::{emit_assignment, emit_column_def, emit_column_option, emit_column_option_def};
use crate::emit::{
    binary_operator_token, emit_constraint, emit_data_type, emit_expr, emit_factor, emit_join,
    emit_object_name, emit_order_by_expr, emit_query, emit_select, emit_select_item, emit_set_expr,
    emit_twj, emit_value, field_keyword, join_operator_keyword, set_operator_word, unary_operator_token,
};
use crate::model::{
    assignment_sql, binary_token, column_def_sql, column_option_def_sql, column_option_sql,
    constraint_sql, data_type_sql, expr_sql, factor_sql, field_name, join_keyword, join_sql,
    object_name_sql, order_by_expr_sql, query_sql, select_item_sql, select_sql, set_expr_sql,
    set_operator_keyword, statement_sql, twj_sql, unary_token, value_sql, RenderError, Text,
};

verus! {

broadcast use crate::model::lemma_cat_empty_left, crate::model::lemma_prefix_of_append;

/// Renders nodes as SQL Server text into an in-memory sink. The indentation
/// unit is repeated once per nesting level; a render call either appends the
/// whole text of its node or, on failure, leaves the sink as it was.
pub struct MsSqlWriter {
    indent: usize,
    prefix: String,
    out: String,
}

/// A render call on `before` left `after`: the same indentation, and either
/// the node's whole text appended with `Ok`, or the node's error with the sink
/// untouched.
pub open spec fn rendered(r: Result<(), RenderError>, before: MsSqlWriter, after: MsSqlWriter, model: Text) -> bool {
    &&& after.unit() == before.unit()
    &&& after.depth() == before.depth()
    &&& match model {
        Ok(t) => r == Ok::<(), RenderError>(()) && after.output() == before.output() + t,
        Err(k) => r == Err::<(), RenderError>(k) && after.output() == before.output(),
    }
}

impl MsSqlWriter {
    /// Everything written so far.
    pub closed spec fn output(&self) -> Seq<char> {
        self.out@
    }

    /// The indentation unit.
    pub closed spec fn unit(&self) -> Seq<char> {
        self.prefix@
    }

    /// The current indentation depth.
    pub closed spec fn depth(&self) -> nat {
        self.indent as nat
    }

    /// A writer with an empty sink, at depth zero, indenting by `prefix`.
    pub fn new(prefix: &str) -> (w: Self)
        ensures
            w.output() == Seq::<char>::empty(),
            w.unit() == prefix@,
            w.depth() == 0,
    {
        MsSqlWriter { indent: 0, prefix: String::from_str(prefix), out: String::new() }
    }

    /// Gives back the text written so far.
    pub fn into_inner(self) -> (s: String)
        ensures
            s@ == self.output(),
    {
        self.out
    }

    fn commit(&mut self, buf: &String, r: Result<(), RenderError>) -> (res: Result<(), RenderError>)
        ensures
            res == r,
            final(self).unit() == old(self).unit(),
            final(self).depth() == old(self).depth(),
            r is Ok ==> final(self).output() == old(self).output() + buf@,
            r is Err ==> final(self).output() == old(self).output(),
    {
        if r.is_ok() {
            self.out.append(buf.as_str());
        }
        r
    }

    fn write_token(&mut self, s: &str) -> (r: Result<(), RenderError>)
        ensures
            rendered(r, *old(self), *final(self), Ok(s@)),
    {
        self.out.append(s);
        Ok(())
    }

    pub fn write_expr(&mut self, node: &Expr) -> (r: Result<(), RenderError>)
        ensures
            rendered(r, *old(self), *final(self), expr_sql(*node, old(self).unit(), old(self).depth())),
    {
        let mut buf = String::new();
        let r = emit_expr(&mut buf, self.prefix.as_str(), self.indent, node);
        self.commit(&buf, r)
    }

    pub fn write_query(&mut self, node: &Query) -> (r: Result<(), RenderError>)
        ensures
            rendered(r, *old(self), *final(self), query_sql(*node, old(self).unit(), old(self).depth())),
    {
        let mut buf = String::new();
        let r = emit_query(&mut buf, self.prefix.as_str(), self.indent, node);
        self.commit(&buf, r)
    }

    pub fn write_set_expr(&mut self, node: &SetExpr) -> (r: Result<(), RenderError>)
        ensures
            rendered(r, *old(self), *final(self), set_expr_sql(*node, old(self).unit(), old(self).depth())),
    {
        let mut buf = String::new();
        let r = emit_set_expr(&mut buf, self.prefix.as_str(), self.indent, node);
        self.commit(&buf, r)
    }

    pub fn write_select(&mut self, node: &Select) -> (r: Result<(), RenderError>)
        ensures
            rendered(r, *old(self), *final(self), select_sql(*node, old(self).unit(), old(self).depth())),
    {
        let mut buf = String::new();
        let r = emit_select(&mut buf, self.prefix.as_str(), self.indent, node);
        self.commit(&buf, r)
    }

    pub fn write_select_item(&mut self, node: &SelectItem) -> (r: Result<(), RenderError>)
        ensures
            rendered(r, *old(self), *final(self), select_item_sql(*node, old(self).unit(), old(self).depth())),
    {
        let mut buf = String::new();
        let r = emit_select_item(&mut buf, self.prefix.as_str(), self.indent, node);
        self.commit(&buf, r)
    }

    pub fn write_table_with_joins(&mut self, node: &TableWithJoins) -> (r: Result<(), RenderError>)
        ensures
            rendered(r, *old(self), *final(self), twj_sql(*node, old(self).unit(), old(self).depth())),
    {
        let mut buf = String::new();
        let r = emit_twj(&mut buf, self.prefix.as_str(), self.indent, node);
        self.commit(&buf, r)
    }

    pub fn write_table_factor(&mut self, node: &TableFactor) -> (r: Result<(), RenderError>)
        ensures
            rendered(r, *old(self), *final(self), factor_sql(*node, old(self).unit(), old(self).depth())),
    {
        let mut buf = String::new();
        let r = emit_factor(&mut buf, self.prefix.as_str(), self.indent, node);
        self.commit(&buf, r)
    }

    pub fn write_join(&mut self, node: &Join) -> (r: Result<(), RenderError>)
        ensures
            rendered(r, *old(self), *final(self), join_sql(*node, old(self).unit(), old(self).depth())),
    {
        let mut buf = String::new();
        let r = emit_join(&mut buf, self.prefix.as_str(), self.indent, node);
        self.commit(&buf, r)
    }

    pub fn write_join_constraint(&mut self, node: &JoinConstraint) -> (r: Result<(), RenderError>)
        ensures
            rendered(r, *old(self), *final(self), constraint_sql(*node, old(self).unit(), old(self).depth())),
    {
        let mut buf = String::new();
        let r = emit_constraint(&mut buf, self.prefix.as_str(), self.indent, node);
        self.commit(&buf, r)
    }

    pub fn write_order_by_expr(&mut self, node: &OrderByExpr) -> (r: Result<(), RenderError>)
        ensures
            rendered(r, *old(self), *final(self), order_by_expr_sql(*node, old(self).unit(), old(self).depth())),
    {
        let mut buf = String::new();
        let r = emit_order_by_expr(&mut buf, self.prefix.as_str(), self.indent, node);
        self.commit(&buf, r)
    }

    pub fn write_column_def(&mut self, node: &ColumnDef) -> (r: Result<(), RenderError>)
        ensures
            rendered(r, *old(self), *final(self), column_def_sql(*node, old(self).unit(), old(self).depth())),
    {
        let mut buf = String::new();
        let r = emit_column_def(&mut buf, self.prefix.as_str(), self.indent, node);
        self.commit(&buf, r)
    }

    pub fn write_column_options_def(&mut self, node: &ColumnOptionDef) -> (r: Result<(), RenderError>)
        ensures
            rendered(r, *old(self), *final(self), column_option_def_sql(*node, old(self).unit(), old(self).depth())),
    {
        let mut buf = String::new();
        let r = emit_column_option_def(&mut buf, self.prefix.as_str(), self.indent, node);
        self.commit(&buf, r)
    }

    pub fn write_column_option(&mut self, node: &ColumnOption) -> (r: Result<(), RenderError>)
        ensures
            rendered(r, *old(self), *final(self), column_option_sql(*node, old(self).unit(), old(self).depth())),
    {
        let mut buf = String::new();
        let r = emit_column_option(&mut buf, self.prefix.as_str(), self.indent, node);
        self.commit(&buf, r)
    }

    pub fn write_assignment(&mut self, node: &Assignment) -> (r: Result<(), RenderError>)
        ensures
            rendered(r, *old(self), *final(self), assignment_sql(*node, old(self).unit(), old(self).depth())),
    {
        let mut buf = String::new();
        let r = emit_assignment(&mut buf, self.prefix.as_str(), self.indent, node);
        self.commit(&buf, r)
    }

    pub fn write_object_name(&mut self, node: &ObjectName) -> (r: Result<(), RenderError>)
        ensures
            rendered(r, *old(self), *final(self), object_name_sql(*node)),
    {
        let mut buf = String::new();
        let r = emit_object_name(&mut buf, node);
        self.commit(&buf, r)
    }

    pub fn write_value(&mut self, node: &Value) -> (r: Result<(), RenderError>)
        ensures
            rendered(r, *old(self), *final(self), value_sql(*node)),
    {
        let mut buf = String::new();
        let r = emit_value(&mut buf, node);
        self.commit(&buf, r)
    }

    pub fn write_data_type(&mut self, node: &DataType) -> (r: Result<(), RenderError>)
        ensures
            rendered(r, *old(self), *final(self), data_type_sql(*node)),
    {
        let mut buf = String::new();
        let r = emit_data_type(&mut buf, node);
        self.commit(&buf, r)
    }

    pub fn write_statement(&mut self, node: &Statement) -> (r: Result<(), RenderError>)
        ensures
            rendered(r, *old(self), *final(self), statement_sql(*node, old(self).unit(), old(self).depth())),
    {
        match node {
            Statement::Query(q) => self.write_query(q),
            Statement::Other => Err(RenderError::UnsupportedConstruct),
        }
    }

    pub fn write_binary_operator(&mut self, node: &BinaryOperator) -> (r: Result<(), RenderError>)
        ensures
            rendered(r, *old(self), *final(self), Ok(binary_token(*node))),
    {
        self.write_token(binary_operator_token(node))
    }

    pub fn write_unary_operator(&mut self, node: &UnaryOperator) -> (r: Result<(), RenderError>)
        ensures
            rendered(r, *old(self), *final(self), Ok(unary_token(*node))),
    {
        self.write_token(unary_operator_token(node))
    }

    pub fn write_date_time_field(&mut self, node: &DateTimeField) -> (r: Result<(), RenderError>)
        ensures
            rendered(r, *old(self), *final(self), Ok(field_name(*node))),
    {
        self.write_token(field_keyword(node))
    }

    pub fn write_set_operator(&mut self, node: &SetOperator) -> (r: Result<(), RenderError>)
        ensures
            rendered(r, *old(self), *final(self), Ok(set_operator_keyword(*node))),
    {
        self.write_token(set_operator_word(node))
    }

    /// The keyword phrase of a join; a cross join is not rendered.
    pub fn write_join_operator(&mut self, node: &JoinOperator) -> (r: Result<(), RenderError>)
        ensures
            rendered(
                r,
                *old(self),
                *final(self),
                if *node is CrossJoin { Err(RenderError::UnsupportedConstruct) } else { Ok(join_keyword(*node)) },
            ),
    {
        if let JoinOperator::CrossJoin = node {
            return Err(RenderError::UnsupportedConstruct);
        }
        self.write_token(join_operator_keyword(node))
    }
}

/// A render call kept what was written before it: with `Ok` the old text is
/// a prefix of the new, with `Err` the text is unchanged.
pub open spec fn appended(r: Result<(), RenderError>, before: Seq<char>, after: Seq<char>) -> bool {
    &&& before.is_prefix_of(after)
    &&& r is Err ==> after == before
}

/// The writer contract: one render operation per node category. Each dialect
/// implements it on its own, over its own sink and indentation depth. What a
/// dialect appends is stated by that dialect's writer; here, only that a call
/// never retracts text, leaves the sink unchanged when it fails, and keeps
/// the indentation depth.
pub trait SqlWriter {
    /// Everything written so far.
    spec fn written(&self) -> Seq<char>;

    /// The current indentation depth.
    spec fn level(&self) -> nat;

    fn write_statement(&mut self, node: &Statement) -> (r: Result<(), RenderError>)
        ensures
            appended(r, old(self).written(), final(self).written()),
            final(self).level() == old(self).level();

    fn write_query(&mut self, node: &Query) -> (r: Result<(), RenderError>)
        ensures
            appended(r, old(self).written(), final(self).written()),
            final(self).level() == old(self).level();

    fn write_set_expr(&mut self, node: &SetExpr) -> (r: Result<(), RenderError>)
        ensures
            appended(r, old(self).written(), final(self).written()),
            final(self).level() == old(self).level();

    fn write_select(&mut self, node: &Select) -> (r: Result<(), RenderError>)
        ensures
            appended(r, old(self).written(), final(self).written()),
            final(self).level() == old(self).level();

    fn write_select_item(&mut self, node: &SelectItem) -> (r: Result<(), RenderError>)
        ensures
            appended(r, old(self).written(), final(self).written()),
            final(self).level() == old(self).level();

    fn write_expr(&mut self, node: &Expr) -> (r: Result<(), RenderError>)
        ensures
            appended(r, old(self).written(), final(self).written()),
            final(self).level() == old(self).level();

    fn write_value(&mut self, node: &Value) -> (r: Result<(), RenderError>)
        ensures
            appended(r, old(self).written(), final(self).written()),
            final(self).level() == old(self).level();

    fn write_object_name(&mut self, node: &ObjectName) -> (r: Result<(), RenderError>)
        ensures
            appended(r, old(self).written(), final(self).written()),
            final(self).level() == old(self).level();

    fn write_table_with_joins(&mut self, node: &TableWithJoins) -> (r: Result<(), RenderError>)
        ensures
            appended(r, old(self).written(), final(self).written()),
            final(self).level() == old(self).level();

    fn write_table_factor(&mut self, node: &TableFactor) -> (r: Result<(), RenderError>)
        ensures
            appended(r, old(self).written(), final(self).written()),
            final(self).level() == old(self).level();

    fn write_join(&mut self, node: &Join) -> (r: Result<(), RenderError>)
        ensures
            appended(r, old(self).written(), final(self).written()),
            final(self).level() == old(self).level();

    fn write_join_constraint(&mut self, node: &JoinConstraint) -> (r: Result<(), RenderError>)
        ensures
            appended(r, old(self).written(), final(self).written()),
            final(self).level() == old(self).level();

    fn write_join_operator(&mut self, node: &JoinOperator) -> (r: Result<(), RenderError>)
        ensures
            appended(r, old(self).written(), final(self).written()),
            final(self).level() == old(self).level();

    fn write_binary_operator(&mut self, node: &BinaryOperator) -> (r: Result<(), RenderError>)
        ensures
            appended(r, old(self).written(), final(self).written()),
            final(self).level() == old(self).level();

    fn write_unary_operator(&mut self, node: &UnaryOperator) -> (r: Result<(), RenderError>)
        ensures
            appended(r, old(self).written(), final(self).written()),
            final(self).level() == old(self).level();

    fn write_column_def(&mut self, node: &ColumnDef) -> (r: Result<(), RenderError>)
        ensures
            appended(r, old(self).written(), final(self).written()),
            final(self).level() == old(self).level();

    fn write_column_options_def(&mut self, node: &ColumnOptionDef) -> (r: Result<(), RenderError>)
        ensures
            appended(r, old(self).written(), final(self).written()),
            final(self).level() == old(self).level();

    fn write_column_option(&mut self, node: &ColumnOption) -> (r: Result<(), RenderError>)
        ensures
            appended(r, old(self).written(), final(self).written()),
            final(self).level() == old(self).level();

    fn write_data_type(&mut self, node: &DataType) -> (r: Result<(), RenderError>)
        ensures
            appended(r, old(self).written(), final(self).written()),
            final(self).level() == old(self).level();

    fn write_date_time_field(&mut self, node: &DateTimeField) -> (r: Result<(), RenderError>)
        ensures
            appended(r, old(self).written(), final(self).written()),
            final(self).level() == old(self).level();

    fn write_assignment(&mut self, node: &Assignment) -> (r: Result<(), RenderError>)
        ensures
            appended(r, old(self).written(), final(self).written()),
            final(self).level() == old(self).level();

    fn write_order_by_expr(&mut self, node: &OrderByExpr) -> (r: Result<(), RenderError>)
        ensures
            appended(r, old(self).written(), final(self).written()),
            final(self).level() == old(self).level();

    fn write_set_operator(&mut self, node: &SetOperator) -> (r: Result<(), RenderError>)
        ensures
            appended(r, old(self).written(), final(self).written()),
            final(self).level() == old(self).level();
}

impl SqlWriter for MsSqlWriter {
    open spec fn written(&self) -> Seq<char> {
        self.output()
    }

    open spec fn level(&self) -> nat {
        self.depth()
    }

    fn write_statement(&mut self, node: &Statement) -> (r: Result<(), RenderError>) {
        MsSqlWriter::write_statement(self, node)
    }

    fn write_query(&mut self, node: &Query) -> (r: Result<(), RenderError>) {
        MsSqlWriter::write_query(self, node)
    }

    fn write_set_expr(&mut self, node: &SetExpr) -> (r: Result<(), RenderError>) {
        MsSqlWriter::write_set_expr(self, node)
    }

    fn write_select(&mut self, node: &Select) -> (r: Result<(), RenderError>) {
        MsSqlWriter::write_select(self, node)
    }

    fn write_select_item(&mut self, node: &SelectItem) -> (r: Result<(), RenderError>) {
        MsSqlWriter::write_select_item(self, node)
    }

    fn write_expr(&mut self, node: &Expr) -> (r: Result<(), RenderError>) {
        MsSqlWriter::write_expr(self, node)
    }

    fn write_value(&mut self, node: &Value) -> (r: Result<(), RenderError>) {
        MsSqlWriter::write_value(self, node)
    }

    fn write_object_name(&mut self, node: &ObjectName) -> (r: Result<(), RenderError>) {
        MsSqlWriter::write_object_name(self, node)
    }

    fn write_table_with_joins(&mut self, node: &TableWithJoins) -> (r: Result<(), RenderError>) {
        MsSqlWriter::write_table_with_joins(self, node)
    }

    fn write_table_factor(&mut self, node: &TableFactor) -> (r: Result<(), RenderError>) {
        MsSqlWriter::write_table_factor(self, node)
    }

    fn write_join(&mut self, node: &Join) -> (r: Result<(), RenderError>) {
        MsSqlWriter::write_join(self, node)
    }

    fn write_join_constraint(&mut self, node: &JoinConstraint) -> (r: Result<(), RenderError>) {
        MsSqlWriter::write_join_constraint(self, node)
    }

    fn write_join_operator(&mut self, node: &JoinOperator) -> (r: Result<(), RenderError>) {
        MsSqlWriter::write_join_operator(self, node)
    }

    fn write_binary_operator(&mut self, node: &BinaryOperator) -> (r: Result<(), RenderError>) {
        MsSqlWriter::write_binary_operator(self, node)
    }

    fn write_unary_operator(&mut self, node: &UnaryOperator) -> (r: Result<(), RenderError>) {
        MsSqlWriter::write_unary_operator(self, node)
    }

    fn write_column_def(&mut self, node: &ColumnDef) -> (r: Result<(), RenderError>) {
        MsSqlWriter::write_column_def(self, node)
    }

    fn write_column_options_def(&mut self, node: &ColumnOptionDef) -> (r: Result<(), RenderError>) {
        MsSqlWriter::write_column_options_def(self, node)
    }

    fn write_column_option(&mut self, node: &ColumnOption) -> (r: Result<(), RenderError>) {
        MsSqlWriter::write_column_option(self, node)
    }

    fn write_data_type(&mut self, node: &DataType) -> (r: Result<(), RenderError>) {
        MsSqlWriter::write_data_type(self, node)
    }

    fn write_date_time_field(&mut self, node: &DateTimeField) -> (r: Result<(), RenderError>) {
        MsSqlWriter::write_date_time_field(self, node)
    }

    fn write_assignment(&mut self, node: &Assignment) -> (r: Result<(), RenderError>) {
        MsSqlWriter::write_assignment(self, node)
    }

    fn write_order_by_expr(&mut self, node: &OrderByExpr) -> (r: Result<(), RenderError>) {
        MsSqlWriter::write_order_by_expr(self, node)
    }

    fn write_set_operator(&mut self, node: &SetOperator) -> (r: Result<(), RenderError>) {
        MsSqlWriter::write_set_operator(self, node)
    }
}

} // verus!
