//! Emitters for column declarations and assignments.
use vstd::prelude::*;
use crate::ast::{Assignment, ColumnDef, ColumnOption, ColumnOptionDef};
use crate::emit::{emit_data_type, emit_expr, emit_joined, emit_object_name};
use crate::model::{
    assignment_sql, chain, column_def_sql, column_option_def_sql, column_option_sql, emitted,
    options_sql, RenderError,
};

verus! {

broadcast use crate::model::group_cat;

pub fn emit_column_option(out: &mut String, u: &str, d: usize, o: &ColumnOption) -> (r: Result<(), RenderError>)
    ensures
        emitted(r, old(out)@, final(out)@, column_option_sql(*o, u@, d as nat)),
{
    match o {
        ColumnOption::Null => out.append("NULL"),
        ColumnOption::NotNull => out.append("NOT NULL"),
        ColumnOption::Default(e) => {
            out.append("DEFAULT ");
            return emit_expr(out, u, d, e);
        },
        ColumnOption::Unique { is_primary } => out.append(if *is_primary { "PRIMARY KEY" } else { "UNIQUE" }),
        ColumnOption::ForeignKey { foreign_table, referred_columns } => {
            out.append("FOREIGN KEY ");
            if let Err(k) = emit_object_name(out, foreign_table) {
                return Err(k);
            }
            out.append(" (");
            emit_joined(out, referred_columns, " ");
            out.append(")");
        },
        ColumnOption::Check(e) => {
            out.append("CHECK (");
            if let Err(k) = emit_expr(out, u, d, e) {
                return Err(k);
            }
            out.append(")");
        },
    }
    Ok(())
}

pub fn emit_column_option_def(out: &mut String, u: &str, d: usize, o: &ColumnOptionDef) -> (r: Result<(), RenderError>)
    ensures
        emitted(r, old(out)@, final(out)@, column_option_def_sql(*o, u@, d as nat)),
{
    if let Some(n) = &o.name {
        out.append("CONSTRAINT ");
        out.append(n.as_str());
        out.append(" ");
    }
    emit_column_option(out, u, d, &o.option)
}

pub fn emit_column_def(out: &mut String, u: &str, d: usize, c: &ColumnDef) -> (r: Result<(), RenderError>)
    ensures
        emitted(r, old(out)@, final(out)@, column_def_sql(*c, u@, d as nat)),
{
    out.append(c.name.as_str());
    out.append(" ");
    if let Err(k) = emit_data_type(out, &c.data_type) {
        return Err(k);
    }
    if let Some(n) = &c.collation {
        out.append(" COLLATE ");
        if let Err(k) = emit_object_name(out, n) {
            return Err(k);
        }
    }
    emit_options(out, u, d, &c.options)
}

fn emit_options(out: &mut String, u: &str, d: usize, v: &Vec<ColumnOptionDef>) -> (r: Result<(), RenderError>)
    ensures
        emitted(r, old(out)@, final(out)@, options_sql(v@, 0, u@, d as nat)),
{
    let ghost o = out@;
    let ghost mut done: Seq<char> = Seq::empty();
    let mut i: usize = 0;
    while i < v.len()
        invariant
            i <= v.len(),
            out@ == o + done,
            chain(Ok(done), options_sql(v@, i as int, u@, d as nat)) == options_sql(v@, 0, u@, d as nat),
        decreases v.len() - i,
    {
        out.append(" ");
        if let Err(k) = emit_column_option_def(out, u, d, &v[i]) {
            return Err(k);
        }
        proof {
            let t = column_option_def_sql(v@[i as int], u@, d as nat)->Ok_0;
            done = done + " "@ + t;
        }
        i = i + 1;
    }
    Ok(())
}

pub fn emit_assignment(out: &mut String, u: &str, d: usize, a: &Assignment) -> (r: Result<(), RenderError>)
    ensures
        emitted(r, old(out)@, final(out)@, assignment_sql(*a, u@, d as nat)),
{
    out.append(a.id.as_str());
    out.append(" = ");
    if let Err(k) = emit_expr(out, u, d, &a.value) {
        return Err(k);
    }
    out.append(";\n");
    Ok(())
}

} // verus!
