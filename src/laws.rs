//! Properties that hold of every input.
use vstd::prelude::*;
use crate::ast::{BinaryOperator, Expr, Select, Statement, UnaryOperator};
use crate::model::{
    binary_token, chain, expr_sql, items_sql, prefix, select_sql, statement_sql, twj_sql, unary_token,
    RenderError,
};
use crate::writer::{rendered, MsSqlWriter};

verus! {

broadcast use crate::model::lemma_cat_empty_left, crate::model::lemma_cat_empty_right;

/// Every binary operator has exactly one token, and it is never empty.
pub proof fn law_binary_token_nonempty(op: BinaryOperator)
    ensures
        binary_token(op).len() > 0,
{
    reveal_strlit("AND");
    reveal_strlit("OR");
    reveal_strlit("=");
    reveal_strlit(">");
    reveal_strlit(">=");
    reveal_strlit("<");
    reveal_strlit("<=");
    reveal_strlit("!=");
    reveal_strlit("LIKE");
    reveal_strlit("NOT LIKE");
    reveal_strlit("+");
    reveal_strlit("-");
    reveal_strlit("*");
    reveal_strlit("/");
    reveal_strlit("%");
}

/// Every unary operator has exactly one token, and it is never empty.
pub proof fn law_unary_token_nonempty(op: UnaryOperator)
    ensures
        unary_token(op).len() > 0,
{
    reveal_strlit("-");
    reveal_strlit("NOT");
    reveal_strlit("+");
}

/// An expression kind without a rendering rule (CASE, CAST, EXTRACT,
/// COLLATE, a nested expression) fails as unsupported; the writer then leaves
/// its sink as it was.
pub proof fn law_unsupported_expr_fails(e: Expr, u: Seq<char>, d: nat)
    requires
        e is Case || e is Cast || e is Extract || e is Collate || e is Nested,
    ensures
        expr_sql(e, u, d) == Err::<Seq<char>, RenderError>(RenderError::UnsupportedConstruct),
{
}

/// Rendering one statement with two fresh writers that share an indentation
/// unit gives the same result and byte-identical output.
pub proof fn law_fresh_writers_agree(
    s: Statement,
    a: MsSqlWriter,
    a_after: MsSqlWriter,
    ra: Result<(), RenderError>,
    b: MsSqlWriter,
    b_after: MsSqlWriter,
    rb: Result<(), RenderError>,
)
    requires
        a.output() == Seq::<char>::empty(),
        b.output() == Seq::<char>::empty(),
        a.unit() == b.unit(),
        a.depth() == 0,
        b.depth() == 0,
        rendered(ra, a, a_after, statement_sql(s, a.unit(), a.depth())),
        rendered(rb, b, b_after, statement_sql(s, b.unit(), b.depth())),
    ensures
        ra == rb,
        a_after.output() == b_after.output(),
{
}

/// A `SELECT` with one FROM entry and no WHERE, GROUP BY or HAVING renders
/// as its head, its projection, a newline and `FROM `, and then that entry:
/// nothing follows the FROM entry.
pub proof fn law_select_ends_with_from_entry(s: Select, u: Seq<char>, d: nat)
    requires
        s.projection@.len() > 0,
        s.from@.len() == 1,
        s.selection is None,
        s.group_by@.len() == 0,
        s.having is None,
    ensures
        select_sql(s, u, d) == chain(
            Ok(if s.distinct { "SELECT DISTINCT "@ } else { "SELECT "@ }),
            chain(
                items_sql(s.projection@, 0, u, d),
                chain(Ok("\nFROM "@ + prefix(u, d)), twj_sql(s.from@[0], u, d)),
            ),
        ),
{
    let from = chain(Ok("\nFROM "@ + prefix(u, d)), twj_sql(s.from@[0], u, d));
    let empty: Result<Seq<char>, RenderError> = Ok(Seq::empty());
    assert(chain(empty, chain(empty, empty)) == empty);
    assert(chain(from, empty) == from);
}

} // verus!
