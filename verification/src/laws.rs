//! The rendering laws: what holds of every statement, proved once.
//!
//! Determinism needs no lemma of its own: the SQL text and the bound
//! parameters of a statement are spec functions of the statement alone
//! ([`SelectStatement::sql_text`], [`SelectStatement::bind_params`]),
//! and both rendering passes are contracted to produce exactly those
//! values, so two renders of one statement — by either pass, for any
//! backend — cannot differ.

use vstd::prelude::*;
use crate::clause::DistinctClause;
use crate::clause::FromClause;
use crate::clause::GroupByClause;
use crate::clause::LimitClause;
use crate::clause::OffsetClause;
use crate::clause::OrderClause;
use crate::clause::SelectClause;
use crate::clause::WhereClause;
use crate::fragment::SqlFragment;
use crate::statement::SelectStatement;

verus! {

/// Every sentinel slot renders as empty text and binds nothing, so a
/// logically absent clause leaves no trace in either rendering pass.
pub proof fn lemma_sentinels_render_nothing()
    ensures
        DistinctClause::NoDistinct.text() == Seq::<char>::empty(),
        DistinctClause::NoDistinct.binds() == Seq::<Seq<char>>::empty(),
        FromClause::NoFrom.text() == Seq::<char>::empty(),
        FromClause::NoFrom.binds() == Seq::<Seq<char>>::empty(),
        WhereClause::NoWhere.text() == Seq::<char>::empty(),
        WhereClause::NoWhere.binds() == Seq::<Seq<char>>::empty(),
        OrderClause::NoOrder.text() == Seq::<char>::empty(),
        OrderClause::NoOrder.binds() == Seq::<Seq<char>>::empty(),
        GroupByClause::NoGroupBy.text() == Seq::<char>::empty(),
        GroupByClause::NoGroupBy.binds() == Seq::<Seq<char>>::empty(),
        LimitClause::NoLimit.text() == Seq::<char>::empty(),
        OffsetClause::NoOffset.text() == Seq::<char>::empty(),
{
}

/// A statement with every slot at its default — what
/// [`SelectStatement::simple`] builds over a table source — renders as
/// exactly `SELECT * FROM ` followed by the source fragment, with no
/// trailing clause text, and binds only what the source fragment binds.
pub proof fn lemma_default_statement_text(s: SelectStatement, f: SqlFragment)
    requires
        s == (SelectStatement {
            select: SelectClause::DefaultSelection,
            from: FromClause::Table(f),
            distinct: DistinctClause::NoDistinct,
            where_clause: WhereClause::NoWhere,
            order: OrderClause::NoOrder,
            limit: LimitClause::NoLimit,
            offset: OffsetClause::NoOffset,
            group_by: GroupByClause::NoGroupBy,
        }),
    ensures
        s.sql_text() == "SELECT "@ + "*"@ + " FROM "@ + f.text(),
        s.bind_params() == f.binds(),
{
    assert(s.sql_text() =~= "SELECT "@ + "*"@ + " FROM "@ + f.text());
    assert(s.bind_params() =~= f.binds());
}

/// The clause fragments stand in the rendered text in the fixed,
/// backend-independent order `SELECT` → distinct → select list → `FROM`
/// → `WHERE` → `GROUP BY` → `ORDER BY` → `LIMIT` → `OFFSET`: the text
/// of every statement is exactly their concatenation in that order,
/// however the statement was assembled, and the bound parameters follow
/// the same slot order.
pub proof fn lemma_fixed_clause_order(s: SelectStatement)
    ensures
        s.sql_text() == "SELECT "@ + s.distinct.text() + s.select.text() + s.from.text()
            + s.where_clause.text() + s.group_by.text() + s.order.text() + s.limit.text()
            + s.offset.text(),
        s.bind_params() == s.distinct.binds() + s.select.binds() + s.from.binds()
            + s.where_clause.binds() + s.group_by.binds() + s.order.binds(),
{
}

/// Rendering is referentially transparent: any two renders of one
/// statement — by either pass, in any order, however often — append the
/// same text and the same parameter sequence, because each pass is
/// contracted to append exactly [`SelectStatement::sql_text`] and
/// [`SelectStatement::bind_params`], functions of the statement alone.
pub proof fn lemma_rendering_deterministic(
    s: SelectStatement,
    text_a: Seq<char>,
    text_b: Seq<char>,
    binds_a: Seq<Seq<char>>,
    binds_b: Seq<Seq<char>>,
)
    requires
        text_a == s.sql_text(),
        text_b == s.sql_text(),
        binds_a == s.bind_params(),
        binds_b == s.bind_params(),
    ensures
        text_a == text_b,
        binds_a == binds_b,
{
}

/// A table-less statement renders no `FROM` fragment at all: its text
/// is the concatenation of the remaining clauses alone, each rendered
/// exactly as it renders when a table source is present.  (The renderer
/// itself emits no `FROM` keyword here; a caller-supplied fragment is
/// free to contain one, so nothing is claimed about the clause
/// fragments' own text.)
pub proof fn lemma_table_less_omits_from(s: SelectStatement)
    requires
        s.from is NoFrom,
    ensures
        s.sql_text() == "SELECT "@ + s.distinct.text() + s.select.text() + s.where_clause.text()
            + s.group_by.text() + s.order.text() + s.limit.text() + s.offset.text(),
{
    assert(s.sql_text() =~= "SELECT "@ + s.distinct.text() + s.select.text()
        + s.where_clause.text() + s.group_by.text() + s.order.text() + s.limit.text()
        + s.offset.text());
}

/// Replacing the no-source marker by a table source changes the
/// rendered text in one place only: the piece ` FROM <source>` appears
/// between the select list and the `WHERE` clause, and every other
/// clause's text stands unchanged around it.
pub proof fn lemma_from_slot_is_local(s: SelectStatement, t: SelectStatement, f: SqlFragment)
    requires
        s.from is NoFrom,
        t == (SelectStatement { from: FromClause::Table(f), ..s }),
    ensures
        t.sql_text() == "SELECT "@ + s.distinct.text() + s.select.text() + (" FROM "@ + f.text())
            + s.where_clause.text() + s.group_by.text() + s.order.text() + s.limit.text()
            + s.offset.text(),
{
}

} // verus!
