//! The statement composite: one concrete value per clause slot.

use vstd::prelude::*;
use crate::backend::Backend;
use crate::clause::DistinctClause;
use crate::clause::FromClause;
use crate::clause::GroupByClause;
use crate::clause::LimitClause;
use crate::clause::OffsetClause;
use crate::clause::OrderClause;
use crate::clause::SelectClause;
use crate::clause::WhereClause;
use crate::sql_type::ExpressionType;
use crate::sql_type::SqlType;

verus! {

/// A `SELECT` statement: exactly one value per clause slot, immutable
/// once built.  Absent clauses hold their sentinel variant, so rendering
/// never branches on presence at the value level.
#[derive(Debug, Clone, PartialEq)]
pub struct SelectStatement {
    pub select: SelectClause,
    pub from: FromClause,
    pub distinct: DistinctClause,
    pub where_clause: WhereClause,
    pub order: OrderClause,
    pub limit: LimitClause,
    pub offset: OffsetClause,
    pub group_by: GroupByClause,
}

impl SelectStatement {
    /// Structural validity, established at construction: a table-less
    /// statement must select an explicit expression (there is no `*` to
    /// expand without a source), and a present `WHERE` slot holds at
    /// least one predicate.
    pub open spec fn wf(self) -> bool {
        &&& (self.from is NoFrom ==> self.select is Expression)
        &&& (self.where_clause matches WhereClause::Predicates(ps) ==> ps@.len() >= 1)
    }

    /// Whether every slot can legally render for `backend`.  The only
    /// dialect-restricted slot value is `DISTINCT ON`.
    pub open spec fn renderable(self, backend: Backend) -> bool {
        self.distinct is DistinctOn ==> backend.supports_distinct_on()
    }

    /// The full SQL text of the statement: the clause fragments in the
    /// fixed, backend-independent order
    /// `SELECT` → distinct → select list → `FROM` → `WHERE` →
    /// `GROUP BY` → `ORDER BY` → `LIMIT` → `OFFSET`.
    pub open spec fn sql_text(self) -> Seq<char> {
        "SELECT "@ + self.distinct.text() + self.select.text() + self.from.text()
            + self.where_clause.text() + self.group_by.text() + self.order.text()
            + self.limit.text() + self.offset.text()
    }

    /// The bound parameter values of the statement, in the order their
    /// placeholders appear in [`SelectStatement::sql_text`] (the
    /// row-count bounds render inline and bind nothing).
    pub open spec fn bind_params(self) -> Seq<Seq<char>> {
        self.distinct.binds() + self.select.binds() + self.from.binds()
            + self.where_clause.binds() + self.group_by.binds() + self.order.binds()
    }

    /// Builds a statement from every slot explicitly.  The slot
    /// combination must be structurally valid; an illegal combination is
    /// rejected here, before any render is attempted.
    pub fn new(
        select: SelectClause,
        from: FromClause,
        distinct: DistinctClause,
        where_clause: WhereClause,
        order: OrderClause,
        limit: LimitClause,
        offset: OffsetClause,
        group_by: GroupByClause,
    ) -> (r: SelectStatement)
        requires
            from is NoFrom ==> select is Expression,
            where_clause matches WhereClause::Predicates(ps) ==> ps@.len() >= 1,
        ensures
            r == (SelectStatement {
                select,
                from,
                distinct,
                where_clause,
                order,
                limit,
                offset,
                group_by,
            }),
            r.wf(),
    {
        SelectStatement { select, from, distinct, where_clause, order, limit, offset, group_by }
    }

    /// Builds the plain statement over a table source: every other slot
    /// at its sentinel, the select list at its default.
    pub fn simple(from: FromClause) -> (r: SelectStatement)
        requires
            from is Table,
        ensures
            r == (SelectStatement {
                select: SelectClause::DefaultSelection,
                from,
                distinct: DistinctClause::NoDistinct,
                where_clause: WhereClause::NoWhere,
                order: OrderClause::NoOrder,
                limit: LimitClause::NoLimit,
                offset: OffsetClause::NoOffset,
                group_by: GroupByClause::NoGroupBy,
            }),
            r.wf(),
    {
        SelectStatement::new(
            SelectClause::DefaultSelection,
            from,
            DistinctClause::NoDistinct,
            WhereClause::NoWhere,
            OrderClause::NoOrder,
            LimitClause::NoLimit,
            OffsetClause::NoOffset,
            GroupByClause::NoGroupBy,
        )
    }

    /// The declared SQL result type of the statement as a query: the
    /// select list's declared type, on every backend.
    pub fn query_sql_type(&self) -> (r: SqlType)
        ensures
            r == self.select.declared_type(),
    {
        match &self.select {
            SelectClause::DefaultSelection => SqlType::Row,
            SelectClause::Expression(_, t) => *t,
        }
    }

    /// The declared SQL type of the statement used as a nested
    /// expression on `backend`: see [`SelectStatement::expression_sql_type`].
    pub open spec fn spec_expression_type(self, backend: Backend) -> ExpressionType {
        if backend.wraps_expression_in_array() {
            ExpressionType::ArrayOf(self.select.declared_type())
        } else {
            ExpressionType::Scalar(self.select.declared_type())
        }
    }

    /// The declared SQL type of the statement used as a nested
    /// expression: the select list's type, wrapped as a sequence-of type
    /// on the backend whose sub-query semantics address a nested
    /// `SELECT` as an array value.
    pub fn expression_sql_type(&self, backend: Backend) -> (r: ExpressionType)
        ensures
            r == self.spec_expression_type(backend),
    {
        let t = self.query_sql_type();
        if backend.expression_array_wrapped() {
            ExpressionType::ArrayOf(t)
        } else {
            ExpressionType::Scalar(t)
        }
    }
}

} // verus!
