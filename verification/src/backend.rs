//! The backend tag: which SQL dialect a statement is rendered for.

use vstd::prelude::*;

verus! {

/// The SQL dialects a statement can be rendered for.
///
/// The tag decides two things only: whether the dialect supports
/// `DISTINCT ON` (a rendering-time capability), and whether a statement
/// used as a nested expression has its declared SQL type wrapped as an
/// array (a type-inference rule, see [`crate::sql_type`]).  The clause
/// order of the rendered text never depends on the backend.
#[derive(Clone, Copy, Debug, PartialEq, Eq, Structural, Hash)]
pub enum Backend {
    Postgres,
    Sqlite,
    Mysql,
}

impl Backend {
    /// Whether this dialect accepts a `DISTINCT ON (...)` clause.
    pub open spec fn supports_distinct_on(self) -> bool {
        self is Postgres
    }

    /// Whether a nested `SELECT` on this backend is addressable as an
    /// array value, so that the statement's declared SQL type is a
    /// sequence-of type rather than the select list's scalar type.
    pub open spec fn wraps_expression_in_array(self) -> bool {
        self is Postgres
    }

    /// Runtime test matching [`Backend::supports_distinct_on`].
    pub fn distinct_on_supported(self) -> (r: bool)
        ensures
            r == self.supports_distinct_on(),
    {
        match self {
            Backend::Postgres => true,
            Backend::Sqlite => false,
            Backend::Mysql => false,
        }
    }

    /// Runtime test matching [`Backend::wraps_expression_in_array`].
    pub fn expression_array_wrapped(self) -> (r: bool)
        ensures
            r == self.wraps_expression_in_array(),
    {
        match self {
            Backend::Postgres => true,
            Backend::Sqlite => false,
            Backend::Mysql => false,
        }
    }
}

} // verus!
