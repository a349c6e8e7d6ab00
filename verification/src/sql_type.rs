//! The declared SQL result type of a statement.
//!
//! The declared type is computed, never stored: it is a pure function of
//! the select list's declared type and — for the array-wrapping backend —
//! of the backend tag, which wraps it as a sequence-of type because a
//! nested `SELECT` there is addressable as an array value in expression
//! positions.

use vstd::prelude::*;

verus! {

/// The scalar SQL types a select list can declare.  `Row` stands for the
/// full row type of the table source, declared by the default select
/// list (`*`).
#[derive(Clone, Copy, Debug, PartialEq, Eq, Structural, Hash)]
pub enum SqlType {
    Row,
    Text,
    Integer,
    Bool,
}

/// The declared type of a statement used as a nested expression: the
/// select list's scalar type, or an array of it on the backend whose
/// sub-query semantics address a nested `SELECT` as an array value.
#[derive(Clone, Copy, Debug, PartialEq, Eq, Structural, Hash)]
pub enum ExpressionType {
    Scalar(SqlType),
    ArrayOf(SqlType),
}

} // verus!
