//! Composition and rendering of SQL `SELECT` statements.
//!
//! A [`statement::SelectStatement`] holds exactly one value for each of the
//! eight clause slots of a `SELECT` statement (select list, table source,
//! distinct, where, group by, order, limit, offset).  A logically absent
//! clause is represented by a concrete no-op sentinel variant, never by an
//! option, so rendering walks every slot uniformly.
//!
//! Rendering produces SQL text together with a parallel sequence of bound
//! parameter values; both are pinned down exactly by the contracts in
//! [`render`].  The clause order of the generated text is fixed and
//! backend-independent; the backend tag only decides whether a dialect
//! feature may render at all and how the statement's declared SQL type is
//! wrapped.
//!
//! [`query_id`] derives a stable identity from a statement's shape — the
//! slot variants and their SQL text, with bound values erased — so an
//! external cache can recognise a repeated query shape and reuse a
//! prepared statement.  The general rendering laws are stated and proved
//! in [`laws`].

pub mod backend;
pub mod fragment;
pub mod numeral;
pub mod sql_type;
pub mod clause;
pub mod statement;
pub mod render;
pub mod query_id;
pub mod laws;
