//! The two rendering passes: plain text, and the structured walk that
//! collects bound parameters alongside the text.
//!
//! Both passes traverse the slots in the same fixed order and emit the
//! same SQL text ([`crate::statement::SelectStatement::sql_text`]); the
//! structured walk additionally records the bound parameter values in
//! placeholder order.  A render is all-or-nothing: on failure the output
//! resource is left exactly as it was.

use vstd::prelude::*;
use vstd::string::StringExecFns;
use crate::backend::Backend;
use crate::clause::DistinctClause;
use crate::fragment::string_views;
use crate::statement::SelectStatement;

verus! {

/// Why a render was refused.
#[derive(Clone, Copy, Debug, PartialEq, Eq, Structural, Hash)]
pub enum RenderError {
    /// A slot uses a dialect feature the target backend lacks
    /// (`DISTINCT ON` outside the backend that supports it).
    UnsupportedDialectFeature,
}

/// The accumulating output of a text render: SQL text for one backend.
#[derive(Debug, Clone, PartialEq)]
pub struct QueryBuilder {
    pub backend: Backend,
    pub sql: String,
}

impl QueryBuilder {
    /// An empty builder for `backend`.
    pub fn new(backend: Backend) -> (r: QueryBuilder)
        ensures
            r.backend == backend,
            r.sql@ == Seq::<char>::empty(),
    {
        QueryBuilder { backend, sql: String::new() }
    }
}

/// The shared pass context of a structured walk: SQL text plus the bound
/// parameter values, kept in lockstep with the emitted placeholders.
#[derive(Debug, Clone, PartialEq)]
pub struct AstPass {
    pub backend: Backend,
    pub sql: String,
    pub binds: Vec<String>,
}

impl AstPass {
    /// An empty pass context for `backend`.
    pub fn new(backend: Backend) -> (r: AstPass)
        ensures
            r.backend == backend,
            r.sql@ == Seq::<char>::empty(),
            r.binds@ == Seq::<String>::empty(),
    {
        AstPass { backend, sql: String::new(), binds: Vec::new() }
    }
}

impl SelectStatement {
    /// Whether this statement can render for `backend`; the runtime test
    /// matching [`SelectStatement::renderable`].
    pub fn can_render(&self, backend: Backend) -> (r: bool)
        ensures
            r == self.renderable(backend),
    {
        match &self.distinct {
            DistinctClause::DistinctOn(_) => backend.distinct_on_supported(),
            _ => true,
        }
    }

    /// Renders every slot, in the fixed clause order, into `sql` and
    /// `binds`.  Shared by both rendering passes, so they cannot drift
    /// out of order.
    fn render_slots(&self, sql: &mut String, binds: &mut Vec<String>)
        ensures
            final(sql)@ == old(sql)@ + self.sql_text(),
            string_views(final(binds)@) == string_views(old(binds)@) + self.bind_params(),
    {
        sql.append("SELECT ");
        self.distinct.render_into(sql, binds);
        self.select.render_into(sql, binds);
        self.from.render_into(sql, binds);
        self.where_clause.render_into(sql, binds);
        self.group_by.render_into(sql, binds);
        self.order.render_into(sql, binds);
        self.limit.render_into(sql);
        self.offset.render_into(sql);
        proof {
            assert(sql@ =~= old(sql)@ + self.sql_text());
            assert(string_views(binds@) =~= string_views(old(binds)@) + self.bind_params());
        }
    }

    /// The text rendering pass: appends the statement's SQL text to
    /// `out`.  Fails, leaving `out` untouched, exactly when a slot
    /// cannot legally render for the builder's backend.
    pub fn to_sql(&self, out: &mut QueryBuilder) -> (r: Result<(), RenderError>)
        requires
            self.wf(),
        ensures
            final(out).backend == old(out).backend,
            r is Ok <==> self.renderable(old(out).backend),
            r is Ok ==> final(out).sql@ == old(out).sql@ + self.sql_text(),
            r is Err ==> *final(out) == *old(out) && r == Err::<(), RenderError>(
                RenderError::UnsupportedDialectFeature,
            ),
    {
        if !self.can_render(out.backend) {
            return Err(RenderError::UnsupportedDialectFeature);
        }
        let mut scratch: Vec<String> = Vec::new();
        self.render_slots(&mut out.sql, &mut scratch);
        Ok(())
    }

    /// The structured walk: appends the statement's SQL text and its
    /// bound parameter values to the pass context, in lockstep.  Fails,
    /// leaving the context untouched, exactly when a slot cannot legally
    /// render for the pass's backend.
    pub fn walk_ast(&self, pass: &mut AstPass) -> (r: Result<(), RenderError>)
        requires
            self.wf(),
        ensures
            final(pass).backend == old(pass).backend,
            r is Ok <==> self.renderable(old(pass).backend),
            r is Ok ==> final(pass).sql@ == old(pass).sql@ + self.sql_text(),
            r is Ok ==> string_views(final(pass).binds@) == string_views(old(pass).binds@)
                + self.bind_params(),
            r is Err ==> *final(pass) == *old(pass) && r == Err::<(), RenderError>(
                RenderError::UnsupportedDialectFeature,
            ),
    {
        if !self.can_render(pass.backend) {
            return Err(RenderError::UnsupportedDialectFeature);
        }
        self.render_slots(&mut pass.sql, &mut pass.binds);
        Ok(())
    }
}

} // verus!
