//! The eight clause slots of a `SELECT` statement.
//!
//! Every slot is an enum with one no-op sentinel variant (`No...`) for a
//! logically absent clause.  The sentinel renders as empty text with no
//! bound parameters, so a statement always holds a concrete value per
//! slot and the renderer treats every slot uniformly.
//!
//! Each present clause renders its own leading keyword and separators;
//! the enclosing statement contributes only the initial `SELECT `.

use vstd::prelude::*;
use vstd::string::StringExecFns;
use crate::fragment::SqlFragment;
use crate::fragment::string_views;
use crate::numeral::decimal_text;
use crate::numeral::push_u64_decimal;
use crate::sql_type::SqlType;

verus! {

/// The select list: what the statement projects.  The default selects
/// every column of the source (`*`) and declares the source's row type;
/// an explicit selection carries its fragment and its declared type.
#[derive(Debug, Clone, PartialEq)]
pub enum SelectClause {
    DefaultSelection,
    Expression(SqlFragment, SqlType),
}

/// The table source, or the marker for a table-less statement.
#[derive(Debug, Clone, PartialEq)]
pub enum FromClause {
    NoFrom,
    Table(SqlFragment),
}

/// Duplicate-row suppression.  `DistinctOn` is a dialect feature and
/// renders only on a backend that supports it.
#[derive(Debug, Clone, PartialEq)]
pub enum DistinctClause {
    NoDistinct,
    Distinct,
    DistinctOn(SqlFragment),
}

/// Zero or more predicates, combined with `AND`.  The sentinel stands
/// for "no predicate"; the present variant holds at least one.
#[derive(Debug, Clone, PartialEq)]
pub enum WhereClause {
    NoWhere,
    Predicates(Vec<SqlFragment>),
}

/// Ordering expressions.
#[derive(Debug, Clone, PartialEq)]
pub enum OrderClause {
    NoOrder,
    OrderBy(SqlFragment),
}

/// The row-count bound.
#[derive(Debug, Clone, PartialEq)]
pub enum LimitClause {
    NoLimit,
    Limit(u64),
}

/// The row offset.
#[derive(Debug, Clone, PartialEq)]
pub enum OffsetClause {
    NoOffset,
    Offset(u64),
}

/// Grouping expressions.
#[derive(Debug, Clone, PartialEq)]
pub enum GroupByClause {
    NoGroupBy,
    GroupBy(SqlFragment),
}

impl core::default::Default for SelectClause {
    /// The default select list: every column of the source.
    fn default() -> (r: Self)
        ensures
            r == SelectClause::DefaultSelection,
    {
        SelectClause::DefaultSelection
    }
}

impl core::default::Default for DistinctClause {
    fn default() -> (r: Self)
        ensures
            r == DistinctClause::NoDistinct,
    {
        DistinctClause::NoDistinct
    }
}

impl core::default::Default for WhereClause {
    fn default() -> (r: Self)
        ensures
            r == WhereClause::NoWhere,
    {
        WhereClause::NoWhere
    }
}

impl core::default::Default for OrderClause {
    fn default() -> (r: Self)
        ensures
            r == OrderClause::NoOrder,
    {
        OrderClause::NoOrder
    }
}

impl core::default::Default for LimitClause {
    fn default() -> (r: Self)
        ensures
            r == LimitClause::NoLimit,
    {
        LimitClause::NoLimit
    }
}

impl core::default::Default for OffsetClause {
    fn default() -> (r: Self)
        ensures
            r == OffsetClause::NoOffset,
    {
        OffsetClause::NoOffset
    }
}

impl core::default::Default for GroupByClause {
    fn default() -> (r: Self)
        ensures
            r == GroupByClause::NoGroupBy,
    {
        GroupByClause::NoGroupBy
    }
}

/// The text of a predicate list: the fragments joined with ` AND `.
pub open spec fn predicates_text(s: Seq<SqlFragment>) -> Seq<char>
    decreases s.len(),
{
    if s.len() == 0 {
        Seq::empty()
    } else if s.len() == 1 {
        s[0].text()
    } else {
        predicates_text(s.drop_last()) + " AND "@ + s.last().text()
    }
}

/// The bound parameters of a predicate list, in predicate order.
pub open spec fn predicates_binds(s: Seq<SqlFragment>) -> Seq<Seq<char>>
    decreases s.len(),
{
    if s.len() == 0 {
        Seq::empty()
    } else {
        predicates_binds(s.drop_last()) + s.last().binds()
    }
}

impl SelectClause {
    /// The select-list fragment: `*` for the default selection.
    pub open spec fn text(self) -> Seq<char> {
        match self {
            SelectClause::DefaultSelection => "*"@,
            SelectClause::Expression(f, _) => f.text(),
        }
    }

    pub open spec fn binds(self) -> Seq<Seq<char>> {
        match self {
            SelectClause::DefaultSelection => Seq::empty(),
            SelectClause::Expression(f, _) => f.binds(),
        }
    }

    /// The SQL type the select list declares: the source's row type for
    /// the default selection, else the explicit declared type.
    pub open spec fn declared_type(self) -> SqlType {
        match self {
            SelectClause::DefaultSelection => SqlType::Row,
            SelectClause::Expression(_, t) => t,
        }
    }

    pub fn render_into(&self, sql: &mut String, binds: &mut Vec<String>)
        ensures
            final(sql)@ == old(sql)@ + self.text(),
            string_views(final(binds)@) == string_views(old(binds)@) + self.binds(),
    {
        match self {
            SelectClause::DefaultSelection => {
                sql.append("*");
                proof {
                    assert(string_views(binds@) + self.binds() =~= string_views(binds@));
                }
            },
            SelectClause::Expression(f, _) => {
                f.render_into(sql, binds);
            },
        }
    }
}

impl FromClause {
    /// The ` FROM ...` fragment; empty for a table-less statement.
    pub open spec fn text(self) -> Seq<char> {
        match self {
            FromClause::NoFrom => Seq::empty(),
            FromClause::Table(f) => " FROM "@ + f.text(),
        }
    }

    pub open spec fn binds(self) -> Seq<Seq<char>> {
        match self {
            FromClause::NoFrom => Seq::empty(),
            FromClause::Table(f) => f.binds(),
        }
    }

    pub fn render_into(&self, sql: &mut String, binds: &mut Vec<String>)
        ensures
            final(sql)@ == old(sql)@ + self.text(),
            string_views(final(binds)@) == string_views(old(binds)@) + self.binds(),
    {
        match self {
            FromClause::NoFrom => {
                proof {
                    assert(old(sql)@ + self.text() =~= old(sql)@);
                    assert(string_views(binds@) + self.binds() =~= string_views(binds@));
                }
            },
            FromClause::Table(f) => {
                sql.append(" FROM ");
                f.render_into(sql, binds);
                proof {
                    assert(old(sql)@ + self.text() =~= old(sql)@ + " FROM "@ + f.text());
                }
            },
        }
    }
}

impl DistinctClause {
    pub open spec fn text(self) -> Seq<char> {
        match self {
            DistinctClause::NoDistinct => Seq::empty(),
            DistinctClause::Distinct => "DISTINCT "@,
            DistinctClause::DistinctOn(f) => "DISTINCT ON ("@ + f.text() + ") "@,
        }
    }

    pub open spec fn binds(self) -> Seq<Seq<char>> {
        match self {
            DistinctClause::NoDistinct => Seq::empty(),
            DistinctClause::Distinct => Seq::empty(),
            DistinctClause::DistinctOn(f) => f.binds(),
        }
    }

    pub fn render_into(&self, sql: &mut String, binds: &mut Vec<String>)
        ensures
            final(sql)@ == old(sql)@ + self.text(),
            string_views(final(binds)@) == string_views(old(binds)@) + self.binds(),
    {
        match self {
            DistinctClause::NoDistinct => {
                proof {
                    assert(old(sql)@ + self.text() =~= old(sql)@);
                    assert(string_views(binds@) + self.binds() =~= string_views(binds@));
                }
            },
            DistinctClause::Distinct => {
                sql.append("DISTINCT ");
                proof {
                    assert(string_views(binds@) + self.binds() =~= string_views(binds@));
                }
            },
            DistinctClause::DistinctOn(f) => {
                sql.append("DISTINCT ON (");
                f.render_into(sql, binds);
                sql.append(") ");
                proof {
                    assert(old(sql)@ + self.text() =~= old(sql)@ + "DISTINCT ON ("@ + f.text()
                        + ") "@);
                }
            },
        }
    }
}

impl WhereClause {
    pub open spec fn text(self) -> Seq<char> {
        match self {
            WhereClause::NoWhere => Seq::empty(),
            WhereClause::Predicates(ps) => " WHERE "@ + predicates_text(ps@),
        }
    }

    pub open spec fn binds(self) -> Seq<Seq<char>> {
        match self {
            WhereClause::NoWhere => Seq::empty(),
            WhereClause::Predicates(ps) => predicates_binds(ps@),
        }
    }

    pub fn render_into(&self, sql: &mut String, binds: &mut Vec<String>)
        ensures
            final(sql)@ == old(sql)@ + self.text(),
            string_views(final(binds)@) == string_views(old(binds)@) + self.binds(),
    {
        match self {
            WhereClause::NoWhere => {
                proof {
                    assert(old(sql)@ + self.text() =~= old(sql)@);
                    assert(string_views(binds@) + self.binds() =~= string_views(binds@));
                }
            },
            WhereClause::Predicates(ps) => {
                sql.append(" WHERE ");
                let ghost sql0 = sql@;
                let ghost binds0 = binds@;
                let mut i: usize = 0;
                while i < ps.len()
                    invariant
                        i <= ps.len(),
                        sql@ == sql0 + predicates_text(ps@.take(i as int)),
                        string_views(binds@) == string_views(binds0) + predicates_binds(
                            ps@.take(i as int),
                        ),
                    decreases ps.len() - i,
                {
                    let ghost taken = ps@.take(i as int);
                    let ghost p = ps@[i as int];
                    if i > 0 {
                        sql.append(" AND ");
                    }
                    ps[i].render_into(sql, binds);
                    proof {
                        assert(ps@.take(i as int + 1).drop_last() =~= taken);
                        assert(ps@.take(i as int + 1).last() == p);
                        if i == 0 {
                            assert(sql0 + predicates_text(ps@.take(1)) =~= sql0 + p.text());
                        } else {
                            assert(sql0 + predicates_text(ps@.take(i as int + 1)) =~= sql0
                                + predicates_text(taken) + " AND "@ + p.text());
                        }
                        assert(string_views(binds0) + predicates_binds(ps@.take(i as int + 1))
                            =~= string_views(binds0) + predicates_binds(taken) + p.binds());
                    }
                    i += 1;
                }
                proof {
                    assert(ps@.take(ps@.len() as int) =~= ps@);
                    assert(old(sql)@ + self.text() =~= sql0 + predicates_text(ps@));
                }
            },
        }
    }
}

impl OrderClause {
    pub open spec fn text(self) -> Seq<char> {
        match self {
            OrderClause::NoOrder => Seq::empty(),
            OrderClause::OrderBy(f) => " ORDER BY "@ + f.text(),
        }
    }

    pub open spec fn binds(self) -> Seq<Seq<char>> {
        match self {
            OrderClause::NoOrder => Seq::empty(),
            OrderClause::OrderBy(f) => f.binds(),
        }
    }

    pub fn render_into(&self, sql: &mut String, binds: &mut Vec<String>)
        ensures
            final(sql)@ == old(sql)@ + self.text(),
            string_views(final(binds)@) == string_views(old(binds)@) + self.binds(),
    {
        match self {
            OrderClause::NoOrder => {
                proof {
                    assert(old(sql)@ + self.text() =~= old(sql)@);
                    assert(string_views(binds@) + self.binds() =~= string_views(binds@));
                }
            },
            OrderClause::OrderBy(f) => {
                sql.append(" ORDER BY ");
                f.render_into(sql, binds);
                proof {
                    assert(old(sql)@ + self.text() =~= old(sql)@ + " ORDER BY "@ + f.text());
                }
            },
        }
    }
}

impl GroupByClause {
    pub open spec fn text(self) -> Seq<char> {
        match self {
            GroupByClause::NoGroupBy => Seq::empty(),
            GroupByClause::GroupBy(f) => " GROUP BY "@ + f.text(),
        }
    }

    pub open spec fn binds(self) -> Seq<Seq<char>> {
        match self {
            GroupByClause::NoGroupBy => Seq::empty(),
            GroupByClause::GroupBy(f) => f.binds(),
        }
    }

    pub fn render_into(&self, sql: &mut String, binds: &mut Vec<String>)
        ensures
            final(sql)@ == old(sql)@ + self.text(),
            string_views(final(binds)@) == string_views(old(binds)@) + self.binds(),
    {
        match self {
            GroupByClause::NoGroupBy => {
                proof {
                    assert(old(sql)@ + self.text() =~= old(sql)@);
                    assert(string_views(binds@) + self.binds() =~= string_views(binds@));
                }
            },
            GroupByClause::GroupBy(f) => {
                sql.append(" GROUP BY ");
                f.render_into(sql, binds);
                proof {
                    assert(old(sql)@ + self.text() =~= old(sql)@ + " GROUP BY "@ + f.text());
                }
            },
        }
    }
}

impl LimitClause {
    pub open spec fn text(self) -> Seq<char> {
        match self {
            LimitClause::NoLimit => Seq::empty(),
            LimitClause::Limit(n) => " LIMIT "@ + decimal_text(n as nat),
        }
    }

    pub fn render_into(&self, sql: &mut String)
        ensures
            final(sql)@ == old(sql)@ + self.text(),
    {
        match self {
            LimitClause::NoLimit => {
                proof {
                    assert(old(sql)@ + self.text() =~= old(sql)@);
                }
            },
            LimitClause::Limit(n) => {
                sql.append(" LIMIT ");
                push_u64_decimal(*n, sql);
                proof {
                    assert(old(sql)@ + self.text() =~= old(sql)@ + " LIMIT "@ + decimal_text(
                        *n as nat,
                    ));
                }
            },
        }
    }
}

impl OffsetClause {
    pub open spec fn text(self) -> Seq<char> {
        match self {
            OffsetClause::NoOffset => Seq::empty(),
            OffsetClause::Offset(n) => " OFFSET "@ + decimal_text(n as nat),
        }
    }

    pub fn render_into(&self, sql: &mut String)
        ensures
            final(sql)@ == old(sql)@ + self.text(),
    {
        match self {
            OffsetClause::NoOffset => {
                proof {
                    assert(old(sql)@ + self.text() =~= old(sql)@);
                }
            },
            OffsetClause::Offset(n) => {
                sql.append(" OFFSET ");
                push_u64_decimal(*n, sql);
                proof {
                    assert(old(sql)@ + self.text() =~= old(sql)@ + " OFFSET "@ + decimal_text(
                        *n as nat,
                    ));
                }
            },
        }
    }
}

} // verus!
