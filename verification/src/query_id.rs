//! Statement fingerprinting: a stable identity derived from a
//! statement's shape.
//!
//! The shape of a statement is the combination of its slot variants and
//! their SQL text, with every bound parameter value (and row-count
//! bound) erased.  Two statements that differ only in bound values — the
//! same query asked with different literals — share a shape and so a
//! fingerprint; statements that differ in any slot variant, predicate
//! count or literal SQL text do not.  An external cache compares
//! fingerprints with [`QueryId::same_as`] to recognise a prepared
//! statement that can be reused.

use vstd::prelude::*;
use crate::clause::DistinctClause;
use crate::clause::FromClause;
use crate::clause::GroupByClause;
use crate::clause::LimitClause;
use crate::clause::OffsetClause;
use crate::clause::OrderClause;
use crate::clause::SelectClause;
use crate::clause::WhereClause;
use crate::fragment::AtomShape;
use crate::fragment::SqlAtom;
use crate::fragment::SqlFragment;
use crate::fragment::atoms_shape;
use crate::sql_type::SqlType;
use crate::statement::SelectStatement;

verus! {

/// The shape of the select-list slot.
pub ghost enum SelectShape {
    DefaultSelection,
    Expression(Seq<AtomShape>, SqlType),
}

/// The shape of the table-source slot.
pub ghost enum FromShape {
    NoFrom,
    Table(Seq<AtomShape>),
}

/// The shape of the distinct slot.
pub ghost enum DistinctShape {
    NoDistinct,
    Distinct,
    DistinctOn(Seq<AtomShape>),
}

/// The shape of the where slot: one fragment shape per predicate.
pub ghost enum WhereShape {
    NoWhere,
    Predicates(Seq<Seq<AtomShape>>),
}

/// The shape of the order slot.
pub ghost enum OrderShape {
    NoOrder,
    OrderBy(Seq<AtomShape>),
}

/// The shape of the group-by slot.
pub ghost enum GroupByShape {
    NoGroupBy,
    GroupBy(Seq<AtomShape>),
}

/// The shape of a whole statement: one shape per slot.  The row-count
/// bounds contribute presence alone — their values are slot values, not
/// slot types.
pub ghost struct StatementShape {
    pub select: SelectShape,
    pub from: FromShape,
    pub distinct: DistinctShape,
    pub where_clause: WhereShape,
    pub order: OrderShape,
    pub has_limit: bool,
    pub has_offset: bool,
    pub group_by: GroupByShape,
}

/// The shapes of a predicate list, predicate by predicate.
pub open spec fn predicates_shape(s: Seq<SqlFragment>) -> Seq<Seq<AtomShape>> {
    s.map_values(|p: SqlFragment| p.shape())
}

impl SelectClause {
    pub open spec fn shape(self) -> SelectShape {
        match self {
            SelectClause::DefaultSelection => SelectShape::DefaultSelection,
            SelectClause::Expression(f, t) => SelectShape::Expression(f.shape(), t),
        }
    }
}

impl FromClause {
    pub open spec fn shape(self) -> FromShape {
        match self {
            FromClause::NoFrom => FromShape::NoFrom,
            FromClause::Table(f) => FromShape::Table(f.shape()),
        }
    }
}

impl DistinctClause {
    pub open spec fn shape(self) -> DistinctShape {
        match self {
            DistinctClause::NoDistinct => DistinctShape::NoDistinct,
            DistinctClause::Distinct => DistinctShape::Distinct,
            DistinctClause::DistinctOn(f) => DistinctShape::DistinctOn(f.shape()),
        }
    }
}

impl WhereClause {
    pub open spec fn shape(self) -> WhereShape {
        match self {
            WhereClause::NoWhere => WhereShape::NoWhere,
            WhereClause::Predicates(ps) => WhereShape::Predicates(predicates_shape(ps@)),
        }
    }
}

impl OrderClause {
    pub open spec fn shape(self) -> OrderShape {
        match self {
            OrderClause::NoOrder => OrderShape::NoOrder,
            OrderClause::OrderBy(f) => OrderShape::OrderBy(f.shape()),
        }
    }
}

impl GroupByClause {
    pub open spec fn shape(self) -> GroupByShape {
        match self {
            GroupByClause::NoGroupBy => GroupByShape::NoGroupBy,
            GroupByClause::GroupBy(f) => GroupByShape::GroupBy(f.shape()),
        }
    }
}

impl SelectStatement {
    /// The statement's shape: slot variants and SQL text, values erased.
    pub open spec fn shape(self) -> StatementShape {
        StatementShape {
            select: self.select.shape(),
            from: self.from.shape(),
            distinct: self.distinct.shape(),
            where_clause: self.where_clause.shape(),
            order: self.order.shape(),
            has_limit: self.limit is Limit,
            has_offset: self.offset is Offset,
            group_by: self.group_by.shape(),
        }
    }
}

/// Whether an atom retains no bound value.
pub open spec fn atom_erased(a: SqlAtom) -> bool {
    a matches SqlAtom::Bind(v) ==> v@ == Seq::<char>::empty()
}

/// Whether a fragment retains no bound value.
pub open spec fn fragment_erased(f: SqlFragment) -> bool {
    forall|i: int| 0 <= i < f.atoms@.len() ==> atom_erased(#[trigger] f.atoms@[i])
}

/// Whether a statement retains no slot value: every bound parameter is
/// erased and the row-count bounds are zeroed.  Such a statement is the
/// canonical representative of its shape class.
pub open spec fn statement_erased(s: SelectStatement) -> bool {
    &&& (s.select matches SelectClause::Expression(f, _) ==> fragment_erased(f))
    &&& (s.from matches FromClause::Table(f) ==> fragment_erased(f))
    &&& (s.distinct matches DistinctClause::DistinctOn(f) ==> fragment_erased(f))
    &&& (s.where_clause matches WhereClause::Predicates(ps) ==> forall|i: int|
        0 <= i < ps@.len() ==> fragment_erased(#[trigger] ps@[i]))
    &&& (s.order matches OrderClause::OrderBy(f) ==> fragment_erased(f))
    &&& (s.group_by matches GroupByClause::GroupBy(f) ==> fragment_erased(f))
    &&& (s.limit matches LimitClause::Limit(n) ==> n == 0)
    &&& (s.offset matches OffsetClause::Offset(n) ==> n == 0)
}

/// A statement's fingerprint: the canonical (value-erased) statement of
/// its shape class.  Fingerprints are compared with
/// [`QueryId::same_as`], which decides exactly shape equality.
#[derive(Debug, Clone, PartialEq)]
pub struct QueryId {
    pub canonical: SelectStatement,
}

/// A copy of `f` with every bound value dropped, same shape.
fn erased_fragment(f: &SqlFragment) -> (r: SqlFragment)
    ensures
        r.shape() == f.shape(),
        fragment_erased(r),
{
    let mut atoms: Vec<SqlAtom> = Vec::new();
    let mut i: usize = 0;
    while i < f.atoms.len()
        invariant
            i <= f.atoms.len(),
            atoms_shape(atoms@) == atoms_shape(f.atoms@.take(i as int)),
            forall|j: int| 0 <= j < atoms@.len() ==> atom_erased(#[trigger] atoms@[j]),
        decreases f.atoms.len() - i,
    {
        let ghost before = atoms@;
        let a = match &f.atoms[i] {
            SqlAtom::Sql(s) => SqlAtom::Sql(s.clone()),
            SqlAtom::Bind(_) => SqlAtom::Bind(String::new()),
        };
        let ghost ga = a;
        atoms.push(a);
        proof {
            crate::fragment::lemma_atoms_shape_push(before, ga);
            assert(f.atoms@.take(i as int + 1) =~= f.atoms@.take(i as int).push(
                f.atoms@[i as int],
            ));
            crate::fragment::lemma_atoms_shape_push(f.atoms@.take(i as int), f.atoms@[i as int]);
            assert(ga.shape() == f.atoms@[i as int].shape());
        }
        i += 1;
    }
    proof {
        assert(f.atoms@.take(f.atoms@.len() as int) =~= f.atoms@);
    }
    SqlFragment { atoms }
}

/// Copies of the predicates with every bound value dropped, same shapes.
fn erased_predicates(ps: &Vec<SqlFragment>) -> (r: Vec<SqlFragment>)
    ensures
        predicates_shape(r@) == predicates_shape(ps@),
        r@.len() == ps@.len(),
        forall|i: int| 0 <= i < r@.len() ==> fragment_erased(#[trigger] r@[i]),
{
    let mut out: Vec<SqlFragment> = Vec::new();
    let mut i: usize = 0;
    while i < ps.len()
        invariant
            i <= ps.len(),
            out@.len() == i,
            predicates_shape(out@) == predicates_shape(ps@.take(i as int)),
            forall|j: int| 0 <= j < out@.len() ==> fragment_erased(#[trigger] out@[j]),
        decreases ps.len() - i,
    {
        let ghost before = out@;
        let g = erased_fragment(&ps[i]);
        let ghost gg = g;
        out.push(g);
        proof {
            assert(predicates_shape(before.push(gg)) =~= predicates_shape(before).push(gg.shape()));
            assert(ps@.take(i as int + 1) =~= ps@.take(i as int).push(ps@[i as int]));
            assert(predicates_shape(ps@.take(i as int).push(ps@[i as int])) =~= predicates_shape(
                ps@.take(i as int),
            ).push(ps@[i as int].shape()));
        }
        i += 1;
    }
    proof {
        assert(ps@.take(ps@.len() as int) =~= ps@);
    }
    out
}

impl SelectStatement {
    /// The statement's fingerprint: equal for any two statements of the
    /// same shape, whatever values their slots hold, and distinct (under
    /// [`QueryId::same_as`]) for statements of different shapes.
    pub fn query_id(&self) -> (r: QueryId)
        ensures
            r.canonical.shape() == self.shape(),
            statement_erased(r.canonical),
    {
        let select = match &self.select {
            SelectClause::DefaultSelection => SelectClause::DefaultSelection,
            SelectClause::Expression(f, t) => SelectClause::Expression(erased_fragment(f), *t),
        };
        let from = match &self.from {
            FromClause::NoFrom => FromClause::NoFrom,
            FromClause::Table(f) => FromClause::Table(erased_fragment(f)),
        };
        let distinct = match &self.distinct {
            DistinctClause::NoDistinct => DistinctClause::NoDistinct,
            DistinctClause::Distinct => DistinctClause::Distinct,
            DistinctClause::DistinctOn(f) => DistinctClause::DistinctOn(erased_fragment(f)),
        };
        let where_clause = match &self.where_clause {
            WhereClause::NoWhere => WhereClause::NoWhere,
            WhereClause::Predicates(ps) => WhereClause::Predicates(erased_predicates(ps)),
        };
        let order = match &self.order {
            OrderClause::NoOrder => OrderClause::NoOrder,
            OrderClause::OrderBy(f) => OrderClause::OrderBy(erased_fragment(f)),
        };
        let limit = match &self.limit {
            LimitClause::NoLimit => LimitClause::NoLimit,
            LimitClause::Limit(_) => LimitClause::Limit(0),
        };
        let offset = match &self.offset {
            OffsetClause::NoOffset => OffsetClause::NoOffset,
            OffsetClause::Offset(_) => OffsetClause::Offset(0),
        };
        let group_by = match &self.group_by {
            GroupByClause::NoGroupBy => GroupByClause::NoGroupBy,
            GroupByClause::GroupBy(f) => GroupByClause::GroupBy(erased_fragment(f)),
        };
        QueryId {
            canonical: SelectStatement {
                select,
                from,
                distinct,
                where_clause,
                order,
                limit,
                offset,
                group_by,
            },
        }
    }
}

/// Whether two atoms have the same shape.
fn atom_same_shape(a: &SqlAtom, b: &SqlAtom) -> (r: bool)
    ensures
        r == (a.shape() == b.shape()),
{
    match (a, b) {
        (SqlAtom::Sql(x), SqlAtom::Sql(y)) => *x == *y,
        (SqlAtom::Bind(_), SqlAtom::Bind(_)) => true,
        _ => false,
    }
}

/// Whether two atom vectors have the same shape.
fn atoms_same_shape(a: &Vec<SqlAtom>, b: &Vec<SqlAtom>) -> (r: bool)
    ensures
        r == (atoms_shape(a@) == atoms_shape(b@)),
{
    if a.len() != b.len() {
        proof {
            assert(atoms_shape(a@).len() == a@.len());
            assert(atoms_shape(b@).len() == b@.len());
        }
        return false;
    }
    let mut i: usize = 0;
    while i < a.len()
        invariant
            a@.len() == b@.len(),
            i <= a@.len(),
            forall|j: int| 0 <= j < i ==> atoms_shape(a@)[j] == atoms_shape(b@)[j],
        decreases a@.len() - i,
    {
        let same = atom_same_shape(&a[i], &b[i]);
        proof {
            assert(atoms_shape(a@)[i as int] == a@[i as int].shape());
            assert(atoms_shape(b@)[i as int] == b@[i as int].shape());
        }
        if !same {
            return false;
        }
        i += 1;
    }
    proof {
        assert(atoms_shape(a@) =~= atoms_shape(b@));
    }
    true
}

/// Whether two predicate lists have the same shapes, pairwise.
fn fragments_same_shape(a: &Vec<SqlFragment>, b: &Vec<SqlFragment>) -> (r: bool)
    ensures
        r == (predicates_shape(a@) == predicates_shape(b@)),
{
    if a.len() != b.len() {
        proof {
            assert(predicates_shape(a@).len() == a@.len());
            assert(predicates_shape(b@).len() == b@.len());
        }
        return false;
    }
    let mut i: usize = 0;
    while i < a.len()
        invariant
            a@.len() == b@.len(),
            i <= a@.len(),
            forall|j: int| 0 <= j < i ==> predicates_shape(a@)[j] == predicates_shape(b@)[j],
        decreases a@.len() - i,
    {
        proof {
            assert(predicates_shape(a@)[i as int] == a@[i as int].shape());
            assert(predicates_shape(b@)[i as int] == b@[i as int].shape());
        }
        if !atoms_same_shape(&a[i].atoms, &b[i].atoms) {
            return false;
        }
        i += 1;
    }
    proof {
        assert(predicates_shape(a@) =~= predicates_shape(b@));
    }
    true
}

impl QueryId {
    /// Whether two fingerprints identify the same statement shape.
    pub fn same_as(&self, other: &QueryId) -> (r: bool)
        ensures
            r == (self.canonical.shape() == other.canonical.shape()),
    {
        let a = &self.canonical;
        let b = &other.canonical;
        let select_eq = match (&a.select, &b.select) {
            (SelectClause::DefaultSelection, SelectClause::DefaultSelection) => true,
            (SelectClause::Expression(f1, t1), SelectClause::Expression(f2, t2)) => {
                atoms_same_shape(&f1.atoms, &f2.atoms) && *t1 == *t2
            },
            _ => false,
        };
        assert(select_eq == (a.select.shape() == b.select.shape()));
        let from_eq = match (&a.from, &b.from) {
            (FromClause::NoFrom, FromClause::NoFrom) => true,
            (FromClause::Table(f1), FromClause::Table(f2)) => {
                atoms_same_shape(&f1.atoms, &f2.atoms)
            },
            _ => false,
        };
        assert(from_eq == (a.from.shape() == b.from.shape()));
        let distinct_eq = match (&a.distinct, &b.distinct) {
            (DistinctClause::NoDistinct, DistinctClause::NoDistinct) => true,
            (DistinctClause::Distinct, DistinctClause::Distinct) => true,
            (DistinctClause::DistinctOn(f1), DistinctClause::DistinctOn(f2)) => {
                atoms_same_shape(&f1.atoms, &f2.atoms)
            },
            _ => false,
        };
        assert(distinct_eq == (a.distinct.shape() == b.distinct.shape()));
        let where_eq = match (&a.where_clause, &b.where_clause) {
            (WhereClause::NoWhere, WhereClause::NoWhere) => true,
            (WhereClause::Predicates(p1), WhereClause::Predicates(p2)) => {
                fragments_same_shape(p1, p2)
            },
            _ => false,
        };
        assert(where_eq == (a.where_clause.shape() == b.where_clause.shape()));
        let order_eq = match (&a.order, &b.order) {
            (OrderClause::NoOrder, OrderClause::NoOrder) => true,
            (OrderClause::OrderBy(f1), OrderClause::OrderBy(f2)) => {
                atoms_same_shape(&f1.atoms, &f2.atoms)
            },
            _ => false,
        };
        assert(order_eq == (a.order.shape() == b.order.shape()));
        let group_eq = match (&a.group_by, &b.group_by) {
            (GroupByClause::NoGroupBy, GroupByClause::NoGroupBy) => true,
            (GroupByClause::GroupBy(f1), GroupByClause::GroupBy(f2)) => {
                atoms_same_shape(&f1.atoms, &f2.atoms)
            },
            _ => false,
        };
        assert(group_eq == (a.group_by.shape() == b.group_by.shape()));
        let limit_eq = match (&a.limit, &b.limit) {
            (LimitClause::NoLimit, LimitClause::NoLimit) => true,
            (LimitClause::Limit(_), LimitClause::Limit(_)) => true,
            _ => false,
        };
        let offset_eq = match (&a.offset, &b.offset) {
            (OffsetClause::NoOffset, OffsetClause::NoOffset) => true,
            (OffsetClause::Offset(_), OffsetClause::Offset(_)) => true,
            _ => false,
        };
        let r = select_eq && from_eq && distinct_eq && where_eq && order_eq && group_eq && limit_eq
            && offset_eq;
        proof {
            if r {
                assert(a.shape() == b.shape());
            }
        }
        r
    }
}

/// A fingerprint's identity is exactly its statement's shape: two
/// statements fingerprint alike when their shapes are equal — whatever
/// values their slots hold — and differently when their shapes are not.
pub proof fn lemma_query_id_respects_shape(
    a: SelectStatement,
    b: SelectStatement,
    ia: QueryId,
    ib: QueryId,
)
    requires
        ia.canonical.shape() == a.shape(),
        ib.canonical.shape() == b.shape(),
    ensures
        (ia.canonical.shape() == ib.canonical.shape()) <==> (a.shape() == b.shape()),
{
}

} // verus!
