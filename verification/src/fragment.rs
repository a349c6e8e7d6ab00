//! SQL fragments: the text and bound parameters a clause contributes.
//!
//! A fragment is a sequence of atoms.  An atom is either literal SQL text
//! or a bound parameter; a bound parameter renders as the placeholder `?`
//! in the SQL text while its value is collected out of band, so that
//! literal values never appear inline in the generated statement.

use vstd::prelude::*;
use vstd::string::StringExecFns;

verus! {

/// One atom of a SQL fragment: literal text, or a bound parameter value.
#[derive(Debug, Clone, PartialEq)]
pub enum SqlAtom {
    Sql(String),
    Bind(String),
}

/// The shape of an atom: its literal text, with bound values erased.
/// Two atoms of equal shape differ at most in a bound parameter value.
pub ghost enum AtomShape {
    Sql(Seq<char>),
    Bind,
}

impl SqlAtom {
    /// The SQL text this atom contributes: its literal text, or the
    /// placeholder for a bound parameter.
    pub open spec fn text(self) -> Seq<char> {
        match self {
            SqlAtom::Sql(s) => s@,
            SqlAtom::Bind(_) => "?"@,
        }
    }

    /// The bound parameter values this atom contributes, in order.
    pub open spec fn binds(self) -> Seq<Seq<char>> {
        match self {
            SqlAtom::Sql(_) => Seq::empty(),
            SqlAtom::Bind(v) => seq![v@],
        }
    }

    /// The atom's shape: the bound value, if any, is erased.
    pub open spec fn shape(self) -> AtomShape {
        match self {
            SqlAtom::Sql(s) => AtomShape::Sql(s@),
            SqlAtom::Bind(_) => AtomShape::Bind,
        }
    }
}

/// The SQL text of a sequence of atoms, concatenated in order.
pub open spec fn atoms_text(s: Seq<SqlAtom>) -> Seq<char>
    decreases s.len(),
{
    if s.len() == 0 {
        Seq::empty()
    } else {
        atoms_text(s.drop_last()) + s.last().text()
    }
}

/// The bound parameter values of a sequence of atoms, in order.
pub open spec fn atoms_binds(s: Seq<SqlAtom>) -> Seq<Seq<char>>
    decreases s.len(),
{
    if s.len() == 0 {
        Seq::empty()
    } else {
        atoms_binds(s.drop_last()) + s.last().binds()
    }
}

/// The shapes of a sequence of atoms.
pub open spec fn atoms_shape(s: Seq<SqlAtom>) -> Seq<AtomShape> {
    s.map_values(|a: SqlAtom| a.shape())
}

pub proof fn lemma_atoms_text_push(s: Seq<SqlAtom>, a: SqlAtom)
    ensures
        atoms_text(s.push(a)) == atoms_text(s) + a.text(),
{
    assert(s.push(a).drop_last() =~= s);
    assert(s.push(a).last() == a);
}

pub proof fn lemma_atoms_binds_push(s: Seq<SqlAtom>, a: SqlAtom)
    ensures
        atoms_binds(s.push(a)) == atoms_binds(s) + a.binds(),
{
    assert(s.push(a).drop_last() =~= s);
    assert(s.push(a).last() == a);
}

pub proof fn lemma_atoms_shape_push(s: Seq<SqlAtom>, a: SqlAtom)
    ensures
        atoms_shape(s.push(a)) == atoms_shape(s).push(a.shape()),
{
    assert(atoms_shape(s.push(a)) =~= atoms_shape(s).push(a.shape()));
}

/// A SQL fragment: what one clause hands to the renderer.
#[derive(Debug, Clone, PartialEq)]
pub struct SqlFragment {
    pub atoms: Vec<SqlAtom>,
}

impl SqlFragment {
    /// The SQL text of the whole fragment.
    pub open spec fn text(self) -> Seq<char> {
        atoms_text(self.atoms@)
    }

    /// The bound parameter values of the whole fragment, in order.
    pub open spec fn binds(self) -> Seq<Seq<char>> {
        atoms_binds(self.atoms@)
    }

    /// The fragment's shape: its atoms with bound values erased.
    pub open spec fn shape(self) -> Seq<AtomShape> {
        atoms_shape(self.atoms@)
    }

    /// A fragment with no atoms: empty text, no bound parameters.
    pub fn empty() -> (r: SqlFragment)
        ensures
            r.atoms@ == Seq::<SqlAtom>::empty(),
            r.text() == Seq::<char>::empty(),
            r.binds() == Seq::<Seq<char>>::empty(),
            r.shape() == Seq::<AtomShape>::empty(),
    {
        let r = SqlFragment { atoms: Vec::new() };
        proof {
            assert(r.shape() =~= Seq::<AtomShape>::empty());
        }
        r
    }

    /// A fragment holding the literal SQL text `s` alone.
    pub fn sql(s: &str) -> (r: SqlFragment)
        ensures
            r.text() == s@,
            r.binds() == Seq::<Seq<char>>::empty(),
            r.shape() == seq![AtomShape::Sql(s@)],
    {
        let mut r = SqlFragment::empty();
        r.push_sql(s);
        proof {
            assert(Seq::<char>::empty() + s@ =~= s@);
            assert(Seq::<AtomShape>::empty().push(AtomShape::Sql(s@)) =~= seq![
                AtomShape::Sql(s@),
            ]);
        }
        r
    }

    /// Appends literal SQL text to the fragment.
    pub fn push_sql(&mut self, s: &str)
        ensures
            final(self).text() == old(self).text() + s@,
            final(self).binds() == old(self).binds(),
            final(self).shape() == old(self).shape().push(AtomShape::Sql(s@)),
    {
        let ghost atoms0 = self.atoms@;
        let atom = SqlAtom::Sql(s.to_owned());
        proof {
            lemma_atoms_text_push(atoms0, atom);
            lemma_atoms_binds_push(atoms0, atom);
            lemma_atoms_shape_push(atoms0, atom);
            assert(atoms_binds(atoms0) + atom.binds() =~= atoms_binds(atoms0));
        }
        self.atoms.push(atom);
    }

    /// Appends a bound parameter: the placeholder `?` in the text, the
    /// value `v` in the bound parameter sequence.
    pub fn push_bind(&mut self, v: String)
        ensures
            final(self).text() == old(self).text() + "?"@,
            final(self).binds() == old(self).binds().push(v@),
            final(self).shape() == old(self).shape().push(AtomShape::Bind),
    {
        let ghost atoms0 = self.atoms@;
        let atom = SqlAtom::Bind(v);
        proof {
            lemma_atoms_text_push(atoms0, atom);
            lemma_atoms_binds_push(atoms0, atom);
            lemma_atoms_shape_push(atoms0, atom);
            assert(atoms_binds(atoms0) + atom.binds() =~= atoms_binds(atoms0).push(atom->Bind_0@));
        }
        self.atoms.push(atom);
    }

    /// Appends the fragment's text to `sql` and its bound parameter
    /// values to `binds`, both in order.
    pub fn render_into(&self, sql: &mut String, binds: &mut Vec<String>)
        ensures
            final(sql)@ == old(sql)@ + self.text(),
            string_views(final(binds)@) == string_views(old(binds)@) + self.binds(),
    {
        let ghost sql0 = sql@;
        let ghost binds0 = binds@;
        let mut i: usize = 0;
        while i < self.atoms.len()
            invariant
                i <= self.atoms.len(),
                sql@ == sql0 + atoms_text(self.atoms@.take(i as int)),
                string_views(binds@) == string_views(binds0) + atoms_binds(
                    self.atoms@.take(i as int),
                ),
            decreases self.atoms.len() - i,
        {
            let ghost taken = self.atoms@.take(i as int);
            let ghost atom = self.atoms@[i as int];
            match &self.atoms[i] {
                SqlAtom::Sql(s) => {
                    sql.append(s.as_str());
                },
                SqlAtom::Bind(v) => {
                    sql.append("?");
                    let ghost before = binds@;
                    let value = v.clone();
                    binds.push(value);
                    proof {
                        lemma_string_views_push(before, binds@.last());
                        assert(string_views(binds@) == string_views(before).push(atom->Bind_0@));
                    }
                },
            }
            proof {
                assert(self.atoms@.take(i as int + 1).drop_last() =~= taken);
                assert(self.atoms@.take(i as int + 1).last() == atom);
                assert(sql0 + atoms_text(self.atoms@.take(i as int + 1)) =~= sql0 + atoms_text(
                    taken,
                ) + atom.text());
                assert(string_views(binds0) + atoms_binds(self.atoms@.take(i as int + 1))
                    =~= string_views(binds0) + atoms_binds(taken) + atom.binds());
            }
            i += 1;
        }
        proof {
            assert(self.atoms@.take(self.atoms@.len() as int) =~= self.atoms@);
        }
    }
}

/// The views of a sequence of owned strings.
pub open spec fn string_views(s: Seq<String>) -> Seq<Seq<char>> {
    s.map_values(|x: String| x@)
}

pub proof fn lemma_string_views_push(s: Seq<String>, x: String)
    ensures
        string_views(s.push(x)) == string_views(s).push(x@),
{
    assert(string_views(s.push(x)) =~= string_views(s).push(x@));
}

} // verus!
