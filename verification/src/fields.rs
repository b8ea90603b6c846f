//! The field map used to build insert and update statements: a
//! column-name-to-value map with unique columns and a stable order, so that
//! the column list and the bound-value list of one statement are derived
//! from one single consistent iteration.

use vstd::prelude::*;

verus! {

/// A field map is viewed as the sequence of its (column, value) pairs, in
/// the order a statement builder iterates them.
pub struct FieldMap {
    entries: Vec<(String, String)>,
}

/// No column name occurs twice.
pub open spec fn unique_columns(m: Seq<(Seq<char>, Seq<char>)>) -> bool {
    forall|i: int, j: int| 0 <= i < j < m.len() ==> m[i].0 != m[j].0
}

/// The index of the first entry with column `c`, or `-1` if there is none.
pub open spec fn col_index(m: Seq<(Seq<char>, Seq<char>)>, c: Seq<char>) -> int
    decreases m.len(),
{
    if m.len() == 0 {
        -1
    } else if m[0].0 == c {
        0
    } else {
        let r = col_index(m.drop_first(), c);
        if r < 0 {
            -1
        } else {
            1 + r
        }
    }
}

/// Whether some entry has column `c`.
pub open spec fn has_column(m: Seq<(Seq<char>, Seq<char>)>, c: Seq<char>) -> bool {
    col_index(m, c) >= 0
}

/// `col_index` finds the first matching entry: a non-negative result is in
/// range, names column `c`, and nothing before it does; a negative result
/// means no entry does.
pub proof fn lemma_col_index_spec(m: Seq<(Seq<char>, Seq<char>)>, c: Seq<char>)
    ensures
        col_index(m, c) >= 0 ==> 0 <= col_index(m, c) < m.len() && m[col_index(m, c)].0 == c
            && (forall|j: int| 0 <= j < col_index(m, c) ==> m[j].0 != c),
        col_index(m, c) < 0 ==> (forall|j: int| 0 <= j < m.len() ==> m[j].0 != c),
    decreases m.len(),
{
    if m.len() > 0 && m[0].0 != c {
        lemma_col_index_spec(m.drop_first(), c);
        assert forall|j: int| 1 <= j < m.len() implies m[j] == m.drop_first()[j - 1] by {}
    }
}

impl View for FieldMap {
    type V = Seq<(Seq<char>, Seq<char>)>;

    closed spec fn view(&self) -> Seq<(Seq<char>, Seq<char>)> {
        self.entries@.map_values(|e: (String, String)| (e.0@, e.1@))
    }
}

impl FieldMap {
    /// An empty field map.
    pub fn new() -> (m: FieldMap)
        ensures
            m@ == Seq::<(Seq<char>, Seq<char>)>::empty(),
            unique_columns(m@),
    {
        let m = FieldMap { entries: Vec::new() };
        proof {
            assert(m@ =~= Seq::<(Seq<char>, Seq<char>)>::empty());
        }
        m
    }

    /// How many fields the map holds.
    pub fn len(&self) -> (n: usize)
        ensures
            n == self@.len(),
    {
        self.entries.len()
    }

    /// Whether the map holds no field.
    pub fn is_empty(&self) -> (r: bool)
        ensures
            r == (self@.len() == 0),
    {
        self.entries.len() == 0
    }

    /// The column name of the entry at `i`.
    pub fn column_at(&self, i: usize) -> (c: &String)
        requires
            i < self@.len(),
        ensures
            c@ == self@[i as int].0,
    {
        &self.entries[i].0
    }

    /// The value of the entry at `i`.
    pub fn value_at(&self, i: usize) -> (v: &String)
        requires
            i < self@.len(),
        ensures
            v@ == self@[i as int].1,
    {
        &self.entries[i].1
    }

    /// Puts `value` under `column`: replaces the value of the entry already
    /// named `column`, keeping its place, or appends a new entry. Unique
    /// columns stay unique.
    pub fn insert(&mut self, column: String, value: String)
        ensures
            has_column(old(self)@, column@) ==> final(self)@ == old(self)@.update(
                col_index(old(self)@, column@),
                (column@, value@),
            ),
            !has_column(old(self)@, column@) ==> final(self)@ == old(self)@.push(
                (column@, value@),
            ),
            unique_columns(old(self)@) ==> unique_columns(final(self)@),
    {
        let ghost m0 = self@;
        let n = self.entries.len();
        let mut i: usize = 0;
        while i < n
            invariant
                m0 == old(self)@,
                n == m0.len(),
                self@ == m0,
                0 <= i <= n,
                forall|j: int| 0 <= j < i ==> m0[j].0 != column@,
            decreases n - i,
        {
            if self.entries[i].0 == column {
                proof {
                    lemma_col_index_spec(m0, column@);
                    assert(m0[i as int].0 == column@);
                    let k = col_index(m0, column@);
                    if k < 0 {
                        assert(m0[i as int].0 != column@);
                    } else if k < i as int {
                        assert(m0[k].0 != column@);
                    } else if k > i as int {
                        assert(m0[i as int].0 != column@);
                    }
                    assert(k == i as int);
                }
                self.entries[i] = (column, value);
                proof {
                    assert(self@ =~= m0.update(i as int, (column@, value@)));
                    if unique_columns(m0) {
                        assert forall|p: int, q: int| 0 <= p < q < self@.len() implies self@[p].0
                            != self@[q].0 by {
                            assert(m0[i as int].0 == column@);
                            assert(self@[p].0 == m0[p].0);
                            assert(self@[q].0 == m0[q].0);
                        }
                    }
                }
                return ;
            }
            i += 1;
        }
        self.entries.push((column, value));
        proof {
            lemma_col_index_spec(m0, column@);
            assert(self@ =~= m0.push((column@, value@)));
            assert(!has_column(m0, column@));
            if unique_columns(m0) {
                assert forall|p: int, q: int| 0 <= p < q < self@.len() implies self@[p].0
                    != self@[q].0 by {
                    if q == m0.len() {
                        assert(self@[q].0 == column@);
                        assert(self@[p].0 == m0[p].0);
                    }
                }
            }
        }
    }
}

} // verus!
