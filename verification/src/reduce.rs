//! Reindexing of the reduced data.  The radial average is lag-major: one
//! row per time lag, one entry per radial bin.  Its transpose is bin-major:
//! intensity against lag at a fixed spatial frequency.  The scalar type is
//! left generic; the numeric runtime supplies the values.

use vstd::prelude::*;

verus! {

/// `m` is a `rows`×`cols` table: `rows` rows of `cols` entries each.
pub open spec fn is_grid<T>(m: Seq<Seq<T>>, rows: nat, cols: nat) -> bool {
    &&& m.len() == rows
    &&& forall|i: int| 0 <= i < rows ==> (#[trigger] m[i]).len() == cols
}

/// The transpose of a `rows`×`cols` table: entry `(j, i)` of the result
/// is entry `(i, j)` of `m`.
pub open spec fn transpose_spec<T>(m: Seq<Seq<T>>, rows: nat, cols: nat) -> Seq<Seq<T>> {
    Seq::new(cols, |j: int| Seq::new(rows, |i: int| m[i][j]))
}

/// The sequence of row views of a vector of rows.
pub open spec fn rows_view<T>(m: Seq<Vec<T>>) -> Seq<Seq<T>> {
    Seq::new(m.len(), |i: int| m[i]@)
}

/// Transposing twice gives the original table back, for every rectangular
/// table of every size.
pub proof fn lemma_transpose_involution<T>(m: Seq<Seq<T>>, rows: nat, cols: nat)
    requires
        is_grid(m, rows, cols),
    ensures
        transpose_spec(transpose_spec(m, rows, cols), cols, rows) =~~= m,
{
    let t1 = transpose_spec(m, rows, cols);
    let t2 = transpose_spec(t1, cols, rows);
    assert forall|i: int| 0 <= i < rows implies t2[i] =~= m[i] by {
        assert forall|j: int| 0 <= j < cols implies t2[i][j] == m[i][j] by {
            assert(t2[i][j] == t1[j][i]);
        }
    }
}

/// Reindexes a non-empty rectangular lag-major table into the bin-major
/// orientation.
pub fn transpose<T: Copy>(m: &Vec<Vec<T>>) -> (t: Vec<Vec<T>>)
    requires
        m@.len() >= 1,
        is_grid(rows_view(m@), m@.len() as nat, m@[0]@.len() as nat),
    ensures
        t@.len() == m@[0]@.len(),
        rows_view(t@) =~~= transpose_spec(rows_view(m@), m@.len() as nat, m@[0]@.len() as nat),
{
    let rows = m.len();
    let cols = m[0].len();
    let mut t: Vec<Vec<T>> = Vec::new();
    let mut j: usize = 0;
    while j < cols
        invariant
            j <= cols,
            rows == m@.len(),
            rows >= 1,
            cols == m@[0]@.len(),
            is_grid(rows_view(m@), rows as nat, cols as nat),
            t@.len() == j,
            forall|jj: int|
                0 <= jj < j ==> (#[trigger] t@[jj])@ =~= Seq::new(
                    rows as nat,
                    |i: int| m@[i]@[jj],
                ),
        decreases cols - j,
    {
        let mut row: Vec<T> = Vec::new();
        let mut i: usize = 0;
        while i < rows
            invariant
                i <= rows,
                j < cols,
                rows == m@.len(),
                cols == m@[0]@.len(),
                is_grid(rows_view(m@), rows as nat, cols as nat),
                row@.len() == i,
                forall|ii: int| 0 <= ii < i ==> row@[ii] == m@[ii]@[j as int],
            decreases rows - i,
        {
            proof {
                assert(rows_view(m@)[i as int] == m@[i as int]@);
            }
            let v = &m[i];
            row.push(v[j]);
            i = i + 1;
        }
        t.push(row);
        proof {
            assert(row@ =~= Seq::new(rows as nat, |ii: int| m@[ii]@[j as int]));
        }
        j = j + 1;
    }
    proof {
        let mv = rows_view(m@);
        let tv = rows_view(t@);
        let ts = transpose_spec(mv, rows as nat, cols as nat);
        assert forall|jj: int| 0 <= jj < cols implies tv[jj] =~= ts[jj] by {
            assert(tv[jj] == t@[jj]@);
            assert forall|ii: int| 0 <= ii < rows implies t@[jj]@[ii] == ts[jj][ii] by {
                assert(t@[jj]@[ii] == m@[ii]@[jj]);
                assert(ts[jj][ii] == mv[ii][jj]);
            }
        }
    }
    t
}

} // verus!
