//! Transposition and row-major flattening of matrices held as rows.
use vstd::prelude::*;

verus! {

/// The rows of a matrix as sequences.
pub open spec fn rows_view<T>(m: Seq<Vec<T>>) -> Seq<Seq<T>> {
    m.map_values(|row: Vec<T>| row@)
}

/// Whether every row of `m` has `cols` entries.
pub open spec fn is_rectangular<T>(m: Seq<Vec<T>>, cols: nat) -> bool {
    forall|i: int| 0 <= i < m.len() ==> #[trigger] m[i]@.len() == cols
}

/// In the row-major flattening of a matrix whose rows all have `cols`
/// entries, entry `(i, j)` stands at `i * cols + j`.
pub proof fn lemma_flatten_rectangular<T>(rows: Seq<Seq<T>>, cols: nat)
    requires
        forall|i: int| 0 <= i < rows.len() ==> #[trigger] rows[i].len() == cols,
    ensures
        rows.flatten().len() == rows.len() * cols,
        forall|i: int, j: int| 0 <= i < rows.len() && 0 <= j < cols ==>
            #[trigger] rows[i][j] == rows.flatten()[i * cols + j],
    decreases rows.len(),
{
    if rows.len() > 0 {
        let tail = rows.drop_first();
        assert forall|i: int| 0 <= i < tail.len() implies #[trigger] tail[i].len() == cols by {
            assert(0 <= i + 1 < rows.len());
            assert(tail[i] == rows[i + 1]);
        }
        lemma_flatten_rectangular(tail, cols);
        assert(rows.flatten() == rows[0] + tail.flatten());
        assert(rows.len() * cols == cols + tail.len() * cols) by (nonlinear_arith)
            requires
                tail.len() == rows.len() - 1,
        ;
        assert forall|i: int, j: int| 0 <= i < rows.len() && 0 <= j < cols implies
            #[trigger] rows[i][j] == rows.flatten()[i * cols + j] by {
            if i == 0 {
                assert(rows[0].len() == cols);
            } else {
                assert(i * cols + j == cols + ((i - 1) * cols + j)) by (nonlinear_arith);
                assert((i - 1) * cols + j < tail.len() * cols) by (nonlinear_arith)
                    requires
                        0 <= j < cols,
                        1 <= i < rows.len(),
                        tail.len() == rows.len() - 1,
                ;
                assert(0 <= (i - 1) * cols) by (nonlinear_arith)
                    requires
                        i >= 1,
                ;
                assert(0 <= i - 1 < tail.len());
                assert(tail[i - 1] == rows[i]);
                assert(tail[i - 1][j] == tail.flatten()[(i - 1) * cols + j]);
            }
        }
    }
}

/// The transpose of a rectangular matrix: row `i` of the result is column
/// `i` of the argument.
pub fn transpose<T: Copy>(matrix: Vec<Vec<T>>) -> (t: Vec<Vec<T>>)
    requires
        matrix.len() > 0,
        is_rectangular(matrix@, matrix[0]@.len()),
    ensures
        t.len() == matrix[0]@.len(),
        is_rectangular(t@, matrix.len() as nat),
        forall|i: int, j: int| 0 <= i < t.len() && 0 <= j < matrix.len() ==>
            #[trigger] t[i]@[j] == matrix[j]@[i],
{
    let num_rows = matrix.len();
    let num_cols = matrix[0].len();
    let mut t: Vec<Vec<T>> = Vec::with_capacity(num_cols);
    let mut i: usize = 0;
    while i < num_cols
        invariant
            i <= num_cols,
            num_rows == matrix.len(),
            num_cols == matrix[0]@.len(),
            is_rectangular(matrix@, num_cols as nat),
            t.len() == i,
            is_rectangular(t@, num_rows as nat),
            forall|a: int, b: int| 0 <= a < i && 0 <= b < num_rows ==>
                #[trigger] t[a]@[b] == matrix[b]@[a],
        decreases num_cols - i,
    {
        let mut row: Vec<T> = Vec::with_capacity(num_rows);
        let mut j: usize = 0;
        while j < num_rows
            invariant
                j <= num_rows,
                i < num_cols,
                num_rows == matrix.len(),
                is_rectangular(matrix@, num_cols as nat),
                row.len() == j,
                forall|b: int| 0 <= b < j ==> #[trigger] row@[b] == matrix[b]@[i as int],
            decreases num_rows - j,
        {
            assert(matrix[j as int]@.len() == num_cols);
            row.push(matrix[j][i]);
            j += 1;
        }
        t.push(row);
        i += 1;
    }
    t
}

/// The entries of `matrix`, row after row.
pub fn flatten_rows<T: Copy>(matrix: Vec<Vec<T>>) -> (r: Vec<T>)
    ensures
        r@ == rows_view(matrix@).flatten(),
{
    let mut r: Vec<T> = Vec::new();
    let mut i: usize = 0;
    while i < matrix.len()
        invariant
            i <= matrix.len(),
            r@ == rows_view(matrix@.take(i as int)).flatten(),
        decreases matrix.len() - i,
    {
        let row = &matrix[i];
        let ghost before = r@;
        let mut j: usize = 0;
        while j < row.len()
            invariant
                j <= row.len(),
                r@ == before + row@.take(j as int),
            decreases row.len() - j,
        {
            r.push(row[j]);
            j += 1;
            assert(r@ =~= before + row@.take(j as int));
        }
        proof {
            let done = rows_view(matrix@.take(i as int));
            assert(rows_view(matrix@.take(i + 1)) =~= done.push(row@));
            done.lemma_flatten_push(row@);
            assert(row@.take(j as int) =~= row@);
        }
        i += 1;
    }
    assert(matrix@.take(matrix.len() as int) =~= matrix@);
    r
}

/// A frame-major matrix of `rows` frames by `cols` bands laid out band-major
/// in one buffer: entry `(band, frame)` stands at `band * rows + frame`.
pub fn to_band_major<T: Copy>(matrix: Vec<Vec<T>>) -> (r: Vec<T>)
    requires
        matrix.len() > 0,
        is_rectangular(matrix@, matrix[0]@.len()),
    ensures
        r.len() == matrix.len() * matrix[0]@.len(),
        forall|band: int, frame: int| 0 <= band < matrix[0]@.len() && 0 <= frame < matrix.len() ==>
            #[trigger] matrix[frame]@[band] == r@[band * matrix.len() + frame],
{
    let ghost m = matrix@;
    let ghost rows = matrix.len() as nat;
    let ghost cols = matrix[0]@.len();
    let t = transpose(matrix);
    let ghost tv = rows_view(t@);
    let r = flatten_rows(t);
    proof {
        assert forall|i: int| 0 <= i < tv.len() implies #[trigger] tv[i].len() == rows by {
            assert(tv[i] == t@[i]@);
        }
        lemma_flatten_rectangular(tv, rows);
        assert forall|band: int, frame: int| 0 <= band < cols && 0 <= frame < rows implies
            #[trigger] m[frame]@[band] == r@[band * rows + frame] by {
            assert(tv[band][frame] == t@[band]@[frame]);
        }
        assert(cols * rows == rows * cols) by (nonlinear_arith);
    }
    r
}

} // verus!
