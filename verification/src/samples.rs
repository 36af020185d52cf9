//! The matrix of sampled states and the loop over the output times that
//! fills it.

use vstd::prelude::*;

verus! {

/// The sampled trajectory: one column per output time, each column a whole
/// state vector. Every column has the same number of rows.
#[derive(Debug)]
pub struct SampleMatrix<T> {
    rows: usize,
    columns: Vec<Vec<T>>,
}

impl<T> SampleMatrix<T> {
    /// Number of rows: the length of every state vector held.
    pub closed spec fn spec_rows(&self) -> nat {
        self.rows as nat
    }

    /// The columns, in the order of the output times.
    pub closed spec fn spec_columns(&self) -> Seq<Vec<T>> {
        self.columns@
    }

    /// Number of columns.
    pub open spec fn spec_cols(&self) -> nat {
        self.spec_columns().len()
    }

    /// The entry in row `row` of column `col`.
    pub open spec fn spec_entry(&self, row: int, col: int) -> T
        recommends
            0 <= row < self.spec_rows(),
            0 <= col < self.spec_cols(),
    {
        self.spec_columns()[col]@[row]
    }

    /// Every column is as long as the matrix has rows.
    pub open spec fn valid(&self) -> bool {
        forall|c: int|
            0 <= c < self.spec_columns().len() ==> (#[trigger] self.spec_columns()[c]).len()
                == self.spec_rows()
    }

    #[verifier::type_invariant]
    spec fn well_formed(&self) -> bool {
        self.valid()
    }

    /// The matrix whose columns are `columns`. Fails exactly when some column
    /// does not have `rows` entries, and then names the first such column.
    pub fn from_columns(rows: usize, columns: Vec<Vec<T>>) -> (made: Result<Self, usize>)
        ensures
            made matches Ok(matrix) ==> matrix.valid() && matrix.spec_rows() == rows
                && matrix.spec_columns() == columns@,
            made is Ok <==> forall|c: int|
                0 <= c < columns.len() ==> (#[trigger] columns[c]).len() == rows,
            made matches Err(first) ==> first < columns.len() && columns[first as int].len() != rows
                && forall|c: int| 0 <= c < first ==> (#[trigger] columns[c]).len() == rows,
    {
        let mut c: usize = 0;
        while c < columns.len()
            invariant
                c <= columns.len(),
                forall|k: int| 0 <= k < c ==> (#[trigger] columns[k]).len() == rows,
            decreases columns.len() - c,
        {
            if columns[c].len() != rows {
                return Err(c);
            }
            c += 1;
        }
        Ok(SampleMatrix { rows, columns })
    }

    /// Number of rows.
    pub fn rows(&self) -> (count: usize)
        ensures
            count == self.spec_rows(),
    {
        self.rows
    }

    /// Number of columns.
    pub fn cols(&self) -> (count: usize)
        ensures
            count == self.spec_cols(),
            self.valid(),
    {
        proof {
            use_type_invariant(self);
        }
        self.columns.len()
    }

    /// The state sampled at output time `col`, if there is one.
    pub fn column(&self, col: usize) -> (found: Option<&Vec<T>>)
        ensures
            self.valid(),
            found is Some <==> col < self.spec_cols(),
            found matches Some(state) ==> *state == self.spec_columns()[col as int],
    {
        proof {
            use_type_invariant(self);
        }
        if col < self.columns.len() {
            Some(&self.columns[col])
        } else {
            None
        }
    }

    /// The entry in row `row` of column `col`, if the matrix has it.
    pub fn get(&self, row: usize, col: usize) -> (found: Option<&T>)
        ensures
            found is Some <==> row < self.spec_rows() && col < self.spec_cols(),
            found matches Some(entry) ==> *entry == self.spec_entry(row as int, col as int),
    {
        proof {
            use_type_invariant(self);
        }
        if col < self.columns.len() && row < self.rows {
            assert(self.spec_columns()[col as int].len() == self.spec_rows());
            Some(&self.columns[col][row])
        } else {
            None
        }
    }

    /// `buffer` holds the rows `first .. end` row after row: the entry in row
    /// `row` of column `col` stands at `flat_index(row - first, col, cols)`.
    pub open spec fn is_row_block(&self, first: int, end: int, buffer: Seq<T>) -> bool {
        &&& buffer.len() == (end - first) * self.spec_cols()
        &&& forall|row: int, col: int|
            first <= row < end && 0 <= col < self.spec_cols() ==> buffer[flat_index(
                row - first,
                col,
                self.spec_cols() as int,
            )] == #[trigger] self.spec_entry(row, col)
    }

    /// The rows `first .. end` as one flat buffer, row after row. `None`
    /// exactly when `first .. end` is no range of rows of the matrix.
    pub fn row_block(&self, first: usize, end: usize) -> (flat: Option<Vec<T>>) where T: Copy
        ensures
            flat is Some <==> first <= end <= self.spec_rows(),
            flat matches Some(buffer) ==> self.is_row_block(first as int, end as int, buffer@),
    {
        proof {
            use_type_invariant(self);
        }
        if first > end || end > self.rows {
            return None;
        }
        let cols = self.columns.len();
        let mut buffer: Vec<T> = Vec::new();
        let mut row = first;
        while row < end
            invariant
                self.valid(),
                cols == self.spec_cols(),
                end <= self.spec_rows(),
                first <= row <= end,
                buffer.len() == (row - first) * cols,
                forall|r: int, c: int|
                    first <= r < row && 0 <= c < cols ==> buffer[flat_index(
                        r - first,
                        c,
                        cols as int,
                    )] == #[trigger] self.spec_entry(r, c),
            decreases end - row,
        {
            let mut col: usize = 0;
            while col < cols
                invariant
                    self.valid(),
                    cols == self.spec_cols(),
                    end <= self.spec_rows(),
                    first <= row < end,
                    col <= cols,
                    buffer.len() == (row - first) * cols + col,
                    forall|r: int, c: int|
                        first <= r < row && 0 <= c < cols ==> buffer[flat_index(
                            r - first,
                            c,
                            cols as int,
                        )] == #[trigger] self.spec_entry(r, c),
                    forall|c: int|
                        0 <= c < col ==> buffer[flat_index(row - first, c, cols as int)]
                            == #[trigger] self.spec_entry(row as int, c),
                decreases cols - col,
            {
                assert(self.spec_columns()[col as int].len() == self.spec_rows());
                let ghost before = buffer@;
                buffer.push(self.columns[col][row]);
                proof {
                    assert forall|r: int, c: int| first <= r < row && 0 <= c < cols implies buffer[flat_index(
                        r - first,
                        c,
                        cols as int,
                    )] == #[trigger] self.spec_entry(r, c) by {
                        lemma_flat_index_below(r - first, c, row - first, cols as int);
                        assert(buffer[flat_index(r - first, c, cols as int)] == before[flat_index(
                            r - first,
                            c,
                            cols as int,
                        )]);
                    }
                }
                col += 1;
            }
            proof {
                assert((row - first) * cols + cols == (row + 1 - first) * cols) by (nonlinear_arith);
            }
            row += 1;
        }
        Some(buffer)
    }
}

/// Position of the entry in row `row` and column `col` of a matrix with
/// `cols` columns that is laid out row after row.
pub open spec fn flat_index(row: int, col: int, cols: int) -> int {
    row * cols + col
}

/// In a row-major layout every entry of an earlier row stands before the
/// first entry of a later row.
pub proof fn lemma_flat_index_below(row: int, col: int, later: int, cols: int)
    requires
        0 <= row < later,
        0 <= col < cols,
    ensures
        0 <= flat_index(row, col, cols) < flat_index(later, 0, cols),
{
    assert(row * cols >= 0) by (nonlinear_arith)
        requires
            row >= 0,
            cols >= 0,
    ;
    assert((row + 1) * cols <= later * cols) by (nonlinear_arith)
        requires
            row + 1 <= later,
            cols >= 0,
    ;
    assert((row + 1) * cols == row * cols + cols) by (nonlinear_arith);
}

/// The row block of a matrix with a single column is the part of that column
/// in the same rows: with one output time, the rows of the temperature are
/// the temperature part of the sampled state, and likewise for the head.
pub proof fn lemma_row_block_of_single_column<T>(
    matrix: SampleMatrix<T>,
    first: int,
    end: int,
    buffer: Seq<T>,
)
    requires
        matrix.valid(),
        matrix.spec_cols() == 1,
        0 <= first <= end <= matrix.spec_rows(),
        matrix.is_row_block(first, end, buffer),
    ensures
        buffer == matrix.spec_columns()[0]@.subrange(first, end),
{
    let column = matrix.spec_columns()[0]@;
    assert(column.len() == matrix.spec_rows());
    assert forall|i: int| 0 <= i < end - first implies buffer[i] == column.subrange(first, end)[i] by {
        assert(flat_index(i, 0, 1) == i);
        assert(buffer[flat_index((first + i) - first, 0, 1)] == matrix.spec_entry(first + i, 0));
    }
    assert(buffer =~= column.subrange(first, end));
}

/// Why a run over the output times stopped early.
#[derive(Debug)]
pub enum RunError<E> {
    /// The integrator reported `error` on the way to output time `column`.
    Integrator { column: usize, error: E },
    /// The integrator returned, for output time `column`, a state whose
    /// length differs from that of the initial state.
    StateLength { column: usize },
}

/// The time from which the integrator sets out towards output time `i`: the
/// start time for the first output, the previous output time after that.
pub open spec fn prior_time<Time>(start: Time, times: Seq<Time>, i: int) -> Time {
    if i == 0 {
        start
    } else {
        times[i - 1]
    }
}

/// The state from which the integrator sets out towards output time `i`: the
/// initial state for the first output, the previous sample after that.
pub open spec fn prior_state<T>(initial: Vec<T>, columns: Seq<Vec<T>>, i: int) -> Vec<T> {
    if i == 0 {
        initial
    } else {
        columns[i - 1]
    }
}

/// `columns` are the samples of the first `columns.len()` output times: each
/// is as long as the initial state and is a result of `advance` from the
/// prior time and state to its own output time.
pub open spec fn sampled<T, Time, E, A: Fn(Time, Time, &Vec<T>) -> Result<Vec<T>, E>>(
    advance: A,
    initial: Vec<T>,
    start: Time,
    times: Seq<Time>,
    columns: Seq<Vec<T>>,
) -> bool {
    &&& columns.len() <= times.len()
    &&& forall|i: int|
        0 <= i < columns.len() ==> {
            &&& (#[trigger] columns[i]).len() == initial.len()
            &&& call_ensures(
                advance,
                (prior_time(start, times, i), times[i], &prior_state(initial, columns, i)),
                Ok::<Vec<T>, E>(columns[i]),
            )
        }
}

/// After the samples `done`, the call of `advance` towards the next output
/// time returned `last`.
pub open spec fn stopped<T, Time, E, A: Fn(Time, Time, &Vec<T>) -> Result<Vec<T>, E>>(
    advance: A,
    initial: Vec<T>,
    start: Time,
    times: Seq<Time>,
    done: Seq<Vec<T>>,
    last: Result<Vec<T>, E>,
) -> bool {
    &&& done.len() < times.len()
    &&& sampled(advance, initial, start, times, done)
    &&& call_ensures(
        advance,
        (
            prior_time(start, times, done.len() as int),
            times[done.len() as int],
            &prior_state(initial, done, done.len() as int),
        ),
        last,
    )
}

/// Advances the state from one output time to the next, in the order given,
/// and collects the state reached at each output time as a column.
///
/// `advance(from, to, state)` integrates `state` from time `from` to time
/// `to`. The first call sets out from `start` and `initial`, each later call
/// from the previous output time and the previous sample. The run stops at
/// the first output time for which `advance` fails or returns a state of
/// another length than `initial`.
pub fn run_to_samples<T, Time: Copy, E, A: Fn(Time, Time, &Vec<T>) -> Result<Vec<T>, E>>(
    advance: A,
    initial: Vec<T>,
    start: Time,
    times: &[Time],
) -> (out: Result<SampleMatrix<T>, RunError<E>>)
    requires
        forall|i: int, state: Vec<T>|
            0 <= i < times.len() && state.len() == initial.len() ==> #[trigger] call_requires(
                advance,
                (prior_time(start, times@, i), times[i], &state),
            ),
    ensures
        out matches Ok(matrix) ==> {
            &&& matrix.valid()
            &&& matrix.spec_rows() == initial.len()
            &&& matrix.spec_cols() == times.len()
            &&& sampled(advance, initial, start, times@, matrix.spec_columns())
        },
        out matches Err(RunError::Integrator { column, error }) ==> exists|done: Seq<Vec<T>>|
            done.len() == column && #[trigger] stopped(
                advance,
                initial,
                start,
                times@,
                done,
                Err::<Vec<T>, E>(error),
            ),
        out matches Err(RunError::StateLength { column }) ==> exists|
            done: Seq<Vec<T>>,
            state: Vec<T>,
        |
            done.len() == column && state.len() != initial.len() && #[trigger] stopped(
                advance,
                initial,
                start,
                times@,
                done,
                Ok::<Vec<T>, E>(state),
            ),
{
    let rows = initial.len();
    let mut columns: Vec<Vec<T>> = Vec::new();
    let mut i: usize = 0;
    while i < times.len()
        invariant
            i == columns.len(),
            i <= times.len(),
            rows == initial.len(),
            sampled(advance, initial, start, times@, columns@),
            forall|k: int, state: Vec<T>|
                0 <= k < times.len() && state.len() == initial.len() ==> #[trigger] call_requires(
                    advance,
                    (prior_time(start, times@, k), times[k], &state),
                ),
        decreases times.len() - i,
    {
        let from = if i == 0 {
            start
        } else {
            times[i - 1]
        };
        assert(from == prior_time(start, times@, i as int));
        let reached = if i == 0 {
            advance(from, times[i], &initial)
        } else {
            assert(columns@[i - 1].len() == initial.len());
            advance(from, times[i], &columns[i - 1])
        };
        match reached {
            Ok(state) => {
                if state.len() != rows {
                    assert(stopped(
                        advance,
                        initial,
                        start,
                        times@,
                        columns@,
                        Ok::<Vec<T>, E>(state),
                    ));
                    return Err(RunError::StateLength { column: i });
                }
                let ghost before = columns@;
                columns.push(state);
                assert forall|k: int| 0 <= k < columns@.len() implies {
                    &&& (#[trigger] columns@[k]).len() == initial.len()
                    &&& call_ensures(
                        advance,
                        (
                            prior_time(start, times@, k),
                            times@[k],
                            &prior_state(initial, columns@, k),
                        ),
                        Ok::<Vec<T>, E>(columns@[k]),
                    )
                } by {
                    if k < i {
                        assert(columns@[k] == before[k]);
                        assert(prior_state(initial, columns@, k) == prior_state(initial, before, k));
                    }
                }
            },
            Err(error) => {
                let out = Err(RunError::Integrator { column: i, error });
                assert(out matches Err(RunError::Integrator { column, error }) && stopped(
                    advance,
                    initial,
                    start,
                    times@,
                    columns@,
                    Err::<Vec<T>, E>(error),
                ));
                return out;
            },
        }
        i += 1;
    }
    Ok(SampleMatrix { rows, columns })
}

} // verus!
