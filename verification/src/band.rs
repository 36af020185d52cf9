//! Tridiagonal operators: their storage, their assembly row by row, and the
//! walk over their rows that a matrix-vector product takes.

use crate::grid::Grid;
use crate::stencil::Stencil;
use vstd::prelude::*;

verus! {

/// One of the three diagonals of a tridiagonal matrix.
#[derive(Clone, Copy, Debug, PartialEq, Eq, Structural)]
pub enum Band {
    /// The sub-diagonal: the column of the node before.
    Lower,
    /// The main diagonal: the column of the node itself.
    Diagonal,
    /// The super-diagonal: the column of the node after.
    Upper,
}

/// Why three diagonals do not make a tridiagonal matrix.
#[derive(Clone, Copy, Debug, PartialEq, Eq, Structural)]
pub enum BandError {
    /// The main diagonal is empty.
    EmptyDiagonal,
    /// The sub-diagonal is not one shorter than the main diagonal.
    LowerLength,
    /// The super-diagonal is not one shorter than the main diagonal.
    UpperLength,
}

/// A square matrix whose entries off the three central diagonals are zero,
/// held as those diagonals.
#[derive(Debug)]
pub struct Tridiagonal<T> {
    lower: Vec<T>,
    diagonal: Vec<T>,
    upper: Vec<T>,
}

impl<T> Tridiagonal<T> {
    /// The sub-diagonal: entry `k` stands in row `k + 1`, column `k`.
    pub closed spec fn spec_lower(&self) -> Seq<T> {
        self.lower@
    }

    /// The main diagonal.
    pub closed spec fn spec_diagonal(&self) -> Seq<T> {
        self.diagonal@
    }

    /// The super-diagonal: entry `k` stands in row `k`, column `k + 1`.
    pub closed spec fn spec_upper(&self) -> Seq<T> {
        self.upper@
    }

    /// Number of rows and of columns.
    pub open spec fn spec_dim(&self) -> nat {
        self.spec_diagonal().len()
    }

    /// The matrix has at least one row, and the outer diagonals are one
    /// shorter than the main one.
    pub open spec fn valid(&self) -> bool {
        &&& self.spec_diagonal().len() >= 1
        &&& self.spec_lower().len() + 1 == self.spec_diagonal().len()
        &&& self.spec_upper().len() + 1 == self.spec_diagonal().len()
    }

    #[verifier::type_invariant]
    spec fn well_formed(&self) -> bool {
        self.valid()
    }

    /// The stored entry in row `row` and column `col`; `None` where the
    /// matrix is zero by its shape, and outside the matrix.
    pub open spec fn spec_entry(&self, row: int, col: int) -> Option<T> {
        if !(0 <= row < self.spec_dim() && 0 <= col < self.spec_dim()) {
            None
        } else if col == row {
            Some(self.spec_diagonal()[row])
        } else if col + 1 == row {
            Some(self.spec_lower()[col])
        } else if col == row + 1 {
            Some(self.spec_upper()[row])
        } else {
            None
        }
    }

    /// The matrix with sub-diagonal `lower`, main diagonal `diagonal` and
    /// super-diagonal `upper`. Fails exactly when the main diagonal is empty
    /// or an outer diagonal is not one shorter than it.
    pub fn assemble_from_diagonals(lower: Vec<T>, diagonal: Vec<T>, upper: Vec<T>) -> (made: Result<
        Self,
        BandError,
    >)
        ensures
            made is Ok <==> diagonal.len() >= 1 && lower.len() + 1 == diagonal.len() && upper.len()
                + 1 == diagonal.len(),
            made matches Ok(matrix) ==> {
                &&& matrix.valid()
                &&& matrix.spec_lower() == lower@
                &&& matrix.spec_diagonal() == diagonal@
                &&& matrix.spec_upper() == upper@
            },
            made matches Err(why) ==> {
                &&& why == BandError::EmptyDiagonal <==> diagonal.len() == 0
                &&& why == BandError::LowerLength <==> diagonal.len() >= 1 && lower.len() + 1
                    != diagonal.len()
                &&& why == BandError::UpperLength <==> diagonal.len() >= 1 && lower.len() + 1
                    == diagonal.len()
            },
    {
        if diagonal.len() == 0 {
            Err(BandError::EmptyDiagonal)
        } else if lower.len() != diagonal.len() - 1 {
            Err(BandError::LowerLength)
        } else if upper.len() != diagonal.len() - 1 {
            Err(BandError::UpperLength)
        } else {
            Ok(Tridiagonal { lower, diagonal, upper })
        }
    }

    /// Number of rows and of columns.
    pub fn dim(&self) -> (count: usize)
        ensures
            count == self.spec_dim(),
            self.valid(),
    {
        proof {
            use_type_invariant(self);
        }
        self.diagonal.len()
    }

    /// The stored entry in row `row` and column `col`; `None` where the
    /// matrix is zero by its shape, and outside the matrix.
    pub fn get(&self, row: usize, col: usize) -> (found: Option<&T>)
        ensures
            found is Some <==> self.spec_entry(row as int, col as int) is Some,
            found matches Some(entry) ==> self.spec_entry(row as int, col as int) == Some(*entry),
    {
        proof {
            use_type_invariant(self);
        }
        let dim = self.diagonal.len();
        if row >= dim || col >= dim {
            None
        } else if col == row {
            Some(&self.diagonal[row])
        } else if col + 1 == row {
            Some(&self.lower[col])
        } else if col == row + 1 {
            Some(&self.upper[row])
        } else {
            None
        }
    }

    /// What row `row` holds left of the diagonal, with the entry of `x` that
    /// it multiplies; `None` in the first row.
    pub open spec fn spec_before<X>(&self, x: Seq<X>, row: int) -> Option<(T, X)> {
        if row > 0 {
            Some((self.spec_lower()[row - 1], x[row - 1]))
        } else {
            None
        }
    }

    /// What row `row` holds on the diagonal, with the entry of `x` that it
    /// multiplies.
    pub open spec fn spec_own<X>(&self, x: Seq<X>, row: int) -> (T, X) {
        (self.spec_diagonal()[row], x[row])
    }

    /// What row `row` holds right of the diagonal, with the entry of `x`
    /// that it multiplies; `None` in the last row.
    pub open spec fn spec_after<X>(&self, x: Seq<X>, row: int) -> Option<(T, X)> {
        if row + 1 < self.spec_dim() {
            Some((self.spec_upper()[row], x[row + 1]))
        } else {
            None
        }
    }

    /// The product of the matrix with the vector `x`, where `kernel` forms
    /// each entry of the product from the stored entries of one row, each
    /// paired with the entry of `x` in its column. `None` exactly when `x`
    /// has not one entry per column.
    pub fn mat_vec_with<X: Copy, Y, K: Fn(Option<(T, X)>, (T, X), Option<(T, X)>) -> Y>(
        &self,
        x: &[X],
        kernel: K,
    ) -> (product: Option<Vec<Y>>) where T: Copy
        requires
            x.len() == self.spec_dim() ==> forall|row: int|
                0 <= row < self.spec_dim() ==> call_requires(
                    kernel,
                    (
                        self.spec_before(x@, row),
                        #[trigger] self.spec_own(x@, row),
                        self.spec_after(x@, row),
                    ),
                ),
        ensures
            product is Some <==> x.len() == self.spec_dim(),
            product matches Some(y) ==> {
                &&& y.len() == self.spec_dim()
                &&& forall|row: int|
                    0 <= row < self.spec_dim() ==> call_ensures(
                        kernel,
                        (
                            self.spec_before(x@, row),
                            self.spec_own(x@, row),
                            self.spec_after(x@, row),
                        ),
                        #[trigger] y[row],
                    )
            },
    {
        proof {
            use_type_invariant(self);
        }
        let dim = self.diagonal.len();
        if x.len() != dim {
            return None;
        }
        let mut y: Vec<Y> = Vec::new();
        let mut row: usize = 0;
        while row < dim
            invariant
                self.valid(),
                dim == self.spec_dim(),
                x.len() == dim,
                row <= dim,
                y.len() == row,
                forall|r: int|
                    0 <= r < dim ==> call_requires(
                        kernel,
                        (
                            self.spec_before(x@, r),
                            #[trigger] self.spec_own(x@, r),
                            self.spec_after(x@, r),
                        ),
                    ),
                forall|r: int|
                    0 <= r < row ==> call_ensures(
                        kernel,
                        (self.spec_before(x@, r), self.spec_own(x@, r), self.spec_after(x@, r)),
                        #[trigger] y[r],
                    ),
            decreases dim - row,
        {
            let before = if row > 0 {
                Some((self.lower[row - 1], x[row - 1]))
            } else {
                None
            };
            let after = if row + 1 < dim {
                Some((self.upper[row], x[row + 1]))
            } else {
                None
            };
            let own = (self.diagonal[row], x[row]);
            assert(before == self.spec_before(x@, row as int));
            assert(own == self.spec_own(x@, row as int));
            assert(after == self.spec_after(x@, row as int));
            let entry = kernel(before, own, after);
            y.push(entry);
            row += 1;
        }
        Some(y)
    }
}

/// `matrix` is an operator of a column of `nodes` nodes whose entries are
/// results of `entry`: in the row of every node, the entry on the diagonal,
/// the entry in the column of the node before it where there is one, and the
/// entry in the column of the node after it where there is one.
pub open spec fn assembled<T, Entry: Fn(Stencil, Band) -> T>(
    entry: Entry,
    nodes: int,
    matrix: Tridiagonal<T>,
) -> bool {
    &&& matrix.valid()
    &&& matrix.spec_dim() == nodes
    &&& forall|node: int|
        0 <= node < nodes ==> call_ensures(
            entry,
            (Stencil::at(nodes, node), Band::Diagonal),
            #[trigger] matrix.spec_diagonal()[node],
        )
    &&& forall|node: int|
        1 <= node < nodes ==> call_ensures(
            entry,
            (Stencil::at(nodes, node), Band::Lower),
            #[trigger] matrix.spec_lower()[node - 1],
        )
    &&& forall|node: int|
        0 <= node < nodes - 1 ==> call_ensures(
            entry,
            (Stencil::at(nodes, node), Band::Upper),
            #[trigger] matrix.spec_upper()[node],
        )
}

impl Grid {
    /// The operator of this column whose stored entries `entry` forms, row
    /// by row, from the stencil of the node of the row and the diagonal that
    /// the entry stands on. The first row has no entry on the sub-diagonal,
    /// the last none on the super-diagonal.
    pub fn assemble_operator<T, Entry: Fn(Stencil, Band) -> T>(&self, entry: Entry) -> (matrix:
        Tridiagonal<T>)
        requires
            forall|node: int, band: Band|
                0 <= node < self.spec_nodes() ==> #[trigger] call_requires(
                    entry,
                    (Stencil::at(self.spec_nodes(), node), band),
                ),
        ensures
            assembled(entry, self.spec_nodes(), matrix),
    {
        let nodes = self.nodes();
        let mut lower: Vec<T> = Vec::new();
        let mut diagonal: Vec<T> = Vec::new();
        let mut upper: Vec<T> = Vec::new();
        let mut node: usize = 0;
        while node < nodes
            invariant
                self.valid(),
                nodes == self.spec_nodes(),
                node <= nodes,
                diagonal.len() == node,
                lower.len() == (if node == 0 {
                    0int
                } else {
                    node - 1
                }),
                upper.len() == (if node == nodes {
                    node - 1
                } else {
                    node as int
                }),
                forall|k: int, band: Band|
                    0 <= k < nodes ==> #[trigger] call_requires(
                        entry,
                        (Stencil::at(nodes as int, k), band),
                    ),
                forall|k: int|
                    0 <= k < node ==> call_ensures(
                        entry,
                        (Stencil::at(nodes as int, k), Band::Diagonal),
                        #[trigger] diagonal[k],
                    ),
                forall|k: int|
                    1 <= k < node ==> call_ensures(
                        entry,
                        (Stencil::at(nodes as int, k), Band::Lower),
                        #[trigger] lower[k - 1],
                    ),
                forall|k: int|
                    0 <= k < node && k < nodes - 1 ==> call_ensures(
                        entry,
                        (Stencil::at(nodes as int, k), Band::Upper),
                        #[trigger] upper[k],
                    ),
            decreases nodes - node,
        {
            let stencil = self.stencil(node).unwrap();
            if node > 0 {
                let below = entry(stencil, Band::Lower);
                lower.push(below);
            }
            let own = entry(stencil, Band::Diagonal);
            diagonal.push(own);
            if node + 1 < nodes {
                let above = entry(stencil, Band::Upper);
                upper.push(above);
            }
            node += 1;
        }
        Tridiagonal { lower, diagonal, upper }
    }
}

/// What the kernel of a matrix-vector product is handed for a row are the
/// stored entries of that row, each with the entry of the vector in its
/// column: the entry left of the diagonal with the vector entry before, the
/// diagonal entry with the vector entry of the row, and the entry right of
/// the diagonal with the vector entry after.
pub proof fn lemma_row_pairs<T, X>(matrix: Tridiagonal<T>, x: Seq<X>, row: int)
    requires
        matrix.valid(),
        0 <= row < matrix.spec_dim(),
    ensures
        matrix.spec_before(x, row) == match matrix.spec_entry(row, row - 1) {
            Some(entry) => Some((entry, x[row - 1])),
            None => None,
        },
        matrix.spec_entry(row, row) == Some(matrix.spec_own(x, row).0),
        matrix.spec_own(x, row).1 == x[row],
        matrix.spec_after(x, row) == match matrix.spec_entry(row, row + 1) {
            Some(entry) => Some((entry, x[row + 1])),
            None => None,
        },
{
}

/// A tridiagonal matrix stores an entry exactly where the row and the column
/// lie inside the matrix and differ by at most one.
pub proof fn lemma_band<T>(matrix: Tridiagonal<T>, row: int, col: int)
    requires
        matrix.valid(),
    ensures
        matrix.spec_entry(row, col) is Some <==> 0 <= row < matrix.spec_dim() && 0 <= col
            < matrix.spec_dim() && -1 <= row - col <= 1,
{
}

} // verus!
