//! The boundary indicator matrix, which selects the node that receives the
//! flux of each boundary.

use crate::grid::Grid;
use crate::stencil::{Boundary, BoundaryStencil};
use vstd::prelude::*;

verus! {

/// The entry of the boundary indicator matrix in the row of node `node` and
/// the column of `boundary`: one at the node that receives the flux of that
/// boundary, zero elsewhere.
pub open spec fn spec_indicator(nodes: int, node: int, boundary: Boundary) -> int {
    if node == BoundaryStencil::at(nodes, boundary).node {
        1
    } else {
        0
    }
}

/// The sum of the first `count` entries of the column of `boundary`.
pub open spec fn spec_column_sum(nodes: int, boundary: Boundary, count: nat) -> int
    decreases count,
{
    if count == 0 {
        0
    } else {
        spec_column_sum(nodes, boundary, (count - 1) as nat) + spec_indicator(
            nodes,
            count - 1,
            boundary,
        )
    }
}

impl Grid {
    /// The entry of the indicator matrix for node `node` and `boundary`;
    /// `None` exactly when the grid has no such node.
    pub fn indicator(&self, node: usize, boundary: Boundary) -> (entry: Option<u8>)
        ensures
            entry is Some <==> node < self.spec_nodes(),
            entry matches Some(value) ==> value == spec_indicator(
                self.spec_nodes(),
                node as int,
                boundary,
            ),
    {
        if node >= self.nodes() {
            None
        } else if node == self.boundary_stencil(boundary).node {
            Some(1)
        } else {
            Some(0)
        }
    }

    /// The indicator matrix, one row per node: the entry for the top
    /// boundary, then the entry for the bottom boundary.
    pub fn indicator_matrix(&self) -> (rows: Vec<(u8, u8)>)
        ensures
            rows.len() == self.spec_nodes(),
            forall|node: int|
                0 <= node < rows.len() ==> {
                    &&& (#[trigger] rows[node]).0 == spec_indicator(
                        self.spec_nodes(),
                        node,
                        Boundary::Top,
                    )
                    &&& rows[node].1 == spec_indicator(self.spec_nodes(), node, Boundary::Bottom)
                },
    {
        let nodes = self.nodes();
        let mut rows: Vec<(u8, u8)> = Vec::new();
        let mut node: usize = 0;
        while node < nodes
            invariant
                nodes == self.spec_nodes(),
                self.valid(),
                node <= nodes,
                rows.len() == node,
                forall|k: int|
                    0 <= k < node ==> {
                        &&& (#[trigger] rows[k]).0 == spec_indicator(
                            self.spec_nodes(),
                            k,
                            Boundary::Top,
                        )
                        &&& rows[k].1 == spec_indicator(self.spec_nodes(), k, Boundary::Bottom)
                    },
            decreases nodes - node,
        {
            let top: u8 = if node == 0 {
                1
            } else {
                0
            };
            let bottom: u8 = if node == nodes - 1 {
                1
            } else {
                0
            };
            rows.push((top, bottom));
            node += 1;
        }
        rows
    }
}

/// The first `count` entries of a column add up to one once they include the
/// node of the boundary, and to zero before that.
proof fn lemma_partial_column_sum(nodes: int, boundary: Boundary, count: nat)
    requires
        1 <= nodes <= usize::MAX,
        count <= nodes,
    ensures
        spec_column_sum(nodes, boundary, count) == if count > BoundaryStencil::at(
            nodes,
            boundary,
        ).node {
            1int
        } else {
            0int
        },
    decreases count,
{
    if count > 0 {
        lemma_partial_column_sum(nodes, boundary, (count - 1) as nat);
    }
}

/// Each column of the indicator matrix adds up to exactly one, and has
/// exactly one entry that is not zero; that entry is one.
pub proof fn lemma_indicator_column(nodes: int, boundary: Boundary)
    requires
        1 <= nodes <= usize::MAX,
    ensures
        spec_column_sum(nodes, boundary, nodes as nat) == 1,
        0 <= BoundaryStencil::at(nodes, boundary).node < nodes,
        forall|node: int|
            0 <= node < nodes ==> (#[trigger] spec_indicator(nodes, node, boundary) != 0 <==> node
                == BoundaryStencil::at(nodes, boundary).node),
        forall|node: int|
            0 <= node < nodes ==> (#[trigger] spec_indicator(nodes, node, boundary) == 0
                || spec_indicator(nodes, node, boundary) == 1),
{
    lemma_partial_column_sum(nodes, boundary, nodes as nat);
}

} // verus!
