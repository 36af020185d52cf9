//! The grid of a column: how many nodes, edges and cells it has.

use vstd::prelude::*;

verus! {

/// Why a node count cannot describe a column.
#[derive(Clone, Copy, Debug, PartialEq, Eq, Structural)]
pub enum GridError {
    /// The column has no interior node.
    NoNodes,
    /// The derived lengths would not fit in `usize`.
    TooManyNodes,
}

/// The fixed spatial discretization of one column: `nodes` interior nodes,
/// separated and enclosed by `nodes + 1` edges, inside `nodes + 2` cells (the
/// interior cells and the two cells at the ends of the domain).
#[derive(Clone, Copy, Debug)]
pub struct Grid {
    nodes: usize,
}

/// Largest node count for which the state length `2 * nodes` and the cell
/// count `nodes + 2` both fit in `usize`.
pub open spec fn spec_max_nodes() -> int {
    usize::MAX / 2 - 1
}

/// Largest node count that a grid accepts.
pub fn max_nodes() -> (limit: usize)
    ensures
        limit == spec_max_nodes(),
{
    usize::MAX / 2 - 1
}

impl Grid {
    /// What every grid satisfies: at least one node, and no more than
    /// `spec_max_nodes()`.
    pub open spec fn valid(self) -> bool {
        1 <= self.spec_nodes() <= spec_max_nodes()
    }

    #[verifier::type_invariant]
    spec fn well_formed(self) -> bool {
        self.valid()
    }

    /// Number of interior nodes.
    pub closed spec fn spec_nodes(self) -> int {
        self.nodes as int
    }

    /// Number of edges: one between each pair of neighbouring nodes and one
    /// towards each boundary.
    pub open spec fn spec_edges(self) -> int {
        self.spec_nodes() + 1
    }

    /// Number of cells, the two at the ends of the domain included.
    pub open spec fn spec_cells(self) -> int {
        self.spec_nodes() + 2
    }

    /// Length of a state vector: temperature at every node, then head at
    /// every node.
    pub open spec fn spec_state_len(self) -> int {
        2 * self.spec_nodes()
    }

    /// A grid of `nodes` interior nodes. Fails exactly when there is no node
    /// or when the derived lengths would overflow.
    pub fn new(nodes: usize) -> (made: Result<Grid, GridError>)
        ensures
            made is Ok <==> 1 <= nodes <= spec_max_nodes(),
            made matches Ok(grid) ==> grid.valid() && grid.spec_nodes() == nodes,
            made matches Err(why) ==> (why == GridError::NoNodes <==> nodes == 0),
            made matches Err(why) ==> (why == GridError::TooManyNodes <==> nodes > spec_max_nodes()),
    {
        if nodes == 0 {
            Err(GridError::NoNodes)
        } else if nodes > max_nodes() {
            Err(GridError::TooManyNodes)
        } else {
            Ok(Grid { nodes })
        }
    }

    /// Number of interior nodes.
    pub fn nodes(&self) -> (count: usize)
        ensures
            count == self.spec_nodes(),
            self.valid(),
    {
        proof {
            use_type_invariant(self);
        }
        self.nodes
    }

    /// Number of edges.
    pub fn edges(&self) -> (count: usize)
        ensures
            count == self.spec_edges(),
            self.valid(),
    {
        proof {
            use_type_invariant(self);
        }
        self.nodes + 1
    }

    /// Number of cells, the two at the ends of the domain included.
    pub fn cells(&self) -> (count: usize)
        ensures
            count == self.spec_cells(),
            self.valid(),
    {
        proof {
            use_type_invariant(self);
        }
        self.nodes + 2
    }

    /// Length of a state vector.
    pub fn state_len(&self) -> (count: usize)
        ensures
            count == self.spec_state_len(),
            self.valid(),
    {
        proof {
            use_type_invariant(self);
        }
        2 * self.nodes
    }
}

} // verus!
