//! The indices that the rows of the operators, the edges and the boundaries
//! read.

use crate::grid::Grid;
use vstd::prelude::*;

verus! {

/// One of the two ends of the column.
#[derive(Clone, Copy, Debug, PartialEq, Eq, Structural)]
pub enum Boundary {
    Top,
    Bottom,
}

/// Where the operator row of one node reads its coefficients.
///
/// Node `i` lies between edge `i` and edge `i + 1`, in cell `i + 1`; cell `0`
/// and the last cell are the cells at the two ends of the domain. With `aux`
/// the flux coefficient of every edge, `w` the weight of every node and `j`
/// the size factor of every cell, the row of a diffusion operator holds
/// `w[node] * aux[edge_before]` in column `node_before`,
/// `-w[node] * (aux[edge_before] + aux[edge_after])` on the diagonal and
/// `w[node] * aux[edge_after]` in column `node_after`. The row of the
/// advective operator holds `w[node] * j[cell] * aux[edge_before]`,
/// `-w[node] * (j[cell_before] * aux[edge_before] + j[cell_after] * aux[edge_after])`
/// and `w[node] * j[cell] * aux[edge_after]` in the same places. The weight
/// itself is `1 / (capacity[edge_after] * j[cell_before])`.
#[derive(Clone, Copy, Debug, PartialEq, Eq)]
pub struct Stencil {
    pub node: usize,
    /// The node towards the top, unless `node` is the first.
    pub node_before: Option<usize>,
    /// The node towards the bottom, unless `node` is the last.
    pub node_after: Option<usize>,
    pub edge_before: usize,
    pub edge_after: usize,
    pub cell_before: usize,
    pub cell: usize,
    pub cell_after: usize,
}

/// Where a boundary coefficient pair reads its entry for one boundary: the
/// contribution of the boundary value goes to `node` with the coefficient
/// `w[node] * d[edge] * field[edge]`, times `j[cell]` for the advective
/// operator.
#[derive(Clone, Copy, Debug, PartialEq, Eq, Structural)]
pub struct BoundaryStencil {
    pub node: usize,
    pub edge: usize,
    pub cell: usize,
}

/// The two cells that an edge separates. With `sizes` the thickness of every
/// cell, the conductive coupling strength of the edge is
/// `2 / (sizes[cell_before] + sizes[cell_after])`, and the flux across it is
/// driven by the difference of the augmented values in `cell_after` and in
/// `cell_before`.
#[derive(Clone, Copy, Debug, PartialEq, Eq, Structural)]
pub struct EdgeStencil {
    pub edge: usize,
    pub cell_before: usize,
    pub cell_after: usize,
}

impl EdgeStencil {
    /// The stencil of edge `edge`: it lies between cell `edge` and the next.
    pub open spec fn at(edge: int) -> EdgeStencil {
        EdgeStencil {
            edge: edge as usize,
            cell_before: edge as usize,
            cell_after: (edge + 1) as usize,
        }
    }

    /// The edge is one of a column of `nodes` nodes, and so are its cells.
    pub open spec fn in_range(self, nodes: int) -> bool {
        &&& self.edge < nodes + 1
        &&& self.cell_before < self.cell_after < nodes + 2
    }
}

impl Stencil {
    /// The stencil of node `node` in a column of `nodes` nodes.
    pub open spec fn at(nodes: int, node: int) -> Stencil {
        Stencil {
            node: node as usize,
            node_before: if node > 0 {
                Some((node - 1) as usize)
            } else {
                None
            },
            node_after: if node + 1 < nodes {
                Some((node + 1) as usize)
            } else {
                None
            },
            edge_before: node as usize,
            edge_after: (node + 1) as usize,
            cell_before: node as usize,
            cell: (node + 1) as usize,
            cell_after: (node + 2) as usize,
        }
    }

    /// Every index of the stencil lies inside the vector that it indexes:
    /// nodes below `nodes`, edges below `nodes + 1`, cells below `nodes + 2`.
    pub open spec fn in_range(self, nodes: int) -> bool {
        &&& self.node < nodes
        &&& self.node_before matches Some(before) ==> before < nodes
        &&& self.node_after matches Some(after) ==> after < nodes
        &&& self.edge_before < self.edge_after < nodes + 1
        &&& self.cell_before < self.cell < self.cell_after < nodes + 2
    }
}

impl BoundaryStencil {
    /// The stencil of `boundary` in a column of `nodes` nodes: the first
    /// node, edge and cell at the top; the last node, the last edge and the
    /// cell of the same index at the bottom.
    pub open spec fn at(nodes: int, boundary: Boundary) -> BoundaryStencil {
        match boundary {
            Boundary::Top => BoundaryStencil { node: 0, edge: 0, cell: 0 },
            Boundary::Bottom => BoundaryStencil {
                node: (nodes - 1) as usize,
                edge: nodes as usize,
                cell: nodes as usize,
            },
        }
    }

    /// Every index of the stencil lies inside the vector that it indexes.
    pub open spec fn in_range(self, nodes: int) -> bool {
        &&& self.node < nodes
        &&& self.edge < nodes + 1
        &&& self.cell < nodes + 2
    }
}

impl Grid {
    /// The stencil of node `node`; `None` exactly when the grid has no such
    /// node.
    pub fn stencil(&self, node: usize) -> (found: Option<Stencil>)
        ensures
            found is Some <==> node < self.spec_nodes(),
            found matches Some(stencil) ==> stencil == Stencil::at(self.spec_nodes(), node as int)
                && stencil.in_range(self.spec_nodes()),
    {
        let nodes = self.nodes();
        if node >= nodes {
            return None;
        }
        let node_before = if node > 0 {
            Some(node - 1)
        } else {
            None
        };
        let node_after = if node + 1 < nodes {
            Some(node + 1)
        } else {
            None
        };
        Some(
            Stencil {
                node,
                node_before,
                node_after,
                edge_before: node,
                edge_after: node + 1,
                cell_before: node,
                cell: node + 1,
                cell_after: node + 2,
            },
        )
    }

    /// The stencil of edge `edge`; `None` exactly when the grid has no such
    /// edge.
    pub fn edge_stencil(&self, edge: usize) -> (found: Option<EdgeStencil>)
        ensures
            found is Some <==> edge < self.spec_edges(),
            found matches Some(stencil) ==> stencil == EdgeStencil::at(edge as int)
                && stencil.in_range(self.spec_nodes()),
    {
        if edge >= self.edges() {
            return None;
        }
        Some(EdgeStencil { edge, cell_before: edge, cell_after: edge + 1 })
    }

    /// The stencil of the boundary coefficients at `boundary`.
    pub fn boundary_stencil(&self, boundary: Boundary) -> (stencil: BoundaryStencil)
        ensures
            stencil == BoundaryStencil::at(self.spec_nodes(), boundary),
            stencil.in_range(self.spec_nodes()),
    {
        let nodes = self.nodes();
        match boundary {
            Boundary::Top => BoundaryStencil { node: 0, edge: 0, cell: 0 },
            Boundary::Bottom => BoundaryStencil { node: nodes - 1, edge: nodes, cell: nodes },
        }
    }
}

/// The stencils of the nodes are consistent with a tridiagonal operator:
/// every node reads the edge that the node before it reads after itself, and
/// the neighbours it names are the nodes next to it.
pub proof fn lemma_stencils_chain(nodes: int, node: int)
    requires
        0 <= node,
        node + 1 < nodes <= usize::MAX,
    ensures
        Stencil::at(nodes, node).node_after == Some(Stencil::at(nodes, node + 1).node),
        Stencil::at(nodes, node + 1).node_before == Some(Stencil::at(nodes, node).node),
        Stencil::at(nodes, node).edge_after == Stencil::at(nodes, node + 1).edge_before,
        Stencil::at(nodes, node).cell == Stencil::at(nodes, node + 1).cell_before,
        Stencil::at(nodes, node).cell_after == Stencil::at(nodes, node + 1).cell,
{
}

/// The edges around a node separate its own cell from the cells that its
/// stencil names before and after it.
pub proof fn lemma_node_between_edges(nodes: int, node: int)
    requires
        0 <= node < nodes < usize::MAX,
    ensures
        EdgeStencil::at(Stencil::at(nodes, node).edge_before as int).cell_before == Stencil::at(
            nodes,
            node,
        ).cell_before,
        EdgeStencil::at(Stencil::at(nodes, node).edge_before as int).cell_after == Stencil::at(
            nodes,
            node,
        ).cell,
        EdgeStencil::at(Stencil::at(nodes, node).edge_after as int).cell_before == Stencil::at(
            nodes,
            node,
        ).cell,
        EdgeStencil::at(Stencil::at(nodes, node).edge_after as int).cell_after == Stencil::at(
            nodes,
            node,
        ).cell_after,
{
}

/// The first node has no neighbour towards the top and reads the edge and
/// the cell of the top boundary; the last node has none towards the bottom
/// and reads the edge of the bottom boundary.
pub proof fn lemma_stencils_meet_boundaries(nodes: int)
    requires
        1 <= nodes < usize::MAX,
    ensures
        Stencil::at(nodes, 0).node_before is None,
        Stencil::at(nodes, 0).edge_before == BoundaryStencil::at(nodes, Boundary::Top).edge,
        Stencil::at(nodes, 0).cell_before == BoundaryStencil::at(nodes, Boundary::Top).cell,
        Stencil::at(nodes, 0).node == BoundaryStencil::at(nodes, Boundary::Top).node,
        Stencil::at(nodes, nodes - 1).node_after is None,
        Stencil::at(nodes, nodes - 1).edge_after == BoundaryStencil::at(
            nodes,
            Boundary::Bottom,
        ).edge,
        Stencil::at(nodes, nodes - 1).node == BoundaryStencil::at(nodes, Boundary::Bottom).node,
{
}

} // verus!
