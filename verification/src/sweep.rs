//! Walks over the nodes and the edges of a grid.

use crate::grid::Grid;
use crate::stencil::{EdgeStencil, Stencil};
use vstd::prelude::*;

verus! {

/// `values` holds, for every node of a column of `nodes` nodes, a result of
/// `kernel` on the stencil of that node.
pub open spec fn node_values<T, Kernel: Fn(Stencil) -> T>(
    kernel: Kernel,
    nodes: int,
    values: Seq<T>,
) -> bool {
    &&& values.len() == nodes
    &&& forall|node: int|
        0 <= node < nodes ==> call_ensures(
            kernel,
            (Stencil::at(nodes, node),),
            #[trigger] values[node],
        )
}

/// `values` holds, for every edge of a column of `nodes` nodes, a result of
/// `kernel` on the stencil of that edge.
pub open spec fn edge_values<T, Kernel: Fn(EdgeStencil) -> T>(
    kernel: Kernel,
    nodes: int,
    values: Seq<T>,
) -> bool {
    &&& values.len() == nodes + 1
    &&& forall|edge: int|
        0 <= edge < nodes + 1 ==> call_ensures(
            kernel,
            (EdgeStencil::at(edge),),
            #[trigger] values[edge],
        )
}

/// The value that `kernel` is handed as the one before node `node`: none for
/// the first node, the value of the node before it otherwise.
pub open spec fn value_before<T>(values: Seq<T>, node: int) -> Option<T> {
    if node == 0 {
        None
    } else {
        Some(values[node - 1])
    }
}

/// `values` holds, for every node of a column of `nodes` nodes, a result of
/// `kernel` on the value of the node before it and the stencil of the node.
pub open spec fn accumulated_values<T, Kernel: Fn(Option<T>, Stencil) -> T>(
    kernel: Kernel,
    nodes: int,
    values: Seq<T>,
) -> bool {
    &&& values.len() == nodes
    &&& forall|node: int|
        0 <= node < nodes ==> call_ensures(
            kernel,
            (value_before(values, node), Stencil::at(nodes, node)),
            #[trigger] values[node],
        )
}

impl Grid {
    /// One value per node, each formed by `kernel` from the stencil of its
    /// node.
    pub fn map_nodes<T, Kernel: Fn(Stencil) -> T>(&self, kernel: Kernel) -> (values: Vec<T>)
        requires
            forall|node: int|
                0 <= node < self.spec_nodes() ==> call_requires(
                    kernel,
                    (#[trigger] Stencil::at(self.spec_nodes(), node),),
                ),
        ensures
            node_values(kernel, self.spec_nodes(), values@),
    {
        let nodes = self.nodes();
        let mut values: Vec<T> = Vec::new();
        let mut node: usize = 0;
        while node < nodes
            invariant
                self.valid(),
                nodes == self.spec_nodes(),
                node <= nodes,
                values.len() == node,
                forall|k: int|
                    0 <= k < nodes ==> call_requires(
                        kernel,
                        (#[trigger] Stencil::at(nodes as int, k),),
                    ),
                forall|k: int|
                    0 <= k < node ==> call_ensures(
                        kernel,
                        (Stencil::at(nodes as int, k),),
                        #[trigger] values[k],
                    ),
            decreases nodes - node,
        {
            let stencil = self.stencil(node).unwrap();
            let value = kernel(stencil);
            values.push(value);
            node += 1;
        }
        values
    }

    /// One value per edge, each formed by `kernel` from the stencil of its
    /// edge.
    pub fn map_edges<T, Kernel: Fn(EdgeStencil) -> T>(&self, kernel: Kernel) -> (values: Vec<T>)
        requires
            forall|edge: int|
                0 <= edge < self.spec_edges() ==> call_requires(
                    kernel,
                    (#[trigger] EdgeStencil::at(edge),),
                ),
        ensures
            edge_values(kernel, self.spec_nodes(), values@),
    {
        let edges = self.edges();
        let mut values: Vec<T> = Vec::new();
        let mut edge: usize = 0;
        while edge < edges
            invariant
                self.valid(),
                edges == self.spec_edges(),
                edge <= edges,
                values.len() == edge,
                forall|k: int|
                    0 <= k < edges ==> call_requires(kernel, (#[trigger] EdgeStencil::at(k),)),
                forall|k: int|
                    0 <= k < edge ==> call_ensures(
                        kernel,
                        (EdgeStencil::at(k),),
                        #[trigger] values[k],
                    ),
            decreases edges - edge,
        {
            let stencil = self.edge_stencil(edge).unwrap();
            let value = kernel(stencil);
            values.push(value);
            edge += 1;
        }
        values
    }

    /// One value per node, each formed by `kernel` from the value of the node
    /// before it and the stencil of its own node, from the first node to the
    /// last.
    pub fn accumulate_nodes<T: Copy, Kernel: Fn(Option<T>, Stencil) -> T>(
        &self,
        kernel: Kernel,
    ) -> (values: Vec<T>)
        requires
            forall|before: Option<T>, node: int|
                0 <= node < self.spec_nodes() ==> #[trigger] call_requires(
                    kernel,
                    (before, Stencil::at(self.spec_nodes(), node)),
                ),
        ensures
            accumulated_values(kernel, self.spec_nodes(), values@),
    {
        let nodes = self.nodes();
        let mut values: Vec<T> = Vec::new();
        let mut node: usize = 0;
        while node < nodes
            invariant
                self.valid(),
                nodes == self.spec_nodes(),
                node <= nodes,
                values.len() == node,
                forall|before: Option<T>, k: int|
                    0 <= k < nodes ==> #[trigger] call_requires(
                        kernel,
                        (before, Stencil::at(nodes as int, k)),
                    ),
                forall|k: int|
                    0 <= k < node ==> call_ensures(
                        kernel,
                        (value_before(values@, k), Stencil::at(nodes as int, k)),
                        #[trigger] values[k],
                    ),
            decreases nodes - node,
        {
            let stencil = self.stencil(node).unwrap();
            let before = if node == 0 {
                None
            } else {
                Some(values[node - 1])
            };
            let ghost earlier = values@;
            let value = kernel(before, stencil);
            values.push(value);
            proof {
                assert forall|k: int| 0 <= k < node + 1 implies call_ensures(
                    kernel,
                    (value_before(values@, k), Stencil::at(nodes as int, k)),
                    #[trigger] values[k],
                ) by {
                    assert(value_before(values@, k) == value_before(earlier, k));
                    if k < node {
                        assert(values[k] == earlier[k]);
                    }
                }
            }
            node += 1;
        }
        values
    }
}

/// Accumulated values rise from node to node wherever every step of the
/// kernel does: if each result of `kernel` stands in the relation `rises` to
/// the value before it, so does each accumulated value to the one before.
pub proof fn lemma_accumulated_rises<T, Kernel: Fn(Option<T>, Stencil) -> T>(
    kernel: Kernel,
    nodes: int,
    values: Seq<T>,
    rises: spec_fn(T, T) -> bool,
)
    requires
        accumulated_values(kernel, nodes, values),
        forall|before: T, stencil: Stencil, value: T|
            #[trigger] call_ensures(kernel, (Some(before), stencil), value) ==> rises(
                before,
                value,
            ),
    ensures
        forall|node: int| 1 <= node < nodes ==> rises(values[node - 1], #[trigger] values[node]),
{
    assert forall|node: int| 1 <= node < nodes implies rises(
        values[node - 1],
        #[trigger] values[node],
    ) by {
        assert(value_before(values, node) == Some(values[node - 1]));
        assert(call_ensures(
            kernel,
            (Some(values[node - 1]), Stencil::at(nodes, node)),
            values[node],
        ));
    }
}

} // verus!
