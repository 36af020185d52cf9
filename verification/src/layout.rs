//! The layout of the state vector and of the values augmented by the
//! boundaries.

use crate::grid::Grid;
use vstd::prelude::*;

verus! {

/// The temperature part of a state over `nodes` nodes: its first half.
pub open spec fn spec_temperature<T>(state: Seq<T>, nodes: int) -> Seq<T> {
    state.subrange(0, nodes)
}

/// The head part of a state over `nodes` nodes: its second half.
pub open spec fn spec_head<T>(state: Seq<T>, nodes: int) -> Seq<T> {
    state.subrange(nodes, 2 * nodes)
}

/// The state made of the temperature at every node, then the head at every
/// node.
pub open spec fn spec_state<T>(temperature: Seq<T>, head: Seq<T>) -> Seq<T> {
    temperature + head
}

/// The interior values with the boundary values around them: the value at
/// the top boundary first, the value at the bottom boundary last.
pub open spec fn spec_augmented<T>(top: T, interior: Seq<T>, bottom: T) -> Seq<T> {
    seq![top] + interior + seq![bottom]
}

/// Appends `source[from .. to]` to `target`.
fn append_range<T: Copy>(target: &mut Vec<T>, source: &[T], from: usize, to: usize)
    requires
        from <= to <= source.len(),
    ensures
        final(target)@ == old(target)@ + source@.subrange(from as int, to as int),
{
    let mut i = from;
    while i < to
        invariant
            from <= i <= to <= source.len(),
            target@ == old(target)@ + source@.subrange(from as int, i as int),
        decreases to - i,
    {
        target.push(source[i]);
        i += 1;
        assert(target@ =~= old(target)@ + source@.subrange(from as int, i as int));
    }
}

impl Grid {
    /// Splits a state into its temperature part and its head part. `None`
    /// exactly when `state` has not the length of a state of this grid.
    pub fn split_state<T: Copy>(&self, state: &[T]) -> (parts: Option<(Vec<T>, Vec<T>)>)
        ensures
            parts is Some <==> state.len() == self.spec_state_len(),
            parts matches Some((temperature, head)) ==> {
                &&& temperature@ == spec_temperature(state@, self.spec_nodes())
                &&& head@ == spec_head(state@, self.spec_nodes())
            },
    {
        let nodes = self.nodes();
        if state.len() != self.state_len() {
            return None;
        }
        let mut temperature: Vec<T> = Vec::new();
        append_range(&mut temperature, state, 0, nodes);
        let mut head: Vec<T> = Vec::new();
        append_range(&mut head, state, nodes, 2 * nodes);
        assert(temperature@ =~= spec_temperature(state@, self.spec_nodes()));
        assert(head@ =~= spec_head(state@, self.spec_nodes()));
        Some((temperature, head))
    }

    /// Joins the temperature and the head at the nodes into one state. `None`
    /// exactly when either has not one value per node.
    pub fn join_state<T: Copy>(&self, temperature: &[T], head: &[T]) -> (state: Option<Vec<T>>)
        ensures
            state is Some <==> temperature.len() == self.spec_nodes() && head.len()
                == self.spec_nodes(),
            state matches Some(joined) ==> joined@ == spec_state(temperature@, head@),
    {
        let nodes = self.nodes();
        if temperature.len() != nodes || head.len() != nodes {
            return None;
        }
        let mut joined: Vec<T> = Vec::new();
        append_range(&mut joined, temperature, 0, nodes);
        append_range(&mut joined, head, 0, nodes);
        assert(joined@ =~= spec_state(temperature@, head@));
        Some(joined)
    }

    /// Puts the boundary values around the values at the nodes, which gives
    /// one value per cell. `None` exactly when `interior` has not one value
    /// per node.
    pub fn augment<T: Copy>(&self, top: T, interior: &[T], bottom: T) -> (cells: Option<Vec<T>>)
        ensures
            cells is Some <==> interior.len() == self.spec_nodes(),
            cells matches Some(augmented) ==> {
                &&& augmented@ == spec_augmented(top, interior@, bottom)
                &&& augmented.len() == self.spec_cells()
            },
    {
        let nodes = self.nodes();
        if interior.len() != nodes {
            return None;
        }
        let mut augmented: Vec<T> = Vec::new();
        augmented.push(top);
        append_range(&mut augmented, interior, 0, nodes);
        augmented.push(bottom);
        assert(augmented@ =~= spec_augmented(top, interior@, bottom));
        Some(augmented)
    }
}

/// Splitting a joined state gives back the two parts.
pub proof fn lemma_split_of_joined<T>(temperature: Seq<T>, head: Seq<T>)
    requires
        temperature.len() == head.len(),
    ensures
        spec_temperature(spec_state(temperature, head), temperature.len() as int) == temperature,
        spec_head(spec_state(temperature, head), temperature.len() as int) == head,
{
    let nodes = temperature.len() as int;
    assert(spec_temperature(spec_state(temperature, head), nodes) =~= temperature);
    assert(spec_head(spec_state(temperature, head), nodes) =~= head);
}

/// Joining the two parts of a state gives back the state.
pub proof fn lemma_joined_of_split<T>(state: Seq<T>, nodes: int)
    requires
        0 <= nodes,
        state.len() == 2 * nodes,
    ensures
        spec_state(spec_temperature(state, nodes), spec_head(state, nodes)) == state,
{
    assert(spec_state(spec_temperature(state, nodes), spec_head(state, nodes)) =~= state);
}

/// In the augmented values, cell `0` holds the top boundary value, cell
/// `i + 1` the value at node `i`, and the last cell the bottom boundary
/// value.
pub proof fn lemma_augmented_cells<T>(top: T, interior: Seq<T>, bottom: T)
    ensures
        spec_augmented(top, interior, bottom).len() == interior.len() + 2,
        spec_augmented(top, interior, bottom)[0] == top,
        spec_augmented(top, interior, bottom)[interior.len() as int + 1] == bottom,
        forall|i: int|
            0 <= i < interior.len() ==> spec_augmented(top, interior, bottom)[i + 1]
                == #[trigger] interior[i],
{
}

} // verus!
