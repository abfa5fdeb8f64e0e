use std::collections::HashMap;
use vstd::prelude::*;

verus! {

broadcast use vstd::std_specs::hash::group_hash_axioms;

/// The ball's position as it is shown to the player.
#[derive(Debug, Clone, Copy, PartialEq, Eq, Structural)]
pub struct Coordinate {
    pub x: i32,
    pub y: i32,
}

impl Default for Coordinate {
    fn default() -> (c: Coordinate)
        ensures
            c.x == 0,
            c.y == 0,
    {
        Coordinate { x: 0, y: 0 }
    }
}

/// A pedometer as a count and a set: how many steps were counted, and the
/// identities of the tiles that were entered.
pub struct PedometerView {
    pub steps: nat,
    pub visited: Set<u64>,
}

impl PedometerView {
    /// The pedometer after the tile with identity `id` was entered: the tile
    /// is remembered, and it counts as a step if it was not remembered
    /// before. The count stops at the largest `u64`.
    pub open spec fn visit(self, id: u64) -> PedometerView {
        PedometerView {
            steps: if self.visited.contains(id) || self.steps >= u64::MAX {
                self.steps
            } else {
                self.steps + 1
            },
            visited: self.visited.insert(id),
        }
    }
}

/// Counts the tiles that the ball has entered, each tile once.
#[derive(Debug, Clone)]
pub struct Pedometer {
    pub steps: u64,
    pub visited: HashMap<u64, ()>,
}

impl View for Pedometer {
    type V = PedometerView;

    open spec fn view(&self) -> PedometerView {
        PedometerView { steps: self.steps as nat, visited: self.visited@.dom() }
    }
}

impl Pedometer {
    /// A pedometer that has counted nothing.
    pub fn new() -> (p: Pedometer)
        ensures
            p@.steps == 0,
            p@.visited == Set::<u64>::empty(),
    {
        Pedometer { steps: 0, visited: HashMap::new() }
    }

    /// Whether the tile with identity `id` was entered before.
    pub fn has_visited(&self, id: u64) -> (seen: bool)
        ensures
            seen == self@.visited.contains(id),
    {
        self.visited.contains_key(&id)
    }

    /// Records that the tile with identity `id` was entered, and tells
    /// whether it was entered for the first time.
    pub fn visit(&mut self, id: u64) -> (fresh: bool)
        ensures
            final(self)@ == old(self)@.visit(id),
            fresh == !old(self)@.visited.contains(id),
    {
        let fresh = self.visited.insert(id, ()).is_none();
        if fresh && self.steps < u64::MAX {
            self.steps = self.steps + 1;
        }
        fresh
    }
}

impl Default for Pedometer {
    fn default() -> (p: Pedometer)
        ensures
            p@.steps == 0,
            p@.visited == Set::<u64>::empty(),
    {
        Pedometer::new()
    }
}

/// Entering a tile never lowers the count and never forgets a tile.
pub proof fn lemma_visit_only_adds(p: PedometerView, id: u64)
    ensures
        p.visit(id).steps >= p.steps,
        p.visit(id).steps <= p.steps + 1,
        p.visited.subset_of(p.visit(id).visited),
        p.visit(id).visited.contains(id),
{
}

/// Entering a tile that was entered before changes nothing: it is not
/// counted again.
pub proof fn lemma_revisit_is_not_counted(p: PedometerView, id: u64)
    requires
        p.visited.contains(id),
    ensures
        p.visit(id) == p,
{
    assert(p.visited.insert(id) =~= p.visited);
}

} // verus!
