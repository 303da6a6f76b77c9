use vstd::prelude::*;
use crate::topology::{GalaxySnapshot, ids_missing_from, edges_missing_from};

verus! {

/// What changed between two consecutive snapshots.
pub struct SnapshotDiff {
    pub appeared_planets: Vec<u32>,
    pub vanished_planets: Vec<u32>,
    pub added_edges: Vec<(u32, u32)>,
    pub removed_edges: Vec<(u32, u32)>,
}

impl SnapshotDiff {
    pub open spec fn is_empty(&self) -> bool {
        &&& self.appeared_planets@.len() == 0
        &&& self.vanished_planets@.len() == 0
        &&& self.added_edges@.len() == 0
        &&& self.removed_edges@.len() == 0
    }
}

/// The last snapshot polled from the simulation, with a flag that tells
/// whether the last update changed it.
pub struct GameSnapshot {
    pub snapshot: GalaxySnapshot,
    pub changed: bool,
}

impl GameSnapshot {
    pub open spec fn wf(&self) -> bool {
        self.snapshot.wf()
    }

    /// A store that holds `first` and counts as changed, so that the first
    /// reconciliation draws it.
    pub fn new(first: GalaxySnapshot) -> (r: Self)
        ensures
            r.snapshot == first,
            r.changed,
    {
        GameSnapshot { snapshot: first, changed: true }
    }

    /// The snapshot currently held.
    pub fn current(&self) -> (r: &GalaxySnapshot)
        ensures
            r == &self.snapshot,
    {
        &self.snapshot
    }

    /// Replaces the snapshot by `next` and reports the difference; the store
    /// counts as changed exactly when the difference is not empty.
    /// The vanished planets are those whose visuals are to be despawned.
    pub fn update(&mut self, next: GalaxySnapshot) -> (d: SnapshotDiff)
        requires
            old(self).wf(),
            next.wf(),
        ensures
            final(self).wf(),
            final(self).snapshot == next,
            d.appeared_planets@ == next.planet_ids@.filter(
                |x: u32| !old(self).snapshot.planet_ids@.contains(x),
            ),
            d.vanished_planets@ == old(self).snapshot.planet_ids@.filter(
                |x: u32| !next.planet_ids@.contains(x),
            ),
            d.added_edges@ == next.edges@.filter(
                |e: (u32, u32)| !old(self).snapshot.edges@.contains(e),
            ),
            d.removed_edges@ == old(self).snapshot.edges@.filter(
                |e: (u32, u32)| !next.edges@.contains(e),
            ),
            final(self).changed == !d.is_empty(),
    {
        let appeared_planets = ids_missing_from(&next.planet_ids, &self.snapshot.planet_ids);
        let vanished_planets = ids_missing_from(&self.snapshot.planet_ids, &next.planet_ids);
        let added_edges = edges_missing_from(&next.edges, &self.snapshot.edges);
        let removed_edges = edges_missing_from(&self.snapshot.edges, &next.edges);
        let changed = appeared_planets.len() > 0 || vanished_planets.len() > 0
            || added_edges.len() > 0 || removed_edges.len() > 0;
        self.snapshot = next;
        self.changed = changed;
        SnapshotDiff { appeared_planets, vanished_planets, added_edges, removed_edges }
    }

    /// Forgets the held snapshot, as a reset of the game does.
    pub fn clear(&mut self)
        ensures
            final(self).wf(),
            final(self).snapshot.planet_ids@.len() == 0,
            final(self).snapshot.edges@.len() == 0,
            final(self).changed,
    {
        self.snapshot = GalaxySnapshot::empty();
        self.changed = true;
    }
}

} // verus!
