use vstd::prelude::*;
use crate::topology::{
    GalaxySnapshot, canon, names_edge, is_canonical, ids_missing_from, edges_missing_from, lemma_filter_distinct,
};

verus! {

/// Number of planet sprites; planets take them round-robin by id.
pub const PLANET_SPRITE_NUM: usize = 7;

/// The visual of one planet: its id and the index of its sprite. Its place on
/// the ring is slot `id` of `ring_size` evenly spaced slots.
#[derive(Clone, Copy, PartialEq, Eq, Structural, Debug)]
pub struct PlanetVisual {
    pub id: u32,
    pub sprite: usize,
}

pub open spec fn visual_of(id: u32) -> PlanetVisual {
    PlanetVisual { id, sprite: (id as usize) % PLANET_SPRITE_NUM }
}

/// The visual drawn for planet `id`.
pub fn planet_visual(id: u32) -> (r: PlanetVisual)
    ensures
        r == visual_of(id),
{
    PlanetVisual { id, sprite: (id as usize) % PLANET_SPRITE_NUM }
}

/// Edge visuals spawned, despawned, and edges of the snapshot left out
/// because an endpoint has no planet visual.
pub struct EdgeChanges {
    pub added: Vec<(u32, u32)>,
    pub removed: Vec<(u32, u32)>,
    pub dropped: Vec<(u32, u32)>,
}

/// What one reconciliation did to the visuals.
pub struct Reconciliation {
    pub despawned_planets: Vec<u32>,
    pub spawned_planets: Vec<u32>,
    pub edges: EdgeChanges,
}

/// The visual entities of the galaxy: one per live planet, one per edge
/// between two live planets.
pub struct GalaxyView {
    pub planets: Vec<PlanetVisual>,
    pub edges: Vec<(u32, u32)>,
    pub ring_size: usize,
}

impl GalaxyView {
    pub open spec fn has_planet(&self, id: u32) -> bool {
        self.planets@.contains(visual_of(id))
    }

    pub open spec fn planet_ids(&self) -> Seq<u32> {
        self.planets@.map_values(|p: PlanetVisual| p.id)
    }

    /// The view draws exactly the planets of `snap`, and exactly the edges of
    /// `snap` whose endpoints are both live.
    pub open spec fn matches(&self, snap: &GalaxySnapshot) -> bool {
        &&& forall|id: u32| #[trigger] self.has_planet(id) <==> snap.has_planet(id)
        &&& forall|e: (u32, u32)|
            #[trigger] self.edges@.contains(e) <==> snap.has_edge(e) && snap.has_planet(e.0)
                && snap.has_planet(e.1)
    }

    /// Each visual is the one drawn for its id, no planet or edge is drawn
    /// twice, edges are canonical and join two drawn planets.
    pub open spec fn wf(&self) -> bool {
        &&& forall|k: int|
            0 <= k < self.planets.len() ==> #[trigger] self.planets@[k] == visual_of(
                self.planets@[k].id,
            )
        &&& self.planets@.no_duplicates()
        &&& self.edges@.no_duplicates()
        &&& forall|k: int|
            0 <= k < self.edges.len() ==> {
                &&& is_canonical(#[trigger] self.edges@[k])
                &&& self.has_planet(self.edges@[k].0)
                &&& self.has_planet(self.edges@[k].1)
            }
    }

    /// The visuals of the planets of `snap`, one per id, in its order.
    fn visuals_of(snap: &GalaxySnapshot) -> (r: Vec<PlanetVisual>)
        requires
            snap.wf(),
        ensures
            r@.len() == snap.planet_ids@.len(),
            forall|k: int| 0 <= k < r@.len() ==> #[trigger] r@[k] == visual_of(snap.planet_ids@[k]),
            r@.no_duplicates(),
            forall|id: u32| r@.contains(visual_of(id)) <==> snap.has_planet(id),
    {
        let mut r: Vec<PlanetVisual> = Vec::new();
        let mut i: usize = 0;
        while i < snap.planet_ids.len()
            invariant
                snap.wf(),
                0 <= i <= snap.planet_ids.len(),
                r@.len() == i,
                forall|k: int| 0 <= k < i ==> #[trigger] r@[k] == visual_of(snap.planet_ids@[k]),
            decreases snap.planet_ids.len() - i,
        {
            r.push(planet_visual(snap.planet_ids[i]));
            i += 1;
        }
        proof {
            assert forall|a: int, b: int|
                0 <= a < r@.len() && 0 <= b < r@.len() && a != b implies r@[a] != r@[b] by {
                assert(snap.planet_ids@[a] != snap.planet_ids@[b]);
            }
            assert forall|id: u32| r@.contains(visual_of(id)) <==> snap.has_planet(id) by {
                if snap.has_planet(id) {
                    let k = choose|k: int| 0 <= k < snap.planet_ids@.len() && snap.planet_ids@[k] == id;
                    assert(r@[k] == visual_of(id));
                }
                if r@.contains(visual_of(id)) {
                    let k = choose|k: int| 0 <= k < r@.len() && r@[k] == visual_of(id);
                    assert(snap.planet_ids@[k] == id);
                }
            }
        }
        r
    }

    /// The view drawn at startup: one planet visual per planet of `snap`, on
    /// a ring of as many slots, and no edges yet.
    pub fn setup(snap: &GalaxySnapshot) -> (r: GalaxyView)
        requires
            snap.wf(),
        ensures
            r.wf(),
            r.ring_size == snap.planet_ids@.len(),
            r.planets@.len() == snap.planet_ids@.len(),
            forall|k: int| 0 <= k < r.planets@.len() ==> #[trigger] r.planets@[k] == visual_of(snap.planet_ids@[k]),
            forall|id: u32| r.has_planet(id) <==> snap.has_planet(id),
            r.edges@.len() == 0,
    {
        let planets = Self::visuals_of(snap);
        GalaxyView { planets, edges: Vec::new(), ring_size: snap.planet_ids.len() }
    }

    /// Whether planet `id` has a visual.
    pub fn contains_planet(&self, id: u32) -> (r: bool)
        requires
            self.wf(),
        ensures
            r == self.has_planet(id),
    {
        let mut i: usize = 0;
        while i < self.planets.len()
            invariant
                self.wf(),
                0 <= i <= self.planets.len(),
                forall|k: int| 0 <= k < i ==> self.planets@[k].id != id,
            decreases self.planets.len() - i,
        {
            if self.planets[i].id == id {
                assert(self.planets@[i as int] == visual_of(id));
                return true;
            }
            i += 1;
        }
        proof {
            if self.has_planet(id) {
                let k = choose|k: int| 0 <= k < self.planets@.len() && self.planets@[k] == visual_of(id);
            }
        }
        false
    }

    /// The ids of the drawn planets, in order.
    pub fn ids(&self) -> (r: Vec<u32>)
        ensures
            r@ == self.planet_ids(),
    {
        let mut r: Vec<u32> = Vec::new();
        let mut i: usize = 0;
        while i < self.planets.len()
            invariant
                0 <= i <= self.planets.len(),
                r@ == self.planets@.take(i as int).map_values(|p: PlanetVisual| p.id),
            decreases self.planets.len() - i,
        {
            r.push(self.planets[i].id);
            i += 1;
            assert(r@ =~= self.planets@.take(i as int).map_values(|p: PlanetVisual| p.id));
        }
        assert(self.planets@.take(self.planets.len() as int) =~= self.planets@);
        r
    }

    /// Splits the edges of `snap` into those whose endpoints both have a
    /// visual and the others.
    fn split_edges(&self, snap: &GalaxySnapshot) -> (r: (Vec<(u32, u32)>, Vec<(u32, u32)>))
        requires
            self.wf(),
        ensures
            r.0@ == snap.edges@.filter(
                |e: (u32, u32)| self.has_planet(e.0) && self.has_planet(e.1),
            ),
            r.1@ == snap.edges@.filter(
                |e: (u32, u32)| !(self.has_planet(e.0) && self.has_planet(e.1)),
            ),
    {
        let mut kept: Vec<(u32, u32)> = Vec::new();
        let mut dropped: Vec<(u32, u32)> = Vec::new();
        let mut i: usize = 0;
        while i < snap.edges.len()
            invariant
                self.wf(),
                0 <= i <= snap.edges.len(),
                kept@ == snap.edges@.take(i as int).filter(
                    |e: (u32, u32)| self.has_planet(e.0) && self.has_planet(e.1),
                ),
                dropped@ == snap.edges@.take(i as int).filter(
                    |e: (u32, u32)| !(self.has_planet(e.0) && self.has_planet(e.1)),
                ),
            decreases snap.edges.len() - i,
        {
            let e = snap.edges[i];
            assert(snap.edges@.take(i + 1) =~= snap.edges@.take(i as int).push(e));
            proof {
                snap.edges@.take(i as int).lemma_filter_push(
                    e,
                    |e: (u32, u32)| self.has_planet(e.0) && self.has_planet(e.1),
                );
                snap.edges@.take(i as int).lemma_filter_push(
                    e,
                    |e: (u32, u32)| !(self.has_planet(e.0) && self.has_planet(e.1)),
                );
            }
            if self.contains_planet(e.0) && self.contains_planet(e.1) {
                kept.push(e);
            } else {
                dropped.push(e);
            }
            i += 1;
        }
        assert(snap.edges@.take(snap.edges.len() as int) =~= snap.edges@);
        (kept, dropped)
    }
    /// Rebuilds the edge visuals from `snap`: an edge is drawn exactly when
    /// both of its endpoints have a planet visual; the others are reported
    /// as dropped.
    pub fn draw_topology(&mut self, snap: &GalaxySnapshot) -> (c: EdgeChanges)
        requires
            old(self).wf(),
            snap.wf(),
        ensures
            final(self).wf(),
            final(self).planets@ == old(self).planets@,
            final(self).ring_size == old(self).ring_size,
            final(self).edges@ == snap.edges@.filter(
                |e: (u32, u32)| old(self).has_planet(e.0) && old(self).has_planet(e.1),
            ),
            forall|e: (u32, u32)|
                #[trigger] final(self).edges@.contains(e) <==> snap.has_edge(e) && old(
                    self,
                ).has_planet(e.0) && old(self).has_planet(e.1),
            c.added@ == final(self).edges@.filter(
                |e: (u32, u32)| !old(self).edges@.contains(e),
            ),
            c.removed@ == old(self).edges@.filter(
                |e: (u32, u32)| !final(self).edges@.contains(e),
            ),
            c.dropped@ == snap.edges@.filter(
                |e: (u32, u32)| !(old(self).has_planet(e.0) && old(self).has_planet(e.1)),
            ),
    {
        let (kept, dropped) = self.split_edges(snap);
        let added = edges_missing_from(&kept, &self.edges);
        let removed = edges_missing_from(&self.edges, &kept);
        proof {
            lemma_filter_distinct(
                snap.edges@,
                |e: (u32, u32)| self.has_planet(e.0) && self.has_planet(e.1),
            );
            assert forall|k: int| 0 <= k < kept@.len() implies is_canonical(#[trigger] kept@[k])
                && self.has_planet(kept@[k].0) && self.has_planet(kept@[k].1) by {
                assert(kept@.contains(kept@[k]));
                let j = choose|j: int| 0 <= j < snap.edges@.len() && snap.edges@[j] == kept@[k];
            }
        }
        self.edges = kept;
        EdgeChanges { added, removed, dropped }
    }

    /// Removes the visual of planet `planet_id` and every edge visual that
    /// touches it; returns the edges removed.
    pub fn destroy_link(&mut self, planet_id: u32) -> (removed: Vec<(u32, u32)>)
        requires
            old(self).wf(),
        ensures
            final(self).wf(),
            final(self).ring_size == old(self).ring_size,
            final(self).planets@ == old(self).planets@.filter(
                |p: PlanetVisual| p.id != planet_id,
            ),
            final(self).edges@ == old(self).edges@.filter(
                |e: (u32, u32)| e.0 != planet_id && e.1 != planet_id,
            ),
            removed@ == old(self).edges@.filter(
                |e: (u32, u32)| !(e.0 != planet_id && e.1 != planet_id),
            ),
            forall|id: u32| #[trigger] final(self).has_planet(id) <==> old(self).has_planet(id) && id != planet_id,
    {
        let mut planets: Vec<PlanetVisual> = Vec::new();
        let mut i: usize = 0;
        while i < self.planets.len()
            invariant
                0 <= i <= self.planets.len(),
                planets@ == self.planets@.take(i as int).filter(
                    |p: PlanetVisual| p.id != planet_id,
                ),
            decreases self.planets.len() - i,
        {
            let p = self.planets[i];
            assert(self.planets@.take(i + 1) =~= self.planets@.take(i as int).push(p));
            proof {
                self.planets@.take(i as int).lemma_filter_push(
                    p,
                    |p: PlanetVisual| p.id != planet_id,
                );
            }
            if p.id != planet_id {
                planets.push(p);
            }
            i += 1;
        }
        assert(self.planets@.take(self.planets.len() as int) =~= self.planets@);
        let mut kept: Vec<(u32, u32)> = Vec::new();
        let mut removed: Vec<(u32, u32)> = Vec::new();
        let mut j: usize = 0;
        while j < self.edges.len()
            invariant
                0 <= j <= self.edges.len(),
                kept@ == self.edges@.take(j as int).filter(
                    |e: (u32, u32)| e.0 != planet_id && e.1 != planet_id,
                ),
                removed@ == self.edges@.take(j as int).filter(
                    |e: (u32, u32)| !(e.0 != planet_id && e.1 != planet_id),
                ),
            decreases self.edges.len() - j,
        {
            let e = self.edges[j];
            assert(self.edges@.take(j + 1) =~= self.edges@.take(j as int).push(e));
            proof {
                self.edges@.take(j as int).lemma_filter_push(
                    e,
                    |e: (u32, u32)| e.0 != planet_id && e.1 != planet_id,
                );
                self.edges@.take(j as int).lemma_filter_push(
                    e,
                    |e: (u32, u32)| !(e.0 != planet_id && e.1 != planet_id),
                );
            }
            if e.0 != planet_id && e.1 != planet_id {
                kept.push(e);
            } else {
                removed.push(e);
            }
            j += 1;
        }
        assert(self.edges@.take(self.edges.len() as int) =~= self.edges@);
        proof {
            lemma_filter_distinct(self.planets@, |p: PlanetVisual| p.id != planet_id);
            lemma_filter_distinct(self.edges@, |e: (u32, u32)| e.0 != planet_id && e.1 != planet_id);
            assert forall|k: int| 0 <= k < planets@.len() implies #[trigger] planets@[k] == visual_of(planets@[k].id) by {
                assert(planets@.contains(planets@[k]));
                let m = choose|m: int| 0 <= m < self.planets@.len() && self.planets@[m] == planets@[k];
            }
            assert forall|k: int| 0 <= k < kept@.len() implies is_canonical(#[trigger] kept@[k])
                && planets@.contains(visual_of(kept@[k].0)) && planets@.contains(visual_of(kept@[k].1)) by {
                assert(kept@.contains(kept@[k]));
                let m = choose|m: int| 0 <= m < self.edges@.len() && self.edges@[m] == kept@[k];
            }
        }
        self.planets = planets;
        self.edges = kept;
        removed
    }

    /// Makes the view match `snap`: planets that vanished lose their visual,
    /// planets that appeared get one, and the edges are rebuilt so that an
    /// edge is drawn exactly when the snapshot holds it and both its
    /// endpoints are live. The ring keeps its size.
    pub fn reconcile(&mut self, snap: &GalaxySnapshot) -> (r: Reconciliation)
        requires
            old(self).wf(),
            snap.wf(),
        ensures
            final(self).wf(),
            final(self).ring_size == old(self).ring_size,
            final(self).planets@.len() == snap.planet_ids@.len(),
            final(self).planet_ids() == snap.planet_ids@,
            final(self).matches(snap),
            forall|id: u32| #[trigger] final(self).has_planet(id) <==> snap.has_planet(id),
            forall|k: int|
                0 <= k < final(self).edges@.len() ==> snap.has_planet(
                    #[trigger] final(self).edges@[k].0,
                ) && snap.has_planet(final(self).edges@[k].1),
            forall|e: (u32, u32)|
                #[trigger] final(self).edges@.contains(e) <==> snap.has_edge(e) && snap.has_planet(e.0)
                    && snap.has_planet(e.1),
            r.despawned_planets@ == old(self).planet_ids().filter(
                |x: u32| !snap.planet_ids@.contains(x),
            ),
            r.spawned_planets@ == snap.planet_ids@.filter(
                |x: u32| !old(self).planet_ids().contains(x),
            ),
            r.edges.added@ == final(self).edges@.filter(
                |e: (u32, u32)| !old(self).edges@.contains(e),
            ),
            r.edges.removed@ == old(self).edges@.filter(
                |e: (u32, u32)| !final(self).edges@.contains(e),
            ),
            r.edges.dropped@ == snap.edges@.filter(
                |e: (u32, u32)| !(snap.has_planet(e.0) && snap.has_planet(e.1)),
            ),
    {
        let old_ids = self.ids();
        let despawned_planets = ids_missing_from(&old_ids, &snap.planet_ids);
        let spawned_planets = ids_missing_from(&snap.planet_ids, &old_ids);
        let mut old_edges: Vec<(u32, u32)> = Vec::new();
        std::mem::swap(&mut old_edges, &mut self.edges);
        self.planets = Self::visuals_of(snap);
        let ghost mid = *self;
        let changes = self.draw_topology(snap);
        assert((|e: (u32, u32)| !(mid.has_planet(e.0) && mid.has_planet(e.1))) =~= (|e: (u32, u32)|
            !(snap.has_planet(e.0) && snap.has_planet(e.1))));
        let added = edges_missing_from(&self.edges, &old_edges);
        let removed = edges_missing_from(&old_edges, &self.edges);
        assert(self.planet_ids() =~= snap.planet_ids@);
        Reconciliation {
            despawned_planets,
            spawned_planets,
            edges: EdgeChanges { added, removed, dropped: changes.dropped },
        }
    }
}

/// After reconciliation with a snapshot built from the reported edges, the
/// pair `a`, `b` is drawn, once and in canonical form, exactly when the
/// simulation reported it in either order and both planets are live.
pub proof fn lemma_edge_drawn_iff_reported(
    view: GalaxyView,
    snap: GalaxySnapshot,
    edges: Seq<(u32, u32)>,
    ids: Seq<u32>,
    a: u32,
    b: u32,
)
    requires
        snap.reports(edges, ids),
        view.matches(&snap),
    ensures
        view.edges@.contains(canon((a, b))) <==> (edges.contains((a, b)) || edges.contains((b, a)))
            && ids.contains(a) && ids.contains(b),
{
    let c = canon((a, b));
    assert(snap.has_edge(c) <==> names_edge(edges, c));
    if edges.contains((a, b)) {
        let k = choose|k: int| 0 <= k < edges.len() && edges[k] == (a, b);
        assert(canon(edges[k]) == c);
    }
    if edges.contains((b, a)) {
        let k = choose|k: int| 0 <= k < edges.len() && edges[k] == (b, a);
        assert(canon(edges[k]) == c);
    }
    if names_edge(edges, c) {
        let k = choose|k: int| 0 <= k < edges.len() && canon(#[trigger] edges[k]) == c;
        assert(edges[k] == (a, b) || edges[k] == (b, a));
    }
    assert(snap.has_planet(c.0) && snap.has_planet(c.1) <==> snap.has_planet(a) && snap.has_planet(b));
}

} // verus!
