use galaxy_view::galaxy::{planet_visual, GalaxyView, PlanetVisual, PLANET_SPRITE_NUM};
use galaxy_view::store::GameSnapshot;
use galaxy_view::topology::{canonical_edge, GalaxySnapshot};

fn ring4() -> GalaxySnapshot {
    GalaxySnapshot::from_topology(vec![(0, 1), (1, 2), (2, 3), (3, 0)], 4)
}

fn sorted(mut v: Vec<(u32, u32)>) -> Vec<(u32, u32)> {
    v.sort();
    v
}

#[test]
fn ring_layout_of_four_planets() {
    let snap = ring4();
    let mut view = GalaxyView::setup(&snap);
    let changes = view.draw_topology(&snap);
    assert_eq!(view.planets.len(), 4);
    assert_eq!(view.ring_size, 4);
    let ids: Vec<u32> = view.planets.iter().map(|p| p.id).collect();
    assert_eq!(ids, vec![0, 1, 2, 3]);
    assert_eq!(sorted(view.edges.clone()), vec![(0, 1), (0, 3), (1, 2), (2, 3)]);
    assert_eq!(changes.added.len(), 4);
    assert!(changes.removed.is_empty());
    assert!(changes.dropped.is_empty());
    // positions on the ring, slot i of 4 at radius 250
    for p in &view.planets {
        let angle = std::f64::consts::TAU * (p.id as f64) / (view.ring_size as f64);
        let (x, y) = (250.0 * angle.cos(), 250.0 * angle.sin());
        let expected = [(250.0, 0.0), (0.0, 250.0), (-250.0, 0.0), (0.0, -250.0)][p.id as usize];
        assert!((x - expected.0).abs() < 1e-6 && (y - expected.1).abs() < 1e-6);
    }
}

#[test]
fn despawn_propagates_to_edges() {
    let snap = ring4();
    let mut view = GalaxyView::setup(&snap);
    view.draw_topology(&snap);
    let next = GalaxySnapshot::new(vec![(0, 1), (1, 2), (2, 3), (3, 0)], vec![0, 1, 3]);
    let r = view.reconcile(&next);
    assert_eq!(r.despawned_planets, vec![2]);
    assert!(r.spawned_planets.is_empty());
    assert_eq!(sorted(r.edges.removed.clone()), vec![(1, 2), (2, 3)]);
    assert_eq!(sorted(view.edges.clone()), vec![(0, 1), (0, 3)]);
    assert!(view.planets.iter().all(|p| p.id != 2));
    assert_eq!(view.planets.len(), 3);
    assert_eq!(view.ring_size, 4);
}

#[test]
fn destroy_link_removes_planet_and_incident_edges() {
    let snap = ring4();
    let mut view = GalaxyView::setup(&snap);
    view.draw_topology(&snap);
    let removed = view.destroy_link(2);
    assert_eq!(sorted(removed), vec![(1, 2), (2, 3)]);
    assert_eq!(sorted(view.edges.clone()), vec![(0, 1), (0, 3)]);
    assert!(!view.contains_planet(2));
    assert!(view.contains_planet(3));
}

#[test]
fn duplicate_edges_are_drawn_once() {
    let snap = GalaxySnapshot::new(vec![(3, 1), (1, 3)], vec![0, 1, 2, 3]);
    assert_eq!(snap.edges, vec![(1, 3)]);
    let mut view = GalaxyView::setup(&snap);
    view.draw_topology(&snap);
    assert_eq!(view.edges, vec![(1, 3)]);
}

#[test]
fn edge_to_missing_planet_is_dropped() {
    let snap = GalaxySnapshot::from_topology(vec![(0, 99), (0, 1)], 2);
    let mut view = GalaxyView::setup(&snap);
    let changes = view.draw_topology(&snap);
    assert_eq!(changes.dropped, vec![(0, 99)]);
    assert_eq!(view.edges, vec![(0, 1)]);
    let r = view.reconcile(&snap);
    assert_eq!(r.edges.dropped, vec![(0, 99)]);
    assert_eq!(view.edges, vec![(0, 1)]);
}

#[test]
fn planet_count_follows_snapshot() {
    let snap = ring4();
    let mut view = GalaxyView::setup(&snap);
    let next = GalaxySnapshot::new(vec![(5, 0)], vec![0, 5, 5, 1]);
    assert_eq!(next.planet_num(), 3);
    let r = view.reconcile(&next);
    assert_eq!(view.planets.len(), next.planet_num());
    assert_eq!(r.spawned_planets, vec![5]);
    assert_eq!(r.despawned_planets, vec![2, 3]);
    assert_eq!(view.edges, vec![(0, 5)]);
    for (a, b) in &view.edges {
        assert!(view.contains_planet(*a) && view.contains_planet(*b));
    }
}

#[test]
fn sprites_round_robin() {
    assert_eq!(PLANET_SPRITE_NUM, 7);
    assert_eq!(planet_visual(0), PlanetVisual { id: 0, sprite: 0 });
    assert_eq!(planet_visual(9), PlanetVisual { id: 9, sprite: 2 });
    assert_eq!(planet_visual(13), PlanetVisual { id: 13, sprite: 6 });
}

#[test]
fn canonical_edges() {
    assert_eq!(canonical_edge(3, 1), (1, 3));
    assert_eq!(canonical_edge(1, 3), (1, 3));
    assert_eq!(canonical_edge(4, 4), (4, 4));
}

#[test]
fn empty_snapshot_has_nothing() {
    let snap = GalaxySnapshot::from_topology(vec![], 0);
    let view = GalaxyView::setup(&snap);
    assert!(view.planets.is_empty());
    assert!(view.edges.is_empty());
    let e = GalaxySnapshot::empty();
    assert_eq!(e.planet_num(), 0);
}

#[test]
fn store_reports_differences() {
    let mut store = GameSnapshot::new(ring4());
    assert!(store.changed);
    let d = store.update(ring4());
    assert!(!store.changed);
    assert!(d.vanished_planets.is_empty() && d.added_edges.is_empty());
    let d = store.update(GalaxySnapshot::new(vec![(0, 1), (1, 4)], vec![0, 1, 3, 4]));
    assert!(store.changed);
    assert_eq!(d.vanished_planets, vec![2]);
    assert_eq!(d.appeared_planets, vec![4]);
    assert_eq!(d.added_edges, vec![(1, 4)]);
    assert_eq!(d.removed_edges, vec![(1, 2), (2, 3), (0, 3)]);
    assert_eq!(store.current().planet_num(), 4);
    store.clear();
    assert_eq!(store.current().planet_num(), 0);
    assert!(store.current().edges.is_empty());
}
