use vstd::prelude::*;
use crate::components::CelestialBody;

verus! {

/// Number of angular slots around a planet for the explorers visiting it.
pub const EXPLORER_SLOTS: u32 = 8;

/// The angular slot, around its planet, of explorer `explorer_id`.
pub fn explorer_slot(explorer_id: u32) -> (r: u32)
    ensures
        r == explorer_id % EXPLORER_SLOTS,
        r < EXPLORER_SLOTS,
{
    explorer_id % EXPLORER_SLOTS
}

/// A hazard being shown on a planet, with the ticks it has left.
#[derive(Clone, Copy, PartialEq, Eq, Structural, Debug)]
pub struct ActiveCelestial {
    pub kind: CelestialBody,
    pub planet_id: u32,
    pub ticks_left: u32,
}

pub open spec fn aged(c: ActiveCelestial) -> ActiveCelestial {
    ActiveCelestial { kind: c.kind, planet_id: c.planet_id, ticks_left: (c.ticks_left - 1) as u32 }
}

/// The hazards being shown, at most one of each kind per planet.
pub struct CelestialOverlay {
    pub active: Vec<ActiveCelestial>,
}

impl CelestialOverlay {
    pub open spec fn shows(&self, kind: CelestialBody, planet_id: u32) -> bool {
        exists|k: int|
            0 <= k < self.active@.len() && (#[trigger] self.active@[k]).kind == kind
                && self.active@[k].planet_id == planet_id
    }

    /// Every hazard shown has ticks left.
    pub open spec fn wf(&self) -> bool {
        forall|k: int| 0 <= k < self.active@.len() ==> (#[trigger] self.active@[k]).ticks_left > 0
    }

    pub fn new() -> (r: Self)
        ensures
            r.wf(),
            r.active@.len() == 0,
    {
        CelestialOverlay { active: Vec::new() }
    }

    /// Whether a hazard of `kind` is shown on planet `planet_id`.
    pub fn is_shown(&self, kind: CelestialBody, planet_id: u32) -> (r: bool)
        ensures
            r == self.shows(kind, planet_id),
    {
        let mut i: usize = 0;
        while i < self.active.len()
            invariant
                0 <= i <= self.active.len(),
                forall|k: int|
                    0 <= k < i ==> !((#[trigger] self.active@[k]).kind == kind
                        && self.active@[k].planet_id == planet_id),
            decreases self.active.len() - i,
        {
            let c = self.active[i];
            if c.kind == kind && c.planet_id == planet_id {
                return true;
            }
            i += 1;
        }
        false
    }

    /// Shows a hazard of `kind` on planet `planet_id` for `lifetime` ticks,
    /// unless one of that kind is shown there already: the duplicate is
    /// dropped and `false` returned.
    pub fn try_spawn(&mut self, kind: CelestialBody, planet_id: u32, lifetime: u32) -> (r: bool)
        requires
            old(self).wf(),
            lifetime > 0,
        ensures
            final(self).wf(),
            r == !old(self).shows(kind, planet_id),
            r ==> final(self).active@ == old(self).active@.push(
                ActiveCelestial { kind, planet_id, ticks_left: lifetime },
            ),
            !r ==> final(self).active@ == old(self).active@,
    {
        if self.is_shown(kind, planet_id) {
            false
        } else {
            self.active.push(ActiveCelestial { kind, planet_id, ticks_left: lifetime });
            true
        }
    }

    /// Ages every hazard by one tick; those whose time is up are removed and
    /// returned, the others stay in order.
    pub fn tick(&mut self) -> (expired: Vec<ActiveCelestial>)
        requires
            old(self).wf(),
        ensures
            final(self).wf(),
            final(self).active@ == old(self).active@.filter(
                |c: ActiveCelestial| c.ticks_left > 1,
            ).map_values(|c: ActiveCelestial| aged(c)),
            expired@ == old(self).active@.filter(|c: ActiveCelestial| c.ticks_left <= 1),
    {
        let mut kept: Vec<ActiveCelestial> = Vec::new();
        let mut expired: Vec<ActiveCelestial> = Vec::new();
        let mut i: usize = 0;
        while i < self.active.len()
            invariant
                self.wf(),
                0 <= i <= self.active.len(),
                kept@ == self.active@.take(i as int).filter(
                    |c: ActiveCelestial| c.ticks_left > 1,
                ).map_values(|c: ActiveCelestial| aged(c)),
                expired@ == self.active@.take(i as int).filter(
                    |c: ActiveCelestial| c.ticks_left <= 1,
                ),
                forall|k: int| 0 <= k < kept@.len() ==> (#[trigger] kept@[k]).ticks_left > 0,
            decreases self.active.len() - i,
        {
            let c = self.active[i];
            assert(self.active@.take(i + 1) =~= self.active@.take(i as int).push(c));
            proof {
                self.active@.take(i as int).lemma_filter_push(
                    c,
                    |c: ActiveCelestial| c.ticks_left > 1,
                );
                self.active@.take(i as int).lemma_filter_push(
                    c,
                    |c: ActiveCelestial| c.ticks_left <= 1,
                );
            }
            if c.ticks_left > 1 {
                kept.push(ActiveCelestial { kind: c.kind, planet_id: c.planet_id, ticks_left: c.ticks_left - 1 });
                assert(kept@ =~= self.active@.take(i + 1).filter(
                    |c: ActiveCelestial| c.ticks_left > 1,
                ).map_values(|c: ActiveCelestial| aged(c)));
            } else {
                expired.push(c);
            }
            i += 1;
        }
        assert(self.active@.take(self.active.len() as int) =~= self.active@);
        self.active = kept;
        expired
    }
}

} // verus!
