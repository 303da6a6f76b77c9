use vstd::prelude::*;

verus! {

/// The actions behind the buttons of the side menu.
#[derive(Clone, Copy, PartialEq, Eq, Structural, Debug)]
pub enum ButtonActions {
    StartGame,
    StopGame,
    ManualAsteroid,
    ManualSunray,
    Blind,
    Nuke,
}

/// The lines of the selected-planet block of the side menu.
#[derive(Clone, Copy, PartialEq, Eq, Structural, Debug)]
pub enum UiPlanetText {
    Name,
    Id,
    Energy,
    Rocket,
}

/// The lines of the selected-explorer block of the side menu.
#[derive(Clone, Copy, PartialEq, Eq, Structural, Debug)]
pub enum UiExplorerText {
    Id,
    Visiting,
    Status,
    ResourceBag,
}

/// The kinds of transient hazard that can strike a planet.
#[derive(Clone, Copy, PartialEq, Eq, Structural, Debug)]
pub enum CelestialBody {
    Sunray,
    Asteroid,
}

/// The log shown in the side menu: the latest `capacity` lines, oldest
/// first.
pub struct LogText {
    pub lines: Vec<String>,
    pub capacity: usize,
}

impl LogText {
    pub open spec fn wf(&self) -> bool {
        &&& self.capacity > 0
        &&& self.lines@.len() <= self.capacity
    }

    /// An empty log that keeps at most `capacity` lines.
    pub fn new(capacity: usize) -> (r: Self)
        requires
            capacity > 0,
        ensures
            r.wf(),
            r.capacity == capacity,
            r.lines@.len() == 0,
    {
        LogText { lines: Vec::new(), capacity }
    }

    /// Appends `line`; when the log is full its oldest line goes.
    pub fn push(&mut self, line: String)
        requires
            old(self).wf(),
        ensures
            final(self).wf(),
            final(self).capacity == old(self).capacity,
            final(self).lines@ == if old(self).lines@.len() < old(self).capacity {
                old(self).lines@.push(line)
            } else {
                old(self).lines@.drop_first().push(line)
            },
    {
        if self.lines.len() >= self.capacity {
            self.lines.remove(0);
        }
        self.lines.push(line);
    }

    /// The number of lines held.
    pub fn len(&self) -> (r: usize)
        ensures
            r == self.lines@.len(),
    {
        self.lines.len()
    }
}

} // verus!
