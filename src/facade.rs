use vstd::prelude::*;

verus! {

/// Why a command to the simulation was not made or did not succeed.
#[derive(Clone, Copy, PartialEq, Eq, Structural, Debug)]
pub enum FacadeError {
    BadPath,
    ParseError,
    AlreadyInitialized,
    NotInitialized,
    /// The simulation refused a forwarded command.
    CommandFailed,
}

/// What to do with a start or stop command.
#[derive(Clone, Copy, PartialEq, Eq, Structural, Debug)]
pub enum FacadeCall {
    /// Pass the command on to the simulation.
    Forward,
    /// The simulation is already in the asked-for state: drop the command.
    Swallowed,
    /// The simulation was never loaded: the command fails.
    Refused,
}

/// The bookkeeping of the boundary to the simulation: whether a galaxy was
/// loaded and whether it is running. Start and stop commands that would not
/// change it are swallowed.
#[derive(Clone, Copy, PartialEq, Eq, Structural, Debug)]
pub struct OrchestratorFacade {
    pub initialized: bool,
    pub running: bool,
}

pub open spec fn start_decision(f: OrchestratorFacade) -> FacadeCall {
    if !f.initialized {
        FacadeCall::Refused
    } else if f.running {
        FacadeCall::Swallowed
    } else {
        FacadeCall::Forward
    }
}

pub open spec fn stop_decision(f: OrchestratorFacade) -> FacadeCall {
    if !f.initialized {
        FacadeCall::Refused
    } else if !f.running {
        FacadeCall::Swallowed
    } else {
        FacadeCall::Forward
    }
}

/// The facade after a start command whose forwarded call returned `ok`.
pub open spec fn after_start(f: OrchestratorFacade, ok: bool) -> OrchestratorFacade {
    if start_decision(f) == FacadeCall::Forward && ok {
        OrchestratorFacade { initialized: true, running: true }
    } else {
        f
    }
}

/// The facade after a stop command whose forwarded call returned `ok`.
pub open spec fn after_stop(f: OrchestratorFacade, ok: bool) -> OrchestratorFacade {
    if stop_decision(f) == FacadeCall::Forward && ok {
        OrchestratorFacade { initialized: true, running: false }
    } else {
        f
    }
}

impl OrchestratorFacade {
    /// Nothing loaded yet.
    pub fn new() -> (r: Self)
        ensures
            !r.initialized,
            !r.running,
    {
        OrchestratorFacade { initialized: false, running: false }
    }

    /// Whether a galaxy may be loaded now: only once.
    pub fn begin_initialize(&self) -> (r: Result<(), FacadeError>)
        ensures
            r is Ok <==> !self.initialized,
            r is Err ==> r == Err::<(), FacadeError>(FacadeError::AlreadyInitialized),
    {
        if self.initialized {
            Err(FacadeError::AlreadyInitialized)
        } else {
            Ok(())
        }
    }

    /// Records the outcome of loading a galaxy.
    pub fn record_initialized(&mut self, ok: bool)
        ensures
            ok ==> final(self).initialized && !final(self).running,
            !ok ==> *final(self) == *old(self),
    {
        if ok {
            self.initialized = true;
            self.running = false;
        }
    }

    /// Forgets the loaded galaxy, so that it can be loaded again.
    pub fn reset(&mut self)
        ensures
            !final(self).initialized,
            !final(self).running,
    {
        self.initialized = false;
        self.running = false;
    }

    /// What to do with a start command.
    pub fn start_all(&self) -> (r: FacadeCall)
        ensures
            r == start_decision(*self),
    {
        if !self.initialized {
            FacadeCall::Refused
        } else if self.running {
            FacadeCall::Swallowed
        } else {
            FacadeCall::Forward
        }
    }

    /// What to do with a stop command.
    pub fn stop_all(&self) -> (r: FacadeCall)
        ensures
            r == stop_decision(*self),
    {
        if !self.initialized {
            FacadeCall::Refused
        } else if !self.running {
            FacadeCall::Swallowed
        } else {
            FacadeCall::Forward
        }
    }

    /// Records a start command; `ok` is what the forwarded call returned
    /// (ignored where nothing was forwarded). Returns the command's result.
    pub fn record_start(&mut self, ok: bool) -> (r: Result<(), FacadeError>)
        ensures
            *final(self) == after_start(*old(self), ok),
            r is Err <==> !old(self).initialized || (start_decision(*old(self))
                == FacadeCall::Forward && !ok),
            !old(self).initialized ==> r == Err::<(), FacadeError>(FacadeError::NotInitialized),
            old(self).initialized && r is Err ==> r == Err::<(), FacadeError>(
                FacadeError::CommandFailed,
            ),
    {
        match self.start_all() {
            FacadeCall::Refused => Err(FacadeError::NotInitialized),
            FacadeCall::Swallowed => Ok(()),
            FacadeCall::Forward => {
                if ok {
                    self.running = true;
                    Ok(())
                } else {
                    Err(FacadeError::CommandFailed)
                }
            },
        }
    }

    /// Records a stop command, as `record_start` does.
    pub fn record_stop(&mut self, ok: bool) -> (r: Result<(), FacadeError>)
        ensures
            *final(self) == after_stop(*old(self), ok),
            r is Err <==> !old(self).initialized || (stop_decision(*old(self))
                == FacadeCall::Forward && !ok),
            !old(self).initialized ==> r == Err::<(), FacadeError>(FacadeError::NotInitialized),
            old(self).initialized && r is Err ==> r == Err::<(), FacadeError>(
                FacadeError::CommandFailed,
            ),
    {
        match self.stop_all() {
            FacadeCall::Refused => Err(FacadeError::NotInitialized),
            FacadeCall::Swallowed => Ok(()),
            FacadeCall::Forward => {
                if ok {
                    self.running = false;
                    Ok(())
                } else {
                    Err(FacadeError::CommandFailed)
                }
            },
        }
    }
}

/// A second start after a start that took effect is swallowed and changes
/// nothing, whatever its call would have returned: two starts leave the
/// same state as one.
pub proof fn lemma_start_all_idempotent(f: OrchestratorFacade, ok: bool)
    requires
        f.initialized,
    ensures
        ({
            let once = after_start(f, true);
            &&& start_decision(once) == FacadeCall::Swallowed
            &&& after_start(once, ok) == once
        }),
{
}

} // verus!
