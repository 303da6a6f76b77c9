use vstd::prelude::*;

verus! {

/// Length of the one-shot countdown restarted on every start, in milliseconds.
pub const GAME_TIMER_MS: u64 = 1000;

/// Period of the fixed tick that polls the simulation, in milliseconds.
pub const GAME_TICK_MS: u64 = 600;

#[derive(Clone, Copy, PartialEq, Eq, Structural, Debug)]
pub enum GameState {
    WaitingStart,
    Running,
    Paused,
}

#[derive(Clone, Copy, PartialEq, Eq, Structural, Debug)]
pub enum GameEvent {
    StartGame,
    StopGame,
    ResetGame,
    EndGame,
}

/// The simulation call that goes with a transition.
#[derive(Clone, Copy, PartialEq, Eq, Structural, Debug)]
pub enum OrchestratorCall {
    NoCall,
    StartAll,
    StopAll,
    Reinitialize,
}

/// The decision taken for one event: the state to move to, the call to
/// make first, whether the countdown restarts, and whether the event was
/// legal in the state it arrived in.
#[derive(Clone, Copy, PartialEq, Eq, Structural, Debug)]
pub struct GameStep {
    pub next: GameState,
    pub call: OrchestratorCall,
    pub timer_reset: bool,
    pub legal: bool,
}

pub open spec fn step_of(
    next: GameState,
    call: OrchestratorCall,
    timer_reset: bool,
    legal: bool,
) -> GameStep {
    GameStep { next, call, timer_reset, legal }
}

/// The transition table of the game.
pub open spec fn transition(s: GameState, e: GameEvent) -> GameStep {
    match (s, e) {
        (GameState::WaitingStart, GameEvent::StartGame) => step_of(
            GameState::Running,
            OrchestratorCall::StartAll,
            true,
            true,
        ),
        (GameState::Paused, GameEvent::StartGame) => step_of(
            GameState::Running,
            OrchestratorCall::StartAll,
            true,
            true,
        ),
        (GameState::Running, GameEvent::StopGame) => step_of(
            GameState::Paused,
            OrchestratorCall::NoCall,
            false,
            true,
        ),
        (_, GameEvent::ResetGame) => step_of(
            GameState::WaitingStart,
            OrchestratorCall::Reinitialize,
            false,
            true,
        ),
        (_, GameEvent::EndGame) => step_of(
            GameState::WaitingStart,
            OrchestratorCall::StopAll,
            false,
            true,
        ),
        _ => step_of(s, OrchestratorCall::NoCall, false, false),
    }
}

/// The events that the table ignores in each state.
pub open spec fn is_illegal(s: GameState, e: GameEvent) -> bool {
    ||| (s == GameState::WaitingStart && e == GameEvent::StopGame)
    ||| (s == GameState::Running && e == GameEvent::StartGame)
    ||| (s == GameState::Paused && e == GameEvent::StopGame)
}

/// Decides what `event` does in state `state`. An illegal event keeps the
/// state and makes no call.
pub fn plan(state: GameState, event: GameEvent) -> (r: GameStep)
    ensures
        r == transition(state, event),
        r.legal == !is_illegal(state, event),
        !r.legal ==> r.next == state && r.call == OrchestratorCall::NoCall && !r.timer_reset,
{
    match (state, event) {
        (GameState::WaitingStart, GameEvent::StartGame) => GameStep {
            next: GameState::Running,
            call: OrchestratorCall::StartAll,
            timer_reset: true,
            legal: true,
        },
        (GameState::Paused, GameEvent::StartGame) => GameStep {
            next: GameState::Running,
            call: OrchestratorCall::StartAll,
            timer_reset: true,
            legal: true,
        },
        (GameState::Running, GameEvent::StopGame) => GameStep {
            next: GameState::Paused,
            call: OrchestratorCall::NoCall,
            timer_reset: false,
            legal: true,
        },
        (_, GameEvent::ResetGame) => GameStep {
            next: GameState::WaitingStart,
            call: OrchestratorCall::Reinitialize,
            timer_reset: false,
            legal: true,
        },
        (_, GameEvent::EndGame) => GameStep {
            next: GameState::WaitingStart,
            call: OrchestratorCall::StopAll,
            timer_reset: false,
            legal: true,
        },
        _ => GameStep { next: state, call: OrchestratorCall::NoCall, timer_reset: false, legal: false },
    }
}

/// Starting, stopping and starting again ends in the running state, with the
/// countdown restarted by the last start, from whichever state it began.
pub proof fn lemma_start_stop_start(s: GameState)
    ensures
        ({
            let a = transition(s, GameEvent::StartGame);
            let b = transition(a.next, GameEvent::StopGame);
            let c = transition(b.next, GameEvent::StartGame);
            &&& b.next == GameState::Paused
            &&& c.next == GameState::Running
            &&& c.timer_reset
            &&& c.call == OrchestratorCall::StartAll
        }),
{
}

/// A one-shot countdown, in milliseconds.
#[derive(Clone, Copy, PartialEq, Eq, Structural, Debug)]
pub struct GameTimer {
    pub duration_ms: u64,
    pub elapsed_ms: u64,
}

impl GameTimer {
    pub open spec fn wf(&self) -> bool {
        self.elapsed_ms <= self.duration_ms
    }

    pub fn new(duration_ms: u64) -> (r: Self)
        ensures
            r.wf(),
            r.duration_ms == duration_ms,
            r.elapsed_ms == 0,
    {
        GameTimer { duration_ms, elapsed_ms: 0 }
    }

    /// Advances the countdown by `delta_ms`; it stops at its duration.
    pub fn tick(&mut self, delta_ms: u64)
        requires
            old(self).wf(),
        ensures
            final(self).wf(),
            final(self).duration_ms == old(self).duration_ms,
            final(self).elapsed_ms == if old(self).elapsed_ms + delta_ms <= old(self).duration_ms {
                old(self).elapsed_ms + delta_ms
            } else {
                old(self).duration_ms as int
            },
    {
        if delta_ms <= self.duration_ms - self.elapsed_ms {
            self.elapsed_ms = self.elapsed_ms + delta_ms;
        } else {
            self.elapsed_ms = self.duration_ms;
        }
    }

    /// Whether the countdown has run out.
    pub fn finished(&self) -> (r: bool)
        ensures
            r == (self.elapsed_ms >= self.duration_ms),
    {
        self.elapsed_ms >= self.duration_ms
    }

    /// Restarts the countdown.
    pub fn reset(&mut self)
        ensures
            final(self).duration_ms == old(self).duration_ms,
            final(self).elapsed_ms == 0,
            final(self).wf(),
    {
        self.elapsed_ms = 0;
    }
}

/// The game: its state and the countdown restarted on every start.
#[derive(Clone, Copy, PartialEq, Eq, Structural, Debug)]
pub struct Game {
    pub state: GameState,
    pub timer: GameTimer,
}

impl Game {
    pub open spec fn wf(&self) -> bool {
        self.timer.wf()
    }

    /// A game waiting for its start, with a countdown of one second.
    pub fn new() -> (r: Self)
        ensures
            r.wf(),
            r.state == GameState::WaitingStart,
            r.timer.duration_ms == GAME_TIMER_MS,
            r.timer.elapsed_ms == 0,
    {
        Game { state: GameState::WaitingStart, timer: GameTimer::new(GAME_TIMER_MS) }
    }

    /// What `event` would do now; nothing changes until `commit`.
    pub fn plan(&self, event: GameEvent) -> (r: GameStep)
        ensures
            r == transition(self.state, event),
    {
        plan(self.state, event)
    }

    /// Applies a planned step once its call has been made: `call_ok` tells
    /// whether the call succeeded (it is ignored where there was no call).
    /// An illegal step, or a step whose call failed, leaves the game as it
    /// was.
    pub fn commit(&mut self, step: GameStep, call_ok: bool)
        requires
            old(self).wf(),
        ensures
            final(self).wf(),
            ({
                let applies = step.legal && (step.call == OrchestratorCall::NoCall || call_ok);
                &&& applies ==> final(self).state == step.next
                &&& !applies ==> *final(self) == *old(self)
                &&& applies && step.timer_reset ==> final(self).timer.elapsed_ms == 0
                &&& !step.timer_reset ==> final(self).timer == old(self).timer
                &&& final(self).timer.duration_ms == old(self).timer.duration_ms
            }),
    {
        let applies = step.legal && (step.call == OrchestratorCall::NoCall || call_ok);
        if applies {
            self.state = step.next;
            if step.timer_reset {
                self.timer.reset();
            }
        }
    }

    /// Plans and commits `event` in one go, for a call that succeeded.
    pub fn handle(&mut self, event: GameEvent) -> (r: GameStep)
        requires
            old(self).wf(),
        ensures
            final(self).wf(),
            r == transition(old(self).state, event),
            final(self).state == r.next,
            r.timer_reset ==> final(self).timer.elapsed_ms == 0,
            !r.timer_reset ==> final(self).timer == old(self).timer,
    {
        let step = self.plan(event);
        self.commit(step, true);
        step
    }

    /// Advances the countdown by one frame of `delta_ms` milliseconds.
    pub fn tick(&mut self, delta_ms: u64)
        requires
            old(self).wf(),
        ensures
            final(self).wf(),
            final(self).state == old(self).state,
            final(self).timer.duration_ms == old(self).timer.duration_ms,
            final(self).timer.elapsed_ms == if old(self).timer.elapsed_ms + delta_ms
                <= old(self).timer.duration_ms {
                old(self).timer.elapsed_ms + delta_ms
            } else {
                old(self).timer.duration_ms as int
            },
    {
        self.timer.tick(delta_ms);
    }
}

} // verus!
