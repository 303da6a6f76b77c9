use galaxy_view::components::{ButtonActions, CelestialBody, LogText};
use galaxy_view::facade::{FacadeCall, FacadeError, OrchestratorFacade};
use galaxy_view::game::{plan, Game, GameEvent, GameState, GameTimer, OrchestratorCall};
use galaxy_view::overlay::{explorer_slot, CelestialOverlay};
use galaxy_view::ui::{button_color, button_hover, command_of, ButtonColor, Interaction, MenuCommand};

#[test]
fn start_stop_scenario() {
    let mut game = Game::new();
    let mut start_calls = 0;
    let step = game.plan(GameEvent::StartGame);
    if step.call == OrchestratorCall::StartAll {
        start_calls += 1;
    }
    game.commit(step, true);
    assert_eq!(game.state, GameState::Running);
    let step = game.plan(GameEvent::StopGame);
    if step.call == OrchestratorCall::StartAll {
        start_calls += 1;
    }
    game.commit(step, true);
    assert_eq!(game.state, GameState::Paused);
    assert_eq!(start_calls, 1);
    let step = game.plan(GameEvent::StopGame);
    assert!(!step.legal);
    game.commit(step, true);
    assert_eq!(game.state, GameState::Paused);
}

#[test]
fn illegal_events_keep_state() {
    for (s, e) in [
        (GameState::WaitingStart, GameEvent::StopGame),
        (GameState::Running, GameEvent::StartGame),
        (GameState::Paused, GameEvent::StopGame),
    ] {
        let step = plan(s, e);
        assert!(!step.legal);
        assert_eq!(step.next, s);
        assert_eq!(step.call, OrchestratorCall::NoCall);
    }
}

#[test]
fn transition_table() {
    let st = plan(GameState::Paused, GameEvent::StartGame);
    assert_eq!((st.next, st.call, st.timer_reset), (GameState::Running, OrchestratorCall::StartAll, true));
    let st = plan(GameState::Running, GameEvent::EndGame);
    assert_eq!((st.next, st.call), (GameState::WaitingStart, OrchestratorCall::StopAll));
    let st = plan(GameState::WaitingStart, GameEvent::EndGame);
    assert_eq!((st.next, st.call), (GameState::WaitingStart, OrchestratorCall::StopAll));
    for s in [GameState::WaitingStart, GameState::Running, GameState::Paused] {
        let st = plan(s, GameEvent::ResetGame);
        assert_eq!((st.next, st.call), (GameState::WaitingStart, OrchestratorCall::Reinitialize));
    }
}

#[test]
fn failed_call_keeps_state() {
    let mut game = Game::new();
    let step = game.plan(GameEvent::StartGame);
    game.commit(step, false);
    assert_eq!(game.state, GameState::WaitingStart);
}

#[test]
fn start_stop_start_resets_timer() {
    let mut game = Game::new();
    game.handle(GameEvent::StartGame);
    game.tick(400);
    game.handle(GameEvent::StopGame);
    game.tick(700);
    assert!(game.timer.finished());
    game.handle(GameEvent::StartGame);
    assert_eq!(game.state, GameState::Running);
    assert_eq!(game.timer.elapsed_ms, 0);
    assert!(!game.timer.finished());
}

#[test]
fn timer_counts_down_once() {
    let mut t = GameTimer::new(1000);
    t.tick(600);
    assert_eq!(t.elapsed_ms, 600);
    assert!(!t.finished());
    t.tick(600);
    assert_eq!(t.elapsed_ms, 1000);
    assert!(t.finished());
    t.reset();
    assert_eq!(t.elapsed_ms, 0);
}

#[test]
fn start_all_twice_is_same_as_once() {
    let mut f = OrchestratorFacade::new();
    assert_eq!(f.start_all(), FacadeCall::Refused);
    assert_eq!(f.record_start(true), Err(FacadeError::NotInitialized));
    assert_eq!(f.begin_initialize(), Ok(()));
    f.record_initialized(true);
    assert_eq!(f.begin_initialize(), Err(FacadeError::AlreadyInitialized));
    assert_eq!(f.start_all(), FacadeCall::Forward);
    assert_eq!(f.record_start(true), Ok(()));
    let once = f;
    assert_eq!(f.start_all(), FacadeCall::Swallowed);
    assert_eq!(f.record_start(false), Ok(()));
    assert_eq!(f, once);
    assert_eq!(f.stop_all(), FacadeCall::Forward);
    assert_eq!(f.record_stop(false), Err(FacadeError::CommandFailed));
    assert!(f.running);
    assert_eq!(f.record_stop(true), Ok(()));
    assert!(!f.running);
    f.reset();
    assert!(!f.initialized);
}

#[test]
fn button_color_machine() {
    assert_eq!(button_color(Interaction::Idle), ButtonColor { red: 15, green: 15, blue: 15 });
    let (c, a) = button_hover(Interaction::Idle, Interaction::Hovered, ButtonActions::Nuke);
    assert_eq!(c, ButtonColor { red: 25, green: 25, blue: 25 });
    assert_eq!(a, None);
    let (c, a) = button_hover(Interaction::Hovered, Interaction::Pressed, ButtonActions::Nuke);
    assert_eq!(c, ButtonColor { red: 35, green: 75, blue: 35 });
    assert_eq!(a, Some(ButtonActions::Nuke));
    let (_, a) = button_hover(Interaction::Pressed, Interaction::Pressed, ButtonActions::Nuke);
    assert_eq!(a, None);
    let (c, _) = button_hover(Interaction::Pressed, Interaction::Idle, ButtonActions::Nuke);
    assert_eq!(c, ButtonColor { red: 15, green: 15, blue: 15 });
}

#[test]
fn button_commands() {
    assert_eq!(command_of(ButtonActions::StartGame), MenuCommand::Game(GameEvent::StartGame));
    assert_eq!(command_of(ButtonActions::StopGame), MenuCommand::Game(GameEvent::StopGame));
    assert_eq!(command_of(ButtonActions::ManualAsteroid), MenuCommand::Celestial(CelestialBody::Asteroid));
    assert_eq!(command_of(ButtonActions::ManualSunray), MenuCommand::Celestial(CelestialBody::Sunray));
    assert_eq!(command_of(ButtonActions::Blind), MenuCommand::Blind);
    assert_eq!(command_of(ButtonActions::Nuke), MenuCommand::Nuke);
}

#[test]
fn celestial_duplicates_dropped_and_expire() {
    let mut o = CelestialOverlay::new();
    assert!(o.try_spawn(CelestialBody::Asteroid, 1, 2));
    assert!(!o.try_spawn(CelestialBody::Asteroid, 1, 5));
    assert!(o.try_spawn(CelestialBody::Sunray, 1, 1));
    assert!(o.is_shown(CelestialBody::Sunray, 1));
    let gone = o.tick();
    assert_eq!(gone.len(), 1);
    assert_eq!(gone[0].kind, CelestialBody::Sunray);
    assert_eq!(o.active.len(), 1);
    assert_eq!(o.active[0].ticks_left, 1);
    let gone = o.tick();
    assert_eq!(gone.len(), 1);
    assert!(o.active.is_empty());
}

#[test]
fn explorer_slots() {
    assert_eq!(explorer_slot(3), 3);
    assert_eq!(explorer_slot(11), 3);
    assert_eq!(explorer_slot(8), 0);
}

#[test]
fn log_keeps_latest_lines() {
    let mut log = LogText::new(2);
    log.push("a".to_string());
    log.push("b".to_string());
    log.push("c".to_string());
    assert_eq!(log.len(), 2);
    assert_eq!(log.lines, vec!["b".to_string(), "c".to_string()]);
}
