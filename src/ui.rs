use vstd::prelude::*;
use crate::components::{ButtonActions, CelestialBody};
use crate::game::GameEvent;

verus! {

/// The pointer's relation to a button.
#[derive(Clone, Copy, PartialEq, Eq, Structural, Debug)]
pub enum Interaction {
    Idle,
    Hovered,
    Pressed,
}

/// An opaque colour, each channel in hundredths of full intensity.
#[derive(Clone, Copy, PartialEq, Eq, Structural, Debug)]
pub struct ButtonColor {
    pub red: u8,
    pub green: u8,
    pub blue: u8,
}

pub open spec fn rgb(red: u8, green: u8, blue: u8) -> ButtonColor {
    ButtonColor { red, green, blue }
}

/// The colour of a button in each interaction state.
pub open spec fn color_of(i: Interaction) -> ButtonColor {
    match i {
        Interaction::Idle => rgb(15, 15, 15),
        Interaction::Hovered => rgb(25, 25, 25),
        Interaction::Pressed => rgb(35, 75, 35),
    }
}

/// The colour of a button in interaction state `i`.
pub fn button_color(i: Interaction) -> (r: ButtonColor)
    ensures
        r == color_of(i),
{
    match i {
        Interaction::Idle => ButtonColor { red: 15, green: 15, blue: 15 },
        Interaction::Hovered => ButtonColor { red: 25, green: 25, blue: 25 },
        Interaction::Pressed => ButtonColor { red: 35, green: 75, blue: 35 },
    }
}

/// A button whose interaction went from `before` to `now`: its new colour,
/// and its action, to be enqueued, exactly when it has just been pressed.
pub fn button_hover(before: Interaction, now: Interaction, action: ButtonActions) -> (r: (
    ButtonColor,
    Option<ButtonActions>,
))
    ensures
        r.0 == color_of(now),
        r.1 == if now == Interaction::Pressed && before != Interaction::Pressed {
            Some(action)
        } else {
            None::<ButtonActions>
        },
{
    let color = button_color(now);
    let pressed = match (before, now) {
        (Interaction::Pressed, _) => false,
        (_, Interaction::Pressed) => true,
        _ => false,
    };
    if pressed {
        (color, Some(action))
    } else {
        (color, None)
    }
}

/// What pressing a button asks for.
#[derive(Clone, Copy, PartialEq, Eq, Structural, Debug)]
pub enum MenuCommand {
    Game(GameEvent),
    Celestial(CelestialBody),
    Blind,
    Nuke,
}

pub open spec fn command_for(action: ButtonActions) -> MenuCommand {
    match action {
        ButtonActions::StartGame => MenuCommand::Game(GameEvent::StartGame),
        ButtonActions::StopGame => MenuCommand::Game(GameEvent::StopGame),
        ButtonActions::ManualAsteroid => MenuCommand::Celestial(CelestialBody::Asteroid),
        ButtonActions::ManualSunray => MenuCommand::Celestial(CelestialBody::Sunray),
        ButtonActions::Blind => MenuCommand::Blind,
        ButtonActions::Nuke => MenuCommand::Nuke,
    }
}

/// The command behind a button's action.
pub fn command_of(action: ButtonActions) -> (r: MenuCommand)
    ensures
        r == command_for(action),
{
    match action {
        ButtonActions::StartGame => MenuCommand::Game(GameEvent::StartGame),
        ButtonActions::StopGame => MenuCommand::Game(GameEvent::StopGame),
        ButtonActions::ManualAsteroid => MenuCommand::Celestial(CelestialBody::Asteroid),
        ButtonActions::ManualSunray => MenuCommand::Celestial(CelestialBody::Sunray),
        ButtonActions::Blind => MenuCommand::Blind,
        ButtonActions::Nuke => MenuCommand::Nuke,
    }
}

} // verus!
