//! What the interface shows, as a function of the game.
use crate::game::GameState;
use vstd::prelude::*;

verus! {

/// How the pointer relates to the start button this frame.
#[derive(Clone, Copy, Debug, PartialEq, Eq, Structural)]
pub enum ButtonInteraction {
    Clicked,
    Hovered,
    Idle,
}

/// How the start button is drawn.
#[derive(Clone, Copy, Debug, PartialEq, Eq, Structural)]
pub enum ButtonShade {
    Normal,
    Hovered,
    Pressed,
}

/// The start button's response to the pointer.
#[derive(Clone, Copy, Debug, PartialEq, Eq, Structural)]
pub struct ButtonResponse {
    pub shade: ButtonShade,
    /// A click asks for a new game.
    pub start: bool,
}

/// The start button is shown whenever no round is in progress.
pub open spec fn shows_start_button(s: GameState) -> bool {
    s != GameState::InProgress
}

/// The "Game Over" message is shown once the last life was lost, and only then.
pub open spec fn shows_game_over(s: GameState) -> bool {
    s == GameState::Ended
}

/// A click presses the button and asks for a new game; hovering highlights it.
pub fn button_interaction(i: ButtonInteraction) -> (r: ButtonResponse)
    ensures
        r == (match i {
            ButtonInteraction::Clicked => ButtonResponse { shade: ButtonShade::Pressed, start: true },
            ButtonInteraction::Hovered => ButtonResponse { shade: ButtonShade::Hovered, start: false },
            ButtonInteraction::Idle => ButtonResponse { shade: ButtonShade::Normal, start: false },
        }),
{
    match i {
        ButtonInteraction::Clicked => ButtonResponse { shade: ButtonShade::Pressed, start: true },
        ButtonInteraction::Hovered => ButtonResponse { shade: ButtonShade::Hovered, start: false },
        ButtonInteraction::Idle => ButtonResponse { shade: ButtonShade::Normal, start: false },
    }
}

/// Whether the start button is visible in state `s`.
pub fn update_button(s: GameState) -> (r: bool)
    ensures
        r == shows_start_button(s),
{
    match s {
        GameState::InProgress => false,
        _ => true,
    }
}

/// Whether the "Game Over" message is visible in state `s`.
pub fn update_message(s: GameState) -> (r: bool)
    ensures
        r == shows_game_over(s),
{
    match s {
        GameState::Ended => true,
        _ => false,
    }
}

} // verus!
