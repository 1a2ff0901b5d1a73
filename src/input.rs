//! Keyboard input: which key does what in which phase of the game.

use vstd::prelude::*;

verus! {

/// What the scene is asked to do.
#[derive(Clone, Copy, PartialEq, Eq, Structural, Debug)]
pub enum Action {
    LeftPaddleUp,
    LeftPaddleDown,
    LeftPaddleStop,
    RightPaddleUp,
    RightPaddleDown,
    RightPaddleStop,
    Kickoff,
    GameOver,
    ResetGame,
}

/// What the program itself is asked to do.
#[derive(Clone, Copy, PartialEq, Eq, Structural, Debug)]
pub enum AppAction {
    Quit,
}

/// The response to a key.
#[derive(Clone, Copy, PartialEq, Eq, Structural, Debug)]
pub enum PongRustActions {
    SceneAction(Action),
    SystemAction(AppAction),
}

/// Where the game stands.
#[derive(Clone, Copy, PartialEq, Eq, Structural, Debug)]
pub enum GamePhase {
    Start,
    Playing,
    End,
}

/// The keys the game listens to.
#[derive(Clone, Copy, PartialEq, Eq, Structural, Debug)]
pub enum Key {
    Escape,
    Space,
    W,
    S,
    I,
    K,
}

#[derive(Clone, Copy, PartialEq, Eq, Structural, Debug)]
pub enum KeyState {
    Pressed,
    Released,
}

/// The phase after a key event and the response to it. Escape quits; space
/// kicks off from the start and resets after the end; W/S move the left
/// paddle and I/K the right one while held.
pub open spec fn key_response(phase: GamePhase, key: Option<Key>, state: KeyState) -> (GamePhase, Option<PongRustActions>) {
    match (key, state) {
        (Some(Key::Escape), KeyState::Pressed) => (phase, Some(PongRustActions::SystemAction(AppAction::Quit))),
        (Some(Key::Space), KeyState::Pressed) => match phase {
            GamePhase::Start => (GamePhase::Playing, Some(PongRustActions::SceneAction(Action::Kickoff))),
            GamePhase::Playing => (phase, None),
            GamePhase::End => (GamePhase::Start, Some(PongRustActions::SceneAction(Action::ResetGame))),
        },
        (Some(Key::W), KeyState::Pressed) => (phase, Some(PongRustActions::SceneAction(Action::LeftPaddleUp))),
        (Some(Key::W), KeyState::Released) => (phase, Some(PongRustActions::SceneAction(Action::LeftPaddleStop))),
        (Some(Key::S), KeyState::Pressed) => (phase, Some(PongRustActions::SceneAction(Action::LeftPaddleDown))),
        (Some(Key::S), KeyState::Released) => (phase, Some(PongRustActions::SceneAction(Action::LeftPaddleStop))),
        (Some(Key::I), KeyState::Pressed) => (phase, Some(PongRustActions::SceneAction(Action::RightPaddleUp))),
        (Some(Key::I), KeyState::Released) => (phase, Some(PongRustActions::SceneAction(Action::RightPaddleStop))),
        (Some(Key::K), KeyState::Pressed) => (phase, Some(PongRustActions::SceneAction(Action::RightPaddleDown))),
        (Some(Key::K), KeyState::Released) => (phase, Some(PongRustActions::SceneAction(Action::RightPaddleStop))),
        _ => (phase, None),
    }
}

impl GamePhase {
    /// Answers a key event, moving the game to its next phase.
    pub fn handle_keyboard_input(&mut self, key: Option<Key>, state: KeyState) -> (r: Option<PongRustActions>)
        ensures
            (*final(self), r) == key_response(*old(self), key, state),
    {
        match (key, state) {
            (Some(Key::Escape), KeyState::Pressed) => Some(PongRustActions::SystemAction(AppAction::Quit)),
            (Some(Key::Space), KeyState::Pressed) => match *self {
                GamePhase::Start => {
                    *self = GamePhase::Playing;
                    Some(PongRustActions::SceneAction(Action::Kickoff))
                },
                GamePhase::Playing => None,
                GamePhase::End => {
                    *self = GamePhase::Start;
                    Some(PongRustActions::SceneAction(Action::ResetGame))
                },
            },
            (Some(Key::W), KeyState::Pressed) => Some(PongRustActions::SceneAction(Action::LeftPaddleUp)),
            (Some(Key::W), KeyState::Released) => Some(PongRustActions::SceneAction(Action::LeftPaddleStop)),
            (Some(Key::S), KeyState::Pressed) => Some(PongRustActions::SceneAction(Action::LeftPaddleDown)),
            (Some(Key::S), KeyState::Released) => Some(PongRustActions::SceneAction(Action::LeftPaddleStop)),
            (Some(Key::I), KeyState::Pressed) => Some(PongRustActions::SceneAction(Action::RightPaddleUp)),
            (Some(Key::I), KeyState::Released) => Some(PongRustActions::SceneAction(Action::RightPaddleStop)),
            (Some(Key::K), KeyState::Pressed) => Some(PongRustActions::SceneAction(Action::RightPaddleDown)),
            (Some(Key::K), KeyState::Released) => Some(PongRustActions::SceneAction(Action::RightPaddleStop)),
            _ => None,
        }
    }
}

} // verus!
