use vstd::prelude::*;

verus! {

/// The three states of the game flow. A game starts in `MainMenu`.
#[derive(Debug, Clone, Copy, PartialEq, Eq, Hash, Structural)]
pub enum GameState {
    MainMenu,
    Playing,
    Dead,
}

/// The input actions, polled once per tick.
#[derive(Debug, Clone, Copy, PartialEq, Eq, Structural)]
pub struct Input {
    pub left: bool,
    pub right: bool,
    pub jump: bool,
    pub confirm: bool,
    pub retry: bool,
}

impl GameState {
    /// The legal transitions: menu to playing, playing to dead, dead to
    /// playing.
    pub open spec fn legal(self, next: GameState) -> bool {
        ||| self == GameState::MainMenu && next == GameState::Playing
        ||| self == GameState::Playing && next == GameState::Dead
        ||| self == GameState::Dead && next == GameState::Playing
    }

    /// The state after a request for `next`: `next` where the transition
    /// is legal, the state unchanged where it is not.
    pub open spec fn after_request(self, next: GameState) -> GameState {
        if self.legal(next) {
            next
        } else {
            self
        }
    }

    /// The state that follows from the input of one tick: `confirm` leaves
    /// the menu, `retry` leaves the dead state, nothing else has an effect.
    pub open spec fn after_input(self, input: Input) -> GameState {
        match self {
            GameState::MainMenu => if input.confirm {
                GameState::Playing
            } else {
                self
            },
            GameState::Playing => self,
            GameState::Dead => if input.retry {
                GameState::Playing
            } else {
                self
            },
        }
    }

    /// Asks for a transition to `next`. An illegal request is ignored.
    /// Returns whether the state changed.
    pub fn set(&mut self, next: GameState) -> (changed: bool)
        ensures
            *final(self) == old(self).after_request(next),
            changed == old(self).legal(next),
    {
        let legal = match (*self, next) {
            (GameState::MainMenu, GameState::Playing) => true,
            (GameState::Playing, GameState::Dead) => true,
            (GameState::Dead, GameState::Playing) => true,
            _ => false,
        };
        if legal {
            *self = next;
        }
        legal
    }
}

/// Evaluates the state machine against the input of one tick and returns
/// the state to be in from this tick on.
pub fn handle_gamestate(game_state: &GameState, keyboard_input: &Input) -> (next: GameState)
    ensures
        next == game_state.after_input(*keyboard_input),
        next != *game_state ==> game_state.legal(next),
{
    match game_state {
        GameState::MainMenu => {
            if keyboard_input.confirm {
                GameState::Playing
            } else {
                GameState::MainMenu
            }
        },
        GameState::Playing => GameState::Playing,
        GameState::Dead => {
            if keyboard_input.retry {
                GameState::Playing
            } else {
                GameState::Dead
            }
        },
    }
}

} // verus!
