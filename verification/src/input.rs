use vstd::prelude::*;

verus! {

/// Key code of the space bar, as platform event sources deliver it.
pub const KEY_SPACE: u32 = 32;

/// Key code of the right arrow key.
pub const KEY_RIGHT: u32 = 1073741903;

/// Key code of the left arrow key.
pub const KEY_LEFT: u32 = 1073741904;

/// Key code of the down arrow key.
pub const KEY_DOWN: u32 = 1073741905;

/// Key code of the up arrow key.
pub const KEY_UP: u32 = 1073741906;

/// One abstract input intent: steer the character, commit a turn with `Step`,
/// or `Nil` for a key press that the game ignores.
#[derive(Clone, Copy, PartialEq, Eq, Structural, Debug)]
pub enum GameInput {
    Down,
    Up,
    Left,
    Right,
    Step,
    Nil,
}

/// The fixed key table: the arrow keys steer, the space bar commits a turn,
/// and every other key code is ignored.
pub open spec fn spec_input_of_key_code(code: u32) -> GameInput {
    if code == KEY_UP {
        GameInput::Up
    } else if code == KEY_LEFT {
        GameInput::Left
    } else if code == KEY_DOWN {
        GameInput::Down
    } else if code == KEY_RIGHT {
        GameInput::Right
    } else if code == KEY_SPACE {
        GameInput::Step
    } else {
        GameInput::Nil
    }
}

impl GameInput {
    /// Classify one raw key press by the fixed key table. Total: unrecognized
    /// key codes yield `Nil`.
    pub fn from_key_code(code: u32) -> (r: GameInput)
        ensures
            r == spec_input_of_key_code(code),
    {
        if code == KEY_UP {
            GameInput::Up
        } else if code == KEY_LEFT {
            GameInput::Left
        } else if code == KEY_DOWN {
            GameInput::Down
        } else if code == KEY_RIGHT {
            GameInput::Right
        } else if code == KEY_SPACE {
            GameInput::Step
        } else {
            GameInput::Nil
        }
    }
}

} // verus!
