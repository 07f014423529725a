//! The direction resolver: four held keys to one of nine movement states.

use vstd::prelude::*;

verus! {

/// Which of the four directional keys are held at the start of a tick.
#[derive(Clone, Copy, Debug, PartialEq, Eq, Structural)]
pub struct DirectionInput {
    pub up: bool,
    pub down: bool,
    pub left: bool,
    pub right: bool,
}

/// The direction in which the sprite walks, or `Idle` while it stands.
#[derive(Clone, Copy, Debug, PartialEq, Eq, Structural)]
pub enum Movement {
    Up,
    Down,
    Left,
    Right,
    UpLeft,
    UpRight,
    DownLeft,
    DownRight,
    Idle,
}

impl DirectionInput {
    /// The movement state that the held keys stand for.
    ///
    /// A vertical key outranks a lone horizontal one, `down` outranks `up`,
    /// and `right` outranks `left`.
    pub open spec fn direction(self) -> Movement {
        if self.down {
            if self.right {
                Movement::DownRight
            } else if self.left {
                Movement::DownLeft
            } else {
                Movement::Down
            }
        } else if self.up {
            if self.right {
                Movement::UpRight
            } else if self.left {
                Movement::UpLeft
            } else {
                Movement::Up
            }
        } else if self.right {
            Movement::Right
        } else if self.left {
            Movement::Left
        } else {
            Movement::Idle
        }
    }

    /// No key is held.
    pub open spec fn is_released(self) -> bool {
        !self.up && !self.down && !self.left && !self.right
    }

    /// The input with the given keys held.
    pub fn new(up: bool, down: bool, left: bool, right: bool) -> (input: DirectionInput)
        ensures
            input.up == up,
            input.down == down,
            input.left == left,
            input.right == right,
    {
        DirectionInput { up, down, left, right }
    }
}

impl Movement {
    /// The sprite stands still.
    pub open spec fn is_idle(self) -> bool {
        self == Movement::Idle
    }

    /// Whether the state is `Idle`.
    pub fn idle(&self) -> (b: bool)
        ensures
            b == self.is_idle(),
    {
        match self {
            Movement::Idle => true,
            _ => false,
        }
    }
}

/// Resolves the held keys to a movement state.
///
/// The state starts at `Idle`; the horizontal keys set it, then `up` and its
/// diagonals override it, then `down` and its diagonals override that.
pub fn resolve_direction(input: DirectionInput) -> (state: Movement)
    ensures
        state == input.direction(),
{
    let mut state = Movement::Idle;
    if input.left {
        state = Movement::Left;
    }
    if input.right {
        state = Movement::Right;
    }
    if input.up {
        state = Movement::Up;
        if input.left {
            state = Movement::UpLeft;
        }
        if input.right {
            state = Movement::UpRight;
        }
    }
    if input.down {
        state = Movement::Down;
        if input.left {
            state = Movement::DownLeft;
        }
        if input.right {
            state = Movement::DownRight;
        }
    }
    state
}

/// The resolver is idle exactly when no key is held.
pub proof fn lemma_idle_iff_released(input: DirectionInput)
    ensures
        input.direction().is_idle() <==> input.is_released(),
{
}

/// The tie-breaks of the resolver: with `down` held the state is one of the
/// three downward ones whatever `up` says, and among the horizontal keys
/// `right` decides whenever it is held.
pub proof fn lemma_tie_breaks(input: DirectionInput)
    ensures
        input.down ==> (input.direction() == Movement::Down || input.direction()
            == Movement::DownLeft || input.direction() == Movement::DownRight),
        input.right ==> (input.direction() == Movement::Right || input.direction()
            == Movement::UpRight || input.direction() == Movement::DownRight),
        input.direction() == (DirectionInput { up: input.up && !input.down, left: input.left
            && !input.right, ..input }).direction(),
{
}

} // verus!
