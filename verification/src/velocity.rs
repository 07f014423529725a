//! The velocity integrator: a unit velocity from the held keys, and the way
//! the sprite goes with it in one tick.

use crate::movement::DirectionInput;
use vstd::prelude::*;

verus! {

/// The walking speed, in position units per second.
pub const WALK_SPEED: i128 = 50;

/// The direction of travel along both axes, each of -1, 0 and 1.
#[derive(Clone, Copy, Debug, PartialEq, Eq, Structural)]
pub struct Velocity {
    pub x: i8,
    pub y: i8,
}

/// How far the sprite goes in one tick along both axes, in billionths of a
/// position unit.
#[derive(Clone, Copy, Debug, PartialEq, Eq, Structural)]
pub struct Displacement {
    pub dx: i128,
    pub dy: i128,
}

/// The velocity along one axis: 1 where the key of the positive direction is
/// held, else -1 where that of the negative direction is, else 0.
pub open spec fn axis(positive: bool, negative: bool) -> int {
    if positive {
        1
    } else if negative {
        -1
    } else {
        0
    }
}

impl DirectionInput {
    /// The velocity that the held keys stand for. `right` outranks `left`,
    /// and `up` outranks `down`.
    pub open spec fn velocity(self) -> Velocity {
        Velocity { x: axis(self.right, self.left) as i8, y: axis(self.up, self.down) as i8 }
    }
}

impl Velocity {
    /// Both components are -1, 0 or 1.
    pub open spec fn wf(self) -> bool {
        -1 <= self.x <= 1 && -1 <= self.y <= 1
    }

    /// The way gone at this velocity in `delta` nanoseconds. A diagonal is
    /// not shortened: both axes go at the full speed.
    pub open spec fn displacement(self, delta: u64) -> Displacement {
        Displacement {
            dx: (self.x * WALK_SPEED * delta) as i128,
            dy: (self.y * WALK_SPEED * delta) as i128,
        }
    }

    /// The sprite at rest.
    pub fn zero() -> (v: Velocity)
        ensures
            v == (Velocity { x: 0, y: 0 }),
            v.wf(),
    {
        Velocity { x: 0, y: 0 }
    }

    /// The way gone at this velocity in `delta` nanoseconds, in billionths
    /// of a position unit.
    pub fn step(&self, delta: u64) -> (d: Displacement)
        ensures
            d == self.displacement(delta),
            d.dx == self.x * 50 * delta,
            d.dy == self.y * 50 * delta,
    {
        proof {
            lemma_step_fits(self.x, delta);
            lemma_step_fits(self.y, delta);
        }
        let per_second_x: i128 = (self.x as i128) * WALK_SPEED;
        let per_second_y: i128 = (self.y as i128) * WALK_SPEED;
        Displacement { dx: per_second_x * (delta as i128), dy: per_second_y * (delta as i128) }
    }
}

/// The velocity for the held keys, taken from the keys themselves and not
/// from the movement state.
pub fn velocity_of(input: DirectionInput) -> (v: Velocity)
    ensures
        v == input.velocity(),
        v.x == axis(input.right, input.left),
        v.y == axis(input.up, input.down),
        v.wf(),
{
    let x: i8 = if input.right || input.left {
        if input.right {
            1
        } else {
            -1
        }
    } else {
        0
    };
    let y: i8 = if input.up || input.down {
        if input.up {
            1
        } else {
            -1
        }
    } else {
        0
    };
    Velocity { x, y }
}

/// The way along one axis in one tick is far inside the range of `i128`.
proof fn lemma_step_fits(v: i8, delta: u64)
    ensures
        -0x8000_0000_0000_0000_0000 <= v * 50 * delta <= 0x8000_0000_0000_0000_0000,
        v * 50 * delta == (v * 50) * delta,
{
    let per_second = v * 50;
    assert(-6400 <= per_second <= 6400);
    assert(-6400 * 0x1_0000_0000_0000_0000 <= per_second * delta <= 6400
        * 0x1_0000_0000_0000_0000) by (nonlinear_arith)
        requires
            -6400 <= per_second <= 6400,
            0 <= delta < 0x1_0000_0000_0000_0000,
    ;
    assert(v * 50 * delta == per_second * delta);
}

} // verus!
