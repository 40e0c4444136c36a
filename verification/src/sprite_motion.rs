//! The drifting-sprite demo: a sprite that moves along its heading at a
//! constant speed and turns whenever it passes the edge of a square region.

use vstd::prelude::*;
use crate::player::MAX_FRAME_MS;

verus! {

/// Drift speed of the demo sprite, in milliunits per millisecond.
pub const SPRITE_SPEED: u64 = 150;

/// The demo sprite turns when a coordinate passes this bound, in milliunits.
pub const TURN_BOUND: i64 = 200_000;

/// Bound on a coordinate so that one drift step cannot overflow; a machine
/// limit, far outside the region the sprite ever reaches.
pub const MAX_COORD: i64 = 1_000_000_000_000;

/// The four headings the demo sprite can drift along.
#[derive(Clone, Copy, Debug, PartialEq, Eq, Structural)]
pub enum Heading {
    Up,
    Down,
    Left,
    Right,
}

/// The demo sprite's state: its heading and its position in milliunits.
#[derive(Clone, Copy, Debug, PartialEq, Eq, Structural)]
pub struct MovingSprite {
    pub heading: Heading,
    pub x: i64,
    pub y: i64,
}

/// How far the sprite drifts in one frame, in milliunits.
pub open spec fn drift_step(dt_ms: u64) -> int {
    SPRITE_SPEED as int * dt_ms as int
}

/// The horizontal coordinate after one frame's drift.
pub open spec fn drifted_x(s: MovingSprite, dt_ms: u64) -> int {
    match s.heading {
        Heading::Left => s.x - drift_step(dt_ms),
        Heading::Right => s.x + drift_step(dt_ms),
        _ => s.x as int,
    }
}

/// The vertical coordinate after one frame's drift.
pub open spec fn drifted_y(s: MovingSprite, dt_ms: u64) -> int {
    match s.heading {
        Heading::Up => s.y + drift_step(dt_ms),
        Heading::Down => s.y - drift_step(dt_ms),
        _ => s.y as int,
    }
}

/// The heading after the turn rules, checked in order against the position
/// the drift ended at: past the top edge head down, past the bottom head
/// left, past the left edge head right, past the right edge head up;
/// otherwise keep the heading.
pub open spec fn turned(heading: Heading, x: int, y: int) -> Heading {
    if y > TURN_BOUND {
        Heading::Down
    } else if y < -TURN_BOUND {
        Heading::Left
    } else if x < -TURN_BOUND {
        Heading::Right
    } else if x > TURN_BOUND {
        Heading::Up
    } else {
        heading
    }
}

/// One frame of the demo sprite: drift a full speed step along the current
/// heading, then apply the turn rules to wherever the step ended.
pub fn sprite_movement(s: &mut MovingSprite, dt_ms: u64)
    requires
        -MAX_COORD <= old(s).x <= MAX_COORD,
        -MAX_COORD <= old(s).y <= MAX_COORD,
        dt_ms <= MAX_FRAME_MS,
    ensures
        final(s).x == drifted_x(*old(s), dt_ms),
        final(s).y == drifted_y(*old(s), dt_ms),
        final(s).heading == turned(old(s).heading, final(s).x as int, final(s).y as int),
{
    let step: i64 = (SPRITE_SPEED * dt_ms) as i64;
    match s.heading {
        Heading::Up => {
            s.y = s.y + step;
        }
        Heading::Down => {
            s.y = s.y - step;
        }
        Heading::Left => {
            s.x = s.x - step;
        }
        Heading::Right => {
            s.x = s.x + step;
        }
    }
    if s.y > TURN_BOUND {
        s.heading = Heading::Down;
    } else if s.y < -TURN_BOUND {
        s.heading = Heading::Left;
    } else if s.x < -TURN_BOUND {
        s.heading = Heading::Right;
    } else if s.x > TURN_BOUND {
        s.heading = Heading::Up;
    }
}

} // verus!
