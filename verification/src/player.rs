//! The player: frame input, the impulse it yields, velocity accumulation,
//! and position integration under constant per-frame gravity.

use vstd::prelude::*;

verus! {

/// A two-dimensional vector of world values in thousandths of a unit.
#[derive(Clone, Copy, PartialEq, Eq, Structural, Debug)]
pub struct Vec2m {
    pub x: i64,
    pub y: i64,
}

/// The player: its velocity, the impulse read this frame, and its two
/// acceleration constants. Velocity is in thousandths of a unit per frame;
/// the impulse components are raw axis directions, `-1`, `0` or `1`.
#[derive(Clone, Copy, PartialEq, Eq, Structural, Debug)]
pub struct Player {
    pub velocity: Vec2m,
    pub current_impulse: Vec2m,
    pub vertical_acceleration: i64,
    pub horizontal_acceleration: i64,
}

impl Player {
    /// A freshly spawned player: at rest, no input read yet, and the fixed
    /// acceleration constants on both axes.
    pub fn new() -> (r: Self)
        ensures
            r.velocity == (Vec2m { x: 0, y: 0 }),
            r.current_impulse == (Vec2m { x: 0, y: 0 }),
            r.vertical_acceleration == 100,
            r.horizontal_acceleration == 100,
    {
        Player {
            velocity: Vec2m { x: 0, y: 0 },
            current_impulse: Vec2m { x: 0, y: 0 },
            vertical_acceleration: 100,
            horizontal_acceleration: 100,
        }
    }
}

/// The movement keys held during one frame.
#[derive(Clone, Copy, PartialEq, Eq, Structural, Debug)]
pub struct InputState {
    pub up: bool,
    pub left: bool,
    pub down: bool,
    pub right: bool,
}

/// The impulse one frame of held keys yields. Each axis is assigned by
/// independent checks in the order up, left, down, right, each overwriting
/// its axis: opposing keys do not cancel, the later check wins.
pub open spec fn spec_impulse(input: InputState) -> Vec2m {
    Vec2m {
        x: if input.right {
            1
        } else if input.left {
            -1i64
        } else {
            0
        },
        y: if input.down {
            -1i64
        } else if input.up {
            1
        } else {
            0
        },
    }
}

/// Forms the frame's impulse from the held keys: up, left, down and right
/// each overwrite one axis in that order, so holding "up" and "down"
/// together yields the "down" contribution alone, not zero and not a sum.
pub fn compute_impulse(input: &InputState) -> (r: Vec2m)
    ensures
        r == spec_impulse(*input),
        input.up && input.down ==> r.y == -1,
        input.left && input.right ==> r.x == 1,
{
    let mut vec = Vec2m { x: 0, y: 0 };
    if input.up {
        vec.y = 1;
    }
    if input.left {
        vec.x = -1;
    }
    if input.down {
        vec.y = -1;
    }
    if input.right {
        vec.x = 1;
    }
    vec
}

/// Velocity gained on the horizontal axis in one frame: the impulse times
/// the frame duration times the horizontal acceleration constant.
pub open spec fn spec_velocity_delta_x(p: Player, input: InputState, dt_ms: int) -> int {
    spec_impulse(input).x as int * dt_ms * p.horizontal_acceleration as int
}

/// Velocity gained on the vertical axis in one frame.
pub open spec fn spec_velocity_delta_y(p: Player, input: InputState, dt_ms: int) -> int {
    spec_impulse(input).y as int * dt_ms * p.vertical_acceleration as int
}

/// Reads one frame of input: stores the impulse on the player and
/// accumulates it into the velocity, each axis gaining
/// `impulse * dt_ms * acceleration` thousandths of a unit.
pub fn player_movement_system(player: &mut Player, input: &InputState, dt_ms: i64)
    requires
        0 <= dt_ms,
        i64::MIN <= spec_velocity_delta_x(*old(player), *input, dt_ms as int),
        spec_velocity_delta_x(*old(player), *input, dt_ms as int) <= i64::MAX,
        i64::MIN <= old(player).velocity.x as int + spec_velocity_delta_x(
            *old(player),
            *input,
            dt_ms as int,
        ),
        old(player).velocity.x as int + spec_velocity_delta_x(*old(player), *input, dt_ms as int)
            <= i64::MAX,
        i64::MIN <= spec_velocity_delta_y(*old(player), *input, dt_ms as int),
        spec_velocity_delta_y(*old(player), *input, dt_ms as int) <= i64::MAX,
        i64::MIN <= old(player).velocity.y as int + spec_velocity_delta_y(
            *old(player),
            *input,
            dt_ms as int,
        ),
        old(player).velocity.y as int + spec_velocity_delta_y(*old(player), *input, dt_ms as int)
            <= i64::MAX,
    ensures
        final(player).current_impulse == spec_impulse(*input),
        final(player).velocity.x as int == old(player).velocity.x as int + spec_velocity_delta_x(
            *old(player),
            *input,
            dt_ms as int,
        ),
        final(player).velocity.y as int == old(player).velocity.y as int + spec_velocity_delta_y(
            *old(player),
            *input,
            dt_ms as int,
        ),
        final(player).vertical_acceleration == old(player).vertical_acceleration,
        final(player).horizontal_acceleration == old(player).horizontal_acceleration,
{
    let vec = compute_impulse(input);
    player.current_impulse = vec;
    let vcel = player.vertical_acceleration;
    let hcel = player.horizontal_acceleration;
    player.velocity.x = player.velocity.x + vec.x * dt_ms * hcel;
    player.velocity.y = player.velocity.y + vec.y * dt_ms * vcel;
}

/// The world: its constant per-frame gravity displacement, in thousandths of
/// a unit.
#[derive(Clone, Copy, PartialEq, Eq, Structural, Debug)]
pub struct GameWorld {
    pub gravity: i64,
}

/// Moves the player: the new translation is the old translation plus the
/// velocity plus `(0, gravity)`. Gravity is a constant per-frame offset
/// added to the position, not an acceleration scaled by the frame duration.
pub fn player_physics_system(player: &Player, world: &GameWorld, translation: &mut Vec2m)
    requires
        i64::MIN <= old(translation).x as int + player.velocity.x as int,
        old(translation).x as int + player.velocity.x as int <= i64::MAX,
        i64::MIN <= player.velocity.y as int + world.gravity as int,
        player.velocity.y as int + world.gravity as int <= i64::MAX,
        i64::MIN <= old(translation).y as int + player.velocity.y as int + world.gravity as int,
        old(translation).y as int + player.velocity.y as int + world.gravity as int <= i64::MAX,
    ensures
        final(translation).x as int == old(translation).x as int + player.velocity.x as int,
        final(translation).y as int == old(translation).y as int + player.velocity.y as int
            + world.gravity as int,
{
    translation.x = translation.x + player.velocity.x;
    translation.y = translation.y + (player.velocity.y + world.gravity);
}

} // verus!
