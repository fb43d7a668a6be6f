use miner::player::{
    compute_impulse, player_movement_system, player_physics_system, GameWorld, InputState, Player,
    Vec2m,
};
use miner::systems::{
    bind_follow_target_camera, next_sprite_index, player_animation_system, setup, RotationTween,
    TWEEN_DURATION_MS, WORLD_GRAVITY,
};

fn no_input() -> InputState {
    InputState { up: false, left: false, down: false, right: false }
}

#[test]
fn player_new_is_at_rest() {
    let p = Player::new();
    assert_eq!(p.velocity, Vec2m { x: 0, y: 0 });
    assert_eq!(p.current_impulse, Vec2m { x: 0, y: 0 });
    assert_eq!(p.vertical_acceleration, 100);
    assert_eq!(p.horizontal_acceleration, 100);
}

#[test]
fn opposing_keys_do_not_cancel() {
    let imp = compute_impulse(&InputState { up: true, left: false, down: true, right: false });
    assert_eq!(imp.y, -1);
    assert_eq!(imp.x, 0);

    let imp = compute_impulse(&InputState { up: false, left: true, down: false, right: true });
    assert_eq!(imp.x, 1);
    assert_eq!(imp.y, 0);
}

#[test]
fn single_keys_give_unit_impulse() {
    let mut input = no_input();
    input.up = true;
    assert_eq!(compute_impulse(&input), Vec2m { x: 0, y: 1 });
    let mut input = no_input();
    input.left = true;
    assert_eq!(compute_impulse(&input), Vec2m { x: -1, y: 0 });
    let mut input = no_input();
    input.down = true;
    assert_eq!(compute_impulse(&input), Vec2m { x: 0, y: -1 });
    let mut input = no_input();
    input.right = true;
    assert_eq!(compute_impulse(&input), Vec2m { x: 1, y: 0 });
    assert_eq!(compute_impulse(&no_input()), Vec2m { x: 0, y: 0 });
}

#[test]
fn velocity_accumulates_impulse_times_dt_times_acceleration() {
    let mut p = Player::new();
    let mut input = no_input();
    input.right = true;
    player_movement_system(&mut p, &input, 16);
    // 1 * 16 ms * 100 = 1600 thousandths: 0.016 s of acceleration 100.
    assert_eq!(p.velocity, Vec2m { x: 1600, y: 0 });
    assert_eq!(p.current_impulse, Vec2m { x: 1, y: 0 });

    player_movement_system(&mut p, &input, 16);
    assert_eq!(p.velocity, Vec2m { x: 3200, y: 0 });
}

#[test]
fn position_gains_velocity_plus_constant_gravity_offset() {
    let mut p = Player::new();
    p.velocity = Vec2m { x: 300, y: 400 };
    let world = GameWorld { gravity: -1000 };
    let mut pos = Vec2m { x: 10, y: 20 };
    player_physics_system(&p, &world, &mut pos);
    assert_eq!(pos, Vec2m { x: 10 + 300, y: 20 + 400 - 1000 });

    // The offset is the same whatever frame duration produced the velocity:
    // gravity is not scaled by time.
    player_physics_system(&p, &world, &mut pos);
    assert_eq!(pos, Vec2m { x: 10 + 600, y: 20 + 800 - 2000 });
}

#[test]
fn zero_input_frame_only_falls_by_gravity() {
    let (_store, world) = setup();
    assert_eq!(world.gravity, WORLD_GRAVITY);
    let mut p = Player::new();
    let mut pos = Vec2m { x: 0, y: 0 };
    player_movement_system(&mut p, &no_input(), 16);
    assert_eq!(p.velocity, Vec2m { x: 0, y: 0 });
    player_physics_system(&p, &world, &mut pos);
    assert_eq!(pos, Vec2m { x: 0, y: -1000 });
}

#[test]
fn setup_spawns_nine_chunks_around_origin() {
    let (store, world) = setup();
    assert_eq!(world.gravity, -1000);
    let coords: Vec<(i32, i32)> =
        store.entries.iter().map(|e| (e.chunk.x, e.chunk.y)).collect();
    assert_eq!(
        coords,
        vec![
            (-1, -1),
            (-1, 0),
            (-1, 1),
            (0, -1),
            (0, 0),
            (0, 1),
            (1, -1),
            (1, 0),
            (1, 1),
        ]
    );
}

#[test]
fn camera_copies_target_position() {
    let target = Vec2m { x: 123, y: -456 };
    let mut cameras = vec![Vec2m { x: 0, y: 0 }, Vec2m { x: 9, y: 9 }];
    bind_follow_target_camera(&target, &mut cameras);
    assert_eq!(cameras, vec![target, target]);
}

#[test]
fn rotation_feedback_fires_only_on_change() {
    let mut prev: Option<i64> = None;
    // First frame: the stored target transitions from unset to set, which
    // counts as a change, so with a constant target the one tween of the
    // whole run fires here.
    assert_eq!(
        player_animation_system(&mut prev, 0, 628),
        Some(RotationTween { start: 0, end: 628, duration_ms: TWEEN_DURATION_MS })
    );
    assert_eq!(prev, Some(628));
    // Unchanged target: nothing fires.
    assert_eq!(player_animation_system(&mut prev, 50, 628), None);
    assert_eq!(prev, Some(628));
    // Changed target: one tween from the current rotation to the target.
    assert_eq!(
        player_animation_system(&mut prev, 50, 300),
        Some(RotationTween { start: 50, end: 300, duration_ms: TWEEN_DURATION_MS })
    );
    assert_eq!(prev, Some(300));
}

#[test]
fn sprite_index_advances_and_wraps() {
    assert_eq!(next_sprite_index(0, 6), 1);
    assert_eq!(next_sprite_index(4, 6), 5);
    assert_eq!(next_sprite_index(5, 6), 0);
    assert_eq!(next_sprite_index(0, 1), 0);
}
