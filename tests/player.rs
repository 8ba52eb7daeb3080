use santa::geom::{Vec2, SUBPIXELS, TICKS_PER_SECOND};
use santa::levels::LevelState;
use santa::physics::GRAVITY;
use santa::player::{
    integer_sqrt, jump_power, ControlInput, Facing, Santa, MAX_JUMP_HEIGHT, MAX_WALK_SPEED,
};

fn keys(left: bool, right: bool, jump: bool) -> ControlInput {
    ControlInput { left, right, jump }
}

fn grounded() -> Santa {
    let mut s = Santa::new();
    s.ground_state.on_ground = true;
    s
}

#[test]
fn integer_sqrt_values() {
    assert_eq!(integer_sqrt(0), 0);
    assert_eq!(integer_sqrt(1), 1);
    assert_eq!(integer_sqrt(15), 3);
    assert_eq!(integer_sqrt(16), 4);
    assert_eq!(integer_sqrt(194_400_000), 13942);
    assert_eq!(integer_sqrt(u64::MAX), 4_294_967_295);
}

#[test]
fn jump_power_matches_the_design_formula() {
    // max_height = 30 px, gravity = 450 px/s^2
    let max_height = 30.0f64;
    let gravity = 450.0f64;
    let jump_time = (max_height / gravity).sqrt();
    let expected = gravity * jump_time + max_height / jump_time;
    let per_tick = jump_power();
    assert_eq!(per_tick, 13942);
    let px_per_s = per_tick as f64 * TICKS_PER_SECOND as f64 / SUBPIXELS as f64;
    // one sub-pixel per tick is the resolution of the fixed-point speed
    let resolution = TICKS_PER_SECOND as f64 / SUBPIXELS as f64;
    assert!((px_per_s - expected).abs() < resolution);
    assert_eq!(MAX_JUMP_HEIGHT, 30 * SUBPIXELS);
    assert_eq!(GRAVITY as f64, gravity * SUBPIXELS as f64 / (TICKS_PER_SECOND * TICKS_PER_SECOND) as f64);
}

#[test]
fn walking_right_accelerates_slowly() {
    let mut s = grounded();
    s.control(keys(false, true, false));
    assert_eq!(s.speed.0.x, 100);
    s.control(keys(false, true, false));
    assert_eq!(s.speed.0.x, 200);
}

#[test]
fn walking_is_capped() {
    let mut s = grounded();
    s.speed.0.x = 2950;
    s.control(keys(false, true, false));
    assert_eq!(s.speed.0.x, MAX_WALK_SPEED);
    s.speed.0.x = -2950;
    s.control(keys(true, false, false));
    assert_eq!(s.speed.0.x, -MAX_WALK_SPEED);
}

#[test]
fn reversing_brakes_fast() {
    let mut s = grounded();
    s.speed.0.x = 1000;
    s.control(keys(true, false, false));
    assert_eq!(s.speed.0.x, 500);
}

#[test]
fn letting_go_brakes_to_standstill() {
    let mut s = grounded();
    s.speed.0.x = 700;
    s.control(keys(false, false, false));
    assert_eq!(s.speed.0.x, 200);
    s.control(keys(true, true, false));
    assert_eq!(s.speed.0.x, 0);
    s.speed.0.x = -300;
    s.control(keys(false, false, false));
    assert_eq!(s.speed.0.x, 0);
}

#[test]
fn keys_do_nothing_in_the_air() {
    let mut s = Santa::new();
    s.speed = santa::physics::Speed(Vec2::new(50, -60));
    s.control(keys(false, true, true));
    assert_eq!(s.speed.0, Vec2::new(50, -60));
}

#[test]
fn jump_sets_upward_speed() {
    let mut s = grounded();
    s.control(keys(false, false, true));
    assert_eq!(s.speed.0.y, 13942);
}

#[test]
fn airborne_shows_jump_frame() {
    let mut s = Santa::new();
    s.speed.0.x = -10;
    s.animate(1000);
    assert_eq!(s.sprite_index, 1);
    assert_eq!(s.facing, Facing::Left);
}

#[test]
fn walking_frames_alternate_each_period() {
    let mut s = grounded();
    s.speed.0.x = 100;
    s.animate(100_000);
    assert_eq!(s.sprite_index, 0);
    s.animate(200_000);
    assert_eq!(s.sprite_index, 1);
    s.animate(300_000);
    assert_eq!(s.sprite_index, 0);
    assert_eq!(s.facing, Facing::Right);
}

#[test]
fn standing_returns_to_idle_frame() {
    let mut s = grounded();
    s.sprite_index = 1;
    s.animate(300_000);
    assert_eq!(s.sprite_index, 0);
}

#[test]
fn settled_landing_resets_frame_unsettled_holds_jump_frame() {
    let mut s = grounded();
    s.ground_state.just_landed = true;
    s.sprite_index = 1;
    s.animate(1000);
    assert_eq!(s.sprite_index, 0);

    let mut s = grounded();
    s.ground_state.just_landed = true;
    s.speed.0.y = 60;
    s.animate(1000);
    assert_eq!(s.sprite_index, 1);
}

#[test]
fn falling_santa_lands_and_then_rests() {
    let level = LevelState::Outside.player_boundary();
    let mut s = Santa::new();
    let mut landed_ticks = 0;
    for _ in 0..200 {
        s.physics_step(&level);
        if s.ground_state.just_landed {
            landed_ticks += 1;
        }
    }
    assert_eq!(landed_ticks, 1);
    assert!(s.ground_state.on_ground);
    assert_eq!(s.position.0.y, (-97 + 25) * SUBPIXELS);
    assert_eq!(s.speed.0.y, 0);
}

#[test]
fn jump_leaves_the_ground_and_comes_back() {
    let level = LevelState::Outside.player_boundary();
    let mut s = Santa::new();
    for _ in 0..200 {
        s.physics_step(&level);
    }
    s.control(keys(false, false, true));
    s.physics_step(&level);
    assert!(!s.ground_state.on_ground);
    let floor = (-97 + 25) * SUBPIXELS;
    let mut peak = s.position.0.y;
    for _ in 0..100 {
        s.physics_step(&level);
        peak = peak.max(s.position.0.y);
    }
    assert!(s.ground_state.on_ground);
    let height_px = (peak - floor) as f64 / SUBPIXELS as f64;
    assert!(height_px > 25.0 && height_px < 70.0);
}

#[test]
fn without_gravity_santa_keeps_its_height() {
    let level = LevelState::Outside.player_boundary();
    let mut s = Santa::new();
    s.gravity = None;
    s.physics_step(&level);
    assert_eq!(s.position.0, Vec2::new(0, 0));
    assert_eq!(s.speed.0, Vec2::new(0, 0));
    assert!(!s.ground_state.on_ground);
    s.gravity = Some(santa::physics::Gravity);
    s.physics_step(&level);
    assert_eq!(s.speed.0.y, -GRAVITY);
    assert_eq!(s.position.0.y, -GRAVITY);
}
