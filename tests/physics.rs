use santa::geom::{Rect, Vec2, SUBPIXELS};
use santa::levels::{LevelPlayerBoundary, LevelState};
use santa::physics::{
    apply_gravity, clamp_to_level, move_body, GroundState, Position, Speed, SpriteBoundary, GRAVITY,
};

fn px(v: i64) -> i64 {
    v * SUBPIXELS
}

fn santa_sprite() -> SpriteBoundary {
    SpriteBoundary(Rect::from_pixels(-15, 15, 25, -25))
}

#[test]
fn move_adds_speed_once_per_tick() {
    let mut p = Position(Vec2::new(10, -20));
    move_body(&mut p, &Speed(Vec2::new(3, -4)));
    assert_eq!(p.0, Vec2::new(13, -24));
}

#[test]
fn gravity_lowers_vertical_speed_only() {
    let mut s = Speed(Vec2::new(7, 100));
    apply_gravity(&mut s);
    assert_eq!(s.0, Vec2::new(7, 100 - GRAVITY));
    assert_eq!(GRAVITY, 450);
}

#[test]
fn defaults_are_zero_and_off_ground() {
    assert_eq!(Position::default().0, Vec2::new(0, 0));
    assert_eq!(Speed::default().0, Vec2::new(0, 0));
    let g = GroundState::default();
    assert!(!g.on_ground && !g.just_landed);
}

#[test]
fn clamp_stops_at_right_wall_and_kills_outward_speed() {
    let level = LevelState::Outside.player_boundary();
    let mut p = Position(Vec2::new(px(300), px(0)));
    let mut s = Speed(Vec2::new(500, 0));
    let ground = clamp_to_level(&level, &santa_sprite(), &mut p, &mut s);
    assert_eq!(p.0.x, px(270 - 15));
    assert_eq!(s.0.x, 0);
    assert!(!ground);
}

#[test]
fn clamp_keeps_inward_speed_at_wall() {
    let level = LevelState::Outside.player_boundary();
    let mut p = Position(Vec2::new(px(-300), px(0)));
    let mut s = Speed(Vec2::new(200, 0));
    clamp_to_level(&level, &santa_sprite(), &mut p, &mut s);
    assert_eq!(p.0.x, px(-270 + 15));
    assert_eq!(s.0.x, 200);
}

#[test]
fn clamp_lands_on_floor() {
    let level = LevelState::Outside.player_boundary();
    let mut p = Position(Vec2::new(0, px(-200)));
    let mut s = Speed(Vec2::new(0, -900));
    let ground = clamp_to_level(&level, &santa_sprite(), &mut p, &mut s);
    assert_eq!(p.0.y, px(-97 + 25));
    assert_eq!(s.0.y, 0);
    assert!(ground);
}

#[test]
fn resting_exactly_on_floor_is_ground() {
    let level = LevelState::Outside.player_boundary();
    let mut p = Position(Vec2::new(0, px(-72)));
    let mut s = Speed(Vec2::new(0, 0));
    assert!(clamp_to_level(&level, &santa_sprite(), &mut p, &mut s));
    let mut p = Position(Vec2::new(0, px(-72) + 1));
    assert!(!clamp_to_level(&level, &santa_sprite(), &mut p, &mut s));
}

#[test]
fn clamp_stops_at_ceiling() {
    let level = LevelState::Indoors.player_boundary();
    let mut p = Position(Vec2::new(0, px(500)));
    let mut s = Speed(Vec2::new(0, 4000));
    let ground = clamp_to_level(&level, &santa_sprite(), &mut p, &mut s);
    assert_eq!(p.0.y, px(105 - 25));
    assert_eq!(s.0.y, 0);
    assert!(!ground);
}

#[test]
fn clamped_position_stays_inside_level() {
    let level = LevelPlayerBoundary(Rect::from_pixels(-100, 100, 100, -100));
    let sprite = santa_sprite();
    for (x, y) in [(-1000, -1000), (1000, 1000), (0, 0), (1000, -1000), (-1000, 1000)] {
        let mut p = Position(Vec2::new(px(x), px(y)));
        let mut s = Speed(Vec2::new(1, 1));
        clamp_to_level(&level, &sprite, &mut p, &mut s);
        assert!(p.0.x >= px(-100 + 15) && p.0.x <= px(100 - 15));
        assert!(p.0.y >= px(-100 + 25) && p.0.y <= px(100 - 25));
    }
}

#[test]
fn just_landed_is_the_rising_edge_of_on_ground() {
    let mut g = GroundState::default();
    g.record(false);
    assert!(!g.on_ground && !g.just_landed);
    g.record(true);
    assert!(g.on_ground && g.just_landed);
    g.record(true);
    assert!(g.on_ground && !g.just_landed);
    g.record(false);
    assert!(!g.on_ground && !g.just_landed);
    g.record(true);
    assert!(g.just_landed);
}
