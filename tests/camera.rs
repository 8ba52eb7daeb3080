use santa::camera::{follow_player, SantaOrthoProjection};
use santa::geom::{Rect, Vec2, SUBPIXELS};
use santa::levels::LevelState;
use santa::physics::Position;

fn px(v: i64) -> i64 {
    v * SUBPIXELS
}

#[test]
fn default_projection_is_a_quarter_of_800_by_600() {
    let p = SantaOrthoProjection::new();
    assert_eq!(p.viewport_dimensions, Rect::from_pixels(-100, 100, 75, -75));
}

#[test]
fn tall_window_is_shrunk_to_background_height() {
    let mut p = SantaOrthoProjection::new();
    p.update(1600, 1200);
    // 400 x 300 art pixels, shrunk to 266.67 x 200
    assert_eq!(p.viewport_dimensions.top, px(100));
    assert_eq!(p.viewport_dimensions.bottom, px(-100));
    assert_eq!(p.viewport_dimensions.right, 480000);
    assert_eq!(p.viewport_dimensions.left, -480000);
    p.update(800, 800);
    assert_eq!(p.viewport_dimensions, Rect::from_pixels(-100, 100, 100, -100));
}

#[test]
fn camera_follows_player_inside_boundary() {
    let p = SantaOrthoProjection::new();
    let b = LevelState::Outside.camera_boundary();
    let c = follow_player(&Position(Vec2::new(px(10), px(-20))), &p, &b);
    assert_eq!(c, Vec2::new(px(10), px(-20)));
}

#[test]
fn camera_stops_at_boundary_edges() {
    let p = SantaOrthoProjection::new();
    let b = LevelState::Outside.camera_boundary();
    let c = follow_player(&Position(Vec2::new(px(-190), 0)), &p, &b);
    assert_eq!(c, Vec2::new(px(-170), 0));
    let c = follow_player(&Position(Vec2::new(px(400), px(400))), &p, &b);
    assert_eq!(c, Vec2::new(px(170), px(30)));
    let c = follow_player(&Position(Vec2::new(0, px(-400))), &p, &b);
    assert_eq!(c, Vec2::new(0, px(-30)));
}
