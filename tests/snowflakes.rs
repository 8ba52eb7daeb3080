use santa::geom::{Rect, Vec2, SUBPIXELS};
use santa::levels::LevelCameraBoundary;
use santa::physics::Position;
use santa::snowflakes::{
    init_snowflakes, snowflake_count, Snowflake, SnowflakeEntity, SNOWFLAKE_FALL, SNOWFLAKE_FRAMES,
    SNOWFLAKE_MARGIN,
};

fn px(v: i64) -> i64 {
    v * SUBPIXELS
}

#[test]
fn count_is_floor_of_density_times_margined_area() {
    // floor(0.002 * (h + 20) * (w + 20))
    let c = LevelCameraBoundary(Rect::from_pixels(-270, 270, 105, -105));
    assert_eq!(snowflake_count(&c), 257);
    let c = LevelCameraBoundary(Rect::from_pixels(0, 0, 0, 0));
    assert_eq!(snowflake_count(&c), 0);
    let c = LevelCameraBoundary(Rect::from_pixels(0, 480, 480, 0));
    assert_eq!(snowflake_count(&c), 500);
    // edges given in either order count the same
    let c = LevelCameraBoundary(Rect::from_pixels(270, -270, -105, 105));
    assert_eq!(snowflake_count(&c), 257);
    assert_eq!(snowflake_count(&c), snowflake_count(&c));
}

#[test]
fn initial_flakes_are_in_the_margined_area() {
    let c = LevelCameraBoundary(Rect::from_pixels(-105, 105, 105, -105));
    let flakes = init_snowflakes(&c);
    assert_eq!(flakes.len(), 105);
    for f in flakes.iter() {
        let p = f.snowflake.0;
        assert!(p.x >= px(-115) && p.x < px(115));
        assert!(p.y >= px(-115) && p.y < px(115));
        assert_eq!(f.position.0, p);
        assert!(f.sprite_index < SNOWFLAKE_FRAMES);
    }
}

#[test]
fn flake_falls_ten_pixels_per_second() {
    let c = LevelCameraBoundary(Rect::from_pixels(-105, 105, 105, -105));
    let mut f = Snowflake(Vec2::new(px(3), px(50)));
    f.fall(&c);
    assert_eq!(f.0, Vec2::new(px(3), px(50) - SNOWFLAKE_FALL));
    assert_eq!(SNOWFLAKE_FALL * 60, px(10));
}

#[test]
fn flake_wraps_to_top_below_lower_margin() {
    let c = LevelCameraBoundary(Rect::from_pixels(-105, 105, 105, -105));
    let mut f = Snowflake(Vec2::new(px(3), px(-115)));
    f.fall(&c);
    assert_eq!(f.0.y, px(115));
    assert!(f.0.x >= px(-115) && f.0.x < px(115));
    let mut g = Snowflake(Vec2::new(px(3), px(-115) + SNOWFLAKE_FALL));
    g.fall(&c);
    assert_eq!(g.0, Vec2::new(px(3), px(-115)));
    assert_eq!(SNOWFLAKE_MARGIN, px(10));
}

#[test]
fn drift_scales_noise_by_amplitudes() {
    let mut e = SnowflakeEntity {
        snowflake: Snowflake(Vec2::new(px(1), px(2))),
        position: Position(Vec2::new(0, 0)),
        sprite_index: 2,
    };
    e.drift(SUBPIXELS, -SUBPIXELS);
    assert_eq!(e.position.0, Vec2::new(px(41), px(-23)));
    assert_eq!(e.snowflake.0, Vec2::new(px(1), px(2)));
    assert_eq!(e.sprite_index, 2);
}

#[test]
fn initial_flakes_are_spread_out() {
    let c = LevelCameraBoundary(Rect::from_pixels(-270, 270, 105, -105));
    let flakes = init_snowflakes(&c);
    let first = flakes[0].snowflake.0;
    assert!(flakes.iter().any(|f| f.snowflake.0.x != first.x));
    assert!(flakes.iter().any(|f| f.snowflake.0.y != first.y));
    assert!(flakes.iter().any(|f| f.sprite_index != 0));
}
