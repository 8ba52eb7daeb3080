//! Gravity, motion and clamping against the active level boundary.

use vstd::prelude::*;
use crate::geom::{Vec2, Rect, fits_i64};
use crate::levels::LevelPlayerBoundary;

verus! {

/// Downward acceleration: 450 pixels per second squared, which is 450
/// sub-pixels per tick of speed lost each tick.
pub const GRAVITY: i64 = 450;

/// Where an entity stands, in sub-pixels.
#[derive(Clone, Copy, Debug, PartialEq, Eq, Structural)]
pub struct Position(pub Vec2);

/// How far an entity moves each tick, in sub-pixels.
#[derive(Clone, Copy, Debug, PartialEq, Eq, Structural)]
pub struct Speed(pub Vec2);

/// Whether an entity rests on the lower edge of its level, and whether it
/// arrived there in the latest tick.
#[derive(Clone, Copy, Debug, PartialEq, Eq, Structural)]
pub struct GroundState {
    pub on_ground: bool,
    pub just_landed: bool,
}

/// Marks an entity that gravity pulls down.
#[derive(Clone, Copy, Debug, PartialEq, Eq, Structural)]
pub struct Gravity;

/// An entity's collision envelope, as offsets from its origin.
#[derive(Clone, Copy, Debug, PartialEq, Eq, Structural)]
pub struct SpriteBoundary(pub Rect);

impl Default for Position {
    fn default() -> (r: Position)
        ensures
            r.0.x == 0 && r.0.y == 0,
    {
        Position(Vec2 { x: 0, y: 0 })
    }
}

impl Default for Speed {
    fn default() -> (r: Speed)
        ensures
            r.0.x == 0 && r.0.y == 0,
    {
        Speed(Vec2 { x: 0, y: 0 })
    }
}

impl Default for GroundState {
    fn default() -> (r: GroundState)
        ensures
            !r.on_ground && !r.just_landed,
    {
        GroundState { on_ground: false, just_landed: false }
    }
}

/// Advances a position by one tick of its speed.
pub fn move_body(position: &mut Position, speed: &Speed)
    requires
        fits_i64(old(position).0.x + speed.0.x),
        fits_i64(old(position).0.y + speed.0.y),
    ensures
        final(position).0.x == old(position).0.x + speed.0.x,
        final(position).0.y == old(position).0.y + speed.0.y,
{
    position.0.x = position.0.x + speed.0.x;
    position.0.y = position.0.y + speed.0.y;
}

/// Applies one tick of gravity to a speed.
pub fn apply_gravity(speed: &mut Speed)
    requires
        fits_i64(old(speed).0.y - GRAVITY),
    ensures
        final(speed).0.x == old(speed).0.x,
        final(speed).0.y == old(speed).0.y - GRAVITY,
{
    speed.0.y = speed.0.y - GRAVITY;
}

/// The lowest `x` the entity's origin may take inside the level.
pub open spec fn min_x(level: Rect, sprite: Rect) -> int {
    level.left - sprite.left
}

/// The highest `x` the entity's origin may take inside the level.
pub open spec fn max_x(level: Rect, sprite: Rect) -> int {
    level.right - sprite.right
}

/// The lowest `y` the entity's origin may take inside the level.
pub open spec fn min_y(level: Rect, sprite: Rect) -> int {
    level.bottom - sprite.bottom
}

/// The highest `y` the entity's origin may take inside the level.
pub open spec fn max_y(level: Rect, sprite: Rect) -> int {
    level.top - sprite.top
}

/// The four limits on the entity's origin can be computed in `i64`.
pub open spec fn limits_fit(level: Rect, sprite: Rect) -> bool {
    &&& fits_i64(min_x(level, sprite))
    &&& fits_i64(max_x(level, sprite))
    &&& fits_i64(min_y(level, sprite))
    &&& fits_i64(max_y(level, sprite))
}

/// The sprite fits in the level, so some origin keeps it wholly inside.
pub open spec fn sprite_fits(level: Rect, sprite: Rect) -> bool {
    min_x(level, sprite) <= max_x(level, sprite) && min_y(level, sprite) <= max_y(level, sprite)
}

/// The entity's sprite lies wholly inside the level.
pub open spec fn inside_level(level: Rect, sprite: Rect, p: Vec2) -> bool {
    &&& min_x(level, sprite) <= p.x <= max_x(level, sprite)
    &&& min_y(level, sprite) <= p.y <= max_y(level, sprite)
}

/// A coordinate pushed up to `lo`, then down to `hi`.
pub open spec fn clamp_coord(v: int, lo: int, hi: int) -> int {
    let a = if v < lo { lo } else { v };
    if a > hi { hi } else { a }
}

/// The speed along one axis after clamping: it may not point out through a
/// limit that stopped the coordinate.
pub open spec fn clamp_speed(v: int, s: int, lo: int, hi: int) -> int {
    let a = if v < lo { lo } else { v };
    let s1 = if v < lo && s < 0 { 0 } else { s };
    if a > hi && s1 > 0 { 0 } else { s1 }
}

/// Ground contact: the origin reached or passed the lowest allowed `y`.
pub open spec fn touches_ground(y: int, lo: int) -> bool {
    y <= lo
}

/// Clamps an entity into the active level boundary, one axis at a time, and
/// reports whether it stands on the lower limit (ground contact).
///
/// Whenever the sprite fits in the level, the clamped position keeps it
/// wholly inside.
pub fn clamp_to_level(
    level: &LevelPlayerBoundary,
    sprite: &SpriteBoundary,
    position: &mut Position,
    speed: &mut Speed,
) -> (on_ground: bool)
    requires
        limits_fit(level.0, sprite.0),
    ensures
        final(position).0.x == clamp_coord(
            old(position).0.x as int,
            min_x(level.0, sprite.0),
            max_x(level.0, sprite.0),
        ),
        final(position).0.y == clamp_coord(
            old(position).0.y as int,
            min_y(level.0, sprite.0),
            max_y(level.0, sprite.0),
        ),
        final(speed).0.x == clamp_speed(
            old(position).0.x as int,
            old(speed).0.x as int,
            min_x(level.0, sprite.0),
            max_x(level.0, sprite.0),
        ),
        final(speed).0.y == clamp_speed(
            old(position).0.y as int,
            old(speed).0.y as int,
            min_y(level.0, sprite.0),
            max_y(level.0, sprite.0),
        ),
        on_ground == touches_ground(old(position).0.y as int, min_y(level.0, sprite.0)),
        sprite_fits(level.0, sprite.0) ==> inside_level(level.0, sprite.0, final(position).0),
{
    let lo_x = level.0.left - sprite.0.left;
    let hi_x = level.0.right - sprite.0.right;
    let lo_y = level.0.bottom - sprite.0.bottom;
    let hi_y = level.0.top - sprite.0.top;

    if position.0.x < lo_x {
        position.0.x = lo_x;
        if speed.0.x < 0 {
            speed.0.x = 0;
        }
    }
    if position.0.x > hi_x {
        position.0.x = hi_x;
        if speed.0.x > 0 {
            speed.0.x = 0;
        }
    }
    let detected_on_ground = if position.0.y < lo_y {
        position.0.y = lo_y;
        if speed.0.y < 0 {
            speed.0.y = 0;
        }
        true
    } else {
        position.0.y == lo_y
    };
    if position.0.y > hi_y {
        position.0.y = hi_y;
        if speed.0.y > 0 {
            speed.0.y = 0;
        }
    }
    detected_on_ground
}

/// Clamping keeps the sprite inside the level: whenever the sprite fits,
/// the clamped origin of any position, on both axes, leaves the sprite
/// wholly within the level boundary.
pub proof fn lemma_clamp_keeps_sprite_inside(level: Rect, sprite: Rect, p: Vec2)
    requires
        sprite_fits(level, sprite),
    ensures
        ({
            let x = clamp_coord(p.x as int, min_x(level, sprite), max_x(level, sprite));
            let y = clamp_coord(p.y as int, min_y(level, sprite), max_y(level, sprite));
            &&& level.left <= x + sprite.left
            &&& x + sprite.right <= level.right
            &&& level.bottom <= y + sprite.bottom
            &&& y + sprite.top <= level.top
        }),
{
}

impl GroundState {
    /// Records this tick's ground contact. `just_landed` is the rising edge
    /// of `on_ground`: true exactly when the entity was off the ground in the
    /// previous tick and is on it now.
    pub fn record(&mut self, detected_on_ground: bool)
        ensures
            final(self).on_ground == detected_on_ground,
            final(self).just_landed == (!old(self).on_ground && final(self).on_ground),
    {
        self.just_landed = !self.on_ground && detected_on_ground;
        self.on_ground = detected_on_ground;
    }
}

} // verus!
