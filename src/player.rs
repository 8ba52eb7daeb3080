//! The player character: walking and jumping while grounded, the walk and
//! jump animation, and one tick of its physics.

use vstd::prelude::*;
use crate::geom::{Vec2, Rect, fits_i64};
use crate::levels::LevelPlayerBoundary;
use crate::physics::{
    Position, Speed, SpriteBoundary, GroundState, Gravity, GRAVITY, move_body, apply_gravity,
    clamp_to_level, limits_fit, clamp_coord, clamp_speed, touches_ground, min_x, max_x, min_y,
    max_y, sprite_fits, inside_level,
};

verus! {

/// Top walking speed: 50 pixels per second.
pub const MAX_WALK_SPEED: i64 = 3000;

/// Speed gained each tick when walking on in the pressed direction:
/// 100 pixels per second squared.
pub const WALK_ACCELERATION: i64 = 100;

/// Speed lost each tick when turning round or letting go: 500 pixels per
/// second squared.
pub const WALK_DECELERATION: i64 = 500;

/// Height of a jump's peak: 30 pixels.
pub const MAX_JUMP_HEIGHT: i64 = 108000;

/// Below this upward speed a landing counts as settled: 1 pixel per second.
pub const LANDING_SPEED: i64 = 60;

/// Period of the walk animation: 0.3 seconds.
pub const ANIMATION_PERIOD_US: u64 = 300_000;

/// Whether `r` is the integer square root of `n`.
pub open spec fn is_isqrt(r: int, n: int) -> bool {
    0 <= r && r * r <= n < (r + 1) * (r + 1)
}

/// The integer square root: the largest `r` with `r * r <= n`.
pub fn integer_sqrt(n: u64) -> (r: u64)
    ensures
        is_isqrt(r as int, n as int),
{
    let mut lo: u64 = 0;
    let mut hi: u64 = 0x1_0000_0000;
    assert((hi as int) * (hi as int) == 0x1_0000_0000_0000_0000) by (nonlinear_arith)
        requires
            hi == 0x1_0000_0000,
    ;
    while hi - lo > 1
        invariant
            lo < hi <= 0x1_0000_0000,
            (lo as int) * (lo as int) <= n,
            n < (hi as int) * (hi as int),
        decreases hi - lo,
    {
        let mid: u64 = lo + (hi - lo) / 2;
        assert(lo < mid < hi);
        assert((mid as int) * (mid as int) < 0x1_0000_0000_0000_0000) by (nonlinear_arith)
            requires
                mid < 0x1_0000_0000,
        ;
        if (mid as u128) * (mid as u128) <= n as u128 {
            lo = mid;
        } else {
            hi = mid;
        }
    }
    assert(hi == lo + 1);
    lo
}

/// The jump's launch speed, in sub-pixels per tick.
///
/// With jump time `t = sqrt(h / g)` the launch speed is `g * t + h / t`,
/// which equals `2 * sqrt(g * h)`; this is that value rounded down.
pub open spec fn jump_power_spec(r: int) -> bool {
    is_isqrt(r, 4 * GRAVITY * MAX_JUMP_HEIGHT)
}

/// The jump's launch speed: `g * t + h / t` with `t = sqrt(h / g)`, for
/// gravity `g` and peak height `h`, rounded down to a whole sub-pixel per
/// tick.
pub fn jump_power() -> (r: i64)
    ensures
        jump_power_spec(r as int),
        r == 13942,
{
    let g: u64 = GRAVITY as u64;
    let h: u64 = MAX_JUMP_HEIGHT as u64;
    assert(4 * g * h == 194_400_000) by (nonlinear_arith)
        requires
            g == 450,
            h == 108000,
    ;
    let n: u64 = 4 * g * h;
    let r = integer_sqrt(n);
    proof {
        let ri = r as int;
        assert(ri * ri <= 194_400_000 < (ri + 1) * (ri + 1));
        if ri < 13942 {
            assert((ri + 1) * (ri + 1) <= 13942 * 13942) by (nonlinear_arith)
                requires
                    0 <= ri < 13942,
            ;
        }
        if ri > 13942 {
            assert(13943 * 13943 <= ri * ri) by (nonlinear_arith)
                requires
                    ri > 13942,
            ;
        }
    }
    r as i64
}

/// The keys that steer the player in one tick.
#[derive(Clone, Copy, Debug, PartialEq, Eq, Structural)]
pub struct ControlInput {
    pub left: bool,
    pub right: bool,
    pub jump: bool,
}

/// Horizontal speed after one tick of walking control on the ground.
/// Pressing one direction speeds up slowly along it (or brakes fast against
/// the current motion), capped at the top speed; pressing neither or both
/// brakes fast towards a standstill.
pub open spec fn walk_speed(sx: int, left: bool, right: bool) -> int {
    if left && !right {
        let a = if sx <= 0 { WALK_ACCELERATION } else { WALK_DECELERATION };
        let v = sx - a;
        if v < -MAX_WALK_SPEED { -MAX_WALK_SPEED as int } else { v }
    } else if right && !left {
        let a = if sx >= 0 { WALK_ACCELERATION } else { WALK_DECELERATION };
        let v = sx + a;
        if v > MAX_WALK_SPEED { MAX_WALK_SPEED as int } else { v }
    } else if sx > 0 {
        let v = sx - WALK_DECELERATION;
        if v < 0 { 0 } else { v }
    } else if sx < 0 {
        let v = sx + WALK_DECELERATION;
        if v > 0 { 0 } else { v }
    } else {
        0
    }
}

/// The way the character faces.
#[derive(Clone, Copy, Debug, PartialEq, Eq, Structural)]
pub enum Facing {
    Right,
    Left,
}

/// The walk animation's repeating timer.
#[derive(Clone, Copy, Debug, PartialEq, Eq, Structural)]
pub struct AnimationTimer {
    elapsed_us: u64,
}

impl AnimationTimer {
    pub closed spec fn elapsed(&self) -> int {
        self.elapsed_us as int
    }

    pub closed spec fn wf(&self) -> bool {
        self.elapsed_us < ANIMATION_PERIOD_US
    }

    pub fn new() -> (t: AnimationTimer)
        ensures
            t.wf(),
            t.elapsed() == 0,
    {
        AnimationTimer { elapsed_us: 0 }
    }

    /// Lets `delta_us` microseconds pass; reports whether a period ended.
    pub fn tick(&mut self, delta_us: u64) -> (finished: bool)
        requires
            old(self).wf(),
        ensures
            final(self).wf(),
            finished == (old(self).elapsed() + delta_us >= ANIMATION_PERIOD_US),
            final(self).elapsed() == (old(self).elapsed() + delta_us) % (
            ANIMATION_PERIOD_US as int),
    {
        let total: u128 = self.elapsed_us as u128 + delta_us as u128;
        let finished = total >= ANIMATION_PERIOD_US as u128;
        self.elapsed_us = (total % (ANIMATION_PERIOD_US as u128)) as u64;
        finished
    }

    pub fn reset(&mut self)
        ensures
            final(self).wf(),
            final(self).elapsed() == 0,
    {
        self.elapsed_us = 0;
    }
}

/// Sprite frame after a tick of animation, from the current frame, whether
/// the walk timer just finished a period, and the ground state and speed.
/// The frame alternates while walking and rests at 0 when standing; in the
/// air it is the jump frame 1; on landing it returns to 0 only once the
/// upward speed has settled.
pub open spec fn next_frame(
    frame: int,
    moving: bool,
    period_ended: bool,
    g: GroundState,
    sy: int,
) -> int {
    let f = if period_ended {
        if moving { 1 - frame } else { 0 }
    } else {
        frame
    };
    if !g.on_ground {
        1
    } else if g.just_landed {
        if sy < LANDING_SPEED { 0 } else { 1 }
    } else {
        f
    }
}

/// The player character.
#[derive(Clone, Copy, Debug, PartialEq, Eq, Structural)]
pub struct Santa {
    pub position: Position,
    pub speed: Speed,
    pub sprite_boundary: SpriteBoundary,
    /// Present while gravity pulls the character down.
    pub gravity: Option<Gravity>,
    pub ground_state: GroundState,
    pub animation_timer: AnimationTimer,
    /// Frame of the sprite sheet: 0 standing, 1 walking or airborne.
    pub sprite_index: usize,
    pub facing: Facing,
}

/// The player's collision envelope: 30 by 50 pixels around its origin.
pub open spec fn santa_sprite_rect() -> Rect {
    Rect { left: -54000i64, right: 54000i64, top: 90000i64, bottom: -90000i64 }
}

/// Values the player's speed and position keep so that a tick of motion
/// cannot overflow: well inside `i64`, and a bounded speed.
pub open spec fn motion_bounded(p: Vec2, s: Vec2) -> bool {
    &&& -0x1000_0000_0000_0000 <= p.x <= 0x1000_0000_0000_0000
    &&& -0x1000_0000_0000_0000 <= p.y <= 0x1000_0000_0000_0000
    &&& -0x1000_0000_0000_0000 <= s.x <= 0x1000_0000_0000_0000
    &&& -0x1000_0000_0000_0000 <= s.y <= 0x1000_0000_0000_0000
}

impl Santa {
    pub open spec fn wf(&self) -> bool {
        &&& self.animation_timer.wf()
        &&& self.sprite_index <= 1
        &&& self.sprite_boundary.0 == santa_sprite_rect()
    }

    /// The player as it first appears: at the origin, at rest, subject to
    /// gravity, off the ground, standing frame, facing right.
    pub fn new() -> (s: Santa)
        ensures
            s.wf(),
            s.position.0 == (Vec2 { x: 0, y: 0 }),
            s.speed.0 == (Vec2 { x: 0, y: 0 }),
            s.gravity.is_some(),
            !s.ground_state.on_ground && !s.ground_state.just_landed,
            s.animation_timer.elapsed() == 0,
            s.sprite_index == 0,
            s.facing == Facing::Right,
    {
        Santa {
            position: Position(Vec2 { x: 0, y: 0 }),
            speed: Speed(Vec2 { x: 0, y: 0 }),
            sprite_boundary: SpriteBoundary(Rect::from_pixels(-15, 15, 25, -25)),
            gravity: Some(Gravity),
            ground_state: GroundState { on_ground: false, just_landed: false },
            animation_timer: AnimationTimer::new(),
            sprite_index: 0,
            facing: Facing::Right,
        }
    }

    /// Steering for one tick. Only on the ground do the keys act: walking
    /// changes the horizontal speed as [`walk_speed`] says, and the jump key
    /// sets the upward speed to the jump power.
    pub fn control(&mut self, input: ControlInput)
        requires
            fits_i64(old(self).speed.0.x - WALK_DECELERATION),
            fits_i64(old(self).speed.0.x + WALK_DECELERATION),
        ensures
            final(self).position == old(self).position,
            final(self).ground_state == old(self).ground_state,
            final(self).sprite_boundary == old(self).sprite_boundary,
            final(self).gravity == old(self).gravity,
            final(self).animation_timer == old(self).animation_timer,
            final(self).sprite_index == old(self).sprite_index,
            final(self).facing == old(self).facing,
            !old(self).ground_state.on_ground ==> final(self).speed == old(self).speed,
            old(self).ground_state.on_ground ==> final(self).speed.0.x == walk_speed(
                old(self).speed.0.x as int,
                input.left,
                input.right,
            ),
            old(self).ground_state.on_ground && input.jump ==> jump_power_spec(
                final(self).speed.0.y as int,
            ),
            old(self).ground_state.on_ground && !input.jump ==> final(self).speed.0.y == old(
                self,
            ).speed.0.y,
    {
        if self.ground_state.on_ground {
            let sx = self.speed.0.x;
            let mut accelerating = false;
            if input.left && !input.right {
                let a = if sx <= 0 { WALK_ACCELERATION } else { WALK_DECELERATION };
                let v = sx - a;
                self.speed.0.x = if v < -MAX_WALK_SPEED { -MAX_WALK_SPEED } else { v };
                accelerating = true;
            } else if input.right && !input.left {
                let a = if sx >= 0 { WALK_ACCELERATION } else { WALK_DECELERATION };
                let v = sx + a;
                self.speed.0.x = if v > MAX_WALK_SPEED { MAX_WALK_SPEED } else { v };
                accelerating = true;
            }
            if !accelerating {
                if sx > 0 {
                    let v = sx - WALK_DECELERATION;
                    self.speed.0.x = if v < 0 { 0 } else { v };
                } else if sx < 0 {
                    let v = sx + WALK_DECELERATION;
                    self.speed.0.x = if v > 0 { 0 } else { v };
                }
            }
            if input.jump {
                self.speed.0.y = jump_power();
            }
        }
    }

    /// One tick of animation, `delta_us` microseconds long. Moving sideways
    /// turns the character that way; the frame follows [`next_frame`]; a
    /// settled landing restarts the walk timer.
    pub fn animate(&mut self, delta_us: u64)
        requires
            old(self).wf(),
        ensures
            final(self).wf(),
            final(self).position == old(self).position,
            final(self).speed == old(self).speed,
            final(self).ground_state == old(self).ground_state,
            final(self).sprite_boundary == old(self).sprite_boundary,
            final(self).gravity == old(self).gravity,
            old(self).speed.0.x > 0 ==> final(self).facing == Facing::Right,
            old(self).speed.0.x < 0 ==> final(self).facing == Facing::Left,
            old(self).speed.0.x == 0 ==> final(self).facing == old(self).facing,
            final(self).sprite_index == next_frame(
                old(self).sprite_index as int,
                old(self).speed.0.x != 0,
                old(self).animation_timer.elapsed() + delta_us >= ANIMATION_PERIOD_US,
                old(self).ground_state,
                old(self).speed.0.y as int,
            ),
            ({
                let g = old(self).ground_state;
                let settled = g.on_ground && g.just_landed && old(self).speed.0.y < LANDING_SPEED;
                &&& settled ==> final(self).animation_timer.elapsed() == 0
                &&& !settled ==> final(self).animation_timer.elapsed() == (
                old(self).animation_timer.elapsed() + delta_us) % (ANIMATION_PERIOD_US as int)
            }),
    {
        let mut moving = false;
        if self.speed.0.x > 0 {
            self.facing = Facing::Right;
            moving = true;
        } else if self.speed.0.x < 0 {
            self.facing = Facing::Left;
            moving = true;
        }
        let finished = self.animation_timer.tick(delta_us);
        if finished {
            if moving {
                self.sprite_index = 1 - self.sprite_index;
            } else {
                self.sprite_index = 0;
            }
        }
        if !self.ground_state.on_ground {
            self.sprite_index = 1;
        } else if self.ground_state.just_landed {
            if self.speed.0.y < LANDING_SPEED {
                self.animation_timer.reset();
                self.sprite_index = 0;
            } else {
                self.sprite_index = 1;
            }
        }
    }

    /// One tick of physics, in the fixed order gravity (when the character
    /// carries it), motion, clamping to the level, ground detection.
    pub fn physics_step(&mut self, level: &LevelPlayerBoundary)
        requires
            old(self).wf(),
            motion_bounded(old(self).position.0, old(self).speed.0),
            limits_fit(level.0, santa_sprite_rect()),
        ensures
            final(self).wf(),
            final(self).gravity == old(self).gravity,
            final(self).animation_timer == old(self).animation_timer,
            final(self).sprite_index == old(self).sprite_index,
            final(self).facing == old(self).facing,
            ({
                let s = old(self).speed.0;
                let sy = if old(self).gravity.is_some() { s.y - GRAVITY } else { s.y as int };
                let p = old(self).position.0;
                let mx = p.x + s.x;
                let my = p.y + sy;
                let r = santa_sprite_rect();
                &&& final(self).position.0.x == clamp_coord(mx, min_x(level.0, r), max_x(level.0, r))
                &&& final(self).position.0.y == clamp_coord(my, min_y(level.0, r), max_y(level.0, r))
                &&& final(self).speed.0.x == clamp_speed(mx, s.x as int, min_x(level.0, r), max_x(level.0, r))
                &&& final(self).speed.0.y == clamp_speed(my, sy, min_y(level.0, r), max_y(level.0, r))
                &&& final(self).ground_state.on_ground == touches_ground(my, min_y(level.0, r))
                &&& final(self).ground_state.just_landed == (!old(self).ground_state.on_ground
                    && final(self).ground_state.on_ground)
                &&& sprite_fits(level.0, r) ==> inside_level(level.0, r, final(self).position.0)
            }),
    {
        if self.gravity.is_some() {
            apply_gravity(&mut self.speed);
        }
        move_body(&mut self.position, &self.speed);
        let on_ground = clamp_to_level(level, &self.sprite_boundary, &mut self.position, &mut self.speed);
        self.ground_state.record(on_ground);
    }
}

} // verus!
