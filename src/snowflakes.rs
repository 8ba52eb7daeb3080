//! Decorative snow: how many flakes a level gets, where they start, how they
//! fall and wrap, and how a coherent-noise sample shifts where they are drawn.

use vstd::prelude::*;
use rand::distributions::{Distribution, Uniform};
use crate::geom::{Vec2, Rect, SUBPIXELS, COORD_BOUND, fits_i64};
use crate::levels::LevelCameraBoundary;
use crate::physics::Position;

verus! {

/// Snow density as a fraction: two flakes per thousand square pixels.
pub const SNOWFLAKE_DENSITY_NUM: u128 = 2;

/// A thousand square pixels, in square sub-pixels.
pub const SNOWFLAKE_DENSITY_DEN: u128 = 12_960_000_000;

/// How far beyond the camera boundary flakes live, on every side:
/// ten pixels.
pub const SNOWFLAKE_MARGIN: i64 = 36000;

/// How far a flake falls each tick: ten pixels per second.
pub const SNOWFLAKE_FALL: i64 = 600;

/// Number of sprite frames a flake may show.
pub const SNOWFLAKE_FRAMES: usize = 4;

/// Horizontal drift amplitude, in pixels per unit of noise.
pub const DRIFT_X: i64 = 40;

/// Vertical drift amplitude, in pixels per unit of noise.
pub const DRIFT_Y: i64 = 25;

/// A flake's logical position: where it has fallen to, before drift.
#[derive(Clone, Copy, Debug, PartialEq, Eq, Structural)]
pub struct Snowflake(pub Vec2);

/// One flake as the level spawns it.
#[derive(Clone, Copy, Debug, PartialEq, Eq, Structural)]
pub struct SnowflakeEntity {
    pub snowflake: Snowflake,
    /// Where the flake is drawn.
    pub position: Position,
    /// Which of the [`SNOWFLAKE_FRAMES`] frames it shows.
    pub sprite_index: usize,
}

/// Relies on rand's `Uniform::new(lo, hi)` sampled once with `thread_rng()`:
/// a value drawn from the half-open range `[lo, hi)`. `Uniform::new` panics
/// when `lo >= hi`.
#[verifier::external_body]
fn random_between(lo: i64, hi: i64) -> (r: i64)
    requires
        lo < hi,
    ensures
        lo <= r < hi,
{
    Uniform::new(lo, hi).sample(&mut rand::thread_rng())
}

pub open spec fn span(a: int, b: int) -> int {
    if a >= b { a - b } else { b - a }
}

/// The number of flakes a level with camera boundary `c` gets: the density
/// times the area of the boundary widened by the margin on each side,
/// rounded down.
pub open spec fn snowflake_count_spec(c: Rect) -> int {
    let h = span(c.top as int, c.bottom as int) + 2 * SNOWFLAKE_MARGIN;
    let w = span(c.right as int, c.left as int) + 2 * SNOWFLAKE_MARGIN;
    (SNOWFLAKE_DENSITY_NUM * h * w) / (SNOWFLAKE_DENSITY_DEN as int)
}

/// The number of flakes depends on the boundary's height and width alone:
/// two boundaries of equal spans get the same number, wherever they lie.
pub proof fn lemma_count_depends_on_spans(c1: Rect, c2: Rect)
    requires
        span(c1.top as int, c1.bottom as int) == span(c2.top as int, c2.bottom as int),
        span(c1.right as int, c1.left as int) == span(c2.right as int, c2.left as int),
    ensures
        snowflake_count_spec(c1) == snowflake_count_spec(c2),
{
}

/// The area flakes live in is not empty along either axis.
pub open spec fn spawn_area_nonempty(c: Rect) -> bool {
    c.left - SNOWFLAKE_MARGIN < c.right + SNOWFLAKE_MARGIN
        && c.bottom - SNOWFLAKE_MARGIN < c.top + SNOWFLAKE_MARGIN
}

/// `p` lies in the margined camera area (top edge included).
pub open spec fn in_snow_area(c: Rect, p: Vec2) -> bool {
    &&& c.left - SNOWFLAKE_MARGIN <= p.x < c.right + SNOWFLAKE_MARGIN
    &&& c.bottom - SNOWFLAKE_MARGIN <= p.y <= c.top + SNOWFLAKE_MARGIN
}

/// A freshly spawned flake: inside the margined area, drawn where it
/// logically is, with a valid frame.
pub open spec fn fresh_flake(c: Rect, f: SnowflakeEntity) -> bool {
    &&& in_snow_area(c, f.snowflake.0)
    &&& f.snowflake.0.y < c.top + SNOWFLAKE_MARGIN
    &&& f.position.0 == f.snowflake.0
    &&& f.sprite_index < SNOWFLAKE_FRAMES
}

/// One tick of falling: the flake drops by [`SNOWFLAKE_FALL`]; once below
/// the lower margin it reappears on the upper margin at a random `x` inside
/// the margined width.
pub open spec fn fell(c: Rect, before: Vec2, after: Vec2) -> bool {
    let y = before.y - SNOWFLAKE_FALL;
    if y < c.bottom - SNOWFLAKE_MARGIN {
        &&& after.y == c.top + SNOWFLAKE_MARGIN
        &&& c.left - SNOWFLAKE_MARGIN <= after.x < c.right + SNOWFLAKE_MARGIN
    } else {
        after.x == before.x && after.y == y
    }
}

/// How many flakes a level with this camera boundary gets:
/// `floor(density * (height + 20 px) * (width + 20 px))`.
pub fn snowflake_count(camera: &LevelCameraBoundary) -> (n: u64)
    requires
        camera.0.bounded(),
    ensures
        n == snowflake_count_spec(camera.0),
{
    let c = camera.0;
    let dy: i64 = c.top - c.bottom;
    let dx: i64 = c.right - c.left;
    let h: i64 = (if dy >= 0 { dy } else { -dy }) + 2 * SNOWFLAKE_MARGIN;
    let w: i64 = (if dx >= 0 { dx } else { -dx }) + 2 * SNOWFLAKE_MARGIN;
    assert(0 <= h <= 4 * COORD_BOUND && 0 <= w <= 4 * COORD_BOUND);
    proof {
        let hh = h as int;
        let ww = w as int;
        assert(hh * ww <= (4 * COORD_BOUND) * (4 * COORD_BOUND)) by (nonlinear_arith)
            requires
                0 <= hh <= 4 * COORD_BOUND,
                0 <= ww <= 4 * COORD_BOUND,
        ;
        assert(0 <= hh * ww) by (nonlinear_arith)
            requires
                0 <= hh,
                0 <= ww,
        ;
    }
    let hw: u128 = (h as u128) * (w as u128);
    let num: u128 = SNOWFLAKE_DENSITY_NUM * hw;
    let n: u128 = num / SNOWFLAKE_DENSITY_DEN;
    assert(h == span(c.top as int, c.bottom as int) + 2 * SNOWFLAKE_MARGIN);
    assert(w == span(c.right as int, c.left as int) + 2 * SNOWFLAKE_MARGIN);
    assert(num == SNOWFLAKE_DENSITY_NUM * (h as int) * (w as int)) by (nonlinear_arith)
        requires
            num == SNOWFLAKE_DENSITY_NUM * hw,
            hw == (h as int) * (w as int),
    ;
    assert(n <= 0xffff_ffff_ffff_ffff) by (nonlinear_arith)
        requires
            n == num / 12_960_000_000,
            0 <= num <= 2 * (4 * COORD_BOUND) * (4 * COORD_BOUND),
            COORD_BOUND == 1_099_511_627_776,
    ;
    n as u64
}

/// Spawns a level's snow: [`snowflake_count`] flakes, each at a uniformly
/// random point of the margined camera area and with a random frame.
pub fn init_snowflakes(camera: &LevelCameraBoundary) -> (flakes: Vec<SnowflakeEntity>)
    requires
        camera.0.bounded(),
        spawn_area_nonempty(camera.0),
    ensures
        flakes@.len() == snowflake_count_spec(camera.0),
        forall|i: int| 0 <= i < flakes@.len() ==> fresh_flake(camera.0, #[trigger] flakes@[i]),
{
    let c = camera.0;
    let n = snowflake_count(camera);
    let mut flakes: Vec<SnowflakeEntity> = Vec::new();
    let mut k: u64 = 0;
    while k < n
        invariant
            k <= n,
            n == snowflake_count_spec(c),
            c == camera.0,
            c.bounded(),
            spawn_area_nonempty(c),
            flakes@.len() == k,
            forall|i: int| 0 <= i < flakes@.len() ==> fresh_flake(c, #[trigger] flakes@[i]),
        decreases n - k,
    {
        let frame = random_between(0, SNOWFLAKE_FRAMES as i64);
        let x = random_between(c.left - SNOWFLAKE_MARGIN, c.right + SNOWFLAKE_MARGIN);
        let y = random_between(c.bottom - SNOWFLAKE_MARGIN, c.top + SNOWFLAKE_MARGIN);
        let p = Vec2 { x, y };
        flakes.push(SnowflakeEntity {
            snowflake: Snowflake(p),
            position: Position(p),
            sprite_index: frame as usize,
        });
        k = k + 1;
    }
    flakes
}

impl Snowflake {
    /// Lets the flake fall for one tick, wrapping it to the top once it has
    /// left the margined area through the bottom.
    pub fn fall(&mut self, camera: &LevelCameraBoundary)
        requires
            camera.0.bounded(),
            fits_i64(old(self).0.y - SNOWFLAKE_FALL),
            old(self).0.y - SNOWFLAKE_FALL < camera.0.bottom - SNOWFLAKE_MARGIN
                ==> spawn_area_nonempty(camera.0),
        ensures
            fell(camera.0, old(self).0, final(self).0),
    {
        let c = camera.0;
        self.0.y = self.0.y - SNOWFLAKE_FALL;
        if self.0.y < c.bottom - SNOWFLAKE_MARGIN {
            self.0.x = random_between(c.left - SNOWFLAKE_MARGIN, c.right + SNOWFLAKE_MARGIN);
            self.0.y = c.top + SNOWFLAKE_MARGIN;
        }
    }
}

/// A flake that stays in the margined area stays there after a fall.
pub proof fn lemma_fall_stays_in_area(c: Rect, before: Vec2, after: Vec2)
    requires
        in_snow_area(c, before),
        spawn_area_nonempty(c),
        fell(c, before, after),
    ensures
        in_snow_area(c, after),
{
}

/// Where a flake is drawn: its logical position shifted by two noise
/// samples, given in sub-pixels per unit of noise and scaled by the drift
/// amplitudes.
pub open spec fn drifted(f: Snowflake, noise_x: int, noise_y: int) -> Vec2 {
    Vec2 {
        x: (f.0.x + noise_x * DRIFT_X) as i64,
        y: (f.0.y + noise_y * DRIFT_Y) as i64,
    }
}

/// Noise samples small enough that the drifted position fits in `i64`.
pub open spec fn drift_fits(f: Snowflake, noise_x: int, noise_y: int) -> bool {
    &&& fits_i64(noise_x * DRIFT_X)
    &&& fits_i64(noise_y * DRIFT_Y)
    &&& fits_i64(f.0.x + noise_x * DRIFT_X)
    &&& fits_i64(f.0.y + noise_y * DRIFT_Y)
}

impl SnowflakeEntity {
    /// Places the drawn position at the logical one shifted by the two noise
    /// samples `noise_x` and `noise_y` (one unit of noise is
    /// [`SUBPIXELS`]), scaled by [`DRIFT_X`] and [`DRIFT_Y`]. The logical
    /// position is left alone.
    pub fn drift(&mut self, noise_x: i64, noise_y: i64)
        requires
            drift_fits(old(self).snowflake, noise_x as int, noise_y as int),
        ensures
            final(self).snowflake == old(self).snowflake,
            final(self).sprite_index == old(self).sprite_index,
            final(self).position.0 == drifted(old(self).snowflake, noise_x as int, noise_y as int),
    {
        self.position = Position(
            Vec2 {
                x: self.snowflake.0.x + noise_x * DRIFT_X,
                y: self.snowflake.0.y + noise_y * DRIFT_Y,
            },
        );
    }
}

} // verus!
