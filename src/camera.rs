//! The camera: a pixel-art scale for any window size, and following the
//! player without showing anything beyond the level's camera boundary.

use vstd::prelude::*;
use crate::geom::{Vec2, Rect, SUBPIXELS};
use crate::levels::LevelCameraBoundary;
use crate::physics::Position;

verus! {

/// The smallest number of window pixels per art pixel.
pub const MIN_SCALE: u64 = 4;

/// Height of the background art: 200 pixels, in sub-pixels.
pub const BACKGROUND_HEIGHT: u64 = 720000;

/// Largest viewport half-extent the projection can produce, in sub-pixels.
pub const VIEWPORT_BOUND: i64 = 4_000_000_000_000;

/// The visible area around the camera, as offsets from its centre.
#[derive(Clone, Copy, Debug, PartialEq, Eq, Structural)]
pub struct SantaOrthoProjection {
    pub viewport_dimensions: Rect,
}

/// Visible width and height, in sub-pixels, for a window of `width` by
/// `height` pixels: the window divided by the minimum scale, then, if that is
/// taller than the background art, shrunk uniformly to the art's height.
pub open spec fn visible_size(width: int, height: int) -> (int, int) {
    let w = width * SUBPIXELS / (MIN_SCALE as int);
    let h = height * SUBPIXELS / (MIN_SCALE as int);
    if h > BACKGROUND_HEIGHT {
        (w * BACKGROUND_HEIGHT / h, BACKGROUND_HEIGHT as int)
    } else {
        (w, h)
    }
}

/// The viewport of a visible area of `w` by `h`, centred on the camera.
pub open spec fn centred(w: int, h: int) -> Rect {
    Rect {
        left: -(w / 2) as i64,
        right: (w / 2) as i64,
        bottom: -(h / 2) as i64,
        top: (h / 2) as i64,
    }
}

pub open spec fn coord_clamp(v: int, lo: int, hi: int) -> int {
    let a = if v > lo { v } else { lo };
    if a < hi { a } else { hi }
}

impl SantaOrthoProjection {
    pub open spec fn wf(&self) -> bool {
        let v = self.viewport_dimensions;
        &&& -VIEWPORT_BOUND <= v.left <= 0 <= v.right <= VIEWPORT_BOUND
        &&& -VIEWPORT_BOUND <= v.bottom <= 0 <= v.top <= VIEWPORT_BOUND
    }

    /// Recomputes the viewport for a window of `width` by `height` pixels.
    pub fn update(&mut self, width: u32, height: u32)
        ensures
            final(self).wf(),
            ({
                let (w, h) = visible_size(width as int, height as int);
                final(self).viewport_dimensions == centred(w, h)
            }),
    {
        let ww: u64 = width as u64;
        let wh: u64 = height as u64;
        assert(ww * 3600 <= 0x1000_0000_0000 && wh * 3600 <= 0x1000_0000_0000) by (nonlinear_arith)
            requires
                ww <= 0xffff_ffff,
                wh <= 0xffff_ffff,
        ;
        let mut w: u64 = ww * (SUBPIXELS as u64) / MIN_SCALE;
        let mut h: u64 = wh * (SUBPIXELS as u64) / MIN_SCALE;
        assert(w <= 4_000_000_000_000 && h <= 4_000_000_000_000) by (nonlinear_arith)
            requires
                w == (width as int) * 3600 / 4,
                h == (height as int) * 3600 / 4,
                width <= 0xffff_ffff,
                height <= 0xffff_ffff,
        ;
        if h > BACKGROUND_HEIGHT {
            proof {
                assert((w as int) * (BACKGROUND_HEIGHT as int) / (h as int) <= w) by (nonlinear_arith)
                    requires
                        h > BACKGROUND_HEIGHT,
                        w >= 0,
                        BACKGROUND_HEIGHT == 720000,
                {
                    vstd::arithmetic::div_mod::lemma_div_is_ordered(
                        (w as int) * (BACKGROUND_HEIGHT as int),
                        (w as int) * (h as int),
                        h as int,
                    );
                    vstd::arithmetic::div_mod::lemma_div_by_multiple(w as int, h as int);
                }
            }
            w = ((w as u128) * (BACKGROUND_HEIGHT as u128) / (h as u128)) as u64;
            h = BACKGROUND_HEIGHT;
        }
        let hw: i64 = (w / 2) as i64;
        let hh: i64 = (h / 2) as i64;
        self.viewport_dimensions = Rect { left: -hw, right: hw, bottom: -hh, top: hh };
    }

    /// The projection for the default 800 by 600 window.
    pub fn new() -> (p: SantaOrthoProjection)
        ensures
            p.wf(),
            p.viewport_dimensions == centred(visible_size(800, 600).0, visible_size(800, 600).1),
    {
        let mut p = SantaOrthoProjection {
            viewport_dimensions: Rect { left: 0, right: 0, bottom: 0, top: 0 },
        };
        p.update(800, 600);
        p
    }
}

/// Where the camera goes to follow the player: on the player, but moved in
/// so the viewport does not cross the camera boundary. Whenever the viewport
/// fits in the boundary, everything shown lies inside the boundary.
pub fn follow_player(
    player: &Position,
    projection: &SantaOrthoProjection,
    boundary: &LevelCameraBoundary,
) -> (r: Vec2)
    requires
        projection.wf(),
        boundary.0.bounded(),
    ensures
        ({
            let v = projection.viewport_dimensions;
            let b = boundary.0;
            &&& r.x == coord_clamp(player.0.x as int, b.left - v.left, b.right - v.right)
            &&& r.y == coord_clamp(player.0.y as int, b.bottom - v.bottom, b.top - v.top)
            &&& b.left - v.left <= b.right - v.right ==> b.left <= r.x + v.left && r.x + v.right
                <= b.right
            &&& b.bottom - v.bottom <= b.top - v.top ==> b.bottom <= r.y + v.bottom && r.y + v.top
                <= b.top
        }),
{
    let v = projection.viewport_dimensions;
    let b = boundary.0;
    let lo_x = b.left - v.left;
    let hi_x = b.right - v.right;
    let lo_y = b.bottom - v.bottom;
    let hi_y = b.top - v.top;
    let ax = if player.0.x > lo_x { player.0.x } else { lo_x };
    let x = if ax < hi_x { ax } else { hi_x };
    let ay = if player.0.y > lo_y { player.0.y } else { lo_y };
    let y = if ay < hi_y { ay } else { hi_y };
    Vec2 { x, y }
}

} // verus!
