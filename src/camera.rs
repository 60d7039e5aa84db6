//! Camera over a 2D world: pan, zoom, and the mapping from screen pixels to
//! world coordinates.
//!
//! Screen positions are whole pixels, with y growing downwards. World
//! positions are counted in millionths of a world unit, with y growing
//! upwards, and zoom in millionths as well. The viewport spans the clip
//! range `[-1, 1]` on both axes; x is scaled by the aspect ratio, so one
//! world unit covers `zoom * height / 2` pixels on either axis.

use vstd::prelude::*;
use vstd::arithmetic::div_mod::{lemma_fundamental_div_mod, lemma_fundamental_div_mod_converse};

verus! {

/// World positions per world unit.
pub const WORLD_UNIT: i128 = 1_000_000;

/// A zoom of `1.0`, in millionths.
pub const ZOOM_ONE: u64 = 1_000_000;

/// Smallest zoom the camera takes, in millionths.
pub const MIN_ZOOM: u64 = 1;

/// Largest zoom the camera takes, in millionths.
pub const MAX_ZOOM: u64 = 1_000_000_000_000;

/// Bound on either coordinate of the camera position.
pub const WORLD_LIMIT: i128 = 1_000_000_000_000_000_000_000_000;

/// `WORLD_UNIT * ZOOM_ONE`: the factor between pixel offsets and world
/// positions before dividing by height and zoom.
pub const TRANSFORM_SCALE: u128 = 1_000_000_000_000;

/// Bound on a doubled pixel offset across the screen.
pub const SPAN_LIMIT: i64 = 0x8_0000_0000;

/// Bound on a world offset produced from a doubled pixel offset.
pub const OFFSET_LIMIT: i128 = 100_000_000_000_000_000_000_000;

/// A position or offset on screen, in pixels; y grows downwards.
#[derive(Clone, Copy, Debug, PartialEq, Eq)]
pub struct ScreenPoint {
    pub x: i32,
    pub y: i32,
}

/// A position in the world, in millionths of a world unit; y grows upwards.
#[derive(Clone, Copy, Debug, PartialEq, Eq)]
pub struct WorldPoint {
    pub x: i128,
    pub y: i128,
}

/// The screen rectangle that shows the world: its top-left corner and size.
#[derive(Clone, Copy, Debug, PartialEq, Eq)]
pub struct Viewport {
    pub left: i32,
    pub top: i32,
    pub width: i32,
    pub height: i32,
}

/// Where the camera looks (the world point at the viewport's centre) and how
/// far it is zoomed in.
#[derive(Clone, Copy, Debug, PartialEq, Eq)]
pub struct Camera {
    pub position: WorldPoint,
    pub zoom: u64,
}

impl Viewport {
    /// A viewport with a usable size; any other frame is skipped.
    pub open spec fn valid(&self) -> bool {
        self.width > 0 && self.height > 0
    }

    pub fn is_valid(&self) -> (r: bool)
        ensures
            r == self.valid(),
    {
        self.width > 0 && self.height > 0
    }
}

/// Signed world offset for a doubled pixel offset `n`: `n / (height * zoom)`
/// in world positions, rounded towards zero, so that `-n` gives the
/// opposite offset.
pub open spec fn offset_spec(n: int, height: int, zoom: int) -> int {
    if n >= 0 {
        n * TRANSFORM_SCALE / (height * zoom)
    } else {
        -((-n) * TRANSFORM_SCALE / (height * zoom))
    }
}

/// Doubled pixel offset of `px` from the viewport's centre, rightwards.
pub open spec fn clip_x(vp: Viewport, px: int) -> int {
    2 * (px - vp.left) - vp.width
}

/// Doubled pixel offset of `py` from the viewport's centre, upwards.
pub open spec fn clip_y(vp: Viewport, py: int) -> int {
    vp.height - 2 * (py - vp.top)
}

/// World x under screen x `px`.
pub open spec fn world_x(cam: Camera, vp: Viewport, px: int) -> int {
    cam.position.x + offset_spec(clip_x(vp, px), vp.height as int, cam.zoom as int)
}

/// World y under screen y `py`.
pub open spec fn world_y(cam: Camera, vp: Viewport, py: int) -> int {
    cam.position.y + offset_spec(clip_y(vp, py), vp.height as int, cam.zoom as int)
}

/// Doubled pixel offset shown for a world offset `d`: the inverse of
/// `offset_spec`, rounding away from zero.
pub open spec fn pixel_span_spec(d: int, height: int, zoom: int) -> int {
    if d >= 0 {
        (d * (height * zoom) + TRANSFORM_SCALE - 1) / (TRANSFORM_SCALE as int)
    } else {
        -(((-d) * (height * zoom) + TRANSFORM_SCALE - 1) / (TRANSFORM_SCALE as int))
    }
}

/// Screen x at which world x `wx` is shown.
pub open spec fn screen_x(cam: Camera, vp: Viewport, wx: int) -> int {
    vp.left + (pixel_span_spec(wx - cam.position.x, vp.height as int, cam.zoom as int) + vp.width)
        / 2
}

/// Screen y at which world y `wy` is shown.
pub open spec fn screen_y(cam: Camera, vp: Viewport, wy: int) -> int {
    vp.top + (vp.height - pixel_span_spec(wy - cam.position.y, vp.height as int, cam.zoom as int))
        / 2
}

/// Whether a world position stays within the camera's bounds.
pub open spec fn in_world(x: int, y: int) -> bool {
    -WORLD_LIMIT <= x <= WORLD_LIMIT && -WORLD_LIMIT <= y <= WORLD_LIMIT
}

/// The camera after dragging the view by `(dx, dy)` pixels: the world
/// follows the pointer, so the position moves against the drag on x and,
/// screen y pointing down, with it on world y. A drag on an unusable
/// viewport, or one that would leave the world's bounds, changes nothing.
pub open spec fn panned(cam: Camera, vp: Viewport, dx: int, dy: int) -> Camera {
    let nx = cam.position.x - offset_spec(2 * dx, vp.height as int, cam.zoom as int);
    let ny = cam.position.y + offset_spec(2 * dy, vp.height as int, cam.zoom as int);
    if vp.valid() && in_world(nx, ny) {
        Camera { position: WorldPoint { x: nx as i128, y: ny as i128 }, zoom: cam.zoom }
    } else {
        cam
    }
}

/// Zoom after one scroll step in: divided by 0.9, rounded down, at most
/// `MAX_ZOOM`.
pub open spec fn zoomed_in(zoom: int) -> int {
    if zoom * 10 / 9 > MAX_ZOOM {
        MAX_ZOOM as int
    } else {
        zoom * 10 / 9
    }
}

/// Zoom after one scroll step out: times 0.9, rounded down, at least
/// `MIN_ZOOM`.
pub open spec fn zoomed_out(zoom: int) -> int {
    if zoom * 9 / 10 < MIN_ZOOM {
        MIN_ZOOM as int
    } else {
        zoom * 9 / 10
    }
}

/// Zoom after a scroll: scrolling up zooms in one step, down zooms out one
/// step, no scroll leaves it.
pub open spec fn zoom_after_scroll(zoom: int, scroll: int) -> int {
    if scroll > 0 {
        zoomed_in(zoom)
    } else if scroll < 0 {
        zoomed_out(zoom)
    } else {
        zoom
    }
}

/// Computes `offset_spec` for a doubled pixel offset.
fn world_offset(n: i64, height: i32, zoom: u64) -> (r: i128)
    requires
        height > 0,
        MIN_ZOOM <= zoom <= MAX_ZOOM,
        -SPAN_LIMIT <= n <= SPAN_LIMIT,
    ensures
        r == offset_spec(n as int, height as int, zoom as int),
        -OFFSET_LIMIT <= r <= OFFSET_LIMIT,
{
    assert(height as u128 * zoom as u128 <= 0x8000_0000u128 * MAX_ZOOM as u128) by (nonlinear_arith)
        requires
            0 < height <= 0x8000_0000u128,
            zoom <= MAX_ZOOM,
    ;
    let d: u128 = height as u128 * zoom as u128;
    let m: u128 = if n < 0 {
        (0i128 - n as i128) as u128
    } else {
        n as u128
    };
    assert(m * TRANSFORM_SCALE <= SPAN_LIMIT as u128 * TRANSFORM_SCALE) by (nonlinear_arith)
        requires
            m <= SPAN_LIMIT,
    ;
    assert(height as u128 * zoom as u128 >= 1) by (nonlinear_arith)
        requires
            height >= 1,
            zoom >= 1,
    ;
    let q: u128 = m * TRANSFORM_SCALE / d;
    assert(q <= m * TRANSFORM_SCALE) by (nonlinear_arith)
        requires
            d >= 1,
            q as int == (m * TRANSFORM_SCALE) as int / (d as int),
    ;
    if n < 0 {
        0i128 - q as i128
    } else {
        q as i128
    }
}

impl Camera {
    /// Zoom within bounds and position within the world's bounds.
    pub open spec fn wf(&self) -> bool {
        &&& MIN_ZOOM <= self.zoom <= MAX_ZOOM
        &&& in_world(self.position.x as int, self.position.y as int)
    }

    /// A camera looking at `position` with the given zoom.
    pub fn new(position: WorldPoint, zoom: u64) -> (r: Camera)
        requires
            MIN_ZOOM <= zoom <= MAX_ZOOM,
            in_world(position.x as int, position.y as int),
        ensures
            r.wf(),
            r.position == position,
            r.zoom == zoom,
    {
        Camera { position, zoom }
    }

    /// The world point under a screen point.
    pub fn screen_to_world(&self, vp: &Viewport, p: ScreenPoint) -> (r: WorldPoint)
        requires
            self.wf(),
            vp.valid(),
        ensures
            r.x == world_x(*self, *vp, p.x as int),
            r.y == world_y(*self, *vp, p.y as int),
    {
        let nx: i64 = 2 * (p.x as i64 - vp.left as i64) - vp.width as i64;
        let ny: i64 = vp.height as i64 - 2 * (p.y as i64 - vp.top as i64);
        let ox = world_offset(nx, vp.height, self.zoom);
        let oy = world_offset(ny, vp.height, self.zoom);
        WorldPoint { x: self.position.x + ox, y: self.position.y + oy }
    }

    /// Drags the view by `delta` pixels; see `panned`.
    pub fn pan(&mut self, vp: &Viewport, delta: ScreenPoint)
        requires
            old(self).wf(),
        ensures
            final(self).wf(),
            *final(self) == panned(*old(self), *vp, delta.x as int, delta.y as int),
    {
        if !vp.is_valid() {
            return;
        }
        let ox = world_offset(2 * delta.x as i64, vp.height, self.zoom);
        let oy = world_offset(2 * delta.y as i64, vp.height, self.zoom);
        let nx: i128 = self.position.x - ox;
        let ny: i128 = self.position.y + oy;
        if -WORLD_LIMIT <= nx && nx <= WORLD_LIMIT && -WORLD_LIMIT <= ny && ny <= WORLD_LIMIT {
            self.position = WorldPoint { x: nx, y: ny };
        }
    }

    /// Applies one scroll step; see `zoom_after_scroll`. Only the sign of
    /// `scroll` counts.
    pub fn zoom_by(&mut self, scroll: i32)
        requires
            old(self).wf(),
        ensures
            final(self).wf(),
            final(self).position == old(self).position,
            final(self).zoom == zoom_after_scroll(old(self).zoom as int, scroll as int),
    {
        if scroll > 0 {
            let z: u64 = (self.zoom as u128 * 10 / 9) as u64;
            self.zoom = if z > MAX_ZOOM {
                MAX_ZOOM
            } else {
                z
            };
        } else if scroll < 0 {
            let z: u64 = self.zoom * 9 / 10;
            self.zoom = if z < MIN_ZOOM {
                MIN_ZOOM
            } else {
                z
            };
        }
    }
}

/// Rounding a zero-ward quotient back up recovers the numerator: for
/// `0 < d <= TRANSFORM_SCALE`, `m` maps to `m * TRANSFORM_SCALE / d` and back.
proof fn lemma_span_inverse(m: nat, d: int)
    requires
        0 < d <= TRANSFORM_SCALE,
    ensures
        ((m * TRANSFORM_SCALE) / d * d + TRANSFORM_SCALE - 1) / (TRANSFORM_SCALE as int) == m,
        m > 0 ==> (m * TRANSFORM_SCALE) / d > 0,
{
    let k = TRANSFORM_SCALE as int;
    let a = m * k;
    let off = a / d;
    let r = a % d;
    lemma_fundamental_div_mod(a, d);
    assert(off * d + k - 1 == m * k + (k - 1 - r)) by (nonlinear_arith)
        requires
            a == d * off + r,
            a == m * k,
    ;
    lemma_fundamental_div_mod_converse(off * d + k - 1, k, m as int, k - 1 - r);
    if m > 0 {
        assert(off > 0) by (nonlinear_arith)
            requires
                a == d * off + r,
                a == m * k,
                m >= 1,
                0 <= r < d <= k,
        ;
    }
}

/// The offset of a doubled pixel offset, turned back into pixels, is that
/// pixel offset again, as long as one world position spans at most one
/// doubled pixel.
proof fn lemma_offset_inverse(n: int, height: int, zoom: int)
    requires
        height > 0,
        zoom > 0,
        height * zoom <= TRANSFORM_SCALE,
    ensures
        pixel_span_spec(offset_spec(n, height, zoom), height, zoom) == n,
{
    assert(height * zoom > 0) by (nonlinear_arith)
        requires
            height > 0,
            zoom > 0,
    ;
    if n >= 0 {
        lemma_span_inverse(n as nat, height * zoom);
    } else {
        lemma_span_inverse((-n) as nat, height * zoom);
    }
}

/// Opposite pixel offsets give opposite world offsets.
proof fn lemma_offset_is_odd(n: int, height: int, zoom: int)
    requires
        height > 0,
        zoom > 0,
    ensures
        offset_spec(-n, height, zoom) == -offset_spec(n, height, zoom),
{
    if n == 0 {
        assert(0 * TRANSFORM_SCALE == 0);
        assert(height * zoom > 0) by (nonlinear_arith)
            requires
                height > 0,
                zoom > 0,
        ;
        assert(0int / (height * zoom) == 0);
    }
}

/// Transform round trip: for a fixed camera, the screen point at which the
/// world point under a screen point `p` is shown is `p` itself, for any
/// zoom at which one world position spans at most one doubled pixel
/// (`height * zoom <= TRANSFORM_SCALE`).
pub proof fn lemma_screen_world_round_trip(cam: Camera, vp: Viewport, p: ScreenPoint)
    requires
        cam.wf(),
        vp.valid(),
        vp.height * cam.zoom <= TRANSFORM_SCALE,
    ensures
        screen_x(cam, vp, world_x(cam, vp, p.x as int)) == p.x,
        screen_y(cam, vp, world_y(cam, vp, p.y as int)) == p.y,
{
    let h = vp.height as int;
    let z = cam.zoom as int;
    lemma_offset_inverse(clip_x(vp, p.x as int), h, z);
    lemma_offset_inverse(clip_y(vp, p.y as int), h, z);
    assert(world_x(cam, vp, p.x as int) - cam.position.x == offset_spec(clip_x(vp, p.x as int), h, z));
    assert(world_y(cam, vp, p.y as int) - cam.position.y == offset_spec(clip_y(vp, p.y as int), h, z));
    assert((clip_x(vp, p.x as int) + vp.width) / 2 == p.x - vp.left);
    assert((vp.height - clip_y(vp, p.y as int)) / 2 == p.y - vp.top);
}

/// Zoom steps undo each other: one scroll step in and then one out leaves
/// the zoom where it was or one millionth below it, unless the step in was
/// held at `MAX_ZOOM`.
pub proof fn lemma_zoom_in_then_out(zoom: int)
    requires
        MIN_ZOOM <= zoom <= MAX_ZOOM,
        zoom * 10 / 9 <= MAX_ZOOM,
    ensures
        zoom - 1 <= zoomed_out(zoomed_in(zoom)) <= zoom,
{
    let a = zoom * 10 / 9;
    let b = a * 9 / 10;
    assert(zoom - 1 <= b <= zoom) by (nonlinear_arith)
        requires
            zoom >= 1,
            a == zoom * 10 / 9,
            b == a * 9 / 10,
    ;
}

/// Pan inverse: dragging by `(dx, dy)` and then by `(-dx, -dy)` puts the
/// camera back where it was, provided the first drag was not refused for
/// leaving the world's bounds.
pub proof fn lemma_pan_then_back(cam: Camera, vp: Viewport, dx: int, dy: int)
    requires
        cam.wf(),
        vp.valid(),
        in_world(
            cam.position.x - offset_spec(2 * dx, vp.height as int, cam.zoom as int),
            cam.position.y + offset_spec(2 * dy, vp.height as int, cam.zoom as int),
        ),
    ensures
        panned(panned(cam, vp, dx, dy), vp, -dx, -dy) == cam,
{
    let h = vp.height as int;
    let z = cam.zoom as int;
    lemma_offset_is_odd(2 * dx, h, z);
    lemma_offset_is_odd(2 * dy, h, z);
    assert(2 * -dx == -(2 * dx));
    assert(2 * -dy == -(2 * dy));
}

} // verus!
