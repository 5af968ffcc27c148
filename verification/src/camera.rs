//! Orbit camera: yaw, pitch, distance and target, updated from mouse drags
//! and scroll wheel input.
//!
//! Angles are kept in microradians, distances and cursor positions in
//! thousandths (milli-units), so the update rules of the camera are exact
//! integer arithmetic:
//!  - a drag turns cursor deltas into angle deltas at 10 microradians per
//!    milli-pixel (0.01 radians per pixel), clamping pitch to +/- 89 degrees;
//!  - a scroll scales the distance by `1 - lines * 0.1`, floor-clamped to a
//!    minimum of 0.1 units.

use vstd::prelude::*;
use vstd::arithmetic::mul::lemma_mul_inequality;
use vstd::arithmetic::div_mod::{lemma_div_is_ordered, lemma_div_multiples_vanish, lemma_div_pos_is_pos};

verus! {

/// 89 degrees in microradians: the clamp bound for pitch.
pub const PITCH_LIMIT_URAD: i64 = 1_553_343;

/// Drag sensitivity: 10 microradians per milli-pixel, i.e. 0.01 radians per
/// pixel of cursor travel.
pub const DRAG_SENSITIVITY: i64 = 10;

/// The smallest allowed camera distance, in milli-units (0.1 units).
pub const MIN_DISTANCE_MILLI: u64 = 100;

/// The starting camera distance, in milli-units (5 units).
pub const DEFAULT_DISTANCE_MILLI: u64 = 5_000;

/// A zoom scale factor of exactly 1, in units of one ten-thousandth.
/// A scroll of `m` milli-lines scales the distance by `(10000 - m) / 10000`,
/// which is `1 - lines * 0.1`.
pub const ZOOM_SCALE_ONE: u64 = 10_000;

/// A point or direction with coordinates in milli-units.
#[derive(Clone, Copy, Debug, PartialEq, Eq, Structural)]
pub struct Vec3Milli {
    pub x: i64,
    pub y: i64,
    pub z: i64,
}

/// Orbit camera state. The eye position is derived (outside this module, in
/// floating point) as `target + distance * spherical(yaw, pitch)`.
#[derive(Clone, Copy, Debug, PartialEq, Eq, Structural)]
pub struct Camera {
    /// Yaw angle in microradians.
    pub yaw: i64,
    /// Pitch angle in microradians; always within +/- `PITCH_LIMIT_URAD`.
    pub pitch: i64,
    /// Distance from the target in milli-units; at least `MIN_DISTANCE_MILLI`.
    pub distance: u64,
    /// Orbit target point, in milli-units.
    pub target: Vec3Milli,
    /// Up direction, in milli-units.
    pub up: Vec3Milli,
}

/// Saturation of a mathematical integer into the `i64` range.
pub open spec fn sat_i64(x: int) -> int {
    if x < i64::MIN as int {
        i64::MIN as int
    } else if x > i64::MAX as int {
        i64::MAX as int
    } else {
        x
    }
}

/// Clamp of a pitch angle into `[-PITCH_LIMIT_URAD, PITCH_LIMIT_URAD]`.
pub open spec fn clamp_pitch(p: int) -> int {
    if p < -(PITCH_LIMIT_URAD as int) {
        -(PITCH_LIMIT_URAD as int)
    } else if p > PITCH_LIMIT_URAD as int {
        PITCH_LIMIT_URAD as int
    } else {
        p
    }
}

/// The yaw after a horizontal drag of `dx` milli-pixels.
pub open spec fn dragged_yaw(yaw: int, dx: int) -> int {
    sat_i64(yaw - dx * DRAG_SENSITIVITY)
}

/// The pitch after a vertical drag of `dy` milli-pixels.
pub open spec fn dragged_pitch(pitch: int, dy: int) -> int {
    clamp_pitch(pitch - dy * DRAG_SENSITIVITY)
}

/// The distance after a scroll of `raw` milli-lines: scaled by
/// `(10000 - raw) / 10000`, clamped into `[MIN_DISTANCE_MILLI, u64::MAX]`.
pub open spec fn scrolled_distance(d: int, raw: int) -> int {
    let scale = ZOOM_SCALE_ONE as int - raw;
    if scale <= 0 {
        MIN_DISTANCE_MILLI as int
    } else {
        let nd = (d * scale) / (ZOOM_SCALE_ONE as int);
        if nd > u64::MAX as int {
            u64::MAX as int
        } else if nd < MIN_DISTANCE_MILLI as int {
            MIN_DISTANCE_MILLI as int
        } else {
            nd
        }
    }
}

impl Camera {
    /// The camera invariant: pitch within the clamp bounds and distance at
    /// least the floor.
    pub open spec fn well_formed(self) -> bool {
        &&& -(PITCH_LIMIT_URAD as int) <= self.pitch <= PITCH_LIMIT_URAD as int
        &&& self.distance >= MIN_DISTANCE_MILLI
    }

    /// The starting camera: yaw 0, pitch 0, distance 5 units, target at the
    /// origin, up along +Y.
    pub fn new() -> (c: Camera)
        ensures
            c.yaw == 0,
            c.pitch == 0,
            c.distance == DEFAULT_DISTANCE_MILLI,
            c.target == (Vec3Milli { x: 0, y: 0, z: 0 }),
            c.up == (Vec3Milli { x: 0, y: 1000, z: 0 }),
            c.well_formed(),
    {
        Camera {
            yaw: 0,
            pitch: 0,
            distance: DEFAULT_DISTANCE_MILLI,
            target: Vec3Milli { x: 0, y: 0, z: 0 },
            up: Vec3Milli { x: 0, y: 1000, z: 0 },
        }
    }

    /// Apply a drag of (`dx`, `dy`) milli-pixels: yaw and pitch each move by
    /// `-delta * DRAG_SENSITIVITY`, and pitch is clamped to +/- 89 degrees.
    pub fn apply_drag(&mut self, dx: i64, dy: i64)
        ensures
            final(self).yaw == dragged_yaw(old(self).yaw as int, dx as int),
            final(self).pitch == dragged_pitch(old(self).pitch as int, dy as int),
            final(self).distance == old(self).distance,
            final(self).target == old(self).target,
            final(self).up == old(self).up,
            old(self).well_formed() ==> final(self).well_formed(),
    {
        let y: i128 = self.yaw as i128 - (dx as i128) * 10;
        self.yaw = if y < i64::MIN as i128 {
            i64::MIN
        } else if y > i64::MAX as i128 {
            i64::MAX
        } else {
            y as i64
        };
        let p: i128 = self.pitch as i128 - (dy as i128) * 10;
        self.pitch = if p < -(PITCH_LIMIT_URAD as i128) {
            -PITCH_LIMIT_URAD
        } else if p > PITCH_LIMIT_URAD as i128 {
            PITCH_LIMIT_URAD
        } else {
            p as i64
        };
    }

    /// Apply a scroll of `raw_milli_lines` milli-lines: the distance is
    /// scaled by `1 - lines * 0.1` and floor-clamped to 0.1 units. A large
    /// positive scroll (scale factor zero or below) drops straight to the
    /// floor; the result saturates at `u64::MAX` milli-units.
    pub fn apply_scroll(&mut self, raw_milli_lines: i64)
        ensures
            final(self).distance == scrolled_distance(
                old(self).distance as int,
                raw_milli_lines as int,
            ),
            final(self).distance >= MIN_DISTANCE_MILLI,
            final(self).yaw == old(self).yaw,
            final(self).pitch == old(self).pitch,
            final(self).target == old(self).target,
            final(self).up == old(self).up,
            old(self).well_formed() ==> final(self).well_formed(),
    {
        let scale: i128 = ZOOM_SCALE_ONE as i128 - raw_milli_lines as i128;
        if scale <= 0 {
            self.distance = MIN_DISTANCE_MILLI;
        } else {
            proof {
                let d = self.distance as int;
                let s = scale as int;
                let c = 10_000 + i64::MAX as int + 1;
                lemma_mul_inequality(s, c, d);
                lemma_mul_inequality(d, u64::MAX as int, c);
            }
            let prod: u128 = (self.distance as u128) * (scale as u128);
            let nd: u128 = prod / (ZOOM_SCALE_ONE as u128);
            self.distance = if nd > u64::MAX as u128 {
                u64::MAX
            } else if (nd as u64) < MIN_DISTANCE_MILLI {
                MIN_DISTANCE_MILLI
            } else {
                nd as u64
            };
        }
    }
}

impl Default for Camera {
    /// The starting camera, as `new` builds it.
    fn default() -> (c: Camera)
        ensures
            c == (Camera {
                yaw: 0,
                pitch: 0,
                distance: DEFAULT_DISTANCE_MILLI,
                target: Vec3Milli { x: 0, y: 0, z: 0 },
                up: Vec3Milli { x: 0, y: 1000, z: 0 },
            }),
            c.well_formed(),
    {
        Camera::new()
    }
}

/// Law: after any drag, the pitch lies within the clamp bounds, so clamping
/// it again changes nothing.
pub proof fn lemma_drag_pitch_clamped(pitch: int, dy: int)
    ensures
        -(PITCH_LIMIT_URAD as int) <= dragged_pitch(pitch, dy) <= PITCH_LIMIT_URAD as int,
        clamp_pitch(dragged_pitch(pitch, dy)) == dragged_pitch(pitch, dy),
{
}

/// Law: for a non-negative scroll delta, the distance never increases and
/// never drops below the floor `MIN_DISTANCE_MILLI`.
pub proof fn lemma_scroll_monotone(d: int, raw: int)
    requires
        0 <= raw,
        MIN_DISTANCE_MILLI as int <= d <= u64::MAX as int,
    ensures
        MIN_DISTANCE_MILLI as int <= scrolled_distance(d, raw) <= d,
{
    let scale = ZOOM_SCALE_ONE as int - raw;
    if scale > 0 {
        lemma_mul_inequality(scale, ZOOM_SCALE_ONE as int, d);
        lemma_div_is_ordered(d * scale, d * (ZOOM_SCALE_ONE as int), ZOOM_SCALE_ONE as int);
        lemma_div_multiples_vanish(d, ZOOM_SCALE_ONE as int);
        lemma_div_pos_is_pos(d * scale, ZOOM_SCALE_ONE as int);
    }
}

/// Mouse-wheel input, in fixed point: whole-line scrolls carry milli-lines,
/// pixel scrolls carry milli-pixels.
#[derive(Clone, Copy, Debug, PartialEq, Eq, Structural)]
pub enum ScrollDelta {
    /// A line-based scroll, in milli-lines.
    Lines(i64),
    /// A pixel-based scroll, in milli-pixels.
    Pixels(i64),
}

/// The scroll amount in milli-lines: pixel deltas are normalized to line
/// units by dividing by 120, truncating toward zero.
pub open spec fn milli_lines_of(delta: ScrollDelta) -> int {
    match delta {
        ScrollDelta::Lines(m) => m as int,
        ScrollDelta::Pixels(p) => if p >= 0 {
            (p as int) / 120
        } else {
            -((-(p as int)) / 120)
        },
    }
}

/// Normalize a scroll event to milli-lines.
pub fn normalize_scroll(delta: &ScrollDelta) -> (r: i64)
    ensures
        r == milli_lines_of(*delta),
{
    match delta {
        ScrollDelta::Lines(m) => *m,
        ScrollDelta::Pixels(p) => {
            let p: i64 = *p;
            if p >= 0 {
                ((p as u64) / 120) as i64
            } else {
                let mag: u64 = ((-(p + 1)) as u64) + 1;
                let q: u64 = mag / 120;
                -(q as i64)
            }
        },
    }
}

} // verus!
