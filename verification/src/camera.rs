//! Orbit-camera state: a focus point, a clamped radius, and clamped
//! pitch/yaw angles, updated by the three input-driven operations (orbit,
//! pan, zoom). Each is a no-op when its trigger input is absent. The camera
//! transform itself is a pure function of this state that the rendering host
//! derives with its own trigonometry.

use crate::fixed::{abs_s, clamp64, clamp_s, fp_mul, fp_mul_s, lemma_tdiv_bound, Vec3Fp, SCALE};
use vstd::prelude::*;

verus! {

/// Closest allowed orbit radius (5 world units).
pub const MIN_RADIUS: i64 = 5_000_000;

/// Farthest allowed orbit radius (100 world units).
pub const MAX_RADIUS: i64 = 100_000_000;

/// Lowest allowed pitch (0.1 rad), keeping clear of the horizon.
pub const MIN_PITCH: i64 = 100_000;

/// Highest allowed pitch (pi/2 - 0.1 rad), keeping clear of the pole.
pub const MAX_PITCH: i64 = 1_470_796;

/// The starting pitch and yaw (45 degrees in radians).
pub const DEFAULT_ANGLE: i64 = 785_398;

/// The starting radius (20 world units).
pub const DEFAULT_RADIUS: i64 = 20_000_000;

/// Orbit speed: radians per pixel of pointer motion (0.005).
pub const ORBIT_SENSITIVITY: i64 = 5_000;

/// Pan speed per unit radius (0.002): panning scales with zoom distance.
pub const PAN_SENSITIVITY: i64 = 2_000;

/// Multiplicative zoom step per unit of scroll (0.1).
pub const ZOOM_FACTOR: i64 = 100_000;

/// Largest per-tick input magnitude (motion or scroll) the fixed-point
/// arithmetic supports.
pub const MAX_INPUT: i64 = 1_000_000_000_000;

/// Largest supported focus-point component magnitude.
pub const MAX_FOCUS: i64 = 1_000_000_000_000_000;

/// Largest supported accumulated yaw magnitude.
pub const MAX_YAW: i64 = 0x2000_0000_0000_0000;

/// The orbit camera rig. The transform (position and orientation) is always
/// recomputed from these four fields, never stored separately.
#[derive(Debug, Clone, Copy, PartialEq, Eq, Structural)]
pub struct EditorCamera {
    pub focus: Vec3Fp,
    pub radius: i64,
    pub pitch: i64,
    pub yaw: i64,
}

impl EditorCamera {
    /// Radius and pitch sit inside their clamp ranges, and focus and yaw are
    /// within the supported numeric range.
    pub open spec fn wf(self) -> bool {
        &&& MIN_RADIUS <= self.radius <= MAX_RADIUS
        &&& MIN_PITCH <= self.pitch <= MAX_PITCH
        &&& -MAX_YAW <= self.yaw <= MAX_YAW
        &&& abs_s(self.focus.x as int) <= MAX_FOCUS as int
        &&& abs_s(self.focus.y as int) <= MAX_FOCUS as int
        &&& abs_s(self.focus.z as int) <= MAX_FOCUS as int
    }

    /// Orbit: while the rotate input is held and the pointer moved, yaw
    /// turns against horizontal motion and pitch follows vertical motion,
    /// clamped away from the horizon and the pole. Focus and radius are
    /// untouched; without input this is a no-op.
    pub fn orbit(&mut self, active: bool, dx: i64, dy: i64)
        requires
            old(self).wf(),
            -MAX_INPUT <= dx <= MAX_INPUT,
            -MAX_INPUT <= dy <= MAX_INPUT,
        ensures
            final(self).wf(),
            (!active || (dx == 0 && dy == 0)) ==> *final(self) == *old(self),
            (active && !(dx == 0 && dy == 0)) ==> {
                &&& final(self).yaw as int == clamp_s(
                    old(self).yaw as int - fp_mul_s(dx as int, ORBIT_SENSITIVITY as int),
                    -MAX_YAW as int,
                    MAX_YAW as int,
                )
                &&& final(self).pitch as int == clamp_s(
                    old(self).pitch as int + fp_mul_s(dy as int, ORBIT_SENSITIVITY as int),
                    MIN_PITCH as int,
                    MAX_PITCH as int,
                )
                &&& final(self).radius == old(self).radius
                &&& final(self).focus == old(self).focus
            },
    {
        if !active || (dx == 0 && dy == 0) {
            return ;
        }
        proof {
            lemma_orbit_delta(dx as int);
            lemma_orbit_delta(dy as int);
        }
        let ddx: i64 = fp_mul(dx, ORBIT_SENSITIVITY);
        let ddy: i64 = fp_mul(dy, ORBIT_SENSITIVITY);
        self.yaw = self.yaw - ddx;
        self.pitch = clamp64(self.pitch + ddy, MIN_PITCH, MAX_PITCH);
        proof {
            assert(-MAX_YAW - MAX_INPUT <= self.yaw as int <= MAX_YAW + MAX_INPUT);
        }
        self.yaw = clamp64(self.yaw, -MAX_YAW, MAX_YAW);
    }

    /// Pan: while the pan input is held and the pointer moved, the focus
    /// slides against horizontal motion along the camera's right axis and
    /// with vertical motion along the ground-projected forward axis, at a
    /// speed proportional to the radius. The axes are unit vectors the host
    /// derives from the current transform. Angles and radius are untouched;
    /// without input this is a no-op.
    pub fn pan(&mut self, active: bool, dx: i64, dy: i64, right: Vec3Fp, forward: Vec3Fp)
        requires
            old(self).wf(),
            -MAX_INPUT <= dx <= MAX_INPUT,
            -MAX_INPUT <= dy <= MAX_INPUT,
            abs_s(right.x as int) <= SCALE as int,
            abs_s(right.y as int) <= SCALE as int,
            abs_s(right.z as int) <= SCALE as int,
            abs_s(forward.x as int) <= SCALE as int,
            abs_s(forward.y as int) <= SCALE as int,
            abs_s(forward.z as int) <= SCALE as int,
        ensures
            (!active || (dx == 0 && dy == 0)) ==> *final(self) == *old(self),
            (active && !(dx == 0 && dy == 0)) ==> ({
                let speed = fp_mul_s(old(self).radius as int, PAN_SENSITIVITY as int);
                let sx = fp_mul_s(dx as int, speed);
                let sy = fp_mul_s(dy as int, speed);
                &&& final(self).focus.x as int == clamp_s(
                    old(self).focus.x as int - fp_mul_s(right.x as int, sx) + fp_mul_s(
                        forward.x as int,
                        sy,
                    ),
                    -MAX_FOCUS as int,
                    MAX_FOCUS as int,
                )
                &&& final(self).focus.y as int == clamp_s(
                    old(self).focus.y as int - fp_mul_s(right.y as int, sx) + fp_mul_s(
                        forward.y as int,
                        sy,
                    ),
                    -MAX_FOCUS as int,
                    MAX_FOCUS as int,
                )
                &&& final(self).focus.z as int == clamp_s(
                    old(self).focus.z as int - fp_mul_s(right.z as int, sx) + fp_mul_s(
                        forward.z as int,
                        sy,
                    ),
                    -MAX_FOCUS as int,
                    MAX_FOCUS as int,
                )
                &&& final(self).radius == old(self).radius
                &&& final(self).pitch == old(self).pitch
                &&& final(self).yaw == old(self).yaw
            }),
            final(self).wf(),
    {
        if !active || (dx == 0 && dy == 0) {
            return ;
        }
        proof {
            lemma_pan_speed(self.radius as int);
        }
        let speed: i64 = fp_mul(self.radius, PAN_SENSITIVITY);
        proof {
            lemma_pan_scale(dx as int, speed as int);
            lemma_pan_scale(dy as int, speed as int);
        }
        let sx: i64 = fp_mul(dx, speed);
        let sy: i64 = fp_mul(dy, speed);
        proof {
            lemma_axis_step(right.x as int, sx as int);
            lemma_axis_step(right.y as int, sy as int);
            lemma_axis_step(right.y as int, sx as int);
            lemma_axis_step(right.z as int, sx as int);
            lemma_axis_step(forward.x as int, sy as int);
            lemma_axis_step(forward.y as int, sy as int);
            lemma_axis_step(forward.z as int, sy as int);
        }
        let fx: i64 = self.focus.x - fp_mul(right.x, sx) + fp_mul(forward.x, sy);
        let fy: i64 = self.focus.y - fp_mul(right.y, sx) + fp_mul(forward.y, sy);
        let fz: i64 = self.focus.z - fp_mul(right.z, sx) + fp_mul(forward.z, sy);
        self.focus = Vec3Fp {
            x: clamp64(fx, -MAX_FOCUS, MAX_FOCUS),
            y: clamp64(fy, -MAX_FOCUS, MAX_FOCUS),
            z: clamp64(fz, -MAX_FOCUS, MAX_FOCUS),
        };
    }

    /// Zoom: a nonzero scroll shrinks or grows the radius by a tenth of its
    /// current value per scroll unit (multiplicative zoom), clamped to
    /// `[MIN_RADIUS, MAX_RADIUS]`: the radius never leaves that range, no
    /// matter how far the input scrolls. Everything else is untouched.
    pub fn zoom(&mut self, scroll: i64)
        requires
            old(self).wf(),
            -MAX_INPUT <= scroll <= MAX_INPUT,
        ensures
            final(self).wf(),
            scroll == 0 ==> *final(self) == *old(self),
            scroll != 0 ==> final(self).radius as int == clamp_s(
                old(self).radius as int - fp_mul_s(
                    fp_mul_s(scroll as int, old(self).radius as int),
                    ZOOM_FACTOR as int,
                ),
                MIN_RADIUS as int,
                MAX_RADIUS as int,
            ),
            scroll != 0 ==> final(self).focus == old(self).focus && final(self).pitch == old(
                self,
            ).pitch && final(self).yaw == old(self).yaw,
            MIN_RADIUS <= final(self).radius <= MAX_RADIUS,
    {
        if scroll == 0 {
            return ;
        }
        proof {
            lemma_zoom_product(scroll as int, self.radius as int);
        }
        let scaled: i64 = fp_mul(scroll, self.radius);
        proof {
            lemma_zoom_step(scaled as int);
        }
        let delta: i64 = fp_mul(scaled, ZOOM_FACTOR);
        self.radius = clamp64(self.radius - delta, MIN_RADIUS, MAX_RADIUS);
    }
}

impl Default for EditorCamera {
    /// The startup rig: focus at the origin, radius 20, both angles at 45
    /// degrees.
    fn default() -> (c: Self)
        ensures
            c.focus == (Vec3Fp { x: 0, y: 0, z: 0 }),
            c.radius == DEFAULT_RADIUS,
            c.pitch == DEFAULT_ANGLE,
            c.yaw == DEFAULT_ANGLE,
            c.wf(),
    {
        EditorCamera {
            focus: Vec3Fp { x: 0, y: 0, z: 0 },
            radius: DEFAULT_RADIUS,
            pitch: DEFAULT_ANGLE,
            yaw: DEFAULT_ANGLE,
        }
    }
}

/// An orbit input scaled by the sensitivity stays within the input range.
proof fn lemma_orbit_delta(d: int)
    requires
        -(MAX_INPUT as int) <= d <= MAX_INPUT as int,
    ensures
        abs_s(fp_mul_s(d, ORBIT_SENSITIVITY as int)) <= MAX_INPUT as int,
{
    assert(abs_s(d * (ORBIT_SENSITIVITY as int)) <= (SCALE as int) * (MAX_INPUT as int))
        by (nonlinear_arith)
        requires
            -(MAX_INPUT as int) <= d <= MAX_INPUT as int,
    ;
    lemma_tdiv_bound(d * (ORBIT_SENSITIVITY as int), SCALE as int, MAX_INPUT as int);
}

/// The pan speed derived from a well-formed radius is at most a fifth of a
/// world unit per pixel.
proof fn lemma_pan_speed(radius: int)
    requires
        MIN_RADIUS as int <= radius <= MAX_RADIUS as int,
    ensures
        0 <= fp_mul_s(radius, PAN_SENSITIVITY as int) <= 200_000,
{
    assert(0 <= radius * (PAN_SENSITIVITY as int) <= (SCALE as int) * 200_000)
        by (nonlinear_arith)
        requires
            0 <= radius <= MAX_RADIUS as int,
    ;
    lemma_tdiv_bound(radius * (PAN_SENSITIVITY as int), SCALE as int, 200_000);
}

/// A pan input scaled by the pan speed stays bounded.
proof fn lemma_pan_scale(d: int, speed: int)
    requires
        -(MAX_INPUT as int) <= d <= MAX_INPUT as int,
        0 <= speed <= 200_000,
    ensures
        abs_s(fp_mul_s(d, speed)) <= 200_000_000_000,
{
    assert(abs_s(d * speed) <= (SCALE as int) * 200_000_000_000) by (nonlinear_arith)
        requires
            -(MAX_INPUT as int) <= d <= MAX_INPUT as int,
            0 <= speed <= 200_000,
    ;
    lemma_tdiv_bound(d * speed, SCALE as int, 200_000_000_000);
}

/// A bounded displacement projected on a unit-vector component stays
/// bounded.
proof fn lemma_axis_step(axis: int, s: int)
    requires
        abs_s(axis) <= SCALE as int,
        abs_s(s) <= 200_000_000_000,
    ensures
        abs_s(fp_mul_s(axis, s)) <= 200_000_000_000,
{
    assert(abs_s(axis * s) <= (SCALE as int) * 200_000_000_000) by (nonlinear_arith)
        requires
            abs_s(axis) <= SCALE as int,
            abs_s(s) <= 200_000_000_000,
    ;
    lemma_tdiv_bound(axis * s, SCALE as int, 200_000_000_000);
}

/// The scroll-times-radius product stays in fixed-point range.
proof fn lemma_zoom_product(scroll: int, radius: int)
    requires
        -(MAX_INPUT as int) <= scroll <= MAX_INPUT as int,
        MIN_RADIUS as int <= radius <= MAX_RADIUS as int,
    ensures
        abs_s(fp_mul_s(scroll, radius)) <= 0x1000_0000_0000_0000,
{
    assert(abs_s(scroll * radius) <= (SCALE as int) * 0x1000_0000_0000_0000) by (nonlinear_arith)
        requires
            -(MAX_INPUT as int) <= scroll <= MAX_INPUT as int,
            0 <= radius <= MAX_RADIUS as int,
    ;
    lemma_tdiv_bound(scroll * radius, SCALE as int, 0x1000_0000_0000_0000);
}

/// A tenth of a bounded value stays bounded.
proof fn lemma_zoom_step(scaled: int)
    requires
        abs_s(scaled) <= 0x1000_0000_0000_0000,
    ensures
        abs_s(fp_mul_s(scaled, ZOOM_FACTOR as int)) <= 0x1000_0000_0000_0000,
{
    assert(abs_s(scaled * (ZOOM_FACTOR as int)) <= (SCALE as int) * 0x1000_0000_0000_0000)
        by (nonlinear_arith)
        requires
            abs_s(scaled) <= 0x1000_0000_0000_0000,
    ;
    lemma_tdiv_bound(scaled * (ZOOM_FACTOR as int), SCALE as int, 0x1000_0000_0000_0000);
}

} // verus!
