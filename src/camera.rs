//! Orientation and field of view of a free-look camera.
//!
//! Angles are in thousandths of a degree. The basis vectors, the position and
//! the matrices are floating-point work and are derived from these angles by
//! the renderer.
use vstd::prelude::*;

use crate::input::{FrameActions, LookOffset};

verus! {

/// Thousandths of a degree in one degree.
pub const MILLIDEGREES: i64 = 1000;

/// Largest magnitude of the pitch: just inside a quarter turn, so that the
/// front vector never lines up with the world's up direction.
pub const PITCH_LIMIT: i64 = 89000;

/// Narrowest field of view.
pub const FOV_MIN: i64 = 1000;

/// Widest field of view.
pub const FOV_MAX: i64 = 75000;

/// Yaw of a new camera: looking down the negative z axis.
pub const YAW: i64 = -90000;

/// Pitch of a new camera.
pub const PITCH: i64 = 0;

/// Turn per pixel of mouse motion of a new camera.
pub const SENSITIVITY: i64 = 100;

/// Field of view of a new camera.
pub const ZOOM: i64 = 45000;

/// `v` held inside `[lo, hi]`.
pub open spec fn clamp(v: int, lo: int, hi: int) -> int {
    if v < lo {
        lo
    } else if v > hi {
        hi
    } else {
        v
    }
}

/// A free-look camera's orientation and field of view.
#[derive(Clone, Copy, Debug, PartialEq, Eq, Structural)]
pub struct Camera {
    /// Heading, in thousandths of a degree.
    pub yaw: i64,
    /// Elevation, in thousandths of a degree.
    pub pitch: i64,
    /// Turn per pixel of mouse motion, in thousandths of a degree.
    pub mouse_sensitivity: i64,
    /// Vertical field of view, in thousandths of a degree.
    pub zoom: i64,
}

impl Camera {
    /// The orientation stays clear of the poles and the field of view is
    /// sane.
    pub open spec fn wf(self) -> bool {
        &&& -PITCH_LIMIT <= self.pitch <= PITCH_LIMIT
        &&& FOV_MIN <= self.zoom <= FOV_MAX
    }

    /// The camera after turning by `x_offset` pixels right and `y_offset`
    /// pixels up: the yaw grows by the scaled offset (held at the bounds of
    /// `i64`), the pitch likewise but clamped to `[-PITCH_LIMIT, PITCH_LIMIT]`.
    pub open spec fn looked(self, x_offset: int, y_offset: int) -> Camera {
        Camera {
            yaw: clamp(
                self.yaw + x_offset * self.mouse_sensitivity,
                i64::MIN as int,
                i64::MAX as int,
            ) as i64,
            pitch: clamp(
                self.pitch + y_offset * self.mouse_sensitivity,
                -PITCH_LIMIT as int,
                PITCH_LIMIT as int,
            ) as i64,
            ..self
        }
    }

    /// The camera after zooming by `y` (a wheel amount, in thousandths of a
    /// step; one step is one degree).
    pub open spec fn zoomed(self, y: int) -> Camera {
        Camera { zoom: clamp(self.zoom - y, FOV_MIN as int, FOV_MAX as int) as i64, ..self }
    }

    /// A camera with the given orientation and sensitivity and the default
    /// field of view; the pitch is clamped.
    pub fn new(yaw: i64, pitch: i64, mouse_sensitivity: i64) -> (r: Camera)
        ensures
            r.wf(),
            r.yaw == yaw,
            r.pitch == clamp(pitch as int, -PITCH_LIMIT as int, PITCH_LIMIT as int),
            r.mouse_sensitivity == mouse_sensitivity,
            r.zoom == ZOOM,
    {
        Camera { yaw, pitch: clamp_i128(pitch as i128, -PITCH_LIMIT, PITCH_LIMIT), mouse_sensitivity, zoom: ZOOM }
    }

    /// Turns the camera by `x_offset` pixels right and `y_offset` pixels up,
    /// scaled by the mouse sensitivity: both are added to the yaw and the
    /// pitch; the pitch is then clamped to `[-PITCH_LIMIT, PITCH_LIMIT]`. A
    /// yaw beyond the range of `i64` is held at its bound.
    pub fn move_mouse(&mut self, x_offset: i64, y_offset: i64)
        ensures
            *final(self) == old(self).looked(x_offset as int, y_offset as int),
            -PITCH_LIMIT <= final(self).pitch <= PITCH_LIMIT,
    {
        let dx: i128 = product(x_offset, self.mouse_sensitivity);
        let dy: i128 = product(y_offset, self.mouse_sensitivity);
        self.yaw = clamp_i128(self.yaw as i128 + dx, i64::MIN, i64::MAX);
        self.pitch = clamp_i128(self.pitch as i128 + dy, -PITCH_LIMIT, PITCH_LIMIT);
    }

    /// Zooms by a wheel amount `y` (thousandths of a step, one step being one
    /// degree): the field of view narrows by `y` and is clamped to
    /// `[FOV_MIN, FOV_MAX]`.
    pub fn change_fov(&mut self, y: i64)
        ensures
            *final(self) == old(self).zoomed(y as int),
            FOV_MIN <= final(self).zoom <= FOV_MAX,
    {
        self.zoom = clamp_i128(self.zoom as i128 - y as i128, FOV_MIN, FOV_MAX);
    }

    /// The camera after the look and zoom that `actions` asks for; movement
    /// is the renderer's part.
    pub open spec fn after_frame(self, actions: FrameActions) -> Camera {
        let c = match actions.look {
            Some(o) => self.looked(o.dx as int, o.dy as int),
            None => self,
        };
        match actions.zoom {
            Some(y) => c.zoomed(y as int),
            None => c,
        }
    }

    /// Applies the look and zoom of one frame's actions.
    pub fn apply_frame(&mut self, actions: &FrameActions)
        ensures
            *final(self) == old(self).after_frame(*actions),
    {
        match actions.look {
            Some(o) => self.move_mouse(o.dx, o.dy),
            None => {},
        }
        match actions.zoom {
            Some(y) => self.change_fov(y),
            None => {},
        }
    }
}

/// `v` held inside `[lo, hi]`.
fn clamp_i128(v: i128, lo: i64, hi: i64) -> (r: i64)
    requires
        lo <= hi,
    ensures
        r == clamp(v as int, lo as int, hi as int),
{
    if v < lo as i128 {
        lo
    } else if v > hi as i128 {
        hi
    } else {
        v as i64
    }
}

/// `a * b`, which always fits in an `i128`.
fn product(a: i64, b: i64) -> (r: i128)
    ensures
        r == a * b,
        -0x4000_0000_0000_0000_0000_0000_0000_0000 <= r <= 0x4000_0000_0000_0000_0000_0000_0000_0000,
{
    proof {
        let (x, y) = (a as int, b as int);
        assert(-0x4000_0000_0000_0000_0000_0000_0000_0000 <= x * y <= 0x4000_0000_0000_0000_0000_0000_0000_0000) by (nonlinear_arith)
            requires
                -0x8000_0000_0000_0000 <= x <= 0x7fff_ffff_ffff_ffff,
                -0x8000_0000_0000_0000 <= y <= 0x7fff_ffff_ffff_ffff,
        ;
    }
    a as i128 * b as i128
}

impl Camera {
    /// The camera after the look calls of `offsets`, in order.
    pub open spec fn looked_all(self, offsets: Seq<LookOffset>) -> Camera
        decreases offsets.len(),
    {
        if offsets.len() == 0 {
            self
        } else {
            self.looked_all(offsets.drop_last()).looked(
                offsets.last().dx as int,
                offsets.last().dy as int,
            )
        }
    }

    /// The camera after the zoom calls of `amounts`, in order.
    pub open spec fn zoomed_all(self, amounts: Seq<i64>) -> Camera
        decreases amounts.len(),
    {
        if amounts.len() == 0 {
            self
        } else {
            self.zoomed_all(amounts.drop_last()).zoomed(amounts.last() as int)
        }
    }
}

/// Whatever look calls a well-formed camera receives, its pitch stays within
/// `[-PITCH_LIMIT, PITCH_LIMIT]` (and the camera stays well-formed).
pub proof fn lemma_pitch_stays_clamped(cam: Camera, offsets: Seq<LookOffset>)
    requires
        cam.wf(),
    ensures
        -PITCH_LIMIT <= cam.looked_all(offsets).pitch <= PITCH_LIMIT,
        cam.looked_all(offsets).wf(),
    decreases offsets.len(),
{
    if offsets.len() > 0 {
        lemma_pitch_stays_clamped(cam, offsets.drop_last());
    }
}

/// Whatever zoom calls a well-formed camera receives, its field of view stays
/// within `[FOV_MIN, FOV_MAX]` (and the camera stays well-formed).
pub proof fn lemma_fov_stays_clamped(cam: Camera, amounts: Seq<i64>)
    requires
        cam.wf(),
    ensures
        FOV_MIN <= cam.zoomed_all(amounts).zoom <= FOV_MAX,
        cam.zoomed_all(amounts).wf(),
    decreases amounts.len(),
{
    if amounts.len() > 0 {
        lemma_fov_stays_clamped(cam, amounts.drop_last());
    }
}

impl Default for Camera {
    /// Looking down the negative z axis, level, with the default sensitivity
    /// and field of view.
    fn default() -> (r: Camera)
        ensures
            r == (Camera { yaw: YAW, pitch: PITCH, mouse_sensitivity: SENSITIVITY, zoom: ZOOM }),
            r.wf(),
    {
        Camera { yaw: YAW, pitch: PITCH, mouse_sensitivity: SENSITIVITY, zoom: ZOOM }
    }
}

} // verus!
