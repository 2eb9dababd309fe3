//! The camera's angular state and projection parameters.
//!
//! Angles are whole micro-degrees. Yaw is the sum of all the turns applied
//! so far. Pitch is kept in `[-89, 89]` degrees, so the view direction never
//! reaches the poles and never becomes parallel to the world's up axis.

use vstd::prelude::*;
use crate::controller::CameraController;

verus! {

/// Angle units in one degree.
pub const UNITS_PER_DEGREE: i64 = 1_000_000;

/// Length units in one world unit.
pub const UNITS_PER_LENGTH: i64 = 1_000_000;

/// The steepest pitch, 89 degrees.
pub const PITCH_LIMIT: i64 = 89_000_000;

/// Half a turn, 180 degrees.
pub const HALF_TURN: i64 = 180_000_000;

/// `angle` held to `[-PITCH_LIMIT, PITCH_LIMIT]`.
pub open spec fn clamp_pitch(angle: int) -> int {
    if angle < -(PITCH_LIMIT as int) {
        -(PITCH_LIMIT as int)
    } else if angle > PITCH_LIMIT as int {
        PITCH_LIMIT as int
    } else {
        angle
    }
}

/// What one tick moves the camera by, along its own axes, in millionths of
/// a world unit: along the view direction, along its right, and along the
/// world's up.
#[derive(Clone, Copy, Debug, PartialEq, Eq, Structural)]
pub struct CameraStep {
    pub forward: i64,
    pub right: i64,
    pub up: i64,
}

/// The step that the held keys of `controller` ask for.
pub open spec fn step_of(controller: CameraController) -> CameraStep {
    CameraStep {
        forward: (controller.net_forward() * controller.speed) as i64,
        right: (controller.net_right() * controller.speed) as i64,
        up: (controller.net_up() * controller.speed) as i64,
    }
}

/// Heading and projection parameters of the free-fly camera.
///
/// `width` and `height` are the surface's size in pixels; the aspect ratio
/// is their quotient. `fovy` is in micro-degrees, `znear` and `zfar` in
/// millionths of a world unit.
///
/// The view direction that the heading stands for, and the position that
/// the steps add up to, follow from this state by trigonometry. They are
/// kept by the caller, in floating point.
#[derive(Clone, Copy, Debug, PartialEq, Eq, Structural)]
pub struct Camera {
    pub yaw: i64,
    pub pitch: i64,
    pub width: u32,
    pub height: u32,
    pub fovy: i64,
    pub znear: i64,
    pub zfar: i64,
}

impl Camera {
    /// The pitch is within its limits, the field of view is less than half
    /// a turn, and the clip planes are in order.
    pub open spec fn wf(self) -> bool {
        &&& -PITCH_LIMIT <= self.pitch <= PITCH_LIMIT
        &&& 0 < self.fovy < HALF_TURN
        &&& 0 < self.znear < self.zfar
    }

    /// The aspect ratio is a number: neither side of the surface is zero.
    pub open spec fn has_aspect(self) -> bool {
        self.width > 0 && self.height > 0
    }

    /// The yaw after a turn by the pending rotation of `controller` is a
    /// number that the camera can hold.
    pub open spec fn update_fits(self, controller: CameraController) -> bool {
        i64::MIN <= self.yaw + controller.rotate_horizontal <= i64::MAX
    }

    /// This camera turned by `horizontal` and `vertical` micro-degrees.
    pub open spec fn turned(self, horizontal: int, vertical: int) -> Camera {
        Camera {
            yaw: (self.yaw + horizontal) as i64,
            pitch: clamp_pitch(self.pitch + vertical) as i64,
            ..self
        }
    }

    /// This camera after one tick with `controller`.
    pub open spec fn after_update(self, controller: CameraController) -> Camera {
        self.turned(controller.rotate_horizontal as int, controller.rotate_vertical as int)
    }

    /// This camera after one tick with each of `inputs` in turn.
    pub open spec fn after_updates(self, inputs: Seq<CameraController>) -> Camera
        decreases inputs.len(),
    {
        if inputs.len() == 0 {
            self
        } else {
            self.after_updates(inputs.drop_last()).after_update(inputs.last())
        }
    }

    /// The camera at the start: it looks down the negative Z axis, level,
    /// with a vertical field of view of 45 degrees and clip planes at 0.1
    /// and 100.
    pub open spec fn new_spec(width: u32, height: u32) -> Camera {
        Camera {
            yaw: (-90 * UNITS_PER_DEGREE) as i64,
            pitch: 0,
            width,
            height,
            fovy: (45 * UNITS_PER_DEGREE) as i64,
            znear: (UNITS_PER_LENGTH / 10) as i64,
            zfar: (100 * UNITS_PER_LENGTH) as i64,
        }
    }

    /// A camera for a surface of the given size.
    #[verifier::when_used_as_spec(new_spec)]
    pub fn new(width: u32, height: u32) -> (camera: Camera)
        ensures
            camera == Camera::new_spec(width, height),
            camera.wf(),
    {
        Camera {
            yaw: -90 * UNITS_PER_DEGREE,
            pitch: 0,
            width,
            height,
            fovy: 45 * UNITS_PER_DEGREE,
            znear: UNITS_PER_LENGTH / 10,
            zfar: 100 * UNITS_PER_LENGTH,
        }
    }

    /// Whether `update` can apply the pending rotation of `controller`:
    /// whether the new yaw is a number that the camera can hold.
    pub fn can_update(&self, controller: &CameraController) -> (possible: bool)
        ensures
            possible == self.update_fits(*controller),
    {
        let yaw: i128 = self.yaw as i128 + controller.rotate_horizontal as i128;
        i64::MIN as i128 <= yaw && yaw <= i64::MAX as i128
    }

    /// Applies one tick of input: adds the pending rotation to yaw and
    /// pitch, holds the pitch to its limits, and returns how far the held
    /// keys move the camera along its axes.
    ///
    /// The step is the same every tick, whatever time has passed since the
    /// last one: a key held for twice as many ticks moves twice as far.
    pub fn update(&mut self, controller: &CameraController) -> (step: CameraStep)
        requires
            old(self).update_fits(*controller),
        ensures
            *final(self) == old(self).after_update(*controller),
            final(self).yaw == old(self).yaw + controller.rotate_horizontal,
            final(self).pitch == clamp_pitch(old(self).pitch + controller.rotate_vertical),
            -PITCH_LIMIT <= final(self).pitch <= PITCH_LIMIT,
            old(self).wf() ==> final(self).wf(),
            step == step_of(*controller),
    {
        self.yaw = self.yaw + controller.rotate_horizontal;
        self.pitch = clamp(self.pitch as i128 + controller.rotate_vertical as i128);
        CameraStep {
            forward: scaled(controller.amount_forward, controller.amount_backward, controller.speed),
            right: scaled(controller.amount_right, controller.amount_left, controller.speed),
            up: scaled(controller.amount_up, controller.amount_down, controller.speed),
        }
    }

    /// Takes the size of the surface, from which the aspect ratio derives.
    ///
    /// It is the caller who keeps a size without an area away: this
    /// function takes what it is given, and the aspect ratio is a number
    /// only if neither side is zero.
    pub fn resize(&mut self, width: u32, height: u32)
        ensures
            *final(self) == (Camera { width, height, ..*old(self) }),
            final(self).has_aspect() == (width > 0 && height > 0),
            old(self).wf() ==> final(self).wf(),
    {
        self.width = width;
        self.height = height;
    }
}

/// Holds the sum of a pitch and a rotation to `[-PITCH_LIMIT, PITCH_LIMIT]`.
fn clamp(angle: i128) -> (clamped: i64)
    ensures
        clamped == clamp_pitch(angle as int),
        -PITCH_LIMIT <= clamped <= PITCH_LIMIT,
{
    if angle < -(PITCH_LIMIT as i128) {
        -PITCH_LIMIT
    } else if angle > PITCH_LIMIT as i128 {
        PITCH_LIMIT
    } else {
        angle as i64
    }
}

/// The net intent along one axis times the speed.
fn scaled(toward: bool, away: bool, speed: i32) -> (distance: i64)
    ensures
        distance == crate::controller::net(toward, away) * speed,
{
    let factor: i64 = if toward == away {
        0
    } else if toward {
        1
    } else {
        -1
    };
    assert(factor == crate::controller::net(toward, away));
    assert(-0x8000_0000 <= factor * speed <= 0x8000_0000) by (nonlinear_arith)
        requires
            -1 <= factor <= 1,
            -0x8000_0000 <= speed < 0x8000_0000,
    ;
    factor * (speed as i64)
}

/// However large the rotations that a sequence of ticks applies, the pitch
/// is within 89 degrees of level after every one of them, and a well-formed
/// camera stays well formed.
pub proof fn law_pitch_stays_clamped(camera: Camera, inputs: Seq<CameraController>)
    ensures
        inputs.len() > 0 || camera.wf() ==> -PITCH_LIMIT <= camera.after_updates(inputs).pitch
            <= PITCH_LIMIT,
        camera.wf() ==> camera.after_updates(inputs).wf(),
    decreases inputs.len(),
{
    if inputs.len() > 0 {
        law_pitch_stays_clamped(camera, inputs.drop_last());
    }
}

/// A tick that follows a drain, with no pointer motion in between, turns
/// nothing: yaw and pitch stay as they were, and the camera moves only as
/// the held keys ask.
pub proof fn law_drained_tick_keeps_heading(camera: Camera, controller: CameraController)
    requires
        camera.wf(),
    ensures
        camera.after_update(controller.drained()) == camera,
        step_of(controller.drained()) == step_of(controller),
{
}

} // verus!
