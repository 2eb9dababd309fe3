//! Input accumulated between two render ticks.
//!
//! Movement keys are latches: a key holds its intent from press to release.
//! Pointer motion is a single cell that the last event overwrites and that
//! the render tick drains once.

use vstd::prelude::*;
use winit::event::ElementState;
use winit::event::VirtualKeyCode;

verus! {

/// `winit::event::ElementState`, declared so that the verifier reads its
/// two variants from winit itself. Nothing is claimed of it.
#[verifier::external_type_specification]
pub struct ExElementState(winit::event::ElementState);

/// `winit::event::VirtualKeyCode`, declared so that the verifier reads its
/// variants from winit itself. Nothing is claimed of it.
#[verifier::external_type_specification]
pub struct ExVirtualKeyCode(winit::event::VirtualKeyCode);

/// The six directions a movement key can ask for.
#[derive(Clone, Copy, Debug, PartialEq, Eq, Structural)]
pub enum Intent {
    Forward,
    Backward,
    Left,
    Right,
    Up,
    Down,
}

/// The intent a key stands for, if it is a movement key.
pub open spec fn intent_of(key: VirtualKeyCode) -> Option<Intent> {
    match key {
        VirtualKeyCode::W | VirtualKeyCode::Up => Some(Intent::Forward),
        VirtualKeyCode::S | VirtualKeyCode::Down => Some(Intent::Backward),
        VirtualKeyCode::A | VirtualKeyCode::Left => Some(Intent::Left),
        VirtualKeyCode::D | VirtualKeyCode::Right => Some(Intent::Right),
        VirtualKeyCode::Space => Some(Intent::Up),
        VirtualKeyCode::LShift => Some(Intent::Down),
        _ => None,
    }
}

/// Pointer deltas are whole thousandths of a device unit, so that a device
/// which reports fractions of a unit is not rounded to whole units.
pub const DELTA_UNITS_PER_POINTER_UNIT: i32 = 1000;

/// The net intent along one axis: `+1`, `0` or `-1`.
pub open spec fn net(toward: bool, away: bool) -> int {
    (if toward { 1int } else { 0int }) - (if away { 1int } else { 0int })
}

/// Keyboard latches, the pending pointer rotation and the two tuning values.
///
/// `rotate_horizontal` and `rotate_vertical` are in micro-degrees and hold
/// input that no tick has consumed yet. `speed` is the distance moved per
/// tick, in millionths of a world unit; `sensitivity` is the rotation per
/// thousandth of a pointer unit, in micro-degrees.
#[derive(Clone, Copy, Debug, PartialEq, Eq, Structural)]
pub struct CameraController {
    pub amount_left: bool,
    pub amount_right: bool,
    pub amount_forward: bool,
    pub amount_backward: bool,
    pub amount_up: bool,
    pub amount_down: bool,
    pub rotate_horizontal: i64,
    pub rotate_vertical: i64,
    pub speed: i32,
    pub sensitivity: i32,
}

impl CameraController {
    /// This controller with the latch of `intent` set to `held`.
    pub open spec fn with_intent(self, intent: Intent, held: bool) -> CameraController {
        match intent {
            Intent::Forward => CameraController { amount_forward: held, ..self },
            Intent::Backward => CameraController { amount_backward: held, ..self },
            Intent::Left => CameraController { amount_left: held, ..self },
            Intent::Right => CameraController { amount_right: held, ..self },
            Intent::Up => CameraController { amount_up: held, ..self },
            Intent::Down => CameraController { amount_down: held, ..self },
        }
    }

    /// This controller after a key event.
    pub open spec fn after_key(self, key: VirtualKeyCode, state: ElementState) -> CameraController {
        match intent_of(key) {
            Some(intent) => self.with_intent(intent, state == ElementState::Pressed),
            None => self,
        }
    }

    /// This controller after a pointer motion of `(delta_x, delta_y)`
    /// thousandths of a device unit.
    pub open spec fn after_motion(self, delta_x: i32, delta_y: i32) -> CameraController {
        CameraController {
            rotate_horizontal: (-(delta_x as int) * (self.sensitivity as int)) as i64,
            rotate_vertical: (-(delta_y as int) * (self.sensitivity as int)) as i64,
            ..self
        }
    }

    /// This controller with no pending rotation.
    pub open spec fn drained(self) -> CameraController {
        CameraController { rotate_horizontal: 0, rotate_vertical: 0, ..self }
    }

    /// Net intent along the view direction.
    pub open spec fn net_forward(self) -> int {
        net(self.amount_forward, self.amount_backward)
    }

    /// Net intent along the camera's right.
    pub open spec fn net_right(self) -> int {
        net(self.amount_right, self.amount_left)
    }

    /// Net intent along the world's up.
    pub open spec fn net_up(self) -> int {
        net(self.amount_up, self.amount_down)
    }

    /// The controller with nothing held and nothing pending.
    pub open spec fn new_spec(speed: i32, sensitivity: i32) -> CameraController {
        CameraController {
            amount_left: false,
            amount_right: false,
            amount_forward: false,
            amount_backward: false,
            amount_up: false,
            amount_down: false,
            rotate_horizontal: 0,
            rotate_vertical: 0,
            speed,
            sensitivity,
        }
    }

    /// A controller with nothing held and nothing pending.
    #[verifier::when_used_as_spec(new_spec)]
    pub fn new(speed: i32, sensitivity: i32) -> (controller: CameraController)
        ensures
            controller == CameraController::new_spec(speed, sensitivity),
    {
        CameraController {
            amount_left: false,
            amount_right: false,
            amount_forward: false,
            amount_backward: false,
            amount_up: false,
            amount_down: false,
            rotate_horizontal: 0,
            rotate_vertical: 0,
            speed,
            sensitivity,
        }
    }

    /// Latches a movement key on press and releases it on release.
    ///
    /// Returns whether the key is a movement key; any other key leaves the
    /// controller as it was, so the caller can hand the event on.
    pub fn process_keyboard(&mut self, key: VirtualKeyCode, state: ElementState) -> (recognized: bool)
        ensures
            recognized == intent_of(key).is_some(),
            *final(self) == old(self).after_key(key, state),
    {
        let held = match state {
            ElementState::Pressed => true,
            ElementState::Released => false,
        };
        match key {
            VirtualKeyCode::W | VirtualKeyCode::Up => {
                self.amount_forward = held;
                true
            },
            VirtualKeyCode::S | VirtualKeyCode::Down => {
                self.amount_backward = held;
                true
            },
            VirtualKeyCode::A | VirtualKeyCode::Left => {
                self.amount_left = held;
                true
            },
            VirtualKeyCode::D | VirtualKeyCode::Right => {
                self.amount_right = held;
                true
            },
            VirtualKeyCode::Space => {
                self.amount_up = held;
                true
            },
            VirtualKeyCode::LShift => {
                self.amount_down = held;
                true
            },
            _ => false,
        }
    }

    /// Replaces the pending rotation by that of one pointer motion, given
    /// in thousandths of a device unit.
    ///
    /// The sign is inverted, and an earlier motion that no tick has consumed
    /// is lost: the cell keeps the last event only.
    pub fn process_mouse_movement(&mut self, delta_x: i32, delta_y: i32)
        ensures
            *final(self) == old(self).after_motion(delta_x, delta_y),
            final(self).rotate_horizontal == -(delta_x as int) * (old(self).sensitivity as int),
            final(self).rotate_vertical == -(delta_y as int) * (old(self).sensitivity as int),
    {
        let sensitivity: i64 = self.sensitivity as i64;
        proof {
            lemma_product_fits(delta_x, self.sensitivity);
            lemma_product_fits(delta_y, self.sensitivity);
        }
        self.rotate_horizontal = -(delta_x as i64) * sensitivity;
        self.rotate_vertical = -(delta_y as i64) * sensitivity;
    }

    /// Drops the pending rotation, once a tick has applied it.
    pub fn reset_mouse_movement(&mut self)
        ensures
            *final(self) == old(self).drained(),
    {
        self.rotate_horizontal = 0;
        self.rotate_vertical = 0;
    }
}

/// Pointer motion does not add up: of two motions with no tick in between,
/// the controller keeps the second only.
pub proof fn law_motion_overwrites(
    controller: CameraController,
    first: (i32, i32),
    second: (i32, i32),
)
    ensures
        controller.after_motion(first.0, first.1).after_motion(second.0, second.1)
            == controller.after_motion(second.0, second.1),
{
}

/// The product of a negated 32-bit count and a 32-bit factor fits in 64 bits.
proof fn lemma_product_fits(count: i32, factor: i32)
    ensures
        -0x4000_0000_0000_0000 <= -(count as int) * (factor as int) <= 0x4000_0000_0000_0000,
{
    let c = -(count as int);
    let f = factor as int;
    assert(-0x4000_0000_0000_0000 <= c * f <= 0x4000_0000_0000_0000) by (nonlinear_arith)
        requires
            -0x8000_0000 <= c <= 0x8000_0000,
            -0x8000_0000 <= f <= 0x8000_0000,
    ;
}

} // verus!
