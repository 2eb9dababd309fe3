//! The orchestrator of the frame loop: what each tick does to the camera
//! and the controller, which commands it records, and how the loop answers
//! a resize or a failed acquire.

use vstd::prelude::*;
use wgpu::SurfaceError;
use winit::event::ElementState;
use winit::event::VirtualKeyCode;
use winit::event::WindowEvent;
use crate::camera::step_of;
use crate::camera::Camera;
use crate::camera::CameraStep;
use crate::controller::intent_of;
use crate::controller::CameraController;
use crate::frame::frame_commands;
use crate::frame::frame_plan;
use crate::frame::DrawGroup;
use crate::frame::RenderCommand;

verus! {

/// `wgpu::SurfaceError`, declared so that the verifier reads its four
/// variants from wgpu itself. Nothing is claimed of it.
#[verifier::external_type_specification]
pub struct ExSurfaceError(wgpu::SurfaceError);

/// `winit::event::WindowEvent`, carried through without a look inside.
#[verifier::external_type_specification]
#[verifier::external_body]
pub struct ExWindowEvent<'a>(winit::event::WindowEvent<'a>);

/// How far the animation turns per tick, in micro-degrees.
pub const ROTATION_STEP: i64 = 0;

/// How far a held key moves the camera per tick: a fifth of a world unit.
pub const SPEED: i32 = 200_000;

/// How far a thousandth of a pointer unit turns the camera: four tenths of
/// a degree for a whole unit.
pub const SENSITIVITY: i32 = 400;

/// The part of a keyboard event that the loop reads.
#[derive(Clone, Copy, Debug, PartialEq, Eq)]
pub struct KeyboardEvent {
    pub virtual_keycode: Option<VirtualKeyCode>,
    pub state: ElementState,
}

/// What the loop has to do after a tick could not acquire its target. The
/// frame of that tick is lost in every case.
#[derive(Clone, Copy, Debug, PartialEq, Eq, Structural)]
pub enum LoopAction {
    /// Configure the surface to this size, then go on.
    Reconfigure { width: u32, height: u32 },
    /// Go on with the next tick.
    Continue,
    /// Report the error, then go on with the next tick.
    Report,
    /// Leave the loop.
    Exit,
}

/// A frame that is ready to be recorded.
#[derive(Debug, PartialEq, Eq)]
pub struct Frame {
    /// How far the camera moves this tick, along its own axes.
    pub step: CameraStep,
    /// The commands to issue, in order.
    pub commands: Vec<RenderCommand>,
}

/// The state that persists from tick to tick.
#[derive(Debug, PartialEq, Eq)]
pub struct Renderer {
    pub camera: Camera,
    pub camera_controller: CameraController,
    /// The animation angle, in micro-degrees.
    pub rotation: i64,
    /// The last known size of the surface, in pixels.
    pub width: u32,
    pub height: u32,
    /// What each frame draws.
    pub groups: Vec<DrawGroup>,
}

/// The mathematical value of a `Renderer`.
pub ghost struct RendererView {
    pub camera: Camera,
    pub camera_controller: CameraController,
    pub rotation: int,
    pub width: u32,
    pub height: u32,
    pub groups: Seq<DrawGroup>,
}

impl RendererView {
    /// This state after a resize request.
    pub open spec fn after_resize(self, width: u32, height: u32) -> RendererView {
        if width > 0 && height > 0 {
            RendererView {
                width,
                height,
                camera: Camera { width, height, ..self.camera },
                ..self
            }
        } else {
            self
        }
    }

    /// This state after a keyboard event, or the lack of one.
    pub open spec fn after_keyboard(self, keyboard: Option<KeyboardEvent>) -> RendererView {
        match keyboard {
            Some(KeyboardEvent { virtual_keycode: Some(key), state }) => RendererView {
                camera_controller: self.camera_controller.after_key(key, state),
                ..self
            },
            _ => self,
        }
    }

    /// The update step leaves the yaw and the animation angle numbers that
    /// the state can hold.
    pub open spec fn update_fits(self) -> bool {
        &&& self.camera.update_fits(self.camera_controller)
        &&& i64::MIN <= self.rotation + ROTATION_STEP <= i64::MAX
    }

    /// This state after the update step of a tick.
    pub open spec fn after_update(self) -> RendererView {
        RendererView {
            camera: self.camera.after_update(self.camera_controller),
            camera_controller: self.camera_controller.drained(),
            rotation: self.rotation + ROTATION_STEP,
            ..self
        }
    }

    /// This state after acquiring the target failed with `error`: a lost
    /// surface has the last known size applied again.
    pub open spec fn after_surface_error(self, error: SurfaceError) -> RendererView {
        match error {
            SurfaceError::Lost => self.after_resize(self.width, self.height),
            _ => self,
        }
    }

    /// What the loop does when acquiring the target failed with `error`.
    pub open spec fn recovery(self, error: SurfaceError) -> LoopAction {
        match error {
            SurfaceError::Lost => if self.width > 0 && self.height > 0 {
                LoopAction::Reconfigure { width: self.width, height: self.height }
            } else {
                LoopAction::Continue
            },
            SurfaceError::OutOfMemory => LoopAction::Exit,
            _ => LoopAction::Report,
        }
    }
}

/// Whether a keyboard event is one that the controller takes.
pub open spec fn consumes(keyboard: Option<KeyboardEvent>) -> bool {
    match keyboard {
        Some(KeyboardEvent { virtual_keycode: Some(key), .. }) => intent_of(key).is_some(),
        _ => false,
    }
}

impl View for Renderer {
    type V = RendererView;

    open spec fn view(&self) -> RendererView {
        RendererView {
            camera: self.camera,
            camera_controller: self.camera_controller,
            rotation: self.rotation as int,
            width: self.width,
            height: self.height,
            groups: self.groups@,
        }
    }
}

/// The keyboard input that a window event holds: for winit's variant
/// `WindowEvent::KeyboardInput` the key code and the state of its `input`,
/// for every other variant nothing.
pub uninterp spec fn keyboard_of(event: WindowEvent<'_>) -> Option<KeyboardEvent>;

/// Picks the keyboard input out of `winit::event::WindowEvent`: for the
/// variant `KeyboardInput` its key code and state, for every other variant
/// nothing. The result depends on the event alone, and the contract gives
/// it its name.
#[verifier::external_body]
fn keyboard_event(event: &WindowEvent<'_>) -> (keyboard: Option<KeyboardEvent>)
    ensures
        keyboard == keyboard_of(*event),
{
    match event {
        WindowEvent::KeyboardInput { input, .. } => Some(
            KeyboardEvent { virtual_keycode: input.virtual_keycode, state: input.state },
        ),
        _ => None,
    }
}

impl Renderer {
    /// The camera is well formed and sized to the surface.
    pub open spec fn wf(&self) -> bool {
        &&& self.camera.wf()
        &&& self.camera.width == self.width
        &&& self.camera.height == self.height
    }

    /// The state at the start of the loop, for a surface of the given size
    /// and the groups to draw each frame.
    pub fn new(width: u32, height: u32, groups: Vec<DrawGroup>) -> (renderer: Renderer)
        ensures
            renderer.wf(),
            renderer.camera == Camera::new_spec(width, height),
            renderer.camera_controller == CameraController::new_spec(SPEED, SENSITIVITY),
            renderer.rotation == 0,
            renderer.width == width,
            renderer.height == height,
            renderer.groups@ == groups@,
    {
        Renderer {
            camera: Camera::new(width, height),
            camera_controller: CameraController::new(SPEED, SENSITIVITY),
            rotation: 0,
            width,
            height,
            groups,
        }
    }

    /// Takes a new surface size, unless it has no area.
    ///
    /// Returns whether the surface has to be configured to the new size. A
    /// size with no area, as of a minimised window, changes nothing and
    /// asks for nothing.
    pub fn resize(&mut self, width: u32, height: u32) -> (reconfigure: bool)
        ensures
            reconfigure == (width > 0 && height > 0),
            final(self)@ == old(self)@.after_resize(width, height),
            width == 0 || height == 0 ==> final(self)@ == old(self)@,
            old(self).wf() ==> final(self).wf(),
    {
        if width > 0 && height > 0 {
            self.width = width;
            self.height = height;
            self.camera.resize(width, height);
            true
        } else {
            false
        }
    }

    /// Hands a keyboard event to the controller.
    ///
    /// Returns whether the controller took it: only a movement key is
    /// taken, and only then does anything change.
    pub fn keyboard(&mut self, keyboard: Option<KeyboardEvent>) -> (consumed: bool)
        ensures
            consumed == consumes(keyboard),
            final(self)@ == old(self)@.after_keyboard(keyboard),
            old(self).wf() ==> final(self).wf(),
    {
        match keyboard {
            Some(KeyboardEvent { virtual_keycode: Some(key), state }) => {
                self.camera_controller.process_keyboard(key, state)
            },
            _ => false,
        }
    }

    /// Hands a window event to the controller, if it is a keyboard event.
    ///
    /// Returns whether the controller took it, so that the caller can
    /// handle what is left.
    pub fn input(&mut self, event: &WindowEvent<'_>) -> (consumed: bool)
        ensures
            consumed == consumes(keyboard_of(*event)),
            final(self)@ == old(self)@.after_keyboard(keyboard_of(*event)),
            old(self).wf() ==> final(self).wf(),
    {
        let keyboard = keyboard_event(event);
        self.keyboard(keyboard)
    }

    /// Whether the update step can run: whether the yaw and the animation
    /// angle that it leads to are numbers that the state can hold.
    pub fn can_update(&self) -> (possible: bool)
        ensures
            possible == self@.update_fits(),
    {
        self.camera.can_update(&self.camera_controller)
    }

    /// The update step of a tick: the camera takes the controller's input,
    /// the pending rotation is dropped, and the animation advances.
    ///
    /// Returns how far the camera moves, along its own axes.
    pub fn update(&mut self) -> (step: CameraStep)
        requires
            old(self)@.update_fits(),
        ensures
            final(self)@ == old(self)@.after_update(),
            final(self).camera.yaw == old(self).camera.yaw
                + old(self).camera_controller.rotate_horizontal,
            final(self).rotation == old(self).rotation + ROTATION_STEP,
            old(self).wf() ==> final(self).wf(),
            step == step_of(old(self).camera_controller),
    {
        let step = self.camera.update(&self.camera_controller);
        self.camera_controller.reset_mouse_movement();
        self.rotation = self.rotation + ROTATION_STEP;
        step
    }

    /// Hands a pointer motion to the controller.
    pub fn process_mouse_movement(&mut self, delta_x: i32, delta_y: i32)
        ensures
            final(self)@ == (RendererView {
                camera_controller: old(self).camera_controller.after_motion(delta_x, delta_y),
                ..old(self)@
            }),
            old(self).wf() ==> final(self).wf(),
    {
        self.camera_controller.process_mouse_movement(delta_x, delta_y);
    }

    /// The commands of a frame, once its target has been acquired.
    ///
    /// A failed acquire is handed back as it came, and nothing is recorded.
    pub fn render(&self, acquired: Result<(), SurfaceError>) -> (recorded: Result<
        Vec<RenderCommand>,
        SurfaceError,
    >)
        ensures
            match acquired {
                Ok(_) => recorded is Ok && recorded->Ok_0@ == frame_plan(self.groups@),
                Err(error) => recorded == Err::<Vec<RenderCommand>, SurfaceError>(error),
            },
    {
        match acquired {
            Ok(_) => Ok(frame_commands(&self.groups)),
            Err(error) => Err(error),
        }
    }

    /// Decides how the loop goes on after a failed acquire.
    ///
    /// A lost surface is configured again to the last known size, as a
    /// resize to that size would do; while that size has no area there is
    /// nothing to configure. Exhausted memory ends the loop. Any other
    /// error is reported and costs this frame only.
    pub fn on_surface_error(&mut self, error: SurfaceError) -> (action: LoopAction)
        ensures
            action == old(self)@.recovery(error),
            final(self)@ == old(self)@.after_surface_error(error),
            old(self).wf() ==> final(self).wf() && final(self)@ == old(self)@,
    {
        match error {
            SurfaceError::Lost => {
                let width = self.width;
                let height = self.height;
                if self.resize(width, height) {
                    LoopAction::Reconfigure { width, height }
                } else {
                    LoopAction::Continue
                }
            },
            SurfaceError::OutOfMemory => LoopAction::Exit,
            _ => LoopAction::Report,
        }
    }

    /// One tick of the loop, from the outcome of acquiring its target.
    ///
    /// With a target, the tick updates the state and hands out the frame
    /// to record: the camera block is uploaded first, from the state as
    /// the update left it. Without a target, nothing is updated and nothing
    /// recorded: the tick is given up as a whole, and the result says how
    /// the loop goes on.
    pub fn tick(&mut self, acquired: Result<(), SurfaceError>) -> (outcome: Result<
        Frame,
        LoopAction,
    >)
        requires
            acquired is Ok ==> old(self)@.update_fits(),
        ensures
            old(self).wf() ==> final(self).wf(),
            match acquired {
                Ok(_) => {
                    &&& outcome is Ok
                    &&& outcome->Ok_0.step == step_of(old(self).camera_controller)
                    &&& outcome->Ok_0.commands@ == frame_plan(old(self).groups@)
                    &&& final(self)@ == old(self)@.after_update()
                },
                Err(error) => {
                    &&& outcome == Err::<Frame, LoopAction>(old(self)@.recovery(error))
                    &&& final(self)@ == old(self)@.after_surface_error(error)
                    &&& old(self).wf() ==> final(self)@ == old(self)@
                },
            },
    {
        match acquired {
            Ok(_) => {
                let step = self.update();
                let commands = frame_commands(&self.groups);
                Ok(Frame { step, commands })
            },
            Err(error) => Err(self.on_surface_error(error)),
        }
    }
}

/// While the surface has an area and the state is well formed, a lost
/// surface is answered by configuring it to the size already known, and
/// applying that size again leaves the state as it was: the next tick needs
/// no resize event to go ahead.
pub proof fn law_lost_surface_keeps_state(renderer: Renderer)
    requires
        renderer.wf(),
        renderer.width > 0,
        renderer.height > 0,
    ensures
        renderer@.recovery(SurfaceError::Lost) == (LoopAction::Reconfigure {
            width: renderer.width,
            height: renderer.height,
        }),
        renderer@.after_surface_error(SurfaceError::Lost) == renderer@,
{
}

/// The update step drains the pointer motion it applied: a second update
/// with no motion in between leaves yaw and pitch where the first put them.
pub proof fn law_update_consumes_rotation_once(renderer: Renderer)
    ensures
        renderer@.after_update().after_update().camera == renderer@.after_update().camera,
        renderer@.after_update().camera_controller.rotate_horizontal == 0,
        renderer@.after_update().camera_controller.rotate_vertical == 0,
{
}

} // verus!
