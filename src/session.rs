use vstd::prelude::*;

use crate::cycler::InstanceWindowCycler;

verus! {

/// The keys the viewer reacts to.
#[derive(Debug, Clone, Copy, PartialEq, Eq, Structural)]
pub enum Key {
    /// Toggles the layer flicker.
    Digit0,
    /// Lowers the update rate.
    Digit1,
    /// Raises the update rate.
    Digit2,
    /// Any other key, or a key without a known code.
    Other,
}

/// A window or device event, reduced to what the viewer decides on.
#[derive(Debug, Clone, Copy, PartialEq, Eq, Structural)]
pub enum InputEvent {
    /// A key went down in the window.
    KeyPressed(Key),
    /// A key went up in the window.
    KeyReleased(Key),
    /// The left mouse button went down (`pressed`) or up.
    LeftButton { pressed: bool },
    /// The pointer moved; the deltas stay with the caller.
    MouseMotion,
    /// The wheel turned; the deltas stay with the caller.
    MouseWheel,
    /// The window is asked to close.
    CloseRequested,
    /// The window's drawable area has a new size.
    Resized { width: u32, height: u32 },
    /// Any other window event.
    OtherWindowEvent,
    /// Any other device event.
    OtherDeviceEvent,
    /// Any other event of the event loop.
    Other,
}

/// What the camera is asked to do with the deltas of the event at hand.
#[derive(Debug, Clone, Copy, PartialEq, Eq, Structural)]
pub enum CameraCommand {
    /// Leave the camera alone.
    Idle,
    /// Turn the camera by the pointer's motion (yaw and pitch).
    Rotate,
    /// Move the camera nearer or further by the wheel's turn.
    Zoom,
}

/// What the event loop does after an event.
#[derive(Debug, Clone, Copy, PartialEq, Eq, Structural)]
pub enum EventAction {
    /// Keep running.
    Continue,
    /// Leave the loop.
    Exit,
    /// Fit the surface to a new size, then keep running.
    Resize { width: u32, height: u32 },
}

/// The answer of [`SessionState::input`].
#[derive(Debug, Clone, Copy, PartialEq, Eq, Structural)]
pub struct InputOutcome {
    /// The event was taken as input by the viewer.
    pub handled: bool,
    /// What the camera does with the event's deltas.
    pub camera: CameraCommand,
}

/// The answer of [`SessionState::handle_events`].
#[derive(Debug, Clone, Copy, PartialEq, Eq, Structural)]
pub struct EventOutcome {
    /// What the camera does with the event's deltas.
    pub camera: CameraCommand,
    /// What the event loop does next.
    pub action: EventAction,
}

/// What became of one attempt to draw a frame.
#[derive(Debug, Clone, Copy, PartialEq, Eq, Structural)]
pub enum FrameStatus {
    /// The frame was drawn and presented.
    Presented,
    /// The surface was lost and must be configured again.
    Lost,
    /// The surface is out of date.
    Outdated,
    /// Acquiring the next texture timed out.
    Timeout,
    /// No memory was left to draw the frame.
    OutOfMemory,
}

/// What the render loop does after a frame.
#[derive(Debug, Clone, Copy, PartialEq, Eq, Structural)]
pub enum RenderAction {
    /// Keep running.
    Continue,
    /// Configure the surface again at its current size, then keep running.
    Reconfigure,
    /// Report the failure, then keep running.
    Report,
    /// Stop: the failure cannot be recovered from.
    Stop,
}

/// The camera command for an event while the drag button is (`pressed`) or is
/// not held: the wheel always zooms, the pointer rotates only during a drag.
pub open spec fn camera_command(pressed: bool, e: InputEvent) -> CameraCommand {
    match e {
        InputEvent::MouseWheel => CameraCommand::Zoom,
        InputEvent::MouseMotion => if pressed {
            CameraCommand::Rotate
        } else {
            CameraCommand::Idle
        },
        _ => CameraCommand::Idle,
    }
}

/// Whether the drag button is held after an event: only the left button
/// changes it.
pub open spec fn pressed_after(pressed: bool, e: InputEvent) -> bool {
    match e {
        InputEvent::LeftButton { pressed: p } => p,
        _ => pressed,
    }
}

/// Whether the viewer takes an event as its own input.
pub open spec fn is_input(pressed: bool, e: InputEvent) -> bool {
    match e {
        InputEvent::KeyPressed(Key::Digit0) => true,
        InputEvent::LeftButton { .. } => true,
        InputEvent::MouseMotion => pressed,
        InputEvent::MouseWheel => true,
        _ => false,
    }
}

/// Whether an event toggles the layer flicker.
pub open spec fn toggles_flicker(e: InputEvent) -> bool {
    e == InputEvent::KeyPressed(Key::Digit0)
}

/// What the event loop does after an event that is not the viewer's input.
pub open spec fn loop_action(e: InputEvent) -> EventAction {
    match e {
        InputEvent::CloseRequested => EventAction::Exit,
        InputEvent::Resized { width, height } => EventAction::Resize { width, height },
        _ => EventAction::Continue,
    }
}

/// Follows the left mouse button, which gates turning the camera by dragging.
#[derive(Debug, Clone, Copy, PartialEq, Eq, Structural)]
pub struct DragRotate {
    /// The left mouse button is held.
    pub pressed: bool,
}

impl DragRotate {
    /// Starts with the button released.
    pub fn new() -> (r: DragRotate)
        ensures
            !r.pressed,
    {
        DragRotate { pressed: false }
    }

    /// Takes an event: the left button sets the drag, the wheel zooms, and
    /// the pointer rotates the camera while the drag lasts.
    pub fn process_events(&mut self, event: InputEvent) -> (r: CameraCommand)
        ensures
            r == camera_command(old(self).pressed, event),
            final(self).pressed == pressed_after(old(self).pressed, event),
    {
        match event {
            InputEvent::LeftButton { pressed } => {
                self.pressed = pressed;
                CameraCommand::Idle
            },
            InputEvent::MouseWheel => CameraCommand::Zoom,
            InputEvent::MouseMotion => {
                if self.pressed {
                    CameraCommand::Rotate
                } else {
                    CameraCommand::Idle
                }
            },
            _ => CameraCommand::Idle,
        }
    }
}

/// The viewer's state between frames, apart from the graphics resources.
pub struct SessionState {
    /// Chooses the instances drawn in each frame.
    pub cycler: InstanceWindowCycler,
    /// The number of updates so far, modulo 2^32.
    pub volumes_refreshed: u32,
    /// The drawn window of instances moves on at each update.
    pub enable_voxel_flicker: bool,
    /// The left mouse button is held.
    pub mouse_left_pressed: bool,
}

impl SessionState {
    /// Starts with no update done, the flicker off and the button released.
    pub fn new(cycler: InstanceWindowCycler) -> (r: SessionState)
        ensures
            r.cycler == cycler,
            r.volumes_refreshed == 0,
            !r.enable_voxel_flicker,
            !r.mouse_left_pressed,
    {
        SessionState {
            cycler,
            volumes_refreshed: 0,
            enable_voxel_flicker: false,
            mouse_left_pressed: false,
        }
    }

    /// Takes an event as input if it is the viewer's: `0` toggles the
    /// flicker, the left button starts or ends a drag, a drag turns the camera
    /// and the wheel zooms. Returns whether the event was taken, and what the
    /// camera does with it.
    pub fn input(&mut self, event: InputEvent) -> (r: InputOutcome)
        ensures
            r.handled == is_input(old(self).mouse_left_pressed, event),
            r.camera == camera_command(old(self).mouse_left_pressed, event),
            final(self).mouse_left_pressed == pressed_after(old(self).mouse_left_pressed, event),
            final(self).enable_voxel_flicker == (old(self).enable_voxel_flicker != toggles_flicker(
                event,
            )),
            final(self).cycler == old(self).cycler,
            final(self).volumes_refreshed == old(self).volumes_refreshed,
    {
        match event {
            InputEvent::KeyPressed(Key::Digit0) => {
                self.enable_voxel_flicker = !self.enable_voxel_flicker;
                InputOutcome { handled: true, camera: CameraCommand::Idle }
            },
            InputEvent::LeftButton { pressed } => {
                self.mouse_left_pressed = pressed;
                InputOutcome { handled: true, camera: CameraCommand::Idle }
            },
            InputEvent::MouseMotion => {
                if self.mouse_left_pressed {
                    InputOutcome { handled: true, camera: CameraCommand::Rotate }
                } else {
                    InputOutcome { handled: false, camera: CameraCommand::Idle }
                }
            },
            InputEvent::MouseWheel => InputOutcome { handled: true, camera: CameraCommand::Zoom },
            _ => InputOutcome { handled: false, camera: CameraCommand::Idle },
        }
    }

    /// Takes any event: the viewer's input first, then closing and resizing
    /// the window. Every other event keeps the loop running.
    pub fn handle_events(&mut self, event: InputEvent) -> (r: EventOutcome)
        ensures
            r.camera == camera_command(old(self).mouse_left_pressed, event),
            r.action == if is_input(old(self).mouse_left_pressed, event) {
                EventAction::Continue
            } else {
                loop_action(event)
            },
            final(self).mouse_left_pressed == pressed_after(old(self).mouse_left_pressed, event),
            final(self).enable_voxel_flicker == (old(self).enable_voxel_flicker != toggles_flicker(
                event,
            )),
            final(self).cycler == old(self).cycler,
            final(self).volumes_refreshed == old(self).volumes_refreshed,
    {
        let taken = self.input(event);
        if taken.handled {
            return EventOutcome { camera: taken.camera, action: EventAction::Continue };
        }
        let action = match event {
            InputEvent::CloseRequested => EventAction::Exit,
            InputEvent::Resized { width, height } => EventAction::Resize { width, height },
            _ => EventAction::Continue,
        };
        EventOutcome { camera: taken.camera, action }
    }

    /// One update tick: moves the drawn window on when the flicker is on, and
    /// counts the update.
    pub fn update(&mut self)
        ensures
            final(self).cycler@ == if old(self).enable_voxel_flicker {
                old(self).cycler@.next()
            } else {
                old(self).cycler@
            },
            final(self).volumes_refreshed as int == (old(self).volumes_refreshed as int + 1)
                % 0x1_0000_0000,
            final(self).enable_voxel_flicker == old(self).enable_voxel_flicker,
            final(self).mouse_left_pressed == old(self).mouse_left_pressed,
    {
        if self.enable_voxel_flicker {
            self.cycler.advance();
        }
        if self.volumes_refreshed < u32::MAX {
            self.volumes_refreshed = self.volumes_refreshed + 1;
        } else {
            self.volumes_refreshed = 0;
        }
    }
}

/// Whether a surface of this size can be drawn to: neither side is zero.
pub fn is_drawable_size(width: u32, height: u32) -> (r: bool)
    ensures
        r == (width > 0 && height > 0),
{
    width > 0 && height > 0
}

/// What the render loop does after an attempt to draw a frame: a lost
/// surface is configured again, lack of memory stops the loop, and any other
/// failure is reported and the loop goes on.
pub fn render_action(status: FrameStatus) -> (r: RenderAction)
    ensures
        r == match status {
            FrameStatus::Presented => RenderAction::Continue,
            FrameStatus::Lost => RenderAction::Reconfigure,
            FrameStatus::OutOfMemory => RenderAction::Stop,
            FrameStatus::Outdated | FrameStatus::Timeout => RenderAction::Report,
        },
{
    match status {
        FrameStatus::Presented => RenderAction::Continue,
        FrameStatus::Lost => RenderAction::Reconfigure,
        FrameStatus::OutOfMemory => RenderAction::Stop,
        _ => RenderAction::Report,
    }
}

/// The step by which keys `1` and `2` change the update rate.
pub const UPDATE_RATE_STEP: u32 = 10;

/// The update rate after an event: key `1` lowers it by ten updates per
/// second, key `2` raises it by ten, and nothing else changes it (`None`).
pub fn changed_updates_per_second(current: u32, event: InputEvent) -> (r: Option<u32>)
    requires
        event == InputEvent::KeyPressed(Key::Digit1) ==> current >= UPDATE_RATE_STEP,
        event == InputEvent::KeyPressed(Key::Digit2) ==> current <= u32::MAX - UPDATE_RATE_STEP,
    ensures
        r == match event {
            InputEvent::KeyPressed(Key::Digit1) => Some((current - UPDATE_RATE_STEP) as u32),
            InputEvent::KeyPressed(Key::Digit2) => Some((current + UPDATE_RATE_STEP) as u32),
            _ => None::<u32>,
        },
{
    match event {
        InputEvent::KeyPressed(Key::Digit1) => Some(current - UPDATE_RATE_STEP),
        InputEvent::KeyPressed(Key::Digit2) => Some(current + UPDATE_RATE_STEP),
        _ => None,
    }
}

} // verus!
