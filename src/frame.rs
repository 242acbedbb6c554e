//! The per-tick frame state machine: the frame clock, the drawable size, and
//! the decisions taken on each platform event.

use vstd::prelude::*;
use crate::input::{Key, CameraCommand, MoveInput, key_command, command_for_key, pressed};

verus! {

/// Nanoseconds in one second.
pub const NANOS_PER_SECOND: u64 = 1_000_000_000;

/// The longest step the camera is advanced by, after a stall.
pub const MAX_STEP_NANOS: u64 = 1_000_000_000;

/// The step used when the clock stood still or went backwards.
pub const FALLBACK_STEP_NANOS: u64 = 1_000_000_000;

/// The elapsed time between two wall-clock readings: the difference, at
/// most `MAX_STEP_NANOS`; the fallback when `now` is not after `last`.
pub open spec fn step_nanos(last: u64, now: u64) -> u64 {
    if now > last {
        if now - last > MAX_STEP_NANOS {
            MAX_STEP_NANOS
        } else {
            (now - last) as u64
        }
    } else {
        FALLBACK_STEP_NANOS
    }
}

/// A clock that went backwards, or stood still, still yields a positive
/// step: the fallback; and no step exceeds the maximum.
pub proof fn lemma_step_positive(last: u64, now: u64)
    ensures
        0 < step_nanos(last, now) <= MAX_STEP_NANOS,
        now <= last ==> step_nanos(last, now) == FALLBACK_STEP_NANOS,
{
}

/// Every frame the loop hands out advances the camera by a positive step.
pub proof fn lemma_frame_step_positive(s: FrameLoop, now_nanos: u64)
    requires
        s.running,
    ensures
        transition(s, LoopEvent::RedrawRequested { now_nanos }).1 matches LoopAction::Frame(p)
            && p.dt_nanos > 0,
{
}

/// The last wall-clock reading, in nanoseconds.
#[derive(Clone, Copy, Debug, PartialEq, Eq)]
pub struct FrameClock {
    pub last_nanos: u64,
}

impl FrameClock {
    /// A clock whose last reading is `now_nanos`.
    pub fn new(now_nanos: u64) -> (c: FrameClock)
        ensures
            c.last_nanos == now_nanos,
    {
        FrameClock { last_nanos: now_nanos }
    }

    /// Takes a new reading and returns the step since the previous one.
    /// The step is never zero nor negative, whatever the readings.
    pub fn tick(&mut self, now_nanos: u64) -> (dt: u64)
        ensures
            dt == step_nanos(old(self).last_nanos, now_nanos),
            0 < dt <= MAX_STEP_NANOS,
            final(self).last_nanos == now_nanos,
    {
        let last = self.last_nanos;
        self.last_nanos = now_nanos;
        if now_nanos > last {
            let elapsed = now_nanos - last;
            if elapsed > MAX_STEP_NANOS {
                MAX_STEP_NANOS
            } else {
                elapsed
            }
        } else {
            FALLBACK_STEP_NANOS
        }
    }
}

/// Whether a size has area.
pub open spec fn has_area(size: [u32; 2]) -> bool {
    size[0] > 0 && size[1] > 0
}

/// The drawable size of the surface, and whether it can be drawn to.
#[derive(Clone, Copy, Debug, PartialEq, Eq)]
pub struct DisplayState {
    /// The last size with area; the swapchain's drawable size.
    pub size: [u32; 2],
    /// The last size asked for had area.
    pub drawable: bool,
}

impl DisplayState {
    /// The surface at its initial size.
    pub fn new(size: [u32; 2]) -> (d: DisplayState)
        ensures
            d.size == size,
            d.drawable == has_area(size),
    {
        DisplayState { size, drawable: size[0] > 0 && size[1] > 0 }
    }

    /// Takes a new window size. A size with area becomes the drawable size;
    /// one without leaves it and stops drawing until a size with area
    /// comes. Returns whether the swapchain is to be reconfigured.
    pub fn resize(&mut self, size: [u32; 2]) -> (reconfigure: bool)
        ensures
            reconfigure == has_area(size),
            final(self).drawable == has_area(size),
            final(self).size == (if has_area(size) { size } else { old(self).size }),
    {
        if size[0] > 0 && size[1] > 0 {
            self.size = size;
            self.drawable = true;
            true
        } else {
            self.drawable = false;
            false
        }
    }

    /// The drawable size.
    pub fn display_size(&self) -> (r: [u32; 2])
        ensures
            r == self.size,
    {
        self.size
    }
}

/// A platform event, as the frame loop sees it.
#[derive(Clone, Copy, Debug, PartialEq, Eq)]
pub enum LoopEvent {
    CloseRequested,
    Resized { width: u32, height: u32 },
    KeyPressed(Key),
    /// All pending events were handled.
    MainEventsCleared,
    /// A frame is due; the wall clock read `now_nanos`.
    RedrawRequested { now_nanos: u64 },
    Other,
}

/// What the platform layer performs for one frame.
#[derive(Clone, Copy, Debug, PartialEq, Eq)]
pub struct FramePlan {
    /// The camera step.
    pub dt_nanos: u64,
    /// The movement asked for since the last frame.
    pub movement: MoveInput,
    /// Whether to encode and present; when false only the camera advances.
    pub draw: bool,
    /// The drawable size, for viewport and scissor.
    pub size: [u32; 2],
}

/// What the platform layer does in answer to an event.
#[derive(Clone, Copy, Debug, PartialEq, Eq)]
pub enum LoopAction {
    Nothing,
    /// Stop the loop; no frame follows.
    Exit,
    /// Set the swapchain's drawable size, recreate the depth texture and
    /// recompute the projection.
    ResizeSurface { width: u32, height: u32 },
    /// Turn the camera's target orientation by this many degrees of yaw.
    RotateCamera { yaw_degrees: i32 },
    RequestRedraw,
    /// Advance the camera and, if asked, encode and present a frame.
    Frame(FramePlan),
}

/// The state after `e` and the action it calls for. A stopped loop ignores
/// every event. A close stops it. A size with area becomes the drawable
/// size and reconfigures the surface; one without stops drawing. A key
/// turns the camera or records movement. A redraw reads the clock, hands
/// out the movement gathered since the last frame and clears it, and draws
/// only while the surface has area.
pub open spec fn transition(s: FrameLoop, e: LoopEvent) -> (FrameLoop, LoopAction) {
    if !s.running {
        (s, LoopAction::Nothing)
    } else {
        match e {
            LoopEvent::CloseRequested => (FrameLoop { running: false, ..s }, LoopAction::Exit),
            LoopEvent::Resized { width, height } => {
                if width > 0 && height > 0 {
                    (
                        FrameLoop {
                            display: DisplayState { size: [width, height], drawable: true },
                            ..s
                        },
                        LoopAction::ResizeSurface { width, height },
                    )
                } else {
                    (
                        FrameLoop { display: DisplayState { drawable: false, ..s.display }, ..s },
                        LoopAction::Nothing,
                    )
                }
            },
            LoopEvent::KeyPressed(k) => match key_command(k) {
                Some(CameraCommand::RotateYaw(d)) => (s, LoopAction::RotateCamera { yaw_degrees: d }),
                Some(CameraCommand::Move { axis, positive }) => (
                    FrameLoop { movement: pressed(s.movement, axis, positive), ..s },
                    LoopAction::Nothing,
                ),
                None => (s, LoopAction::Nothing),
            },
            LoopEvent::MainEventsCleared => (s, LoopAction::RequestRedraw),
            LoopEvent::RedrawRequested { now_nanos } => (
                FrameLoop {
                    clock: FrameClock { last_nanos: now_nanos },
                    movement: MoveInput { x: 0, y: 0, z: 0 },
                    ..s
                },
                LoopAction::Frame(
                    FramePlan {
                        dt_nanos: step_nanos(s.clock.last_nanos, now_nanos),
                        movement: s.movement,
                        draw: s.display.drawable,
                        size: s.display.size,
                    },
                ),
            ),
            LoopEvent::Other => (s, LoopAction::Nothing),
        }
    }
}

/// All state that changes from frame to frame, but the camera.
#[derive(Clone, Copy, Debug, PartialEq, Eq)]
pub struct FrameLoop {
    /// False once a close was requested.
    pub running: bool,
    pub display: DisplayState,
    pub clock: FrameClock,
    pub movement: MoveInput,
}

impl FrameLoop {
    /// A running loop over a surface of `size`, its clock read at `now_nanos`.
    pub fn new(size: [u32; 2], now_nanos: u64) -> (l: FrameLoop)
        ensures
            l.running,
            l.display.size == size,
            l.display.drawable == has_area(size),
            l.clock.last_nanos == now_nanos,
            l.movement == (MoveInput { x: 0, y: 0, z: 0 }),
    {
        FrameLoop {
            running: true,
            display: DisplayState::new(size),
            clock: FrameClock::new(now_nanos),
            movement: MoveInput::none(),
        }
    }

    /// Handles one platform event and says what the platform layer is to do.
    pub fn step(&mut self, event: LoopEvent) -> (action: LoopAction)
        ensures
            (*final(self), action) == transition(*old(self), event),
    {
        if !self.running {
            return LoopAction::Nothing;
        }
        match event {
            LoopEvent::CloseRequested => {
                self.running = false;
                LoopAction::Exit
            },
            LoopEvent::Resized { width, height } => {
                if self.display.resize([width, height]) {
                    LoopAction::ResizeSurface { width, height }
                } else {
                    LoopAction::Nothing
                }
            },
            LoopEvent::KeyPressed(key) => match command_for_key(key) {
                Some(CameraCommand::RotateYaw(degrees)) => LoopAction::RotateCamera {
                    yaw_degrees: degrees,
                },
                Some(CameraCommand::Move { axis, positive }) => {
                    self.movement.press(axis, positive);
                    LoopAction::Nothing
                },
                None => LoopAction::Nothing,
            },
            LoopEvent::MainEventsCleared => LoopAction::RequestRedraw,
            LoopEvent::RedrawRequested { now_nanos } => {
                let dt_nanos = self.clock.tick(now_nanos);
                let movement = self.movement;
                self.movement.reset();
                LoopAction::Frame(
                    FramePlan {
                        dt_nanos,
                        movement,
                        draw: self.display.drawable,
                        size: self.display.size,
                    },
                )
            },
            LoopEvent::Other => LoopAction::Nothing,
        }
    }

    /// Whether no further frame will be produced.
    pub fn is_stopped(&self) -> (r: bool)
        ensures
            r == !self.running,
    {
        !self.running
    }
}

} // verus!
