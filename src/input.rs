//! Mapping from key presses to camera commands, and the per-frame
//! movement accumulator.

use vstd::prelude::*;

verus! {

/// Degrees of one yaw step.
pub const YAW_STEP_DEGREES: i32 = 90;

/// The keys the viewer reacts to; every other key is `Other`.
#[derive(Clone, Copy, Debug, PartialEq, Eq)]
pub enum Key {
    W,
    A,
    S,
    D,
    Z,
    X,
    Other,
}

/// A camera axis.
#[derive(Clone, Copy, Debug, PartialEq, Eq)]
pub enum Axis {
    X,
    Y,
    Z,
}

/// What a key asks of the camera.
#[derive(Clone, Copy, Debug, PartialEq, Eq)]
pub enum CameraCommand {
    /// Turn about the vertical axis by this many degrees.
    RotateYaw(i32),
    /// Move along an axis, towards its positive end or away from it.
    Move { axis: Axis, positive: bool },
}

/// The fixed key table: Z and X turn by a quarter turn either way, W and S
/// move forward (towards -Z) and back, A and D move left (towards -X) and right.
pub open spec fn key_command(key: Key) -> Option<CameraCommand> {
    match key {
        Key::Z => Some(CameraCommand::RotateYaw(-90i32)),
        Key::X => Some(CameraCommand::RotateYaw(90i32)),
        Key::W => Some(CameraCommand::Move { axis: Axis::Z, positive: false }),
        Key::S => Some(CameraCommand::Move { axis: Axis::Z, positive: true }),
        Key::A => Some(CameraCommand::Move { axis: Axis::X, positive: false }),
        Key::D => Some(CameraCommand::Move { axis: Axis::X, positive: true }),
        Key::Other => None,
    }
}

/// The command a key press stands for, if any.
pub fn command_for_key(key: Key) -> (r: Option<CameraCommand>)
    ensures
        r == key_command(key),
{
    match key {
        Key::Z => Some(CameraCommand::RotateYaw(-YAW_STEP_DEGREES)),
        Key::X => Some(CameraCommand::RotateYaw(YAW_STEP_DEGREES)),
        Key::W => Some(CameraCommand::Move { axis: Axis::Z, positive: false }),
        Key::S => Some(CameraCommand::Move { axis: Axis::Z, positive: true }),
        Key::A => Some(CameraCommand::Move { axis: Axis::X, positive: false }),
        Key::D => Some(CameraCommand::Move { axis: Axis::X, positive: true }),
        Key::Other => None,
    }
}

/// The movement direction asked for during the current frame: each
/// component is -1, 0 or 1.
#[derive(Clone, Copy, Debug, PartialEq, Eq)]
pub struct MoveInput {
    pub x: i8,
    pub y: i8,
    pub z: i8,
}

/// -1 or 1 for a direction along an axis.
pub open spec fn unit(positive: bool) -> i8 {
    if positive {
        1i8
    } else {
        -1i8
    }
}

/// `m` after a press towards `positive` along `axis`.
pub open spec fn pressed(m: MoveInput, axis: Axis, positive: bool) -> MoveInput {
    MoveInput {
        x: if axis == Axis::X { unit(positive) } else { m.x },
        y: if axis == Axis::Y { unit(positive) } else { m.y },
        z: if axis == Axis::Z { unit(positive) } else { m.z },
    }
}

impl MoveInput {
    /// No movement.
    pub fn none() -> (m: MoveInput)
        ensures
            m == (MoveInput { x: 0, y: 0, z: 0 }),
    {
        MoveInput { x: 0, y: 0, z: 0 }
    }

    /// Sets the component of `axis` to the given direction; the latest
    /// press on an axis wins, the other components stay.
    pub fn press(&mut self, axis: Axis, positive: bool)
        ensures
            *final(self) == pressed(*old(self), axis, positive),
    {
        let v: i8 = if positive {
            1
        } else {
            -1
        };
        match axis {
            Axis::X => self.x = v,
            Axis::Y => self.y = v,
            Axis::Z => self.z = v,
        }
    }

    /// Forgets the frame's movement: held keys are signalled again each frame.
    pub fn reset(&mut self)
        ensures
            *final(self) == (MoveInput { x: 0, y: 0, z: 0 }),
    {
        self.x = 0;
        self.y = 0;
        self.z = 0;
    }
}

} // verus!
