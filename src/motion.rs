//! The first-person velocity accumulator, driven by logical key transitions.

use vstd::prelude::*;

use crate::input_manager::{KeyState, LogicalKey};

verus! {

/// The speed that one held movement key contributes along its axis.
pub const KEY_SPEED: i32 = 10;

/// Camera velocity relative to the camera, in world units per second.
///
/// `x` points right out of the camera (its direction crossed with world up), `y`
/// in the direction the camera is facing, and `z` straight up in world space.
#[derive(Clone, Copy, Debug, PartialEq, Eq, Structural)]
pub struct CameraVelocity {
    pub x: i32,
    pub y: i32,
    pub z: i32,
}

/// The unit axis, in camera-local coordinates, that a logical key moves along.
pub open spec fn key_axis(key: LogicalKey) -> (int, int, int) {
    match key {
        LogicalKey::MoveForward => (0, 1, 0),
        LogicalKey::StrafeLeft => (-1, 0, 0),
        LogicalKey::MoveBackward => (0, -1, 0),
        LogicalKey::StrafeRight => (1, 0, 0),
        LogicalKey::MoveUp => (0, 0, 1),
        LogicalKey::MoveDown => (0, 0, -1),
    }
}

/// The signed magnitude of a transition: a press adds the key's speed, a release
/// takes it away again.
pub open spec fn transition_speed(new_state: KeyState) -> int {
    match new_state {
        KeyState::Down => KEY_SPEED as int,
        KeyState::Up => -KEY_SPEED,
    }
}

/// A velocity as three mathematical integers.
pub open spec fn velocity_of(v: CameraVelocity) -> (int, int, int) {
    (v.x as int, v.y as int, v.z as int)
}

/// The velocity after a key transition: the key's axis, scaled by the transition's
/// signed speed, is added to it.
pub open spec fn after_key(v: (int, int, int), key: LogicalKey, new_state: KeyState) -> (
    int,
    int,
    int,
) {
    let a = key_axis(key);
    let m = transition_speed(new_state);
    (v.0 + m * a.0, v.1 + m * a.1, v.2 + m * a.2)
}

/// Whether each component of a velocity fits in an `i32`.
pub open spec fn fits_i32(v: (int, int, int)) -> bool {
    &&& i32::MIN <= v.0 <= i32::MAX
    &&& i32::MIN <= v.1 <= i32::MAX
    &&& i32::MIN <= v.2 <= i32::MAX
}

impl CameraVelocity {
    /// At rest.
    pub fn new() -> (r: CameraVelocity)
        ensures
            velocity_of(r) == (0int, 0int, 0int),
    {
        CameraVelocity { x: 0, y: 0, z: 0 }
    }

    /// Whether the transition can be applied without leaving the range of `i32`.
    pub fn can_apply(&self, key: LogicalKey, new_state: KeyState) -> (r: bool)
        ensures
            r == fits_i32(after_key(velocity_of(*self), key, new_state)),
    {
        let (dx, dy, dz) = step_of(key, new_state);
        let x = self.x as i64 + dx as i64;
        let y = self.y as i64 + dy as i64;
        let z = self.z as i64 + dz as i64;
        i32::MIN as i64 <= x && x <= i32::MAX as i64 && i32::MIN as i64 <= y && y
            <= i32::MAX as i64 && i32::MIN as i64 <= z && z <= i32::MAX as i64
    }

    /// Applies a logical key transition: a press adds the key's axis times
    /// `KEY_SPEED`, a release subtracts it. Held keys sum; diagonals are not
    /// renormalised.
    pub fn handle_key_event(&mut self, key: LogicalKey, new_state: KeyState)
        requires
            fits_i32(after_key(velocity_of(*old(self)), key, new_state)),
        ensures
            velocity_of(*final(self)) == after_key(velocity_of(*old(self)), key, new_state),
    {
        let (dx, dy, dz) = step_of(key, new_state);
        self.x = self.x + dx;
        self.y = self.y + dy;
        self.z = self.z + dz;
    }
}

/// The change in velocity that a key transition makes.
fn step_of(key: LogicalKey, new_state: KeyState) -> (r: (i32, i32, i32))
    ensures
        after_key((0, 0, 0), key, new_state) == (r.0 as int, r.1 as int, r.2 as int),
{
    let m: i32 = match new_state {
        KeyState::Down => KEY_SPEED,
        KeyState::Up => -KEY_SPEED,
    };
    match key {
        LogicalKey::MoveForward => (0, m, 0),
        LogicalKey::StrafeLeft => (-m, 0, 0),
        LogicalKey::MoveBackward => (0, -m, 0),
        LogicalKey::StrafeRight => (m, 0, 0),
        LogicalKey::MoveUp => (0, 0, m),
        LogicalKey::MoveDown => (0, 0, -m),
    }
}

/// Pressing a logical key and releasing it again leaves the velocity exactly as it
/// was before the press.
pub proof fn lemma_press_release_cancels(v: (int, int, int), key: LogicalKey)
    ensures
        after_key(after_key(v, key, KeyState::Down), key, KeyState::Up) == v,
{
}

/// The contributions of key transitions add up: applying two transitions in either
/// order gives the same velocity.
pub proof fn lemma_transitions_commute(
    v: (int, int, int),
    a: LogicalKey,
    sa: KeyState,
    b: LogicalKey,
    sb: KeyState,
)
    ensures
        after_key(after_key(v, a, sa), b, sb) == after_key(after_key(v, b, sb), a, sa),
{
}

} // verus!
