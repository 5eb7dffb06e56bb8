//! Translation of raw keyboard and mouse input into logical events.

use std::collections::{HashMap, VecDeque};
use vstd::prelude::*;

verus! {

/// The keyboard keys of the USB HID usage tables, as the scancode crate names them.
/// Its variants are visible here, so that verified code can tell them apart.
#[verifier::external_type_specification]
pub struct ExScancode(scancode::Scancode);

/// Relies on scancode::Scancode::new, which looks the hardware code up in a table
/// chosen by the target operating system: nothing is promised of the result.
pub assume_specification[ scancode::Scancode::new ](hardware_scancode: u8) -> Option<
    scancode::Scancode,
>;

/// A movement intent, independent of which physical key produced it.
#[derive(Clone, Copy, Debug, PartialEq, Eq, Structural)]
pub enum LogicalKey {
    MoveForward,
    MoveBackward,
    StrafeLeft,
    StrafeRight,
    MoveUp,
    MoveDown,
}

/// The key bindings: which keyboard key drives which movement.
pub open spec fn binding_of(key: scancode::Scancode) -> Option<LogicalKey> {
    match key {
        scancode::Scancode::W => Some(LogicalKey::MoveForward),
        scancode::Scancode::A => Some(LogicalKey::StrafeLeft),
        scancode::Scancode::S => Some(LogicalKey::MoveBackward),
        scancode::Scancode::D => Some(LogicalKey::StrafeRight),
        scancode::Scancode::Space => Some(LogicalKey::MoveUp),
        scancode::Scancode::LeftControl => Some(LogicalKey::MoveDown),
        _ => None,
    }
}

impl LogicalKey {
    /// The movement bound to a keyboard key, if any.
    pub fn from_key(key: scancode::Scancode) -> (r: Option<LogicalKey>)
        ensures
            r == binding_of(key),
    {
        match key {
            scancode::Scancode::W => Some(LogicalKey::MoveForward),
            scancode::Scancode::A => Some(LogicalKey::StrafeLeft),
            scancode::Scancode::S => Some(LogicalKey::MoveBackward),
            scancode::Scancode::D => Some(LogicalKey::StrafeRight),
            scancode::Scancode::Space => Some(LogicalKey::MoveUp),
            scancode::Scancode::LeftControl => Some(LogicalKey::MoveDown),
            _ => None,
        }
    }

    /// The movement bound to a hardware scancode of this platform, if any.
    ///
    /// Only the low byte of the scancode is looked at.
    pub fn from_scancode(scancode: u32) -> (r: Option<LogicalKey>)
        ensures
            r is Some ==> exists|key: scancode::Scancode| r == binding_of(key),
    {
        match scancode::Scancode::new(scancode as u8) {
            Some(key) => LogicalKey::from_key(key),
            None => None,
        }
    }
}

/// Whether a key is currently held.
#[derive(Clone, Copy, Debug, PartialEq, Eq, Structural)]
pub enum KeyState {
    Up,
    Down,
}

/// A device-independent input event. `D` is the type of a mouse delta.
#[derive(Debug, PartialEq)]
pub enum LogicalEvent<D> {
    /// A logical key changed state.
    Key { new_state: KeyState, logical_key: LogicalKey },
    /// A relative movement of the mouse in pixels, where X is right and Y is down.
    MouseMovement { x: D, y: D },
}

/// The events queued by one keyboard report: a key event where the last reported state of
/// the scancode changes and a movement is bound to it, nothing otherwise.
pub open spec fn key_events<D>(
    previous: KeyState,
    new_state: KeyState,
    binding: Option<LogicalKey>,
) -> Seq<LogicalEvent<D>> {
    if previous != new_state && binding is Some {
        seq![LogicalEvent::Key { new_state, logical_key: binding.unwrap() }]
    } else {
        Seq::empty()
    }
}

/// The state that `states` records for a scancode: up where it records none.
pub open spec fn state_in(states: Map<u32, KeyState>, scancode: u32) -> KeyState {
    if states.contains_key(scancode) {
        states[scancode]
    } else {
        KeyState::Up
    }
}

/// Once a report is recorded, repeating it queues nothing: events follow
/// transitions, not how long a key is held.
pub proof fn lemma_repeated_report_queues_nothing<D>(
    states: Map<u32, KeyState>,
    scancode: u32,
    new_state: KeyState,
    binding: Option<LogicalKey>,
)
    ensures
        key_events::<D>(state_in(states.insert(scancode, new_state), scancode), new_state, binding)
            == Seq::<LogicalEvent<D>>::empty(),
{
}

/// Tracks the state of every scancode seen so far and queues the logical events
/// that its transitions produce.
pub struct InputManager<D> {
    /// Maps hardware scancode to current pressed state
    key_states: HashMap<u32, KeyState>,
    logical_events: VecDeque<LogicalEvent<D>>,
}

impl<D> InputManager<D> {
    /// The last reported state of every scancode seen so far.
    pub closed spec fn key_states(&self) -> Map<u32, KeyState> {
        self.key_states@
    }

    /// The events not yet polled, oldest first.
    pub closed spec fn pending(&self) -> Seq<LogicalEvent<D>> {
        self.logical_events@
    }

    /// The last reported state of a scancode: up until it is first reported.
    pub open spec fn last_state(&self, scancode: u32) -> KeyState {
        state_in(self.key_states(), scancode)
    }

    pub fn new() -> (r: Self)
        ensures
            r.key_states() == Map::<u32, KeyState>::empty(),
            r.pending() == Seq::<LogicalEvent<D>>::empty(),
    {
        InputManager { key_states: HashMap::new(), logical_events: VecDeque::new() }
    }

    /// Records a keyboard report for `scancode`, given the movement bound to it.
    ///
    /// The report is dropped when it does not change the last reported state, so that a
    /// key that auto-repeats yields one event per press and one per release.
    pub fn record_key_state(
        &mut self,
        scancode: u32,
        new_state: KeyState,
        binding: Option<LogicalKey>,
    )
        ensures
            final(self).key_states() == old(self).key_states().insert(scancode, new_state),
            final(self).pending() == old(self).pending() + key_events::<D>(
                old(self).last_state(scancode),
                new_state,
                binding,
            ),
    {
        broadcast use vstd::std_specs::hash::group_hash_axioms;

        let previous = match self.key_states.get(&scancode) {
            Some(state) => *state,
            None => KeyState::Up,
        };
        self.key_states.insert(scancode, new_state);
        if previous != new_state {
            if let Some(logical_key) = binding {
                self.logical_events.push_back(LogicalEvent::Key { new_state, logical_key });
                return;
            }
        }
        assert(key_events::<D>(previous, new_state, binding) =~= Seq::empty());
        assert(self.logical_events@ =~= old(self).pending() + Seq::empty());
    }

    /// Records a keyboard report for a hardware scancode of this platform.
    pub fn handle_keyboard_input(&mut self, scancode: u32, new_state: KeyState)
        ensures
            final(self).key_states() == old(self).key_states().insert(scancode, new_state),
            exists|binding: Option<LogicalKey>|
                final(self).pending() == old(self).pending() + #[trigger] key_events::<D>(
                    old(self).last_state(scancode),
                    new_state,
                    binding,
                ),
    {
        let binding = LogicalKey::from_scancode(scancode);
        self.record_key_state(scancode, new_state, binding);
    }

    /// Queues a relative mouse movement.
    pub fn handle_mouse_motion(&mut self, x: D, y: D)
        ensures
            final(self).key_states() == old(self).key_states(),
            final(self).pending() == old(self).pending().push(
                LogicalEvent::MouseMovement { x, y },
            ),
    {
        self.logical_events.push_back(LogicalEvent::MouseMovement { x, y });
    }

    /// Returns the next logical event, if one is on the queue
    pub fn poll_logical_event(&mut self) -> (r: Option<LogicalEvent<D>>)
        ensures
            final(self).key_states() == old(self).key_states(),
            old(self).pending().len() == 0 ==> r is None && final(self).pending() == old(
                self,
            ).pending(),
            old(self).pending().len() > 0 ==> r == Some(old(self).pending()[0])
                && final(self).pending() == old(self).pending().drop_first(),
    {
        self.logical_events.pop_front()
    }
}

} // verus!
