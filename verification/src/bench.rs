//! Decisions of the bench server: what it does with the messages the remote
//! sends.

use vstd::prelude::*;

verus! {

use crate::protocol::{ClientEvent, RelayState};
use crate::stepper::{DriveCommand, drive_command, spec_drive_command};

/// What the bench holds: its relays and the last joystick value received.
#[derive(Clone, Copy, Debug)]
pub struct BenchState {
    pub relays: RelayState,
    pub joystick: i8,
}

impl BenchState {
    /// All relays off, joystick at rest.
    pub fn new() -> (s: Self)
        ensures
            s.relays@ == Seq::new(8, |i: int| false),
            s.joystick == 0,
    {
        BenchState { relays: RelayState::default(), joystick: 0 }
    }

    /// Applies a message from the remote. A button press toggles its relay
    /// and returns the new relay state, to be broadcast to the subscribers;
    /// a joystick message records the value and returns nothing.
    pub fn on_client_event(&mut self, event: ClientEvent) -> (broadcast: Option<RelayState>)
        requires
            event.well_formed(),
        ensures
            match event {
                ClientEvent::Button(e) => {
                    &&& final(self).relays@ == old(self).relays@.update(
                        e.relay as int,
                        !old(self).relays@[e.relay as int],
                    )
                    &&& final(self).joystick == old(self).joystick
                    &&& broadcast == Some(final(self).relays)
                },
                ClientEvent::Joystick(e) => {
                    &&& final(self).relays == old(self).relays
                    &&& final(self).joystick == e.value
                    &&& broadcast is None
                },
            },
    {
        match event {
            ClientEvent::Button(e) => {
                self.relays = self.relays.toggle(e.relay);
                Some(self.relays)
            },
            ClientEvent::Joystick(e) => {
                self.joystick = e.value;
                None
            },
        }
    }
}

/// The levels of the eight relay output pins for a relay state: pin `i` is
/// high exactly when relay `i` is on.
pub fn relay_pin_levels(state: RelayState) -> (levels: [bool; 8])
    ensures
        levels@ == state@,
{
    let levels = [
        state.is_on(0),
        state.is_on(1),
        state.is_on(2),
        state.is_on(3),
        state.is_on(4),
        state.is_on(5),
        state.is_on(6),
        state.is_on(7),
    ];
    assert(levels@ =~= state@);
    levels
}

/// The stepper thread's decision on reading joystick value `joy` when
/// `last_joy` is the value it last drove at: a new drive command only when
/// the value changed, and the value then becomes the last one driven.
pub fn stepper_update(last_joy: &mut i8, joy: i8) -> (cmd: Option<DriveCommand>)
    ensures
        joy != *old(last_joy) ==> cmd == Some(spec_drive_command(joy)) && *final(last_joy) == joy,
        joy == *old(last_joy) ==> cmd is None && *final(last_joy) == *old(last_joy),
{
    if joy != *last_joy {
        *last_joy = joy;
        Some(drive_command(joy))
    } else {
        None
    }
}

/// The relay loop's decision on reading relay state `current` and whether
/// any client is connected (`connected`), when `last_state` and
/// `last_connected` are what it saw at its last write (if any): new output
/// levels when either changed, and both then become the last ones seen.
pub fn relay_update(
    last_state: &mut Option<RelayState>,
    last_connected: &mut Option<bool>,
    current: RelayState,
    connected: bool,
) -> (levels: Option<[bool; 8]>)
    ensures
        (*old(last_state) != Some(current) || *old(last_connected) != Some(connected)) ==> {
            &&& levels matches Some(l) && l@ == current@
            &&& *final(last_state) == Some(current)
            &&& *final(last_connected) == Some(connected)
        },
        (*old(last_state) == Some(current) && *old(last_connected) == Some(connected)) ==> {
            &&& levels is None
            &&& *final(last_state) == *old(last_state)
            &&& *final(last_connected) == *old(last_connected)
        },
{
    let state_changed = match *last_state {
        Some(prev) => prev != current,
        None => true,
    };
    let connection_changed = match *last_connected {
        Some(prev) => prev != connected,
        None => true,
    };
    if state_changed || connection_changed {
        *last_state = Some(current);
        *last_connected = Some(connected);
        Some(relay_pin_levels(current))
    } else {
        None
    }
}

} // verus!
