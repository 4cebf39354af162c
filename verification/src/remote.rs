//! Decisions of the remote's main loop: what its two strips of four keys
//! show, and which key presses it acts on.
//!
//! The keys are read as two nibbles, one per strip; a bit is 0 while its key
//! is held down. Key `i` of the remote (0–7) is bit `i` of the combined key
//! byte: strip 0 holds keys 0–3 and strip 1 holds keys 4–7. Key `i` is paired
//! with relay `i`.

use vstd::prelude::*;

verus! {

use crate::client::ConnectionStatus;
use crate::colors::{
    Rgb, red, blue, white, dim_white, orange, yellow, off, spec_red, spec_blue, spec_white,
    spec_dim_white, spec_orange, spec_yellow, spec_off,
};
use crate::protocol::{ClientEvent, JoystickEvent, RelayState, bit_set};

/// Key byte with no key held down.
pub const NO_KEYS_PRESSED: u8 = 0xFF;

/// The color that every key shows while the remote is not connected:
/// blue while scanning, red when the scan failed or the connection was
/// lost, orange after an error. A connected remote shows per-key colors
/// instead (see [`key_colors`]).
pub fn status_color(status: ConnectionStatus) -> (color: Option<Rgb>)
    ensures
        color == match status {
            ConnectionStatus::Scanning => Some(spec_blue()),
            ConnectionStatus::ScanFailed => Some(spec_red()),
            ConnectionStatus::Disconnected => Some(spec_red()),
            ConnectionStatus::Error => Some(spec_orange()),
            ConnectionStatus::Connected => None::<Rgb>,
        },
{
    match status {
        ConnectionStatus::Scanning => Some(blue()),
        ConnectionStatus::ScanFailed | ConnectionStatus::Disconnected => Some(red()),
        ConnectionStatus::Error => Some(orange()),
        ConnectionStatus::Connected => None,
    }
}

/// The color of a key of a connected remote: yellow while held down, else
/// white when its relay is on and dim white when it is off.
pub open spec fn spec_key_color(pressed: bool, relay_on: bool) -> Rgb {
    if pressed {
        spec_yellow()
    } else if relay_on {
        spec_white()
    } else {
        spec_dim_white()
    }
}

fn key_color(nibble: u8, relays: RelayState, relay_offset: u8, i: u8) -> (color: Rgb)
    requires
        i < 4,
        relay_offset <= 4,
    ensures
        color == spec_key_color(!bit_set(nibble, i), relays@[relay_offset + i]),
{
    let pressed = (nibble >> i) & 1 == 0;
    proof {
        assert(((nibble >> i) & 1u8 == 0u8) == !((nibble >> i) & 1u8 == 1u8)) by (bit_vector);
    }
    let on = relays.is_on(relay_offset + i);
    if pressed {
        yellow()
    } else if on {
        white()
    } else {
        dim_white()
    }
}

/// The colors of a strip of four keys whose key bits are `nibble`, showing
/// relays `relay_offset`..`relay_offset + 4`.
pub fn key_colors(nibble: u8, relays: RelayState, relay_offset: u8) -> (colors: [Rgb; 4])
    requires
        relay_offset <= 4,
    ensures
        forall|i: int|
            0 <= i < 4 ==> #[trigger] colors@[i] == spec_key_color(
                !bit_set(nibble, i as u8),
                relays@[relay_offset + i],
            ),
        forall|i: int|
            0 <= i < 4 ==> #[trigger] colors@[i] == if !bit_set(nibble, i as u8) {
                (Rgb { r: 255, g: 255, b: 0 })
            } else if relays@[relay_offset + i] {
                (Rgb { r: 255, g: 255, b: 255 })
            } else {
                (Rgb { r: 3, g: 3, b: 3 })
            },
{
    let colors = [
        key_color(nibble, relays, relay_offset, 0),
        key_color(nibble, relays, relay_offset, 1),
        key_color(nibble, relays, relay_offset, 2),
        key_color(nibble, relays, relay_offset, 3),
    ];
    proof {
        assert forall|i: int| 0 <= i < 4 implies #[trigger] colors@[i] == spec_key_color(
            !bit_set(nibble, i as u8),
            relays@[relay_offset + i],
        ) by {
            if i == 0 {
            } else if i == 1 {
            } else if i == 2 {
            } else {
            }
        }
    }
    colors
}

/// The key byte of this loop pass: each strip's nibble as read, or the
/// previous pass's nibble when the read failed. Returns the two nibbles and
/// the combined byte (strip 1 in the high nibble).
pub fn read_keys(last_keys: u8, strip0: Option<u8>, strip1: Option<u8>) -> (keys: (u8, u8, u8))
    ensures
        keys.0 == (match strip0 {
            Some(k) => k,
            None => last_keys,
        }) % 16,
        keys.1 == (match strip1 {
            Some(k) => k,
            None => last_keys / 16,
        }) % 16,
        keys.2 == keys.0 + 16 * keys.1,
{
    let raw0 = match strip0 {
        Some(k) => k,
        None => last_keys & 0x0F,
    };
    let raw1 = match strip1 {
        Some(k) => k,
        None => last_keys >> 4,
    };
    let k0 = raw0 & 0x0F;
    let k1 = raw1 & 0x0F;
    let keys = k0 | (k1 << 4);
    proof {
        assert(last_keys & 0x0Fu8 == last_keys % 16) by (bit_vector);
        assert(last_keys >> 4u8 == last_keys / 16) by (bit_vector);
        assert(raw0 & 0x0Fu8 == raw0 % 16) by (bit_vector);
        assert(raw1 & 0x0Fu8 == raw1 % 16) by (bit_vector);
        assert(k0 | (k1 << 4u8) == k0 + 16 * k1) by (bit_vector)
            requires
                k0 < 16,
                k1 < 16,
        ;
    }
    (k0, k1, keys)
}

/// The bit of key `i` in the key byte: bit `i` alone.
pub fn key_bit(i: u8) -> (bit: u8)
    requires
        i < 8,
    ensures
        bit == 1u8 << i,
{
    let shift: u8 = if i < 4 {
        0
    } else {
        4
    };
    proof {
        assert(i & 3u8 < 4u8) by (bit_vector);
        assert(i < 8 ==> (1u8 << (i & 3u8)) << (if i < 4 {
            0u8
        } else {
            4u8
        }) == 1u8 << i) by (bit_vector);
    }
    1u8 << (i & 3) << shift
}

/// Whether key `i` went down between the previous pass (`last_keys`) and
/// this one (`keys`): up before, down now.
pub fn key_pressed(last_keys: u8, keys: u8, i: u8) -> (pressed: bool)
    requires
        i < 8,
    ensures
        pressed == (bit_set(last_keys, i) && !bit_set(keys, i)),
{
    let bit = key_bit(i);
    proof {
        assert(i < 8 ==> ((last_keys & (1u8 << i)) != 0u8 <==> (last_keys >> i) & 1u8 == 1u8))
            by (bit_vector);
        assert(i < 8 ==> ((keys & (1u8 << i)) == 0u8 <==> !((keys >> i) & 1u8 == 1u8)))
            by (bit_vector);
    }
    (last_keys & bit) != 0 && (keys & bit) == 0
}

/// Whether a press asks a disconnected remote to scan again: no key was
/// down on the previous pass and some key is down now.
pub fn rescan_requested(last_keys: u8, keys: u8) -> (rescan: bool)
    ensures
        rescan == (last_keys == NO_KEYS_PRESSED && keys != NO_KEYS_PRESSED),
{
    last_keys == NO_KEYS_PRESSED && keys != NO_KEYS_PRESSED
}

/// Whether the LEDs must be redrawn: the status changed (or was never
/// shown), or the remote is connected and the relays or keys changed.
pub fn leds_stale(
    status: ConnectionStatus,
    last_status: Option<ConnectionStatus>,
    relays: RelayState,
    last_relays: Option<RelayState>,
    keys: u8,
    last_keys: u8,
) -> (stale: bool)
    ensures
        stale == (last_status != Some(status) || (status == ConnectionStatus::Connected && (
        last_relays != Some(relays) || keys != last_keys))),
{
    let status_changed = match last_status {
        Some(s) => s != status,
        None => true,
    };
    let relays_changed = match last_relays {
        Some(r) => r != relays,
        None => true,
    };
    status_changed || (status == ConnectionStatus::Connected && (relays_changed || keys
        != last_keys))
}

/// The colors of the two strips while the joystick is deflected by `joy`
/// (not 0): blue on strip 1 when pulled back, on strip 0 when pushed.
pub fn joystick_colors(joy: i8) -> (colors: (Rgb, Rgb))
    ensures
        colors == if joy < 0 {
            (spec_off(), spec_blue())
        } else {
            (spec_blue(), spec_off())
        },
{
    if joy < 0 {
        (off(), blue())
    } else {
        (blue(), off())
    }
}

/// What the remote does with its keys on one pass of its loop.
#[derive(Clone, Copy, Debug)]
pub enum KeyResponse {
    Nothing,
    /// Send a button message for each key `i` (0–7, in order) with
    /// `pressed[i]`.
    SendButtons { pressed: [bool; 8] },
    /// Scan for the server again.
    Rescan,
}

/// The response to the keys `keys` after `last_keys`: a connected remote
/// sends a button message for every key that went down; a remote whose
/// scan failed, whose connection was lost or that hit an error scans again
/// when a key goes down with none down before; a scanning remote does
/// nothing.
pub fn key_response(status: ConnectionStatus, last_keys: u8, keys: u8) -> (r: KeyResponse)
    ensures
        status == ConnectionStatus::Connected ==> (r matches KeyResponse::SendButtons { pressed }
            && forall|i: int|
            0 <= i < 8 ==> #[trigger] pressed@[i] == (bit_set(last_keys, i as u8) && !bit_set(
                keys,
                i as u8,
            ))),
        (status == ConnectionStatus::ScanFailed || status == ConnectionStatus::Disconnected
            || status == ConnectionStatus::Error) ==> if last_keys == NO_KEYS_PRESSED && keys
            != NO_KEYS_PRESSED {
            r is Rescan
        } else {
            r is Nothing
        },
        status == ConnectionStatus::Scanning ==> r is Nothing,
{
    match status {
        ConnectionStatus::Connected => {
            let pressed = [
                key_pressed(last_keys, keys, 0),
                key_pressed(last_keys, keys, 1),
                key_pressed(last_keys, keys, 2),
                key_pressed(last_keys, keys, 3),
                key_pressed(last_keys, keys, 4),
                key_pressed(last_keys, keys, 5),
                key_pressed(last_keys, keys, 6),
                key_pressed(last_keys, keys, 7),
            ];
            proof {
                assert forall|i: int| 0 <= i < 8 implies #[trigger] pressed@[i] == (bit_set(
                    last_keys,
                    i as u8,
                ) && !bit_set(keys, i as u8)) by {
                    if i == 0 {
                    } else if i == 1 {
                    } else if i == 2 {
                    } else if i == 3 {
                    } else if i == 4 {
                    } else if i == 5 {
                    } else if i == 6 {
                    } else {
                    }
                }
            }
            KeyResponse::SendButtons { pressed }
        },
        ConnectionStatus::ScanFailed | ConnectionStatus::Disconnected | ConnectionStatus::Error => {
            if rescan_requested(last_keys, keys) {
                KeyResponse::Rescan
            } else {
                KeyResponse::Nothing
            }
        },
        ConnectionStatus::Scanning => KeyResponse::Nothing,
    }
}

/// The message the remote sends while the joystick reads `joy`, and whether
/// it keeps sending: it stops after sending the rest position 0.
pub fn joystick_message(joy: i8) -> (out: ([u8; 2], bool))
    ensures
        out.0@ == ClientEvent::Joystick(JoystickEvent { value: joy }).spec_to_bytes(),
        out.1 == (joy != 0),
{
    (ClientEvent::Joystick(JoystickEvent { value: joy }).to_bytes(), joy != 0)
}

} // verus!
