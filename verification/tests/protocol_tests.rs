use omnibench::protocol::{ButtonEvent, ClientEvent, JoystickEvent, RelayState};

fn state_from(byte: u8) -> RelayState {
    RelayState::from_bytes(&[byte]).unwrap()
}

#[test]
fn default_relays_are_off() {
    let s = RelayState::default();
    for r in 0..8 {
        assert!(!s.is_on(r));
    }
    assert_eq!(s.to_bytes(), [0]);
}

#[test]
fn bit_n_is_relay_n() {
    let s = state_from(0b1000_0101);
    let on: Vec<bool> = (0..8).map(|r| s.is_on(r)).collect();
    assert_eq!(on, vec![true, false, true, false, false, false, false, true]);
}

#[test]
fn set_switches_only_its_relay() {
    let s = state_from(0b0000_0101);
    assert_eq!(s.set(1, true).to_bytes(), [0b0000_0111]);
    assert_eq!(s.set(0, false).to_bytes(), [0b0000_0100]);
    assert_eq!(s.set(2, true).to_bytes(), [0b0000_0101]);
    assert_eq!(s.set(7, true).to_bytes(), [0b1000_0101]);
    assert!(s.set(6, true).is_on(6));
    assert!(!s.set(2, false).is_on(2));
}

#[test]
fn toggle_flips_only_its_relay() {
    let s = state_from(0b0000_0101);
    assert_eq!(s.toggle(0).to_bytes(), [0b0000_0100]);
    assert_eq!(s.toggle(3).to_bytes(), [0b0000_1101]);
    assert_eq!(s.toggle(3).toggle(3), s);
    for r in 0..8 {
        assert_eq!(s.toggle(r).is_on(r), !s.is_on(r));
    }
}

#[test]
fn relay_state_bytes() {
    assert_eq!(RelayState::from_bytes(&[]), None);
    let s = state_from(0x5A);
    assert_eq!(s.to_bytes(), [0x5A]);
    assert_eq!(RelayState::from_bytes(&[0x5A, 0xFF, 0x00]), Some(s));
    let arr: [u8; 1] = s.into();
    assert_eq!(arr, [0x5A]);
    for b in 0..=255u8 {
        assert_eq!(RelayState::from_bytes(&state_from(b).to_bytes()), Some(state_from(b)));
    }
}

#[test]
fn button_event_bytes() {
    assert_eq!(ButtonEvent { relay: 5 }.to_bytes(), [5]);
    let arr: [u8; 1] = ButtonEvent { relay: 2 }.into();
    assert_eq!(arr, [2]);
    assert_eq!(ButtonEvent::from_bytes(&[7]), Some(ButtonEvent { relay: 7 }));
    assert_eq!(ButtonEvent::from_bytes(&[0, 9]), Some(ButtonEvent { relay: 0 }));
    assert_eq!(ButtonEvent::from_bytes(&[8]), None);
    assert_eq!(ButtonEvent::from_bytes(&[255]), None);
    assert_eq!(ButtonEvent::from_bytes(&[]), None);
}

#[test]
fn client_event_wire_format() {
    assert_eq!(ClientEvent::Button(ButtonEvent { relay: 3 }).to_bytes(), [0x01, 3]);
    assert_eq!(ClientEvent::Joystick(JoystickEvent { value: 100 }).to_bytes(), [0x02, 100]);
    assert_eq!(ClientEvent::Joystick(JoystickEvent { value: -1 }).to_bytes(), [0x02, 0xFF]);
    assert_eq!(ClientEvent::Joystick(JoystickEvent { value: -127 }).to_bytes(), [0x02, 0x81]);
    assert_eq!(ClientEvent::Joystick(JoystickEvent { value: -128 }).to_bytes(), [0x02, 0x80]);
}

#[test]
fn client_event_parsing() {
    assert_eq!(
        ClientEvent::from_bytes(&[0x01, 3]),
        Some(ClientEvent::Button(ButtonEvent { relay: 3 }))
    );
    assert_eq!(
        ClientEvent::from_bytes(&[0x02, 0xFF]),
        Some(ClientEvent::Joystick(JoystickEvent { value: -1 }))
    );
    assert_eq!(
        ClientEvent::from_bytes(&[0x02, 0x7F, 0x00]),
        Some(ClientEvent::Joystick(JoystickEvent { value: 127 }))
    );
    assert_eq!(ClientEvent::from_bytes(&[0x01, 8]), None);
    assert_eq!(ClientEvent::from_bytes(&[0x03, 0]), None);
    assert_eq!(ClientEvent::from_bytes(&[0x00, 0]), None);
    assert_eq!(ClientEvent::from_bytes(&[0x01]), None);
    assert_eq!(ClientEvent::from_bytes(&[]), None);
}

#[test]
fn client_event_round_trip() {
    for relay in 0..8u8 {
        let e = ClientEvent::Button(ButtonEvent { relay });
        assert_eq!(ClientEvent::from_bytes(&e.to_bytes()), Some(e));
    }
    for value in i8::MIN..=i8::MAX {
        let e = ClientEvent::Joystick(JoystickEvent { value });
        assert_eq!(ClientEvent::from_bytes(&e.to_bytes()), Some(e));
        assert_eq!(e.to_bytes()[1], value as u8);
    }
}
