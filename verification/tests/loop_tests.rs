use omnibench::bench::{relay_update, stepper_update};
use omnibench::client::ConnectionStatus;
use omnibench::protocol::RelayState;
use omnibench::remote::{joystick_message, key_response, KeyResponse};
use omnibench::stepper::{map_joy_to_hz, DriveCommand, StepperDirection};

#[test]
fn connected_remote_sends_pressed_buttons() {
    match key_response(ConnectionStatus::Connected, 0xFF, 0b0101_1110) {
        KeyResponse::SendButtons { pressed } => {
            assert_eq!(pressed, [true, false, false, false, false, true, false, true]);
        }
        other => panic!("unexpected {other:?}"),
    }
    match key_response(ConnectionStatus::Connected, 0xFE, 0xFE) {
        KeyResponse::SendButtons { pressed } => assert_eq!(pressed, [false; 8]),
        other => panic!("unexpected {other:?}"),
    }
}

#[test]
fn disconnected_remote_rescans_on_first_press() {
    for status in [ConnectionStatus::ScanFailed, ConnectionStatus::Disconnected, ConnectionStatus::Error] {
        assert!(matches!(key_response(status, 0xFF, 0xFB), KeyResponse::Rescan));
        assert!(matches!(key_response(status, 0xFB, 0xF3), KeyResponse::Nothing));
        assert!(matches!(key_response(status, 0xFF, 0xFF), KeyResponse::Nothing));
    }
    assert!(matches!(key_response(ConnectionStatus::Scanning, 0xFF, 0x00), KeyResponse::Nothing));
}

#[test]
fn joystick_messages() {
    assert_eq!(joystick_message(-3), ([0x02, 0xFD], true));
    assert_eq!(joystick_message(90), ([0x02, 90], true));
    assert_eq!(joystick_message(0), ([0x02, 0], false));
}

#[test]
fn stepper_driven_only_on_change() {
    let mut last = 0i8;
    assert_eq!(stepper_update(&mut last, 0), None);
    assert_eq!(
        stepper_update(&mut last, -10),
        Some(DriveCommand::Run { direction: StepperDirection::Reverse, hz: map_joy_to_hz(10) })
    );
    assert_eq!(last, -10);
    assert_eq!(stepper_update(&mut last, -10), None);
    assert_eq!(stepper_update(&mut last, 0), Some(DriveCommand::Stop));
    assert_eq!(last, 0);
}

#[test]
fn relays_written_on_state_or_connection_change() {
    let mut last: Option<RelayState> = None;
    let mut last_connected: Option<bool> = None;
    let off = RelayState::default();
    assert_eq!(relay_update(&mut last, &mut last_connected, off, false), Some([false; 8]));
    assert_eq!(last, Some(off));
    assert_eq!(last_connected, Some(false));
    assert_eq!(relay_update(&mut last, &mut last_connected, off, false), None);
    // a client connects: the same levels are written again
    assert_eq!(relay_update(&mut last, &mut last_connected, off, true), Some([false; 8]));
    assert_eq!(last_connected, Some(true));
    assert_eq!(relay_update(&mut last, &mut last_connected, off, true), None);
    let on2 = off.toggle(2);
    assert_eq!(
        relay_update(&mut last, &mut last_connected, on2, true),
        Some([false, false, true, false, false, false, false, false])
    );
    assert_eq!(last, Some(on2));
}
