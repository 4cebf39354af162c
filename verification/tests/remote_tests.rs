use omnibench::bench::{relay_pin_levels, BenchState};
use omnibench::client::ConnectionStatus;
use omnibench::colors::{blue, dim_white, off, orange, red, white, yellow, Rgb};
use omnibench::protocol::{ButtonEvent, ClientEvent, JoystickEvent, RelayState};
use omnibench::remote::{
    joystick_colors, key_bit, key_colors, key_pressed, leds_stale, read_keys, rescan_requested,
    status_color,
};

#[test]
fn color_values() {
    assert_eq!(red(), Rgb { r: 255, g: 0, b: 0 });
    assert_eq!(blue(), Rgb { r: 0, g: 0, b: 255 });
    assert_eq!(white(), Rgb { r: 255, g: 255, b: 255 });
    assert_eq!(dim_white(), Rgb { r: 3, g: 3, b: 3 });
    assert_eq!(orange(), Rgb { r: 255, g: 128, b: 0 });
    assert_eq!(yellow(), Rgb { r: 255, g: 255, b: 0 });
    assert_eq!(off(), Rgb { r: 0, g: 0, b: 0 });
}

#[test]
fn status_colors() {
    assert_eq!(status_color(ConnectionStatus::Scanning), Some(blue()));
    assert_eq!(status_color(ConnectionStatus::ScanFailed), Some(red()));
    assert_eq!(status_color(ConnectionStatus::Disconnected), Some(red()));
    assert_eq!(status_color(ConnectionStatus::Error), Some(orange()));
    assert_eq!(status_color(ConnectionStatus::Connected), None);
}

#[test]
fn strip_colors() {
    let relays = RelayState::from_bytes(&[0b0010_0001]).unwrap();
    // key 1 held down on strip 0
    assert_eq!(key_colors(0b1101, relays, 0), [white(), yellow(), dim_white(), dim_white()]);
    // no key down on strip 1: relay 5 on
    assert_eq!(key_colors(0b1111, relays, 4), [dim_white(), white(), dim_white(), dim_white()]);
    assert_eq!(key_colors(0b0000, relays, 4), [yellow(); 4]);
}

#[test]
fn keys_combine() {
    assert_eq!(read_keys(0xFF, Some(0x0E), Some(0x07)), (0x0E, 0x07, 0x7E));
    assert_eq!(read_keys(0xA5, None, None), (0x05, 0x0A, 0xA5));
    assert_eq!(read_keys(0xA5, Some(0xF3), None), (0x03, 0x0A, 0xA3));
}

#[test]
fn key_edges() {
    for i in 0..8u8 {
        assert_eq!(key_bit(i), 1u8 << i);
        assert!(key_pressed(0xFF, 0xFF & !(1 << i), i));
        assert!(!key_pressed(0xFF & !(1 << i), 0xFF & !(1 << i), i));
        assert!(!key_pressed(0xFF, 0xFF, i));
    }
    assert!(!key_pressed(0xFF, 0xFE, 1));
}

#[test]
fn rescan() {
    assert!(rescan_requested(0xFF, 0xFE));
    assert!(!rescan_requested(0xFE, 0xFC));
    assert!(!rescan_requested(0xFF, 0xFF));
}

#[test]
fn stale_leds() {
    let r = RelayState::default();
    let r2 = r.toggle(1);
    assert!(leds_stale(ConnectionStatus::Scanning, None, r, None, 0xFF, 0xFF));
    assert!(!leds_stale(ConnectionStatus::Scanning, Some(ConnectionStatus::Scanning), r2, Some(r), 0xFE, 0xFF));
    assert!(leds_stale(ConnectionStatus::Connected, Some(ConnectionStatus::Connected), r2, Some(r), 0xFF, 0xFF));
    assert!(leds_stale(ConnectionStatus::Connected, Some(ConnectionStatus::Connected), r, Some(r), 0xFE, 0xFF));
    assert!(!leds_stale(ConnectionStatus::Connected, Some(ConnectionStatus::Connected), r, Some(r), 0xFF, 0xFF));
    assert!(leds_stale(ConnectionStatus::Error, Some(ConnectionStatus::Connected), r, Some(r), 0xFF, 0xFF));
}

#[test]
fn joystick_leds() {
    assert_eq!(joystick_colors(-5), (off(), blue()));
    assert_eq!(joystick_colors(5), (blue(), off()));
}

#[test]
fn bench_applies_client_events() {
    let mut bench = BenchState::new();
    assert_eq!(bench.relays.to_bytes(), [0]);
    let b = ClientEvent::from_bytes(&[0x01, 2]).unwrap();
    let sent = bench.on_client_event(b);
    assert_eq!(sent.map(|s| s.to_bytes()), Some([0b100]));
    assert_eq!(bench.on_client_event(ClientEvent::Button(ButtonEvent { relay: 7 })).map(|s| s.to_bytes()), Some([0b1000_0100]));
    assert_eq!(bench.on_client_event(ClientEvent::Joystick(JoystickEvent { value: -40 })), None);
    assert_eq!(bench.joystick, -40);
    assert_eq!(bench.relays.to_bytes(), [0b1000_0100]);
    bench.on_client_event(b);
    assert_eq!(bench.relays.to_bytes(), [0b1000_0000]);
}

#[test]
fn pin_levels() {
    let s = RelayState::from_bytes(&[0b0100_1001]).unwrap();
    assert_eq!(relay_pin_levels(s), [true, false, false, true, false, false, true, false]);
}
