use omnibench::client::{
    attr_count_gate, is_server_name, status_from_gattc_event, BtFailure, CharacteristicInfo,
    ClientState, ConnectionStatus, DescriptorInfo, GapAction, GapEvent, GattcAction, GattcEvent,
    Uuid, APP_ID, NOTIFY_DESCRIPTOR_UUID, SCAN_DURATION_S, SERVER_NAME, SERVER_NAME_BYTES,
    SERVICE_UUID,
};

const ADDR: [u8; 6] = [1, 2, 3, 4, 5, 6];
const IF: u8 = 3;

fn name(s: &str) -> GapEvent {
    GapEvent::InquiryResult { name: Some(s.as_bytes().to_vec()) }
}

/// Runs the remote through registration, scanning and discovery.
fn connected_state() -> ClientState {
    let mut s = ClientState::new();
    assert_eq!(
        s.on_gattc_event(IF, GattcEvent::ClientRegistered { status_ok: true, app_id: APP_ID }),
        Ok(GattcAction::SetScanParams)
    );
    assert_eq!(
        s.on_gap_event(GapEvent::ScanParameterConfigured { success: true }),
        Ok(GapAction::StartScanning { duration_s: SCAN_DURATION_S })
    );
    assert_eq!(s.on_gap_event(GapEvent::ScanStarted { success: true }), Ok(GapAction::Nothing));
    assert_eq!(s.on_gap_event(name("Other")), Ok(GapAction::Nothing));
    assert_eq!(
        s.on_gap_event(name("Omnibench")),
        Ok(GapAction::StopScanningAndOpen { gattc_if: Some(IF) })
    );
    assert!(s.connected);
    assert_eq!(
        s.on_gattc_event(IF, GattcEvent::Connected { conn_id: 9, addr: ADDR }),
        Ok(GattcAction::RequestMtu { conn_id: 9 })
    );
    assert_eq!(
        s.on_gattc_event(IF, GattcEvent::DiscoveryCompleted { status_ok: true, conn_id: 9 }),
        Ok(GattcAction::SearchService { conn_id: 9 })
    );
    assert_eq!(
        s.on_gattc_event(
            IF,
            GattcEvent::SearchResult { start_handle: 40, end_handle: 50, service: Uuid::U128(SERVICE_UUID) }
        ),
        Ok(GattcAction::Nothing)
    );
    assert_eq!(
        s.on_gattc_event(IF, GattcEvent::SearchComplete { status_ok: true, conn_id: 9 }),
        Ok(GattcAction::DiscoverCharacteristics { conn_id: 9, start_handle: 40, end_handle: 50 })
    );
    assert_eq!(attr_count_gate(Ok(2)), Ok(true));
    assert_eq!(
        s.on_notify_characteristic(Ok(CharacteristicInfo { handle: 42, notify: true, write: false })),
        Some((ADDR, 42))
    );
    assert_eq!(s.status(), ConnectionStatus::Scanning);
    s.on_write_characteristic(Ok((1, CharacteristicInfo { handle: 44, notify: false, write: true })));
    assert_eq!(s.status(), ConnectionStatus::Connected);
    s
}

#[test]
fn full_connection() {
    let mut s = connected_state();
    assert_eq!(s.write_target(), Some((IF, 9, 44)));
    assert_eq!(
        s.on_gattc_event(IF, GattcEvent::RegisterNotify { status_ok: true, handle: 42 }),
        Ok(GattcAction::DiscoverNotifyDescriptor { conn_id: 9, handle: 42 })
    );
    assert_eq!(
        s.on_notify_descriptor(Ok((1, DescriptorInfo { handle: 43, uuid: Uuid::U16(NOTIFY_DESCRIPTOR_UUID) }))),
        Some(43)
    );
    assert_eq!(s.ind_descr_handle, Some(43));
    assert_eq!(s.on_gattc_event(IF, GattcEvent::Notify { handle: 42 }), Ok(GattcAction::ForwardNotification));
    assert_eq!(s.on_gattc_event(IF, GattcEvent::Notify { handle: 44 }), Ok(GattcAction::Nothing));
}

#[test]
fn disconnection_forgets_connection() {
    let mut s = connected_state();
    assert_eq!(s.on_gattc_event(IF, GattcEvent::Disconnected), Ok(GattcAction::Nothing));
    assert_eq!(s.status(), ConnectionStatus::Disconnected);
    assert!(!s.connected);
    assert_eq!(s.write_target(), None);
    assert_eq!(s.conn_id, None);
    assert_eq!(s.ind_char_handle, None);
    assert_eq!(s.gattc_if, Some(IF));
    assert!(s.should_scan());
}

#[test]
fn failed_status_is_an_error() {
    let mut s = connected_state();
    assert_eq!(s.on_gattc_event(IF, GattcEvent::Other { status: Some(false) }), Err(BtFailure));
    assert_eq!(s.status(), ConnectionStatus::Error);
    let mut t = ClientState::new();
    assert_eq!(t.on_gap_event(GapEvent::ScanStarted { success: false }), Err(BtFailure));
    assert_eq!(t.status(), ConnectionStatus::Error);
    let mut u = ClientState::new();
    assert_eq!(u.on_gap_event(GapEvent::ScanStopped { success: false }), Err(BtFailure));
    assert_eq!(u.status(), ConnectionStatus::Error);
    assert_eq!(u.check_bt_status(true), Ok(()));
}

#[test]
fn scan_without_server_fails() {
    let mut s = ClientState::new();
    s.on_gap_event(GapEvent::ScanStarted { success: true }).unwrap();
    assert_eq!(s.on_gap_event(GapEvent::InquiryComplete), Ok(GapAction::Nothing));
    assert_eq!(s.status(), ConnectionStatus::ScanFailed);
    assert_eq!(s.on_gap_event(GapEvent::InquiryResult { name: None }), Ok(GapAction::Nothing));
}

#[test]
fn other_app_and_other_service_are_ignored() {
    let mut s = ClientState::new();
    assert_eq!(
        s.on_gattc_event(IF, GattcEvent::ClientRegistered { status_ok: true, app_id: APP_ID + 1 }),
        Ok(GattcAction::Nothing)
    );
    assert_eq!(s.gattc_if, None);
    s.on_gattc_event(
        IF,
        GattcEvent::SearchResult { start_handle: 1, end_handle: 5, service: Uuid::U16(0x1800) },
    )
    .unwrap();
    assert_eq!(s.service_start_end_handle, None);
    assert_eq!(
        s.on_gattc_event(IF, GattcEvent::SearchComplete { status_ok: true, conn_id: 1 }),
        Ok(GattcAction::Nothing)
    );
    assert_eq!(
        s.on_gattc_event(IF, GattcEvent::RegisterNotify { status_ok: true, handle: 3 }),
        Ok(GattcAction::Nothing)
    );
}

#[test]
fn second_sighting_does_not_reconnect() {
    let mut s = connected_state();
    assert_eq!(s.on_gap_event(name("Omnibench")), Ok(GapAction::Nothing));
    assert_eq!(
        s.on_gattc_event(IF, GattcEvent::ClientRegistered { status_ok: true, app_id: APP_ID }),
        Ok(GattcAction::Nothing)
    );
}

#[test]
fn discovery_lookups_that_do_not_fit() {
    let mut s = connected_state();
    s.ind_char_handle = None;
    assert_eq!(s.on_notify_characteristic(Err(BtFailure)), None);
    assert_eq!(
        s.on_notify_characteristic(Ok(CharacteristicInfo { handle: 42, notify: false, write: true })),
        None
    );
    assert_eq!(s.ind_char_handle, None);
    let mut t = ClientState::new();
    t.on_write_characteristic(Ok((0, CharacteristicInfo { handle: 44, notify: false, write: true })));
    t.on_write_characteristic(Ok((1, CharacteristicInfo { handle: 44, notify: true, write: false })));
    t.on_write_characteristic(Err(BtFailure));
    assert_eq!(t.write_char_handle, None);
    assert_eq!(t.status(), ConnectionStatus::Scanning);
    assert_eq!(
        t.on_notify_descriptor(Ok((1, DescriptorInfo { handle: 43, uuid: Uuid::U16(0x2901) }))),
        None
    );
    assert_eq!(
        t.on_notify_descriptor(Ok((0, DescriptorInfo { handle: 43, uuid: Uuid::U16(NOTIFY_DESCRIPTOR_UUID) }))),
        None
    );
    assert_eq!(t.ind_descr_handle, None);
    assert_eq!(attr_count_gate(Ok(0)), Ok(false));
    assert_eq!(attr_count_gate(Err(BtFailure)), Err(BtFailure));
}

#[test]
fn server_name_matching() {
    assert_eq!(SERVER_NAME.as_bytes(), &SERVER_NAME_BYTES);
    assert!(is_server_name(b"Omnibench"));
    assert!(!is_server_name(b"omnibench"));
    assert!(!is_server_name(b"Omnibench2"));
    assert!(!is_server_name(b""));
}

#[test]
fn event_statuses() {
    assert_eq!(status_from_gattc_event(&GattcEvent::Disconnected), None);
    assert_eq!(status_from_gattc_event(&GattcEvent::Notify { handle: 1 }), None);
    assert_eq!(
        status_from_gattc_event(&GattcEvent::SearchComplete { status_ok: false, conn_id: 0 }),
        Some(false)
    );
    assert_eq!(status_from_gattc_event(&GattcEvent::Other { status: Some(true) }), Some(true));
    assert_eq!(ConnectionStatus::default(), ConnectionStatus::Scanning);
}

#[test]
fn after_disconnect_nothing_until_rediscovery() {
    let mut s = connected_state();
    s.on_gattc_event(IF, GattcEvent::Disconnected).unwrap();
    // events that neither sight the server nor find the characteristics
    s.on_gap_event(GapEvent::ScanStarted { success: true }).unwrap();
    s.on_gap_event(name("Other")).unwrap();
    s.on_gattc_event(IF, GattcEvent::Connected { conn_id: 4, addr: ADDR }).unwrap();
    s.on_gattc_event(IF, GattcEvent::SearchComplete { status_ok: true, conn_id: 4 }).unwrap();
    assert!(s.should_scan());
    assert_eq!(s.write_target(), None);
    assert!(!s.should_forward_notification(42));
    assert_ne!(s.status(), ConnectionStatus::Connected);
    // sighting the server starts a connection again
    assert_eq!(s.on_gap_event(name("Omnibench")), Ok(GapAction::StopScanningAndOpen { gattc_if: Some(IF) }));
    assert!(!s.should_scan());
}
