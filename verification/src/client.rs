//! Connection logic of the remote, the BLE client of the bench.
//!
//! The remote scans for the bench server, connects, discovers the bench
//! service with its "recv" (write) and "notify" characteristics, and enables
//! notifications. Every decision along the way is taken here, on plain
//! values: the caller performs the Bluetooth calls that the returned actions
//! name and hands back what they report.

use vstd::prelude::*;

verus! {

/// Application id under which the remote registers its GATT client.
pub const APP_ID: u16 = 0;

/// Name the bench server advertises.
pub const SERVER_NAME: &'static str = "Omnibench";

/// [`SERVER_NAME`] as the bytes that appear in advertising data.
pub const SERVER_NAME_BYTES: [u8; 9] = [0x4f, 0x6d, 0x6e, 0x69, 0x62, 0x65, 0x6e, 0x63, 0x68];

/// The advertised name of the bench server, as bytes.
pub open spec fn server_name() -> Seq<u8> {
    seq![0x4fu8, 0x6du8, 0x6eu8, 0x69u8, 0x62u8, 0x65u8, 0x6eu8, 0x63u8, 0x68u8]
}

/// The server's name is spelt "Omnibench", one byte per letter.
pub proof fn lemma_server_name_spelling()
    ensures
        server_name() == seq![
            'O' as u8,
            'm' as u8,
            'n' as u8,
            'i' as u8,
            'b' as u8,
            'e' as u8,
            'n' as u8,
            'c' as u8,
            'h' as u8,
        ],
{
    assert(server_name() =~= seq![
        'O' as u8,
        'm' as u8,
        'n' as u8,
        'i' as u8,
        'b' as u8,
        'e' as u8,
        'n' as u8,
        'c' as u8,
        'h' as u8,
    ]);
}

/// The bench service.
/// UUID: ad91b201-7347-4047-9e17-3bed82d75f9d
pub const SERVICE_UUID: u128 = 0xad91b201734740479e173bed82d75f9d;

/// "recv" characteristic - i.e. where clients send data.
/// UUID: b6fccb50-87be-44f3-ae22-f85485ea42c4
pub const RECV_CHARACTERISTIC_UUID: u128 = 0xb6fccb5087be44f3ae22f85485ea42c4;

/// "notify" characteristic - i.e. where clients receive data if they
/// subscribe.
/// UUID: 503de214-8682-46c4-828f-d59144da41be
pub const NOTIFY_CHARACTERISTIC_UUID: u128 = 0x503de214868246c4828fd59144da41be;

/// Client Characteristic Configuration descriptor.
pub const NOTIFY_DESCRIPTOR_UUID: u16 = 0x2902;

/// Value written to the Client Characteristic Configuration descriptor to
/// enable notifications (0x0001, little endian).
pub const ENABLE_NOTIFICATIONS: [u8; 2] = [0x01, 0x00];

/// Scan interval requested when scanning starts, in units of 0.625 ms.
pub const SCAN_INTERVAL: u16 = 0x50;

/// How long a scan runs, in seconds.
pub const SCAN_DURATION_S: u32 = 10;

/// A Bluetooth UUID in one of its three widths. Two UUIDs are the same
/// exactly when width and value agree.
#[derive(Clone, Copy, Debug, PartialEq, Eq, Structural)]
pub enum Uuid {
    U16(u16),
    U32(u32),
    U128(u128),
}

/// The remote's connection status, suitable for driving UI feedback.
#[derive(Clone, Copy, Debug, PartialEq, Eq, Structural)]
pub enum ConnectionStatus {
    /// Actively scanning for the server (blue)
    Scanning,
    /// Write characteristic discovered; ready to communicate (white)
    Connected,
    /// Was connected, now disconnected (red)
    Disconnected,
    /// Scan completed without finding the server (red)
    ScanFailed,
    /// An unexpected BT/GATT error occurred (orange)
    Error,
}

impl Default for ConnectionStatus {
    fn default() -> (s: Self)
        ensures
            s == ConnectionStatus::Scanning,
    {
        ConnectionStatus::Scanning
    }
}

/// A Bluetooth or GATT operation reported failure.
#[derive(Clone, Copy, Debug, PartialEq, Eq, Structural)]
pub struct BtFailure;

/// Properties of a characteristic that the discovery reads.
#[derive(Clone, Copy, Debug, PartialEq, Eq, Structural)]
pub struct CharacteristicInfo {
    pub handle: u16,
    /// The characteristic has the Notify property.
    pub notify: bool,
    /// The characteristic has the Write property.
    pub write: bool,
}

/// A descriptor as the discovery reads it.
#[derive(Clone, Copy, Debug, PartialEq, Eq, Structural)]
pub struct DescriptorInfo {
    pub handle: u16,
    pub uuid: Uuid,
}

/// Everything the remote knows of its connection.
#[derive(Clone, Copy, Debug)]
pub struct ClientState {
    pub conn_id: Option<u16>,
    /// A connection to the server has been started (and not lost since).
    pub connected: bool,
    pub gattc_if: Option<u8>,
    pub ind_char_handle: Option<u16>,
    pub ind_descr_handle: Option<u16>,
    pub remote_addr: Option<[u8; 6]>,
    pub service_start_end_handle: Option<(u16, u16)>,
    pub status: ConnectionStatus,
    pub write_char_handle: Option<u16>,
}

/// Events of the GAP layer that the remote acts on.
#[derive(Debug)]
pub enum GapEvent {
    ScanParameterConfigured { success: bool },
    ScanStarted { success: bool },
    /// The scan ended.
    InquiryComplete,
    /// A device was seen; `name` is its complete advertised name, if any.
    InquiryResult { name: Option<Vec<u8>> },
    ScanStopped { success: bool },
    Other,
}

/// What the caller does after a GAP event.
#[derive(Clone, Copy, Debug, PartialEq, Eq, Structural)]
pub enum GapAction {
    Nothing,
    /// Start scanning for `duration_s` seconds.
    StartScanning { duration_s: u32 },
    /// Stop scanning, then open a connection to the device just seen through
    /// interface `gattc_if` (which must be known by then).
    StopScanningAndOpen { gattc_if: Option<u8> },
}

/// Events of the GATT client that the remote acts on. `status_ok` is whether
/// the event's operation status is OK, for the events that carry one.
#[derive(Clone, Copy, Debug)]
pub enum GattcEvent {
    ClientRegistered { status_ok: bool, app_id: u16 },
    Connected { conn_id: u16, addr: [u8; 6] },
    DiscoveryCompleted { status_ok: bool, conn_id: u16 },
    SearchResult { start_handle: u16, end_handle: u16, service: Uuid },
    SearchComplete { status_ok: bool, conn_id: u16 },
    RegisterNotify { status_ok: bool, handle: u16 },
    Notify { handle: u16 },
    Disconnected,
    /// Any other event, with its status if it carries one.
    Other { status: Option<bool> },
}

/// What the caller does after a GATT client event.
#[derive(Clone, Copy, Debug, PartialEq, Eq, Structural)]
pub enum GattcAction {
    Nothing,
    /// Set the scan parameters (interval [`SCAN_INTERVAL`]), which starts
    /// the scan.
    SetScanParams,
    /// Request an MTU exchange on the connection.
    RequestMtu { conn_id: u16 },
    /// Search the server for the bench service ([`SERVICE_UUID`]).
    SearchService { conn_id: u16 },
    /// Count the characteristics of the service between the two handles and
    /// look up the notify and recv characteristics (see
    /// [`ClientState::on_notify_characteristic`] and
    /// [`ClientState::on_write_characteristic`]).
    DiscoverCharacteristics { conn_id: u16, start_handle: u16, end_handle: u16 },
    /// Count the descriptors of characteristic `handle` and look up its
    /// configuration descriptor (see [`ClientState::on_notify_descriptor`]).
    DiscoverNotifyDescriptor { conn_id: u16, handle: u16 },
    /// Hand the notified value to the notification handler.
    ForwardNotification,
}

/// The operation status that an event carries, if it carries one.
pub open spec fn event_status(event: GattcEvent) -> Option<bool> {
    match event {
        GattcEvent::ClientRegistered { status_ok, .. } => Some(status_ok),
        GattcEvent::DiscoveryCompleted { status_ok, .. } => Some(status_ok),
        GattcEvent::SearchComplete { status_ok, .. } => Some(status_ok),
        GattcEvent::RegisterNotify { status_ok, .. } => Some(status_ok),
        GattcEvent::Other { status } => status,
        _ => None,
    }
}

/// The operation status that `event` carries, if it carries one.
pub fn status_from_gattc_event(event: &GattcEvent) -> (status: Option<bool>)
    ensures
        status == event_status(*event),
        *event matches GattcEvent::ClientRegistered { status_ok, .. } ==> status == Some(status_ok),
        *event matches GattcEvent::DiscoveryCompleted { status_ok, .. } ==> status == Some(status_ok),
        *event matches GattcEvent::SearchComplete { status_ok, .. } ==> status == Some(status_ok),
        *event matches GattcEvent::RegisterNotify { status_ok, .. } ==> status == Some(status_ok),
        *event matches GattcEvent::Other { status: st } ==> status == st,
        (*event is Connected || *event is SearchResult || *event is Notify || *event is Disconnected)
            ==> status is None,
{
    match event {
        GattcEvent::ClientRegistered { status_ok, .. } => Some(*status_ok),
        GattcEvent::DiscoveryCompleted { status_ok, .. } => Some(*status_ok),
        GattcEvent::SearchComplete { status_ok, .. } => Some(*status_ok),
        GattcEvent::RegisterNotify { status_ok, .. } => Some(*status_ok),
        GattcEvent::Other { status } => *status,
        _ => None,
    }
}

/// Whether `name` is the advertised name of the bench server.
pub fn is_server_name(name: &[u8]) -> (found: bool)
    ensures
        found == (name@ == server_name()),
        found == (name@ == seq![
            'O' as u8,
            'm' as u8,
            'n' as u8,
            'i' as u8,
            'b' as u8,
            'e' as u8,
            'n' as u8,
            'c' as u8,
            'h' as u8,
        ]),
{
    proof {
        lemma_server_name_spelling();
    }
    let expected = SERVER_NAME_BYTES;
    if name.len() != expected.len() {
        return false;
    }
    let mut i: usize = 0;
    while i < name.len()
        invariant
            name@.len() == 9,
            expected@ == server_name(),
            i <= name@.len(),
            forall|j: int| 0 <= j < i ==> name@[j] == server_name()[j],
        decreases name@.len() - i,
    {
        if name[i] != expected[i] {
            return false;
        }
        i = i + 1;
    }
    assert(name@ =~= server_name());
    true
}

/// Whether a found characteristic count lets the discovery go on: a failed
/// count is an error, a count of zero ends the discovery.
pub fn attr_count_gate(count: Result<usize, BtFailure>) -> (go_on: Result<bool, BtFailure>)
    ensures
        count is Err ==> go_on == Err::<bool, BtFailure>(BtFailure),
        count matches Ok(n) ==> go_on == Ok::<bool, BtFailure>(n > 0),
{
    match count {
        Err(_) => Err(BtFailure),
        Ok(n) => Ok(n > 0),
    }
}

impl ClientState {
    /// The state before anything happened: nothing known, scanning.
    pub open spec fn initial() -> ClientState {
        ClientState {
            conn_id: None,
            connected: false,
            gattc_if: None,
            ind_char_handle: None,
            ind_descr_handle: None,
            remote_addr: None,
            service_start_end_handle: None,
            status: ConnectionStatus::Scanning,
            write_char_handle: None,
        }
    }

    /// The status says "connected" only once the write characteristic is
    /// known.
    pub open spec fn connected_means_writable(self) -> bool {
        self.status == ConnectionStatus::Connected ==> self.write_char_handle is Some
    }

    /// The state after a disconnection: what was learnt of the connection
    /// is forgotten; the interface is kept.
    pub open spec fn after_disconnect(self) -> ClientState {
        ClientState {
            conn_id: None,
            connected: false,
            ind_char_handle: None,
            ind_descr_handle: None,
            remote_addr: None,
            service_start_end_handle: None,
            status: ConnectionStatus::Disconnected,
            write_char_handle: None,
            ..self
        }
    }

    pub fn new() -> (s: Self)
        ensures
            s == Self::initial(),
            s.status == ConnectionStatus::Scanning,
            !s.connected,
            s.conn_id is None && s.gattc_if is None && s.remote_addr is None,
            s.ind_char_handle is None && s.ind_descr_handle is None && s.write_char_handle is None,
            s.service_start_end_handle is None,
    {
        ClientState {
            conn_id: None,
            connected: false,
            gattc_if: None,
            ind_char_handle: None,
            ind_descr_handle: None,
            remote_addr: None,
            service_start_end_handle: None,
            status: ConnectionStatus::Scanning,
            write_char_handle: None,
        }
    }

    /// The current connection status.
    pub fn status(&self) -> (s: ConnectionStatus)
        ensures
            s == self.status,
    {
        self.status
    }

    /// Whether connecting starts a scan: only when no connection has been
    /// started.
    pub fn should_scan(&self) -> (scan: bool)
        ensures
            scan == !self.connected,
    {
        !self.connected
    }

    /// Where a write to the recv characteristic goes: interface, connection
    /// and characteristic handle, when all three are known.
    pub fn write_target(&self) -> (target: Option<(u8, u16, u16)>)
        ensures
            target is Some <==> (self.gattc_if is Some && self.conn_id is Some
                && self.write_char_handle is Some),
            target matches Some(t) ==> t == (
                self.gattc_if.unwrap(),
                self.conn_id.unwrap(),
                self.write_char_handle.unwrap(),
            ),
    {
        match (self.gattc_if, self.conn_id, self.write_char_handle) {
            (Some(gattc_if), Some(conn_id), Some(handle)) => Some((gattc_if, conn_id, handle)),
            _ => None,
        }
    }

    /// Whether a notification on `handle` comes from the notify
    /// characteristic and is handed on.
    pub fn should_forward_notification(&self, handle: u16) -> (forward: bool)
        ensures
            forward == (self.ind_char_handle == Some(handle)),
    {
        match self.ind_char_handle {
            Some(h) => h == handle,
            None => false,
        }
    }

    /// Records a Bluetooth status: a failed one sets the status to
    /// [`ConnectionStatus::Error`] and is an error.
    pub fn check_bt_status(&mut self, success: bool) -> (res: Result<(), BtFailure>)
        ensures
            success ==> res is Ok && *final(self) == *old(self),
            !success ==> res == Err::<(), BtFailure>(BtFailure) && *final(self) == (ClientState {
                status: ConnectionStatus::Error,
                ..*old(self)
            }),
            old(self).connected_means_writable() ==> final(self).connected_means_writable(),
    {
        if !success {
            self.status = ConnectionStatus::Error;
            Err(BtFailure)
        } else {
            Ok(())
        }
    }

    /// The state with the status set to `status`.
    pub open spec fn with_status(self, status: ConnectionStatus) -> ClientState {
        ClientState { status, ..self }
    }

    /// Handles an event of the GAP layer.
    ///
    /// A failed scan-parameter, scan-start or scan-stop status sets the
    /// status to [`ConnectionStatus::Error`] and is an error. Configured
    /// scan parameters start a scan of [`SCAN_DURATION_S`] seconds; a
    /// started scan sets the status to scanning; a scan that ends with no
    /// connection started sets it to scan-failed. A device that advertises
    /// the server's name, seen while no connection has been started, starts
    /// one.
    pub fn on_gap_event(&mut self, event: GapEvent) -> (res: Result<GapAction, BtFailure>)
        ensures
            match event {
                GapEvent::ScanParameterConfigured { success } => if success {
                    &&& res == Ok::<GapAction, BtFailure>(
                        GapAction::StartScanning { duration_s: SCAN_DURATION_S },
                    )
                    &&& *final(self) == *old(self)
                } else {
                    &&& res == Err::<GapAction, BtFailure>(BtFailure)
                    &&& *final(self) == old(self).with_status(ConnectionStatus::Error)
                },
                GapEvent::ScanStarted { success } => if success {
                    &&& res == Ok::<GapAction, BtFailure>(GapAction::Nothing)
                    &&& *final(self) == old(self).with_status(ConnectionStatus::Scanning)
                } else {
                    &&& res == Err::<GapAction, BtFailure>(BtFailure)
                    &&& *final(self) == old(self).with_status(ConnectionStatus::Error)
                },
                GapEvent::InquiryComplete => {
                    &&& res == Ok::<GapAction, BtFailure>(GapAction::Nothing)
                    &&& *final(self) == if old(self).connected {
                        *old(self)
                    } else {
                        old(self).with_status(ConnectionStatus::ScanFailed)
                    }
                },
                GapEvent::InquiryResult { name } => if name matches Some(n) && n@ == server_name()
                    && !old(self).connected {
                    &&& res == Ok::<GapAction, BtFailure>(
                        GapAction::StopScanningAndOpen { gattc_if: old(self).gattc_if },
                    )
                    &&& *final(self) == (ClientState { connected: true, ..*old(self) })
                } else {
                    &&& res == Ok::<GapAction, BtFailure>(GapAction::Nothing)
                    &&& *final(self) == *old(self)
                },
                GapEvent::ScanStopped { success } => if success {
                    &&& res == Ok::<GapAction, BtFailure>(GapAction::Nothing)
                    &&& *final(self) == *old(self)
                } else {
                    &&& res == Err::<GapAction, BtFailure>(BtFailure)
                    &&& *final(self) == old(self).with_status(ConnectionStatus::Error)
                },
                GapEvent::Other => {
                    &&& res == Ok::<GapAction, BtFailure>(GapAction::Nothing)
                    &&& *final(self) == *old(self)
                },
            },
            *final(self) == old(self).step(ClientInput::Gap(event)),
            old(self).connected_means_writable() ==> final(self).connected_means_writable(),
    {
        match event {
            GapEvent::ScanParameterConfigured { success } => {
                self.check_bt_status(success)?;
                Ok(GapAction::StartScanning { duration_s: SCAN_DURATION_S })
            },
            GapEvent::ScanStarted { success } => {
                self.check_bt_status(success)?;
                self.status = ConnectionStatus::Scanning;
                Ok(GapAction::Nothing)
            },
            GapEvent::InquiryComplete => {
                if !self.connected {
                    self.status = ConnectionStatus::ScanFailed;
                }
                Ok(GapAction::Nothing)
            },
            GapEvent::InquiryResult { name } => {
                let found = match &name {
                    Some(n) => is_server_name(n.as_slice()),
                    None => false,
                };
                if found && !self.connected {
                    self.connected = true;
                    Ok(GapAction::StopScanningAndOpen { gattc_if: self.gattc_if })
                } else {
                    Ok(GapAction::Nothing)
                }
            },
            GapEvent::ScanStopped { success } => {
                self.check_bt_status(success)?;
                Ok(GapAction::Nothing)
            },
            GapEvent::Other => Ok(GapAction::Nothing),
        }
    }

    /// The state and action after a GATT client event whose status (if it
    /// carries one) is OK, received on interface `gattc_if`.
    pub open spec fn gattc_outcome(self, gattc_if: u8, event: GattcEvent) -> (
        ClientState,
        GattcAction,
    ) {
        match event {
            GattcEvent::ClientRegistered { app_id, .. } => if app_id == APP_ID {
                (
                    ClientState { gattc_if: Some(gattc_if), ..self },
                    if self.connected {
                        GattcAction::Nothing
                    } else {
                        GattcAction::SetScanParams
                    },
                )
            } else {
                (self, GattcAction::Nothing)
            },
            GattcEvent::Connected { conn_id, addr } => (
                ClientState { conn_id: Some(conn_id), remote_addr: Some(addr), ..self },
                GattcAction::RequestMtu { conn_id },
            ),
            GattcEvent::DiscoveryCompleted { conn_id, .. } => (
                self,
                GattcAction::SearchService { conn_id },
            ),
            GattcEvent::SearchResult { start_handle, end_handle, service } => if service
                == Uuid::U128(SERVICE_UUID) {
                (
                    ClientState {
                        service_start_end_handle: Some((start_handle, end_handle)),
                        ..self
                    },
                    GattcAction::Nothing,
                )
            } else {
                (self, GattcAction::Nothing)
            },
            GattcEvent::SearchComplete { conn_id, .. } => match self.service_start_end_handle {
                Some((start_handle, end_handle)) => (
                    self,
                    GattcAction::DiscoverCharacteristics { conn_id, start_handle, end_handle },
                ),
                None => (self, GattcAction::Nothing),
            },
            GattcEvent::RegisterNotify { handle, .. } => match self.conn_id {
                Some(conn_id) => (self, GattcAction::DiscoverNotifyDescriptor { conn_id, handle }),
                None => (self, GattcAction::Nothing),
            },
            GattcEvent::Notify { handle } => if self.ind_char_handle == Some(handle) {
                (self, GattcAction::ForwardNotification)
            } else {
                (self, GattcAction::Nothing)
            },
            GattcEvent::Disconnected => (self.after_disconnect(), GattcAction::Nothing),
            GattcEvent::Other { .. } => (self, GattcAction::Nothing),
        }
    }

    /// Handles an event of the GATT client received on interface `gattc_if`.
    ///
    /// An event that carries a failed status sets the status to
    /// [`ConnectionStatus::Error`] and is an error. Otherwise: registering
    /// the remote's application records the interface and connects (scans
    /// unless a connection was started); a connection records its id and
    /// the server's address and asks for an MTU exchange; completed
    /// discovery searches the bench service; the service's handles are
    /// recorded when found, and once the search completes its
    /// characteristics are discovered; a registered notification has its
    /// configuration descriptor discovered, when the connection is known;
    /// a notification on the notify characteristic is handed on; a
    /// disconnection forgets the connection and sets the status to
    /// disconnected.
    pub fn on_gattc_event(&mut self, gattc_if: u8, event: GattcEvent) -> (res: Result<
        GattcAction,
        BtFailure,
    >)
        ensures
            event_status(event) == Some(false) ==> {
                &&& res == Err::<GattcAction, BtFailure>(BtFailure)
                &&& *final(self) == old(self).with_status(ConnectionStatus::Error)
            },
            event_status(event) != Some(false) ==> {
                &&& res == Ok::<GattcAction, BtFailure>(old(self).gattc_outcome(gattc_if, event).1)
                &&& *final(self) == old(self).gattc_outcome(gattc_if, event).0
            },
            *final(self) == old(self).step(ClientInput::Gattc { gattc_if, event }),
            old(self).connected_means_writable() ==> final(self).connected_means_writable(),
            event matches GattcEvent::ClientRegistered { status_ok, app_id } ==> status_ok ==> if app_id
                == APP_ID {
                &&& *final(self) == (ClientState { gattc_if: Some(gattc_if), ..*old(self) })
                &&& res == Ok::<GattcAction, BtFailure>(
                    if old(self).connected {
                        GattcAction::Nothing
                    } else {
                        GattcAction::SetScanParams
                    },
                )
            } else {
                *final(self) == *old(self) && res == Ok::<GattcAction, BtFailure>(GattcAction::Nothing)
            },
            event matches GattcEvent::Connected { conn_id, addr } ==> {
                &&& final(self).conn_id == Some(conn_id)
                &&& final(self).remote_addr == Some(addr)
                &&& *final(self) == (ClientState {
                    conn_id: Some(conn_id),
                    remote_addr: Some(addr),
                    ..*old(self)
                })
                &&& res == Ok::<GattcAction, BtFailure>(GattcAction::RequestMtu { conn_id })
            },
            event matches GattcEvent::DiscoveryCompleted { status_ok, conn_id } ==> status_ok ==> {
                &&& *final(self) == *old(self)
                &&& res == Ok::<GattcAction, BtFailure>(GattcAction::SearchService { conn_id })
            },
            event matches GattcEvent::SearchResult { start_handle, end_handle, service } ==> {
                &&& res == Ok::<GattcAction, BtFailure>(GattcAction::Nothing)
                &&& *final(self) == if service == Uuid::U128(SERVICE_UUID) {
                    ClientState {
                        service_start_end_handle: Some((start_handle, end_handle)),
                        ..*old(self)
                    }
                } else {
                    *old(self)
                }
            },
            event matches GattcEvent::SearchComplete { status_ok, conn_id } ==> status_ok ==> {
                &&& *final(self) == *old(self)
                &&& res == Ok::<GattcAction, BtFailure>(
                    match old(self).service_start_end_handle {
                        Some((start_handle, end_handle)) => GattcAction::DiscoverCharacteristics {
                            conn_id,
                            start_handle,
                            end_handle,
                        },
                        None => GattcAction::Nothing,
                    },
                )
            },
            event matches GattcEvent::RegisterNotify { status_ok, handle } ==> status_ok ==> {
                &&& *final(self) == *old(self)
                &&& res == Ok::<GattcAction, BtFailure>(
                    match old(self).conn_id {
                        Some(conn_id) => GattcAction::DiscoverNotifyDescriptor { conn_id, handle },
                        None => GattcAction::Nothing,
                    },
                )
            },
            event matches GattcEvent::Notify { handle } ==> {
                &&& *final(self) == *old(self)
                &&& res == Ok::<GattcAction, BtFailure>(
                    if old(self).ind_char_handle == Some(handle) {
                        GattcAction::ForwardNotification
                    } else {
                        GattcAction::Nothing
                    },
                )
            },
            event is Disconnected ==> {
                &&& res == Ok::<GattcAction, BtFailure>(GattcAction::Nothing)
                &&& final(self).status == ConnectionStatus::Disconnected
                &&& !final(self).connected
                &&& final(self).conn_id is None
                &&& final(self).remote_addr is None
                &&& final(self).service_start_end_handle is None
                &&& final(self).ind_char_handle is None
                &&& final(self).ind_descr_handle is None
                &&& final(self).write_char_handle is None
                &&& final(self).gattc_if == old(self).gattc_if
            },
            event matches GattcEvent::Other { status } ==> status != Some(false) ==> {
                &&& *final(self) == *old(self)
                &&& res == Ok::<GattcAction, BtFailure>(GattcAction::Nothing)
            },
    {
        if let Some(ok) = status_from_gattc_event(&event) {
            if !ok {
                self.status = ConnectionStatus::Error;
                return Err(BtFailure);
            }
        }
        match event {
            GattcEvent::ClientRegistered { app_id, .. } => {
                if app_id == APP_ID {
                    self.gattc_if = Some(gattc_if);
                    if self.should_scan() {
                        Ok(GattcAction::SetScanParams)
                    } else {
                        Ok(GattcAction::Nothing)
                    }
                } else {
                    Ok(GattcAction::Nothing)
                }
            },
            GattcEvent::Connected { conn_id, addr } => {
                self.conn_id = Some(conn_id);
                self.remote_addr = Some(addr);
                Ok(GattcAction::RequestMtu { conn_id })
            },
            GattcEvent::DiscoveryCompleted { conn_id, .. } => {
                Ok(GattcAction::SearchService { conn_id })
            },
            GattcEvent::SearchResult { start_handle, end_handle, service } => {
                if service == Uuid::U128(SERVICE_UUID) {
                    self.service_start_end_handle = Some((start_handle, end_handle));
                }
                Ok(GattcAction::Nothing)
            },
            GattcEvent::SearchComplete { conn_id, .. } => {
                match self.service_start_end_handle {
                    Some((start_handle, end_handle)) => {
                        Ok(GattcAction::DiscoverCharacteristics { conn_id, start_handle, end_handle })
                    },
                    None => Ok(GattcAction::Nothing),
                }
            },
            GattcEvent::RegisterNotify { handle, .. } => {
                match self.conn_id {
                    Some(conn_id) => Ok(GattcAction::DiscoverNotifyDescriptor { conn_id, handle }),
                    None => Ok(GattcAction::Nothing),
                }
            },
            GattcEvent::Notify { handle } => {
                if self.should_forward_notification(handle) {
                    Ok(GattcAction::ForwardNotification)
                } else {
                    Ok(GattcAction::Nothing)
                }
            },
            GattcEvent::Disconnected => {
                self.connected = false;
                self.remote_addr = None;
                self.conn_id = None;
                self.service_start_end_handle = None;
                self.ind_char_handle = None;
                self.ind_descr_handle = None;
                self.write_char_handle = None;
                self.status = ConnectionStatus::Disconnected;
                Ok(GattcAction::Nothing)
            },
            GattcEvent::Other { .. } => Ok(GattcAction::Nothing),
        }
    }

    /// Takes the result of looking up the notify characteristic: when the
    /// lookup succeeded, the characteristic has the Notify property and the
    /// server's address is known, its handle is recorded and notifications
    /// are registered for (the address and handle are returned).
    pub fn on_notify_characteristic(
        &mut self,
        lookup: Result<CharacteristicInfo, BtFailure>,
    ) -> (register: Option<([u8; 6], u16)>)
        ensures
            (lookup matches Ok(c) && c.notify && old(self).remote_addr is Some) ==> {
                &&& register == Some((old(self).remote_addr.unwrap(), lookup->Ok_0.handle))
                &&& *final(self) == (ClientState {
                    ind_char_handle: Some(lookup->Ok_0.handle),
                    ..*old(self)
                })
            },
            !(lookup matches Ok(c) && c.notify && old(self).remote_addr is Some) ==> {
                &&& register is None
                &&& *final(self) == *old(self)
            },
            *final(self) == old(self).step(ClientInput::NotifyCharacteristic(lookup)),
            old(self).connected_means_writable() ==> final(self).connected_means_writable(),
    {
        match lookup {
            Ok(c) => {
                if c.notify {
                    match self.remote_addr {
                        Some(addr) => {
                            self.ind_char_handle = Some(c.handle);
                            Some((addr, c.handle))
                        },
                        None => None,
                    }
                } else {
                    None
                }
            },
            Err(_) => None,
        }
    }

    /// Takes the result of looking up the recv characteristic (the number
    /// found and the first one): when at least one was found and it has the
    /// Write property, its handle is recorded and the remote is connected.
    pub fn on_write_characteristic(&mut self, lookup: Result<(usize, CharacteristicInfo), BtFailure>)
        ensures
            (lookup matches Ok((n, c)) && n > 0 && c.write) ==> *final(self) == (ClientState {
                write_char_handle: Some(lookup->Ok_0.1.handle),
                status: ConnectionStatus::Connected,
                ..*old(self)
            }),
            !(lookup matches Ok((n, c)) && n > 0 && c.write) ==> *final(self) == *old(self),
            *final(self) == old(self).step(ClientInput::WriteCharacteristic(lookup)),
            old(self).connected_means_writable() ==> final(self).connected_means_writable(),
    {
        if let Ok((n, c)) = lookup {
            if n > 0 && c.write {
                self.write_char_handle = Some(c.handle);
                self.status = ConnectionStatus::Connected;
            }
        }
    }

    /// Takes the result of looking up the configuration descriptor of the
    /// notify characteristic (the number found and the first one): when at
    /// least one was found and it is the configuration descriptor, its
    /// handle is recorded and returned, to enable notifications through it
    /// (writing [`ENABLE_NOTIFICATIONS`]).
    pub fn on_notify_descriptor(&mut self, lookup: Result<(usize, DescriptorInfo), BtFailure>) -> (enable: Option<u16>)
        ensures
            (lookup matches Ok((n, d)) && n > 0 && d.uuid == Uuid::U16(NOTIFY_DESCRIPTOR_UUID)) ==> {
                &&& enable == Some(lookup->Ok_0.1.handle)
                &&& *final(self) == (ClientState {
                    ind_descr_handle: Some(lookup->Ok_0.1.handle),
                    ..*old(self)
                })
            },
            !(lookup matches Ok((n, d)) && n > 0 && d.uuid == Uuid::U16(NOTIFY_DESCRIPTOR_UUID)) ==> {
                &&& enable is None
                &&& *final(self) == *old(self)
            },
            *final(self) == old(self).step(ClientInput::NotifyDescriptor(lookup)),
            old(self).connected_means_writable() ==> final(self).connected_means_writable(),
    {
        match lookup {
            Ok((n, d)) => {
                if n > 0 && d.uuid == Uuid::U16(NOTIFY_DESCRIPTOR_UUID) {
                    self.ind_descr_handle = Some(d.handle);
                    Some(d.handle)
                } else {
                    None
                }
            },
            Err(_) => None,
        }
    }
    /// The state after a GAP event (see [`ClientState::on_gap_event`]).
    pub open spec fn gap_next(self, event: GapEvent) -> ClientState {
        match event {
            GapEvent::ScanParameterConfigured { success } => if success {
                self
            } else {
                self.with_status(ConnectionStatus::Error)
            },
            GapEvent::ScanStarted { success } => if success {
                self.with_status(ConnectionStatus::Scanning)
            } else {
                self.with_status(ConnectionStatus::Error)
            },
            GapEvent::InquiryComplete => if self.connected {
                self
            } else {
                self.with_status(ConnectionStatus::ScanFailed)
            },
            GapEvent::InquiryResult { name } => if name matches Some(n) && n@ == server_name()
                && !self.connected {
                ClientState { connected: true, ..self }
            } else {
                self
            },
            GapEvent::ScanStopped { success } => if success {
                self
            } else {
                self.with_status(ConnectionStatus::Error)
            },
            GapEvent::Other => self,
        }
    }

    /// The state after one input, as the handler of that input leaves it.
    pub open spec fn step(self, input: ClientInput) -> ClientState {
        match input {
            ClientInput::Gap(event) => self.gap_next(event),
            ClientInput::Gattc { gattc_if, event } => if event_status(event) == Some(false) {
                self.with_status(ConnectionStatus::Error)
            } else {
                self.gattc_outcome(gattc_if, event).0
            },
            ClientInput::NotifyCharacteristic(lookup) => if lookup matches Ok(c) && c.notify
                && self.remote_addr is Some {
                ClientState { ind_char_handle: Some(lookup->Ok_0.handle), ..self }
            } else {
                self
            },
            ClientInput::WriteCharacteristic(lookup) => if finds_writable(lookup) {
                ClientState {
                    write_char_handle: Some(lookup->Ok_0.1.handle),
                    status: ConnectionStatus::Connected,
                    ..self
                }
            } else {
                self
            },
            ClientInput::NotifyDescriptor(lookup) => if lookup matches Ok((n, d)) && n > 0
                && d.uuid == Uuid::U16(NOTIFY_DESCRIPTOR_UUID) {
                ClientState { ind_descr_handle: Some(lookup->Ok_0.1.handle), ..self }
            } else {
                self
            },
        }
    }

    /// The state after the inputs `inputs`, in order.
    pub open spec fn run(self, inputs: Seq<ClientInput>) -> ClientState
        decreases inputs.len(),
    {
        if inputs.len() == 0 {
            self
        } else {
            self.step(inputs[0]).run(inputs.drop_first())
        }
    }

    /// The status says "connected" only when a write can go out: the
    /// interface, the connection and the write characteristic are known.
    pub open spec fn connected_means_usable(self) -> bool {
        self.status == ConnectionStatus::Connected ==> {
            &&& self.gattc_if is Some
            &&& self.conn_id is Some
            &&& self.write_char_handle is Some
        }
    }
}

/// One thing that the remote's connection logic is told: an event of either
/// Bluetooth layer, or the result of a lookup made during discovery.
pub enum ClientInput {
    Gap(GapEvent),
    Gattc { gattc_if: u8, event: GattcEvent },
    NotifyCharacteristic(Result<CharacteristicInfo, BtFailure>),
    WriteCharacteristic(Result<(usize, CharacteristicInfo), BtFailure>),
    NotifyDescriptor(Result<(usize, DescriptorInfo), BtFailure>),
}

/// A lookup of the recv characteristic that found a writable one.
pub open spec fn finds_writable(lookup: Result<(usize, CharacteristicInfo), BtFailure>) -> bool {
    lookup matches Ok((n, c)) && n > 0 && c.write
}

/// A sighting of the bench server, which opens a connection when none has
/// been started.
pub open spec fn sights_server(input: ClientInput) -> bool {
    input matches ClientInput::Gap(GapEvent::InquiryResult { name: Some(n) }) && n@ == server_name()
}

/// A lookup of the recv characteristic that found a writable one.
pub open spec fn writable_found(input: ClientInput) -> bool {
    input matches ClientInput::WriteCharacteristic(lookup) && finds_writable(lookup)
}

/// A lookup of the notify characteristic that found one with the Notify
/// property.
pub open spec fn notifier_found(input: ClientInput) -> bool {
    input matches ClientInput::NotifyCharacteristic(Ok(c)) && c.notify
}

/// Discovery results come while the interface and the connection are known,
/// as they do when events arrive in Bluetooth order (registration and
/// connection before the service search that starts the discovery).
pub open spec fn lookups_on_known_connection(s: ClientState, inputs: Seq<ClientInput>) -> bool
    decreases inputs.len(),
{
    if inputs.len() == 0 {
        true
    } else {
        &&& (inputs[0] is WriteCharacteristic ==> s.gattc_if is Some && s.conn_id is Some)
        &&& lookups_on_known_connection(s.step(inputs[0]), inputs.drop_first())
    }
}

proof fn lemma_drop_first_keeps<A>(inputs: Seq<A>, p: spec_fn(A) -> bool)
    requires
        inputs.len() > 0,
        forall|i: int| 0 <= i < inputs.len() ==> !p(#[trigger] inputs[i]),
    ensures
        !p(inputs[0]),
        forall|i: int| 0 <= i < inputs.drop_first().len() ==> !p(#[trigger] inputs.drop_first()[i]),
{
    assert forall|i: int| 0 <= i < inputs.drop_first().len() implies !p(
        #[trigger] inputs.drop_first()[i],
    ) by {
        assert(inputs.drop_first()[i] == inputs[i + 1]);
    }
}

/// Without a sighting of the server, no connection is started: a remote
/// with none started keeps scanning when asked to connect.
pub proof fn lemma_no_connection_without_sighting(s: ClientState, inputs: Seq<ClientInput>)
    requires
        !s.connected,
        forall|i: int| 0 <= i < inputs.len() ==> !sights_server(#[trigger] inputs[i]),
    ensures
        !s.run(inputs).connected,
    decreases inputs.len(),
{
    if inputs.len() > 0 {
        lemma_drop_first_keeps(inputs, |x: ClientInput| sights_server(x));
        lemma_no_connection_without_sighting(s.step(inputs[0]), inputs.drop_first());
    }
}

/// Without a lookup that finds a writable recv characteristic, no write
/// characteristic becomes known, so nothing is written.
pub proof fn lemma_no_write_target_without_lookup(s: ClientState, inputs: Seq<ClientInput>)
    requires
        s.write_char_handle is None,
        forall|i: int| 0 <= i < inputs.len() ==> !writable_found(#[trigger] inputs[i]),
    ensures
        s.run(inputs).write_char_handle is None,
    decreases inputs.len(),
{
    if inputs.len() > 0 {
        lemma_drop_first_keeps(inputs, |x: ClientInput| writable_found(x));
        lemma_no_write_target_without_lookup(s.step(inputs[0]), inputs.drop_first());
    }
}

/// Without a lookup that finds the notify characteristic, no notify
/// characteristic becomes known, so no notification is handed on.
pub proof fn lemma_no_forwarding_without_lookup(s: ClientState, inputs: Seq<ClientInput>)
    requires
        s.ind_char_handle is None,
        forall|i: int| 0 <= i < inputs.len() ==> !notifier_found(#[trigger] inputs[i]),
    ensures
        s.run(inputs).ind_char_handle is None,
    decreases inputs.len(),
{
    if inputs.len() > 0 {
        lemma_drop_first_keeps(inputs, |x: ClientInput| notifier_found(x));
        lemma_no_forwarding_without_lookup(s.step(inputs[0]), inputs.drop_first());
    }
}

/// Without a lookup that finds a writable recv characteristic, a remote
/// that is not connected does not become connected.
pub proof fn lemma_connected_only_after_lookup(s: ClientState, inputs: Seq<ClientInput>)
    requires
        s.status != ConnectionStatus::Connected,
        forall|i: int| 0 <= i < inputs.len() ==> !writable_found(#[trigger] inputs[i]),
    ensures
        s.run(inputs).status != ConnectionStatus::Connected,
    decreases inputs.len(),
{
    if inputs.len() > 0 {
        lemma_drop_first_keeps(inputs, |x: ClientInput| writable_found(x));
        lemma_connected_only_after_lookup(s.step(inputs[0]), inputs.drop_first());
    }
}

/// After a disconnection the status is "disconnected"; from then on, until
/// the server is sighted again, connecting starts a scan; until a lookup
/// finds a writable recv characteristic, there is nowhere to write and the
/// remote is not connected; until a lookup finds the notify characteristic,
/// no notification is handed on.
pub proof fn lemma_after_disconnect(s: ClientState, gattc_if: u8, inputs: Seq<ClientInput>)
    ensures
        s.step(ClientInput::Gattc { gattc_if, event: GattcEvent::Disconnected }).status
            == ConnectionStatus::Disconnected,
        (forall|i: int| 0 <= i < inputs.len() ==> !sights_server(#[trigger] inputs[i])) ==> !s.step(
            ClientInput::Gattc { gattc_if, event: GattcEvent::Disconnected },
        ).run(inputs).connected,
        (forall|i: int| 0 <= i < inputs.len() ==> !writable_found(#[trigger] inputs[i])) ==> {
            let t = s.step(ClientInput::Gattc { gattc_if, event: GattcEvent::Disconnected }).run(
                inputs,
            );
            &&& t.write_char_handle is None
            &&& t.status != ConnectionStatus::Connected
        },
        (forall|i: int| 0 <= i < inputs.len() ==> !notifier_found(#[trigger] inputs[i])) ==> s.step(
            ClientInput::Gattc { gattc_if, event: GattcEvent::Disconnected },
        ).run(inputs).ind_char_handle is None,
{
    let d = s.step(ClientInput::Gattc { gattc_if, event: GattcEvent::Disconnected });
    if forall|i: int| 0 <= i < inputs.len() ==> !sights_server(#[trigger] inputs[i]) {
        lemma_no_connection_without_sighting(d, inputs);
    }
    if forall|i: int| 0 <= i < inputs.len() ==> !writable_found(#[trigger] inputs[i]) {
        lemma_no_write_target_without_lookup(d, inputs);
        lemma_connected_only_after_lookup(d, inputs);
    }
    if forall|i: int| 0 <= i < inputs.len() ==> !notifier_found(#[trigger] inputs[i]) {
        lemma_no_forwarding_without_lookup(d, inputs);
    }
}

/// When discovery results come while the connection is known (Bluetooth
/// order), a connected remote always has somewhere to write: interface,
/// connection and write characteristic are all known.
pub proof fn lemma_connected_means_usable(s: ClientState, inputs: Seq<ClientInput>)
    requires
        s.connected_means_usable(),
        lookups_on_known_connection(s, inputs),
    ensures
        s.run(inputs).connected_means_usable(),
    decreases inputs.len(),
{
    if inputs.len() > 0 {
        lemma_connected_means_usable(s.step(inputs[0]), inputs.drop_first());
    }
}

/// A connection event records the connection id and the server's address,
/// whatever they are, and changes nothing else.
pub proof fn lemma_connected_event_records_connection(
    s: ClientState,
    gattc_if: u8,
    conn_id: u16,
    addr: [u8; 6],
)
    ensures
        s.step(ClientInput::Gattc { gattc_if, event: GattcEvent::Connected { conn_id, addr } }).conn_id
            == Some(conn_id),
        s.step(
            ClientInput::Gattc { gattc_if, event: GattcEvent::Connected { conn_id, addr } },
        ).remote_addr == Some(addr),
        s.step(ClientInput::Gattc { gattc_if, event: GattcEvent::Connected { conn_id, addr } })
            == (ClientState { conn_id: Some(conn_id), remote_addr: Some(addr), ..s }),
{
}

/// Once registration and a connection have been seen, in that order, and a
/// writable recv characteristic has been found, the remote is connected and
/// its writes go to that interface, connection and characteristic.
pub proof fn lemma_registration_connection_lookup(
    s: ClientState,
    gattc_if: u8,
    conn_id: u16,
    addr: [u8; 6],
    c: CharacteristicInfo,
    n: usize,
)
    requires
        n > 0,
        c.write,
    ensures
        ({
            let t = s.step(
                ClientInput::Gattc {
                    gattc_if,
                    event: GattcEvent::ClientRegistered { status_ok: true, app_id: APP_ID },
                },
            ).step(ClientInput::Gattc { gattc_if, event: GattcEvent::Connected { conn_id, addr } }).step(
                ClientInput::WriteCharacteristic(Ok((n, c))),
            );
            &&& t.status == ConnectionStatus::Connected
            &&& t.gattc_if == Some(gattc_if)
            &&& t.conn_id == Some(conn_id)
            &&& t.write_char_handle == Some(c.handle)
        }),
{
}

} // verus!
