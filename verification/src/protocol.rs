//! The wire messages exchanged between the remote and the bench server.

use vstd::prelude::*;

verus! {

/// Number of relays that a [`RelayState`] byte can describe.
pub const RELAY_COUNT: u8 = 8;

/// Whether bit `i` (counted from the least significant one) of `b` is set.
pub open spec fn bit_set(b: u8, i: u8) -> bool {
    (b >> i) & 1u8 == 1u8
}

/// The relay states that a byte encodes: entry `i` is bit `i`.
pub open spec fn relays_of_byte(b: u8) -> Seq<bool> {
    Seq::new(8, |i: int| bit_set(b, i as u8))
}

/// State of the relays, sent by the server to connected clients.
///
/// Serializes to a single byte where bit N corresponds to relay N:
/// `1` = on, `0` = off.
#[derive(Clone, Copy, Debug, PartialEq, Eq, Structural)]
pub struct RelayState(u8);

impl RelayState {
    /// The byte that carries this state on the wire.
    pub closed spec fn byte(self) -> u8 {
        self.0
    }

    /// The state that byte `b` describes.
    pub closed spec fn from_byte(b: u8) -> RelayState {
        RelayState(b)
    }

    /// The wire form of a state: its byte alone.
    pub open spec fn spec_to_bytes(self) -> Seq<u8> {
        seq![self.byte()]
    }

    /// The state that a message describes: the one its first byte gives,
    /// none for an empty message.
    pub open spec fn spec_from_bytes(bytes: Seq<u8>) -> Option<RelayState> {
        if bytes.len() == 0 {
            None
        } else {
            Some(RelayState::from_byte(bytes[0]))
        }
    }
}

/// A state is the state of its own byte, and a byte is the byte of its own
/// state.
pub broadcast proof fn lemma_byte_from_byte(s: RelayState, b: u8)
    ensures
        #[trigger] RelayState::from_byte(s.byte()) == s,
        #[trigger] RelayState::from_byte(b).byte() == b,
{
}

impl View for RelayState {
    /// Relay `i` is on exactly when `self@[i]` holds.
    type V = Seq<bool>;

    open spec fn view(&self) -> Seq<bool> {
        relays_of_byte(self.byte())
    }
}

proof fn lemma_bits_determine_byte(a: u8, b: u8)
    requires
        forall|i: u8| i < 8 ==> bit_set(a, i) == bit_set(b, i),
    ensures
        a == b,
{
    assert(bit_set(a, 0) == bit_set(b, 0));
    assert(bit_set(a, 1) == bit_set(b, 1));
    assert(bit_set(a, 2) == bit_set(b, 2));
    assert(bit_set(a, 3) == bit_set(b, 3));
    assert(bit_set(a, 4) == bit_set(b, 4));
    assert(bit_set(a, 5) == bit_set(b, 5));
    assert(bit_set(a, 6) == bit_set(b, 6));
    assert(bit_set(a, 7) == bit_set(b, 7));
    assert(a == b) by (bit_vector)
        requires
            (a >> 0u8) & 1u8 == 1u8 <==> (b >> 0u8) & 1u8 == 1u8,
            (a >> 1u8) & 1u8 == 1u8 <==> (b >> 1u8) & 1u8 == 1u8,
            (a >> 2u8) & 1u8 == 1u8 <==> (b >> 2u8) & 1u8 == 1u8,
            (a >> 3u8) & 1u8 == 1u8 <==> (b >> 3u8) & 1u8 == 1u8,
            (a >> 4u8) & 1u8 == 1u8 <==> (b >> 4u8) & 1u8 == 1u8,
            (a >> 5u8) & 1u8 == 1u8 <==> (b >> 5u8) & 1u8 == 1u8,
            (a >> 6u8) & 1u8 == 1u8 <==> (b >> 6u8) & 1u8 == 1u8,
            (a >> 7u8) & 1u8 == 1u8 <==> (b >> 7u8) & 1u8 == 1u8,
    ;
}

/// Two relay states that switch the same relays are the same state.
pub proof fn lemma_view_injective(a: RelayState, b: RelayState)
    requires
        a@ == b@,
    ensures
        a == b,
{
    assert forall|i: u8| i < 8 implies bit_set(a.byte(), i) == bit_set(b.byte(), i) by {
        assert((i as int) as u8 == i);
        assert(a@[i as int] == bit_set(a.byte(), i));
        assert(b@[i as int] == bit_set(b.byte(), i));
        assert(a@[i as int] == b@[i as int]);
    }
    lemma_bits_determine_byte(a.byte(), b.byte());
}

proof fn lemma_set_bit(b: u8, r: u8, i: u8)
    requires
        r < 8,
        i < 8,
    ensures
        bit_set(b | (1u8 << r), i) == (i == r || bit_set(b, i)),
        bit_set(b & !(1u8 << r), i) == (i != r && bit_set(b, i)),
        bit_set(b ^ (1u8 << r), i) == (if i == r { !bit_set(b, i) } else { bit_set(b, i) }),
{
    assert(((b | (1u8 << r)) >> i) & 1u8 == 1u8 <==> (i == r || (b >> i) & 1u8 == 1u8))
        by (bit_vector)
        requires
            r < 8,
            i < 8,
    ;
    assert(((b & !(1u8 << r)) >> i) & 1u8 == 1u8 <==> (i != r && (b >> i) & 1u8 == 1u8))
        by (bit_vector)
        requires
            r < 8,
            i < 8,
    ;
    assert(((b ^ (1u8 << r)) >> i) & 1u8 == 1u8 <==> (if i == r {
        !((b >> i) & 1u8 == 1u8)
    } else {
        (b >> i) & 1u8 == 1u8
    })) by (bit_vector)
        requires
            r < 8,
            i < 8,
    ;
}

impl RelayState {
    /// Whether relay `relay` is on.
    pub fn is_on(self, relay: u8) -> (on: bool)
        requires
            relay < RELAY_COUNT,
        ensures
            on == self@[relay as int],
    {
        let b = self.0;
        proof {
            assert(((b >> relay) & 1u8 != 0u8) == ((b >> relay) & 1u8 == 1u8)) by (bit_vector);
        }
        (b >> relay) & 1 != 0
    }

    /// The same state with relay `relay` switched on or off.
    pub fn set(self, relay: u8, on: bool) -> (res: Self)
        requires
            relay < RELAY_COUNT,
        ensures
            res@ == self@.update(relay as int, on),
    {
        let res = if on {
            Self(self.0 | (1 << relay))
        } else {
            Self(self.0 & !(1 << relay))
        };
        proof {
            assert forall|i: int| 0 <= i < 8 implies res@[i] == self@.update(relay as int, on)[i] by {
                lemma_set_bit(self.0, relay, i as u8);
            }
            assert(res@ =~= self@.update(relay as int, on));
        }
        res
    }

    /// The same state with relay `relay` flipped.
    pub fn toggle(self, relay: u8) -> (res: Self)
        requires
            relay < RELAY_COUNT,
        ensures
            res@ == self@.update(relay as int, !self@[relay as int]),
    {
        let res = Self(self.0 ^ (1 << relay));
        proof {
            assert forall|i: int| 0 <= i < 8 implies res@[i] == self@.update(
                relay as int,
                !self@[relay as int],
            )[i] by {
                lemma_set_bit(self.0, relay, i as u8);
            }
            assert(res@ =~= self@.update(relay as int, !self@[relay as int]));
        }
        res
    }

    /// The one-byte wire form of this state.
    pub fn to_bytes(self) -> (bytes: [u8; 1])
        ensures
            bytes@ == self.spec_to_bytes(),
            forall|i: u8| i < 8 ==> bit_set(#[trigger] bytes@[0], i) == self@[i as int],
    {
        proof {
            lemma_relay_state_wire_bits(self);
        }
        [self.0]
    }

    /// Reads a state from the first byte of `bytes`; `None` when `bytes` is
    /// empty. Bytes after the first are ignored.
    pub fn from_bytes(bytes: &[u8]) -> (res: Option<Self>)
        ensures
            res == Self::spec_from_bytes(bytes@),
            bytes@.len() == 0 ==> res is None,
            bytes@.len() > 0 ==> (res matches Some(st) && forall|i: u8|
                i < 8 ==> st@[i as int] == bit_set(#[trigger] bytes@[0], i)),
    {
        proof {
            lemma_relay_state_read_bits(bytes@);
        }
        if bytes.len() == 0 {
            None
        } else {
            Some(Self(bytes[0]))
        }
    }
}

/// The wire form of a state is one byte whose bit `i` says whether relay
/// `i` is on.
pub proof fn lemma_relay_state_wire_bits(s: RelayState)
    ensures
        s.spec_to_bytes().len() == 1,
        forall|i: u8| i < 8 ==> bit_set(#[trigger] s.spec_to_bytes()[0], i) == s@[i as int],
{
    assert forall|i: u8| i < 8 implies bit_set(#[trigger] s.spec_to_bytes()[0], i) == s@[i as int] by {
        assert((i as int) as u8 == i);
    }
}

/// A non-empty message describes the state whose relay `i` is on exactly
/// when bit `i` of its first byte is set; an empty one describes none.
pub proof fn lemma_relay_state_read_bits(bytes: Seq<u8>)
    ensures
        bytes.len() == 0 ==> RelayState::spec_from_bytes(bytes) is None,
        bytes.len() > 0 ==> (RelayState::spec_from_bytes(bytes) matches Some(st) && forall|i: u8|
            i < 8 ==> st@[i as int] == bit_set(#[trigger] bytes[0], i)),
{
    if bytes.len() > 0 {
        let st = RelayState::spec_from_bytes(bytes).unwrap();
        assert forall|i: u8| i < 8 implies st@[i as int] == bit_set(#[trigger] bytes[0], i) by {
            assert((i as int) as u8 == i);
        }
    }
}

impl Default for RelayState {
    /// All relays off.
    fn default() -> (s: Self)
        ensures
            s.byte() == 0,
            s@ == Seq::new(8, |i: int| false),
    {
        let s = Self(0);
        proof {
            assert forall|i: int| 0 <= i < 8 implies !s@[i] by {
                let k = i as u8;
                assert((0u8 >> k) & 1u8 == 0u8) by (bit_vector);
            }
            assert(s@ =~= Seq::new(8, |i: int| false));
        }
        s
    }
}

impl From<RelayState> for [u8; 1] {
    fn from(state: RelayState) -> (bytes: [u8; 1])
        ensures
            bytes@ == state.spec_to_bytes(),
            forall|i: u8| i < 8 ==> bit_set(#[trigger] bytes@[0], i) == state@[i as int],
    {
        proof {
            lemma_relay_state_wire_bits(state);
        }
        [state.0]
    }
}

impl vstd::std_specs::convert::FromSpecImpl<RelayState> for [u8; 1] {
    open spec fn obeys_from_spec() -> bool {
        true
    }

    open spec fn from_spec(state: RelayState) -> [u8; 1] {
        [state.byte()]
    }
}

/// Converting a relay state into a byte array gives its wire form: one byte
/// whose bit `i` says whether relay `i` is on.
pub proof fn lemma_relay_state_into_array(s: RelayState)
    ensures
        <[u8; 1] as vstd::std_specs::convert::FromSpec<RelayState>>::from_spec(s)@
            == s.spec_to_bytes(),
        forall|i: u8|
            i < 8 ==> bit_set(
                #[trigger] <[u8; 1] as vstd::std_specs::convert::FromSpec<RelayState>>::from_spec(
                    s,
                )@[0],
                i,
            ) == s@[i as int],
{
    lemma_relay_state_wire_bits(s);
    assert(<[u8; 1] as vstd::std_specs::convert::FromSpec<RelayState>>::from_spec(s)@
        =~= s.spec_to_bytes());
}

/// Reading back the bytes that a relay state was written as gives that
/// state again.
pub proof fn lemma_relay_state_round_trip(s: RelayState)
    ensures
        RelayState::spec_from_bytes(s.spec_to_bytes()) == Some(s),
{
}

/// Writing the state read from a non-empty message gives back the message's
/// first byte.
pub proof fn lemma_relay_state_bytes_round_trip(bytes: Seq<u8>)
    requires
        bytes.len() > 0,
    ensures
        RelayState::spec_from_bytes(bytes) matches Some(s) && s.spec_to_bytes() == bytes.take(1),
{
    assert(bytes.take(1) =~= seq![bytes[0]]);
}

/// Flipping the same relay twice restores the state.
pub proof fn lemma_toggle_twice(s: RelayState, relay: u8, t: RelayState, u: RelayState)
    requires
        relay < RELAY_COUNT,
        t@ == s@.update(relay as int, !s@[relay as int]),
        u@ == t@.update(relay as int, !t@[relay as int]),
    ensures
        u == s,
{
    assert(u@ =~= s@);
    lemma_view_injective(u, s);
}

/// A button press event sent from the remote to the server.
///
/// Each button corresponds directly to a relay; pressing it requests that the
/// server toggle that relay.  Serializes to a single byte (the relay index).
#[derive(Clone, Copy, Debug, PartialEq, Eq, Structural)]
pub struct ButtonEvent {
    pub relay: u8,
}

impl ButtonEvent {
    /// The event that a message describes: its first byte as the relay
    /// index, when that byte names one of the relays.
    pub open spec fn spec_from_bytes(bytes: Seq<u8>) -> Option<ButtonEvent> {
        if bytes.len() > 0 && bytes[0] < RELAY_COUNT {
            Some(ButtonEvent { relay: bytes[0] })
        } else {
            None
        }
    }

    /// The one-byte wire form: the relay index.
    pub fn to_bytes(self) -> (bytes: [u8; 1])
        ensures
            bytes@ == seq![self.relay],
    {
        [self.relay]
    }

    /// Reads an event from the first byte of `bytes`; `None` when `bytes` is
    /// empty or its first byte is not a relay index (0–7).
    pub fn from_bytes(bytes: &[u8]) -> (res: Option<Self>)
        ensures
            res == Self::spec_from_bytes(bytes@),
            bytes@.len() > 0 && bytes@[0] < 8 ==> res == Some(ButtonEvent { relay: bytes@[0] }),
            !(bytes@.len() > 0 && bytes@[0] < 8) ==> res is None,
    {
        if bytes.len() > 0 && bytes[0] < RELAY_COUNT {
            Some(Self { relay: bytes[0] })
        } else {
            None
        }
    }
}

impl From<ButtonEvent> for [u8; 1] {
    fn from(event: ButtonEvent) -> (bytes: [u8; 1])
        ensures
            bytes@ == seq![event.relay],
    {
        [event.relay]
    }
}

impl vstd::std_specs::convert::FromSpecImpl<ButtonEvent> for [u8; 1] {
    open spec fn obeys_from_spec() -> bool {
        true
    }

    open spec fn from_spec(event: ButtonEvent) -> [u8; 1] {
        [event.relay]
    }
}

/// A button event for one of the relays reads back as itself.
pub proof fn lemma_button_event_round_trip(e: ButtonEvent)
    requires
        e.relay < RELAY_COUNT,
    ensures
        ButtonEvent::spec_from_bytes(seq![e.relay]) == Some(e),
{
}

/// A joystick axis value sent from the remote to the server.
///
/// Serializes to a signed byte in the range -127..=127.
#[derive(Clone, Copy, Debug, PartialEq, Eq, Structural)]
pub struct JoystickEvent {
    pub value: i8,
}

/// A tagged client→server message that multiplexes over the recv
/// characteristic.
///
/// Wire format: `[tag, payload]`
///   - `[0x01, relay]`  — button press (relay index 0–7)
///   - `[0x02, value]`  — joystick axis (i8 as its two's-complement byte)
#[derive(Clone, Copy, Debug, PartialEq, Eq, Structural)]
pub enum ClientEvent {
    Button(ButtonEvent),
    Joystick(JoystickEvent),
}

/// Tag byte of a button message.
pub const BUTTON_TAG: u8 = 0x01;

/// Tag byte of a joystick message.
pub const JOYSTICK_TAG: u8 = 0x02;

/// The two's-complement byte of `v`.
pub open spec fn i8_to_byte(v: i8) -> u8 {
    if v >= 0 {
        v as u8
    } else {
        (v + 256) as u8
    }
}

/// The signed value whose two's-complement byte is `b`.
pub open spec fn byte_to_i8(b: u8) -> i8 {
    if b < 128 {
        b as i8
    } else {
        (b - 256) as i8
    }
}

fn i8_as_byte(v: i8) -> (b: u8)
    ensures
        b == i8_to_byte(v),
{
    if v >= 0 {
        v as u8
    } else {
        (v as i16 + 256) as u8
    }
}

fn byte_as_i8(b: u8) -> (v: i8)
    ensures
        v == byte_to_i8(b),
{
    if b < 128 {
        b as i8
    } else {
        (b as i16 - 256) as i8
    }
}

impl ClientEvent {
    /// The two-byte wire form of an event.
    pub open spec fn spec_to_bytes(self) -> Seq<u8> {
        match self {
            ClientEvent::Button(e) => seq![BUTTON_TAG, e.relay],
            ClientEvent::Joystick(e) => seq![JOYSTICK_TAG, i8_to_byte(e.value)],
        }
    }

    /// The event that a message describes, read from its first two bytes:
    /// a button tag with a relay index (0–7), or a joystick tag with any
    /// value byte. Anything else, and any message shorter than two bytes,
    /// describes none.
    pub open spec fn spec_from_bytes(bytes: Seq<u8>) -> Option<ClientEvent> {
        if bytes.len() < 2 {
            None
        } else if bytes[0] == BUTTON_TAG && bytes[1] < RELAY_COUNT {
            Some(ClientEvent::Button(ButtonEvent { relay: bytes[1] }))
        } else if bytes[0] == JOYSTICK_TAG {
            Some(ClientEvent::Joystick(JoystickEvent { value: byte_to_i8(bytes[1]) }))
        } else {
            None
        }
    }

    /// Whether the event can be sent: a button event must name a relay.
    pub open spec fn well_formed(self) -> bool {
        match self {
            ClientEvent::Button(e) => e.relay < RELAY_COUNT,
            ClientEvent::Joystick(_) => true,
        }
    }

    pub fn to_bytes(self) -> (bytes: [u8; 2])
        ensures
            bytes@ == self.spec_to_bytes(),
            self matches ClientEvent::Button(e) ==> bytes@ == seq![0x01u8, e.relay],
            self matches ClientEvent::Joystick(e) ==> {
                &&& bytes@.len() == 2
                &&& bytes@[0] == 0x02
                &&& e.value >= 0 ==> bytes@[1] == e.value
                &&& e.value < 0 ==> bytes@[1] == e.value + 256
            },
    {
        proof {
            lemma_client_event_wire_layout(self);
        }
        match self {
            ClientEvent::Button(e) => [BUTTON_TAG, e.relay],
            ClientEvent::Joystick(e) => [JOYSTICK_TAG, i8_as_byte(e.value)],
        }
    }

    pub fn from_bytes(bytes: &[u8]) -> (res: Option<Self>)
        ensures
            res == Self::spec_from_bytes(bytes@),
            res matches Some(e) ==> e.well_formed(),
            bytes@.len() < 2 ==> res is None,
            bytes@.len() >= 2 && bytes@[0] == 0x01 && bytes@[1] < 8 ==> res == Some(
                ClientEvent::Button(ButtonEvent { relay: bytes@[1] }),
            ),
            bytes@.len() >= 2 && bytes@[0] == 0x02 ==> (res matches Some(ClientEvent::Joystick(e))
                && (bytes@[1] < 128 ==> e.value == bytes@[1]) && (bytes@[1] >= 128 ==> e.value
                == bytes@[1] - 256)),
            bytes@.len() >= 2 && !(bytes@[0] == 0x01 && bytes@[1] < 8) && bytes@[0] != 0x02 ==> res is None,
    {
        proof {
            lemma_client_event_parse_layout(bytes@);
        }
        if bytes.len() < 2 {
            return None;
        }
        let tag = bytes[0];
        let payload = bytes[1];
        if tag == BUTTON_TAG && payload < RELAY_COUNT {
            Some(ClientEvent::Button(ButtonEvent { relay: payload }))
        } else if tag == JOYSTICK_TAG {
            Some(ClientEvent::Joystick(JoystickEvent { value: byte_as_i8(payload) }))
        } else {
            None
        }
    }
}

/// A well-formed event reads back as itself.
pub proof fn lemma_client_event_round_trip(e: ClientEvent)
    requires
        e.well_formed(),
    ensures
        ClientEvent::spec_from_bytes(e.spec_to_bytes()) == Some(e),
{
}

/// Every message that reads as an event is, in its first two bytes, that
/// event's wire form.
pub proof fn lemma_client_event_bytes_round_trip(bytes: Seq<u8>)
    requires
        ClientEvent::spec_from_bytes(bytes) is Some,
    ensures
        ClientEvent::spec_from_bytes(bytes).unwrap().spec_to_bytes() == bytes.take(2),
{
    assert(bytes.take(2) =~= seq![bytes[0], bytes[1]]);
}

/// A button message is the tag 0x01 followed by the relay index unchanged;
/// a joystick message is the tag 0x02 followed by the value's
/// two's-complement byte.
pub proof fn lemma_client_event_wire_layout(e: ClientEvent)
    ensures
        e matches ClientEvent::Button(b) ==> e.spec_to_bytes() == seq![0x01u8, b.relay],
        e matches ClientEvent::Joystick(j) ==> {
            &&& e.spec_to_bytes().len() == 2
            &&& e.spec_to_bytes()[0] == 0x02
            &&& j.value >= 0 ==> e.spec_to_bytes()[1] == j.value
            &&& j.value < 0 ==> e.spec_to_bytes()[1] == j.value + 256
        },
{
}

/// Reading a message: shorter than two bytes gives nothing; tag 0x01 with a
/// relay index (0–7) gives the button event for that relay unchanged; tag
/// 0x02 gives the joystick event whose two's-complement byte is the second
/// byte; anything else gives nothing.
pub proof fn lemma_client_event_parse_layout(bytes: Seq<u8>)
    ensures
        bytes.len() < 2 ==> ClientEvent::spec_from_bytes(bytes) is None,
        bytes.len() >= 2 && bytes[0] == 0x01 && bytes[1] < 8 ==> ClientEvent::spec_from_bytes(bytes)
            == Some(ClientEvent::Button(ButtonEvent { relay: bytes[1] })),
        bytes.len() >= 2 && bytes[0] == 0x02 ==> (ClientEvent::spec_from_bytes(bytes) matches Some(
            ClientEvent::Joystick(e),
        ) && (bytes[1] < 128 ==> e.value == bytes[1]) && (bytes[1] >= 128 ==> e.value == bytes[1]
            - 256)),
        bytes.len() >= 2 && !(bytes[0] == 0x01 && bytes[1] < 8) && bytes[0] != 0x02
            ==> ClientEvent::spec_from_bytes(bytes) is None,
{
}

/// A button message read from the first byte names that byte's relay, when
/// it is one of the eight.
pub proof fn lemma_button_event_parse_layout(bytes: Seq<u8>)
    ensures
        bytes.len() > 0 && bytes[0] < 8 ==> ButtonEvent::spec_from_bytes(bytes) == Some(
            ButtonEvent { relay: bytes[0] },
        ),
        !(bytes.len() > 0 && bytes[0] < 8) ==> ButtonEvent::spec_from_bytes(bytes) is None,
{
}

} // verus!
