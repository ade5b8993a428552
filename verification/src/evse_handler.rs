//! The session of one device: a handshake, then frames in both directions
//! until the device leaves, a frame is refused or the gateway shuts down.
//!
//! The session itself touches no socket and no channel. Whoever drives it
//! reports what happened as an [`EvseEvent`] and carries out the
//! [`EvseAction`] that [`handle_evse`] answers with.

use crate::protocol::{
    bare_message, decoded_frame, encoded_command, evse_to_mqtt, mqtt_to_evse, CommandEncodeError,
    FrameDecodeError, MessageView, MqttMessage, MqttMessageHandshake, MqttMessageType,
    MAX_PAYLOAD_LENGTH,
};
use crate::utils::{bytes_to_hex, hex_of};
use crate::wire::{be_u32, u32_at};
use vstd::prelude::*;
use vstd::string::*;

verus! {

/// Where a session stands in its life.
#[derive(Debug, Clone, Copy, PartialEq, Eq, Structural)]
pub enum SessionPhase {
    /// The serial and firmware version are being read and resolved.
    Handshaking,
    /// Frames flow in both directions.
    Active,
    /// Shutdown was signalled while a write was in flight; only that write
    /// is awaited.
    Draining,
    /// Terminal: the session has ended.
    Closed,
}

/// Why a session ended.
#[derive(Debug, Clone, Copy, PartialEq, Eq, Structural)]
pub enum CloseReason {
    /// The gateway is shutting down and no write is in flight any more.
    Shutdown,
    /// The device left or a read failed before the handshake was complete.
    HandshakeFailed,
    /// The device closed the connection.
    PeerClosed,
    /// Reading from the socket failed.
    ReadFailed,
    /// Writing to the socket failed.
    WriteFailed,
    /// The device sent a frame that is refused.
    Undecodable(FrameDecodeError),
}

/// What happened around a session.
#[derive(Debug, Clone, PartialEq, Eq)]
pub enum EvseEvent {
    /// The 16 serial bytes and the firmware version byte were read.
    Hello { serial: [u8; 16], firmware_version: u8 },
    /// The friendly name lookup answered, with the name if there is one.
    Resolved(Option<String>),
    /// The shutdown signal fired.
    Shutdown,
    /// A message arrived on the bus that feeds the devices.
    Outbound(MqttMessage),
    /// The bus reported a gap or an error instead of a message.
    OutboundLagged,
    /// The write in flight finished, well (`true`) or not.
    WriteDone(bool),
    /// The five bytes of a frame header were read.
    Header([u8; 5]),
    /// The payload that the last header announced was read.
    Payload(Vec<u8>),
    /// The device closed the connection.
    Disconnected,
    /// Reading from the socket failed.
    ReadFailed,
}

/// What the driver of a session has to do next.
#[derive(Debug, Clone, PartialEq, Eq)]
pub enum EvseAction {
    /// Nothing; wait for the next event.
    Idle,
    /// Look up the friendly name stored under this key and report it.
    Resolve(String),
    /// Publish the message on the bus that feeds the upstream link.
    Publish(MqttMessage),
    /// Begin writing the frame to the socket.
    Write(Vec<u8>),
    /// The message was addressed to this device but has no frame; drop it.
    Discard(CommandEncodeError),
    /// Read this many payload bytes and report them.
    ReadPayload(u32),
    /// End the session and release the shutdown latch.
    Close(CloseReason),
}

/// Mathematical value of an [`EvseEvent`].
pub enum EventView {
    Hello { serial: Seq<u8>, firmware_version: u8 },
    Resolved(Option<Seq<char>>),
    Shutdown,
    Outbound(MessageView),
    OutboundLagged,
    WriteDone(bool),
    Header(Seq<u8>),
    Payload(Seq<u8>),
    Disconnected,
    ReadFailed,
}

/// Mathematical value of an [`EvseAction`].
pub enum ActionView {
    Idle,
    Resolve(Seq<char>),
    Publish(MessageView),
    Write(Seq<u8>),
    Discard(CommandEncodeError),
    ReadPayload(u32),
    Close(CloseReason),
}

/// Mathematical value of an [`EvseSession`].
pub struct SessionView {
    pub phase: SessionPhase,
    /// The identity of the device; the bare serial until a name is resolved.
    pub client_id: Seq<char>,
    pub firmware_version: u8,
    /// The handshake bytes were read and the name lookup is awaited.
    pub greeted: bool,
    /// A write is in flight.
    pub writing: bool,
    /// The one frame that waits for the write in flight to finish.
    pub queued: Option<Seq<u8>>,
    /// Type code and length of the header whose payload is awaited.
    pub header: Option<(u8, u32)>,
}

impl View for EvseEvent {
    type V = EventView;

    open spec fn view(&self) -> EventView {
        match *self {
            EvseEvent::Hello { serial, firmware_version } => EventView::Hello {
                serial: serial@,
                firmware_version,
            },
            EvseEvent::Resolved(name) => EventView::Resolved(
                match name {
                    Some(name) => Some(name@),
                    None => None,
                },
            ),
            EvseEvent::Shutdown => EventView::Shutdown,
            EvseEvent::Outbound(msg) => EventView::Outbound(msg@),
            EvseEvent::OutboundLagged => EventView::OutboundLagged,
            EvseEvent::WriteDone(ok) => EventView::WriteDone(ok),
            EvseEvent::Header(header) => EventView::Header(header@),
            EvseEvent::Payload(payload) => EventView::Payload(payload@),
            EvseEvent::Disconnected => EventView::Disconnected,
            EvseEvent::ReadFailed => EventView::ReadFailed,
        }
    }
}

impl View for EvseAction {
    type V = ActionView;

    open spec fn view(&self) -> ActionView {
        match *self {
            EvseAction::Idle => ActionView::Idle,
            EvseAction::Resolve(key) => ActionView::Resolve(key@),
            EvseAction::Publish(msg) => ActionView::Publish(msg@),
            EvseAction::Write(frame) => ActionView::Write(frame@),
            EvseAction::Discard(error) => ActionView::Discard(error),
            EvseAction::ReadPayload(length) => ActionView::ReadPayload(length),
            EvseAction::Close(reason) => ActionView::Close(reason),
        }
    }
}

/// The key under which the friendly name of a serial is configured.
pub open spec fn friendly_name_key(serial_hex: Seq<char>) -> Seq<char> {
    "evse_name.id_"@ + serial_hex
}

/// The message that announces a device upstream.
pub open spec fn new_connection_message(client_id: Seq<char>, firmware_version: u8) -> MessageView {
    MessageView {
        handshake: Some(MqttMessageHandshake { firmware_version }),
        ..bare_message(MqttMessageType::new_connection, client_id)
    }
}

/// A session on a connection that was just accepted.
pub open spec fn accepted_session() -> SessionView {
    SessionView {
        phase: SessionPhase::Handshaking,
        client_id: Seq::empty(),
        firmware_version: 0,
        greeted: false,
        writing: false,
        queued: None,
        header: None,
    }
}

/// The session as it is left behind when it ends.
pub open spec fn closed_session(s: SessionView) -> SessionView {
    SessionView {
        phase: SessionPhase::Closed,
        greeted: false,
        writing: false,
        queued: None,
        header: None,
        ..s
    }
}

/// What the fields of a session always satisfy.
pub open spec fn session_wf(s: SessionView) -> bool {
    match s.phase {
        SessionPhase::Handshaking => !s.writing && s.queued.is_none() && s.header.is_none(),
        SessionPhase::Active => !s.greeted && (s.queued.is_some() ==> s.writing) && (
        s.header.is_some() ==> s.header.unwrap().1 <= 1024),
        SessionPhase::Draining => !s.greeted && s.writing && s.queued.is_none()
            && s.header.is_none(),
        SessionPhase::Closed => !s.greeted && !s.writing && s.queued.is_none()
            && s.header.is_none(),
    }
}

/// The handshake: the greeting, then the resolved name.
pub open spec fn handshaking_step(s: SessionView, e: EventView) -> (SessionView, ActionView) {
    match e {
        EventView::Hello { serial, firmware_version } => if s.greeted {
            (s, ActionView::Idle)
        } else {
            (
                SessionView { greeted: true, client_id: hex_of(serial), firmware_version, ..s },
                ActionView::Resolve(friendly_name_key(hex_of(serial))),
            )
        },
        EventView::Resolved(name) => if !s.greeted {
            (s, ActionView::Idle)
        } else {
            let client_id = match name {
                Some(name) => name,
                None => s.client_id,
            };
            (
                SessionView { phase: SessionPhase::Active, greeted: false, client_id, ..s },
                ActionView::Publish(new_connection_message(client_id, s.firmware_version)),
            )
        },
        EventView::Shutdown => (closed_session(s), ActionView::Close(CloseReason::Shutdown)),
        EventView::Disconnected => (
            closed_session(s),
            ActionView::Close(CloseReason::HandshakeFailed),
        ),
        EventView::ReadFailed => (
            closed_session(s),
            ActionView::Close(CloseReason::HandshakeFailed),
        ),
        _ => (s, ActionView::Idle),
    }
}

/// A message from the bus: acted on only by the session it is addressed to.
///
/// Its frame is written at once if no write is in flight. Otherwise it
/// waits for that write to finish, in the place of any frame that waited
/// there before.
pub open spec fn outbound_step(s: SessionView, msg: MessageView) -> (SessionView, ActionView) {
    if msg.client_id != s.client_id {
        (s, ActionView::Idle)
    } else {
        match encoded_command(msg) {
            Err(error) => (s, ActionView::Discard(error)),
            Ok(frame) => if s.writing {
                (SessionView { queued: Some(frame), ..s }, ActionView::Idle)
            } else {
                (SessionView { writing: true, ..s }, ActionView::Write(frame))
            },
        }
    }
}

/// The end of the write in flight.
pub open spec fn write_done_step(s: SessionView, ok: bool) -> (SessionView, ActionView) {
    if !s.writing {
        (s, ActionView::Idle)
    } else if !ok {
        (closed_session(s), ActionView::Close(CloseReason::WriteFailed))
    } else {
        match s.queued {
            Some(frame) => (SessionView { queued: None, ..s }, ActionView::Write(frame)),
            None => (SessionView { writing: false, ..s }, ActionView::Idle),
        }
    }
}

/// A frame header: the payload is asked for only if its declared length
/// is within the limit.
pub open spec fn header_step(s: SessionView, header: Seq<u8>) -> (SessionView, ActionView) {
    if s.header.is_some() || header.len() != 5 {
        (s, ActionView::Idle)
    } else if be_u32(header, 1) > 1024 {
        (
            closed_session(s),
            ActionView::Close(
                CloseReason::Undecodable(FrameDecodeError::PayloadTooLarge(be_u32(header, 1))),
            ),
        )
    } else {
        (
            SessionView { header: Some((header[0], be_u32(header, 1))), ..s },
            ActionView::ReadPayload(be_u32(header, 1)),
        )
    }
}

/// The payload of the frame whose header was read before.
pub open spec fn payload_step(s: SessionView, payload: Seq<u8>) -> (SessionView, ActionView) {
    match s.header {
        None => (s, ActionView::Idle),
        Some((message_type, payload_length)) => match decoded_frame(
            s.client_id,
            message_type,
            payload_length,
            payload,
        ) {
            Ok(msg) => (SessionView { header: None, ..s }, ActionView::Publish(msg)),
            Err(error) => (
                closed_session(s),
                ActionView::Close(CloseReason::Undecodable(error)),
            ),
        },
    }
}

/// An event while frames flow.
pub open spec fn active_step(s: SessionView, e: EventView) -> (SessionView, ActionView) {
    match e {
        EventView::Shutdown => if s.writing {
            (
                SessionView { phase: SessionPhase::Draining, queued: None, header: None, ..s },
                ActionView::Idle,
            )
        } else {
            (closed_session(s), ActionView::Close(CloseReason::Shutdown))
        },
        EventView::Outbound(msg) => outbound_step(s, msg),
        EventView::WriteDone(ok) => write_done_step(s, ok),
        EventView::Header(header) => header_step(s, header),
        EventView::Payload(payload) => payload_step(s, payload),
        EventView::Disconnected => (closed_session(s), ActionView::Close(CloseReason::PeerClosed)),
        EventView::ReadFailed => (closed_session(s), ActionView::Close(CloseReason::ReadFailed)),
        _ => (s, ActionView::Idle),
    }
}

/// An event while the last write is awaited: nothing new is taken up.
pub open spec fn draining_step(s: SessionView, e: EventView) -> (SessionView, ActionView) {
    match e {
        EventView::WriteDone(ok) => (
            closed_session(s),
            ActionView::Close(
                if ok {
                    CloseReason::Shutdown
                } else {
                    CloseReason::WriteFailed
                },
            ),
        ),
        _ => (s, ActionView::Idle),
    }
}

/// The transition table of a session: the state after an event and what
/// the driver has to do.
pub open spec fn session_step(s: SessionView, e: EventView) -> (SessionView, ActionView) {
    match s.phase {
        SessionPhase::Handshaking => handshaking_step(s, e),
        SessionPhase::Active => active_step(s, e),
        SessionPhase::Draining => draining_step(s, e),
        SessionPhase::Closed => (s, ActionView::Idle),
    }
}

/// The state of one device session.
#[derive(Debug, Clone, PartialEq, Eq)]
pub struct EvseSession {
    phase: SessionPhase,
    client_id: String,
    firmware_version: u8,
    greeted: bool,
    writing: bool,
    queued: Option<Vec<u8>>,
    header: Option<(u8, u32)>,
}

impl View for EvseSession {
    type V = SessionView;

    closed spec fn view(&self) -> SessionView {
        SessionView {
            phase: self.phase,
            client_id: self.client_id@,
            firmware_version: self.firmware_version,
            greeted: self.greeted,
            writing: self.writing,
            queued: match self.queued {
                Some(frame) => Some(frame@),
                None => None,
            },
            header: self.header,
        }
    }
}

impl EvseSession {
    /// The session of a connection that was just accepted.
    pub fn new() -> (session: EvseSession)
        ensures
            session@ == accepted_session(),
            session_wf(session@),
    {
        EvseSession {
            phase: SessionPhase::Handshaking,
            client_id: String::new(),
            firmware_version: 0,
            greeted: false,
            writing: false,
            queued: None,
            header: None,
        }
    }

    /// Where the session stands.
    pub fn phase(&self) -> (phase: SessionPhase)
        ensures
            phase == self@.phase,
    {
        self.phase
    }

    /// The identity of the device.
    pub fn client_id(&self) -> (client_id: &String)
        ensures
            client_id@ == self@.client_id,
    {
        &self.client_id
    }

    /// The firmware version that the device announced.
    pub fn firmware_version(&self) -> (version: u8)
        ensures
            version == self@.firmware_version,
    {
        self.firmware_version
    }

    /// Whether the session has ended.
    pub fn is_closed(&self) -> (closed: bool)
        ensures
            closed == (self@.phase == SessionPhase::Closed),
    {
        match self.phase {
            SessionPhase::Closed => true,
            _ => false,
        }
    }

    /// Whether the driver should read from the socket: during the handshake
    /// and while frames flow.
    pub fn reads_socket(&self) -> (reads: bool)
        ensures
            reads == (self@.phase == SessionPhase::Handshaking || self@.phase
                == SessionPhase::Active),
    {
        match self.phase {
            SessionPhase::Handshaking => true,
            SessionPhase::Active => true,
            _ => false,
        }
    }

    /// Whether the driver should take the next message from the bus: while
    /// frames flow and no frame is waiting behind the write in flight.
    pub fn takes_outbound(&self) -> (takes: bool)
        ensures
            takes == (self@.phase == SessionPhase::Active && self@.queued.is_none()),
    {
        match self.phase {
            SessionPhase::Active => self.queued.is_none(),
            _ => false,
        }
    }

    /// Whether a write is in flight.
    pub fn write_in_flight(&self) -> (writing: bool)
        ensures
            writing == self@.writing,
    {
        self.writing
    }

    fn close(&mut self)
        ensures
            final(self)@ == closed_session(old(self)@),
    {
        self.phase = SessionPhase::Closed;
        self.greeted = false;
        self.writing = false;
        self.queued = None;
        self.header = None;
    }
}

fn handshaking(session: &mut EvseSession, event: EvseEvent) -> (action: EvseAction)
    requires
        old(session)@.phase == SessionPhase::Handshaking,
    ensures
        (final(session)@, action@) == handshaking_step(old(session)@, event@),
{
    match event {
        EvseEvent::Hello { serial, firmware_version } => {
            if session.greeted {
                return EvseAction::Idle;
            }
            let serial_hex = bytes_to_hex(serial.as_slice());
            let mut key = String::from_str("evse_name.id_");
            key.append(serial_hex.as_str());
            session.greeted = true;
            session.client_id = serial_hex;
            session.firmware_version = firmware_version;
            EvseAction::Resolve(key)
        },
        EvseEvent::Resolved(name) => {
            if !session.greeted {
                return EvseAction::Idle;
            }
            match name {
                Some(name) => {
                    session.client_id = name;
                },
                None => {},
            }
            session.phase = SessionPhase::Active;
            session.greeted = false;
            EvseAction::Publish(
                MqttMessage {
                    message_type: MqttMessageType::new_connection,
                    client_id: session.client_id.clone(),
                    handshake: Some(
                        MqttMessageHandshake { firmware_version: session.firmware_version },
                    ),
                    firmware: None,
                    pwm_percent: None,
                    contactor_state: None,
                    measurements: None,
                },
            )
        },
        EvseEvent::Shutdown => {
            session.close();
            EvseAction::Close(CloseReason::Shutdown)
        },
        EvseEvent::Disconnected => {
            session.close();
            EvseAction::Close(CloseReason::HandshakeFailed)
        },
        EvseEvent::ReadFailed => {
            session.close();
            EvseAction::Close(CloseReason::HandshakeFailed)
        },
        _ => EvseAction::Idle,
    }
}

fn outbound(session: &mut EvseSession, msg: MqttMessage) -> (action: EvseAction)
    ensures
        (final(session)@, action@) == outbound_step(old(session)@, msg@),
{
    if msg.client_id != session.client_id {
        return EvseAction::Idle;
    }
    match mqtt_to_evse(msg) {
        Err(error) => EvseAction::Discard(error),
        Ok(frame) => {
            if session.writing {
                session.queued = Some(frame);
                EvseAction::Idle
            } else {
                session.writing = true;
                EvseAction::Write(frame)
            }
        },
    }
}

fn write_done(session: &mut EvseSession, ok: bool) -> (action: EvseAction)
    ensures
        (final(session)@, action@) == write_done_step(old(session)@, ok),
{
    if !session.writing {
        return EvseAction::Idle;
    }
    if !ok {
        session.close();
        return EvseAction::Close(CloseReason::WriteFailed);
    }
    match session.queued.take() {
        Some(frame) => EvseAction::Write(frame),
        None => {
            session.writing = false;
            EvseAction::Idle
        },
    }
}

fn header_read(session: &mut EvseSession, header: [u8; 5]) -> (action: EvseAction)
    ensures
        (final(session)@, action@) == header_step(old(session)@, header@),
{
    if session.header.is_some() {
        return EvseAction::Idle;
    }
    let message_type: u8 = header[0];
    let payload_length: u32 = u32_at(header.as_slice(), 1);
    if payload_length > MAX_PAYLOAD_LENGTH {
        session.close();
        return EvseAction::Close(
            CloseReason::Undecodable(FrameDecodeError::PayloadTooLarge(payload_length)),
        );
    }
    session.header = Some((message_type, payload_length));
    EvseAction::ReadPayload(payload_length)
}

fn payload_read(session: &mut EvseSession, payload: Vec<u8>) -> (action: EvseAction)
    ensures
        (final(session)@, action@) == payload_step(old(session)@, payload@),
{
    match session.header {
        None => EvseAction::Idle,
        Some((message_type, payload_length)) => {
            match evse_to_mqtt(
                session.client_id.clone(),
                message_type,
                payload_length,
                payload.as_slice(),
            ) {
                Ok(msg) => {
                    session.header = None;
                    EvseAction::Publish(msg)
                },
                Err(error) => {
                    session.close();
                    EvseAction::Close(CloseReason::Undecodable(error))
                },
            }
        },
    }
}

fn active(session: &mut EvseSession, event: EvseEvent) -> (action: EvseAction)
    requires
        old(session)@.phase == SessionPhase::Active,
    ensures
        (final(session)@, action@) == active_step(old(session)@, event@),
{
    match event {
        EvseEvent::Shutdown => {
            if session.writing {
                session.phase = SessionPhase::Draining;
                session.queued = None;
                session.header = None;
                EvseAction::Idle
            } else {
                session.close();
                EvseAction::Close(CloseReason::Shutdown)
            }
        },
        EvseEvent::Outbound(msg) => outbound(session, msg),
        EvseEvent::WriteDone(ok) => write_done(session, ok),
        EvseEvent::Header(header) => header_read(session, header),
        EvseEvent::Payload(payload) => payload_read(session, payload),
        EvseEvent::Disconnected => {
            session.close();
            EvseAction::Close(CloseReason::PeerClosed)
        },
        EvseEvent::ReadFailed => {
            session.close();
            EvseAction::Close(CloseReason::ReadFailed)
        },
        _ => EvseAction::Idle,
    }
}

fn draining(session: &mut EvseSession, event: EvseEvent) -> (action: EvseAction)
    requires
        old(session)@.phase == SessionPhase::Draining,
    ensures
        (final(session)@, action@) == draining_step(old(session)@, event@),
{
    match event {
        EvseEvent::WriteDone(ok) => {
            session.close();
            if ok {
                EvseAction::Close(CloseReason::Shutdown)
            } else {
                EvseAction::Close(CloseReason::WriteFailed)
            }
        },
        _ => EvseAction::Idle,
    }
}

/// Advances a session by one event and says what its driver has to do.
///
/// The session and the action are exactly those of [`session_step`]. A
/// session that has ended stays ended and asks for nothing.
pub fn handle_evse(session: &mut EvseSession, event: EvseEvent) -> (action: EvseAction)
    ensures
        (final(session)@, action@) == session_step(old(session)@, event@),
        session_wf(old(session)@) ==> session_wf(final(session)@),
{
    match session.phase {
        SessionPhase::Handshaking => handshaking(session, event),
        SessionPhase::Active => active(session, event),
        SessionPhase::Draining => draining(session, event),
        SessionPhase::Closed => EvseAction::Idle,
    }
}

/// The session after a run of events, each handled in turn.
pub open spec fn session_after(s: SessionView, events: Seq<EventView>) -> SessionView
    decreases events.len(),
{
    if events.len() == 0 {
        s
    } else {
        session_after(session_step(s, events[0]).0, events.drop_first())
    }
}

/// How often a run of events makes the session ask to be closed.
pub open spec fn closes_during(s: SessionView, events: Seq<EventView>) -> nat
    decreases events.len(),
{
    if events.len() == 0 {
        0
    } else {
        let (next, action) = session_step(s, events[0]);
        let rest = closes_during(next, events.drop_first());
        if action is Close {
            rest + 1
        } else {
            rest
        }
    }
}

/// A fresh session satisfies the invariant, and no event breaks it.
pub proof fn lemma_session_stays_well_formed(s: SessionView, e: EventView)
    requires
        session_wf(s),
    ensures
        session_wf(accepted_session()),
        session_wf(session_step(s, e).0),
{
}

/// Of all the sessions that see a message on the bus, only the one whose
/// client id the message carries acts on it: every other session is left
/// as it was and asks for nothing, while the addressed one either takes
/// the frame up or reports why the message has none.
pub proof fn lemma_only_the_addressee_acts(s: SessionView, msg: MessageView)
    requires
        s.phase == SessionPhase::Active,
    ensures
        msg.client_id != s.client_id ==> session_step(s, EventView::Outbound(msg)) == (
            s,
            ActionView::Idle,
        ),
        msg.client_id == s.client_id ==> match encoded_command(msg) {
            Ok(frame) => if s.writing {
                session_step(s, EventView::Outbound(msg)) == (
                    SessionView { queued: Some(frame), ..s },
                    ActionView::Idle,
                )
            } else {
                session_step(s, EventView::Outbound(msg)) == (
                    SessionView { writing: true, ..s },
                    ActionView::Write(frame),
                )
            },
            Err(error) => session_step(s, EventView::Outbound(msg)) == (
                s,
                ActionView::Discard(error),
            ),
        },
{
}

/// A header that declares more than 1024 payload bytes ends the session at
/// once: no payload is asked for.
pub proof fn lemma_oversized_frame_closes(s: SessionView, header: Seq<u8>)
    requires
        s.phase == SessionPhase::Active,
        s.header.is_none(),
        header.len() == 5,
        be_u32(header, 1) > 1024,
    ensures
        session_step(s, EventView::Header(header)).0.phase == SessionPhase::Closed,
        session_step(s, EventView::Header(header)).1 == ActionView::Close(
            CloseReason::Undecodable(FrameDecodeError::PayloadTooLarge(be_u32(header, 1))),
        ),
{
}

/// A write is begun only when none is in flight, or in the moment the one
/// in flight has finished well; and a session that shuts down while a write
/// is in flight does not close before that write is finished.
pub proof fn lemma_writes_are_serialized(s: SessionView, e: EventView)
    requires
        session_wf(s),
    ensures
        session_step(s, e).1 is Write ==> session_step(s, e).0.writing && (!s.writing || e
            == EventView::WriteDone(true)),
        s.writing && e == EventView::Shutdown ==> session_step(s, e).0.phase
            == SessionPhase::Draining && session_step(s, e).1 == ActionView::Idle,
        s.phase == SessionPhase::Draining && !(e is WriteDone) ==> session_step(s, e) == (
            s,
            ActionView::Idle,
        ),
{
}

/// A step asks to close exactly when it takes the session into `Closed`,
/// and an ended session never leaves that state.
pub proof fn lemma_close_marks_the_end(s: SessionView, e: EventView)
    ensures
        session_step(s, e).1 is Close <==> s.phase != SessionPhase::Closed && session_step(
            s,
            e,
        ).0.phase == SessionPhase::Closed,
        s.phase == SessionPhase::Closed ==> session_step(s, e) == (s, ActionView::Idle),
{
}

/// Over any run of events a session asks to be closed at most once, and
/// exactly once if the run ends it: the shutdown latch is released once per
/// session whichever way the session ends.
pub proof fn lemma_closed_exactly_once(s: SessionView, events: Seq<EventView>)
    ensures
        closes_during(s, events) == if s.phase != SessionPhase::Closed && session_after(
            s,
            events,
        ).phase == SessionPhase::Closed {
            1nat
        } else {
            0nat
        },
        s.phase == SessionPhase::Closed ==> session_after(s, events) == s,
    decreases events.len(),
{
    if events.len() > 0 {
        lemma_close_marks_the_end(s, events[0]);
        lemma_closed_exactly_once(session_step(s, events[0]).0, events.drop_first());
    }
}

/// How many of the sessions have not ended.
pub open spec fn open_sessions(fleet: Seq<SessionView>) -> nat
    decreases fleet.len(),
{
    if fleet.len() == 0 {
        0
    } else if fleet.last().phase != SessionPhase::Closed {
        open_sessions(fleet.drop_last()) + 1
    } else {
        open_sessions(fleet.drop_last())
    }
}

/// No session is open exactly when every session has ended.
pub proof fn lemma_none_open_means_all_closed(fleet: Seq<SessionView>)
    ensures
        open_sessions(fleet) == 0 <==> forall|i: int|
            0 <= i < fleet.len() ==> (#[trigger] fleet[i]).phase == SessionPhase::Closed,
    decreases fleet.len(),
{
    if fleet.len() > 0 {
        let rest = fleet.drop_last();
        lemma_none_open_means_all_closed(rest);
        if open_sessions(fleet) == 0 {
            assert forall|i: int| 0 <= i < fleet.len() implies (#[trigger] fleet[i]).phase
                == SessionPhase::Closed by {
                if i < rest.len() {
                    assert(fleet[i] == rest[i]);
                }
            }
        } else if fleet.last().phase == SessionPhase::Closed {
            let i = choose|i: int|
                0 <= i < rest.len() && (#[trigger] rest[i]).phase != SessionPhase::Closed;
            assert(fleet[i] == rest[i]);
        }
    }
}

/// When one of many sessions handles an event, the number of open sessions
/// falls by one if the session asks to be closed and stays as it is
/// otherwise: a latch that is counted up for every session and counted
/// down on every close always holds the number of open sessions.
pub proof fn lemma_close_releases_one(fleet: Seq<SessionView>, i: int, e: EventView)
    requires
        0 <= i < fleet.len(),
    ensures
        open_sessions(fleet) == open_sessions(fleet.update(i, session_step(fleet[i], e).0)) + (
        if session_step(fleet[i], e).1 is Close {
            1nat
        } else {
            0nat
        }),
    decreases fleet.len(),
{
    let next = fleet.update(i, session_step(fleet[i], e).0);
    lemma_close_marks_the_end(fleet[i], e);
    if i == fleet.len() - 1 {
        assert(next.drop_last() =~= fleet.drop_last());
    } else {
        lemma_close_releases_one(fleet.drop_last(), i, e);
        assert(next.drop_last() =~= fleet.drop_last().update(
            i,
            session_step(fleet.drop_last()[i], e).0,
        ));
    }
}

/// When the shutdown signal reaches a session whose write is in flight,
/// the session stays open, and it ends with the event that reports the end
/// of that write and with no other.
pub proof fn lemma_shutdown_awaits_the_write(s: SessionView, e: EventView)
    requires
        s.phase == SessionPhase::Active,
        s.writing,
    ensures
        ({
            let (draining, action) = session_step(s, EventView::Shutdown);
            &&& draining.phase == SessionPhase::Draining
            &&& action is Idle
            &&& (e is WriteDone ==> session_step(draining, e).0.phase == SessionPhase::Closed
                && session_step(draining, e).1 is Close)
            &&& (!(e is WriteDone) ==> session_step(draining, e) == (draining, ActionView::Idle))
        }),
{
}

} // verus!
