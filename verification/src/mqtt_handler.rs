//! The link to the broker: connect, subscribe, relay, and on any failure
//! back off and reconnect, until the gateway shuts down.
//!
//! The link owns no client. Whoever drives it keeps running the operation
//! that [`MqttLink::operation`] names, reports completions and arrivals as
//! an [`MqttEvent`], and carries out the [`MqttAction`] that
//! [`handle_mqtt`] answers with.

use crate::protocol::{MessageView, MqttMessage};
use vstd::prelude::*;
use vstd::string::*;

verus! {

/// Seconds to wait after a failure before the next connect attempt.
pub const BACKOFF_SECONDS: u64 = 10;

/// How many messages each of the two internal buses holds for a reader
/// that has fallen behind.
pub const BUS_CAPACITY: usize = 32;

/// Where the link stands.
#[derive(Debug, Clone, Copy, PartialEq, Eq, Structural)]
pub enum LinkPhase {
    /// Nothing was attempted yet.
    Disconnected,
    /// A connect attempt is running.
    Connecting,
    /// Connected; the subscription to the command topic is being made.
    Subscribing,
    /// Connected and subscribed: messages are relayed in both directions.
    Subscribed,
    /// A failure was seen; the fixed delay runs before the next attempt.
    Backoff,
    /// Shutdown was signalled while a publish was in flight; only that
    /// publish is awaited.
    Draining,
    /// Terminal: the link has ended.
    Stopped,
}

/// The state of the upstream link.
#[derive(Debug, Clone, Copy, PartialEq, Eq, Structural)]
pub struct MqttLink {
    pub phase: LinkPhase,
    /// A failure was seen since the last successful connect, so the next
    /// attempt is a reconnect.
    pub reconnect_pending: bool,
    /// A publish is in flight.
    pub publishing: bool,
}

/// The long-running operation that belongs to the state of the link.
#[derive(Debug, Clone, Copy, PartialEq, Eq, Structural)]
pub enum LinkOperation {
    /// None: wait for events only.
    Wait,
    /// Connect for the first time.
    Connect,
    /// Connect again after a failure.
    Reconnect,
    /// Subscribe to the command topic.
    Subscribe,
    /// Sleep for this many seconds.
    BackOff(u64),
}

/// What happened around the link.
#[derive(Debug, Clone, PartialEq, Eq)]
pub enum MqttEvent {
    /// The driver is ready to run the link.
    Started,
    /// The connect or reconnect attempt finished, well (`true`) or not.
    ConnectDone(bool),
    /// The subscription finished, well (`true`) or not.
    SubscribeDone(bool),
    /// The delay is over.
    BackoffOver,
    /// A message from a device was taken from the bus; it comes as JSON,
    /// or as `None` if it could not be serialized.
    FromDevice(Option<String>),
    /// The bus reported a gap instead of a message.
    BusLagged,
    /// The publish in flight finished, well (`true`) or not.
    PublishDone(bool),
    /// A message arrived from the broker; it comes parsed, or as `None`
    /// if its payload could not be parsed.
    FromBroker(Option<MqttMessage>),
    /// Receiving from the broker failed or its stream ended, and the
    /// client says whether it is still connected.
    ReceiveFailed { still_connected: bool },
    /// The client reported that the connection was lost.
    ConnectionLost,
    /// The shutdown signal fired.
    Shutdown,
}

/// What the driver of the link has to do at once.
#[derive(Debug, Clone, PartialEq, Eq)]
pub enum MqttAction {
    /// Nothing beyond the operation of the new state.
    Idle,
    /// Begin publishing this JSON text on the topic for device traffic.
    Publish(String),
    /// Put the message on the bus that feeds the device sessions.
    Forward(MqttMessage),
    /// Ask the client to disconnect.
    Disconnect,
    /// End the task and release the shutdown latch.
    Exit,
}

/// Mathematical value of an [`MqttEvent`].
pub enum LinkEventView {
    Started,
    ConnectDone(bool),
    SubscribeDone(bool),
    BackoffOver,
    FromDevice(Option<Seq<char>>),
    BusLagged,
    PublishDone(bool),
    FromBroker(Option<MessageView>),
    ReceiveFailed { still_connected: bool },
    ConnectionLost,
    Shutdown,
}

/// Mathematical value of an [`MqttAction`].
pub enum LinkActionView {
    Idle,
    Publish(Seq<char>),
    Forward(MessageView),
    Disconnect,
    Exit,
}

impl View for MqttEvent {
    type V = LinkEventView;

    open spec fn view(&self) -> LinkEventView {
        match *self {
            MqttEvent::Started => LinkEventView::Started,
            MqttEvent::ConnectDone(ok) => LinkEventView::ConnectDone(ok),
            MqttEvent::SubscribeDone(ok) => LinkEventView::SubscribeDone(ok),
            MqttEvent::BackoffOver => LinkEventView::BackoffOver,
            MqttEvent::FromDevice(json) => LinkEventView::FromDevice(
                match json {
                    Some(json) => Some(json@),
                    None => None,
                },
            ),
            MqttEvent::BusLagged => LinkEventView::BusLagged,
            MqttEvent::PublishDone(ok) => LinkEventView::PublishDone(ok),
            MqttEvent::FromBroker(msg) => LinkEventView::FromBroker(
                match msg {
                    Some(msg) => Some(msg@),
                    None => None,
                },
            ),
            MqttEvent::ReceiveFailed { still_connected } => LinkEventView::ReceiveFailed {
                still_connected,
            },
            MqttEvent::ConnectionLost => LinkEventView::ConnectionLost,
            MqttEvent::Shutdown => LinkEventView::Shutdown,
        }
    }
}

impl View for MqttAction {
    type V = LinkActionView;

    open spec fn view(&self) -> LinkActionView {
        match *self {
            MqttAction::Idle => LinkActionView::Idle,
            MqttAction::Publish(json) => LinkActionView::Publish(json@),
            MqttAction::Forward(msg) => LinkActionView::Forward(msg@),
            MqttAction::Disconnect => LinkActionView::Disconnect,
            MqttAction::Exit => LinkActionView::Exit,
        }
    }
}

/// The link before anything was attempted.
pub open spec fn fresh_link() -> MqttLink {
    MqttLink { phase: LinkPhase::Disconnected, reconnect_pending: false, publishing: false }
}

/// The link after a failure: the delay runs and the next attempt is a
/// reconnect.
pub open spec fn backing_off(link: MqttLink) -> MqttLink {
    MqttLink { phase: LinkPhase::Backoff, reconnect_pending: true, ..link }
}

/// What the fields of a link always satisfy.
pub open spec fn link_wf(link: MqttLink) -> bool {
    match link.phase {
        LinkPhase::Disconnected => !link.publishing && !link.reconnect_pending,
        LinkPhase::Subscribing => !link.reconnect_pending,
        LinkPhase::Subscribed => !link.reconnect_pending,
        LinkPhase::Backoff => link.reconnect_pending,
        LinkPhase::Draining => link.publishing,
        LinkPhase::Stopped => !link.publishing,
        LinkPhase::Connecting => true,
    }
}

/// The operation that the driver keeps running in a state.
pub open spec fn operation_of(link: MqttLink) -> LinkOperation {
    match link.phase {
        LinkPhase::Connecting => if link.reconnect_pending {
            LinkOperation::Reconnect
        } else {
            LinkOperation::Connect
        },
        LinkPhase::Subscribing => LinkOperation::Subscribe,
        LinkPhase::Backoff => LinkOperation::BackOff(10),
        _ => LinkOperation::Wait,
    }
}

/// Whether the next message may be taken from the bus: only while
/// subscribed and with no publish in flight.
pub open spec fn takes_from_bus(link: MqttLink) -> bool {
    link.phase == LinkPhase::Subscribed && !link.publishing
}

/// Whether messages from the broker are accepted: only while subscribed.
pub open spec fn takes_from_broker(link: MqttLink) -> bool {
    link.phase == LinkPhase::Subscribed
}

/// The shutdown signal: a publish in flight is awaited, nothing else.
pub open spec fn shutdown_step(link: MqttLink) -> (MqttLink, LinkActionView) {
    if link.publishing {
        (MqttLink { phase: LinkPhase::Draining, ..link }, LinkActionView::Idle)
    } else {
        (MqttLink { phase: LinkPhase::Stopped, ..link }, LinkActionView::Exit)
    }
}

/// The end of the publish in flight, in a state that still runs.
pub open spec fn publish_done_step(link: MqttLink) -> (MqttLink, LinkActionView) {
    (MqttLink { publishing: false, ..link }, LinkActionView::Idle)
}

/// An event while connected and subscribed.
pub open spec fn subscribed_step(link: MqttLink, e: LinkEventView) -> (MqttLink, LinkActionView) {
    match e {
        LinkEventView::FromDevice(Some(json)) => if link.publishing {
            (link, LinkActionView::Idle)
        } else {
            (MqttLink { publishing: true, ..link }, LinkActionView::Publish(json))
        },
        LinkEventView::FromBroker(Some(msg)) => (link, LinkActionView::Forward(msg)),
        LinkEventView::ReceiveFailed { still_connected } => if still_connected {
            (link, LinkActionView::Idle)
        } else {
            (backing_off(link), LinkActionView::Idle)
        },
        LinkEventView::ConnectionLost => (backing_off(link), LinkActionView::Idle),
        _ => (link, LinkActionView::Idle),
    }
}

/// The transition table of the link: the state after an event and what the
/// driver has to do at once.
pub open spec fn link_step(link: MqttLink, e: LinkEventView) -> (MqttLink, LinkActionView) {
    match link.phase {
        LinkPhase::Stopped => (link, LinkActionView::Idle),
        LinkPhase::Draining => match e {
            LinkEventView::PublishDone(_) => (
                MqttLink { phase: LinkPhase::Stopped, publishing: false, ..link },
                LinkActionView::Exit,
            ),
            _ => (link, LinkActionView::Idle),
        },
        _ => match e {
            LinkEventView::Shutdown => shutdown_step(link),
            LinkEventView::PublishDone(_) => publish_done_step(link),
            _ => match link.phase {
                LinkPhase::Disconnected => match e {
                    LinkEventView::Started => (
                        MqttLink { phase: LinkPhase::Connecting, ..link },
                        LinkActionView::Idle,
                    ),
                    _ => (link, LinkActionView::Idle),
                },
                LinkPhase::Connecting => match e {
                    LinkEventView::ConnectDone(true) => (
                        MqttLink {
                            phase: LinkPhase::Subscribing,
                            reconnect_pending: false,
                            ..link
                        },
                        LinkActionView::Idle,
                    ),
                    LinkEventView::ConnectDone(false) => (backing_off(link), LinkActionView::Idle),
                    _ => (link, LinkActionView::Idle),
                },
                LinkPhase::Subscribing => match e {
                    LinkEventView::SubscribeDone(true) => (
                        MqttLink { phase: LinkPhase::Subscribed, ..link },
                        LinkActionView::Idle,
                    ),
                    LinkEventView::SubscribeDone(false) => (
                        backing_off(link),
                        LinkActionView::Disconnect,
                    ),
                    LinkEventView::ReceiveFailed { still_connected } => if still_connected {
                        (link, LinkActionView::Idle)
                    } else {
                        (backing_off(link), LinkActionView::Idle)
                    },
                    LinkEventView::ConnectionLost => (backing_off(link), LinkActionView::Idle),
                    _ => (link, LinkActionView::Idle),
                },
                LinkPhase::Subscribed => subscribed_step(link, e),
                LinkPhase::Backoff => match e {
                    LinkEventView::BackoffOver => (
                        MqttLink { phase: LinkPhase::Connecting, ..link },
                        LinkActionView::Idle,
                    ),
                    _ => (link, LinkActionView::Idle),
                },
                _ => (link, LinkActionView::Idle),
            },
        },
    }
}

impl MqttLink {
    /// The link before anything was attempted.
    pub fn new() -> (link: MqttLink)
        ensures
            link == fresh_link(),
            link_wf(link),
    {
        MqttLink { phase: LinkPhase::Disconnected, reconnect_pending: false, publishing: false }
    }

    /// The operation that the driver keeps running in this state.
    pub fn operation(&self) -> (operation: LinkOperation)
        ensures
            operation == operation_of(*self),
    {
        match self.phase {
            LinkPhase::Connecting => if self.reconnect_pending {
                LinkOperation::Reconnect
            } else {
                LinkOperation::Connect
            },
            LinkPhase::Subscribing => LinkOperation::Subscribe,
            LinkPhase::Backoff => LinkOperation::BackOff(BACKOFF_SECONDS),
            _ => LinkOperation::Wait,
        }
    }

    /// Whether the driver should take the next message from the bus.
    pub fn takes_from_bus(&self) -> (takes: bool)
        ensures
            takes == takes_from_bus(*self),
    {
        match self.phase {
            LinkPhase::Subscribed => !self.publishing,
            _ => false,
        }
    }

    /// Whether the driver should receive from the broker.
    pub fn takes_from_broker(&self) -> (takes: bool)
        ensures
            takes == takes_from_broker(*self),
    {
        match self.phase {
            LinkPhase::Subscribed => true,
            _ => false,
        }
    }

    /// Whether a publish is in flight.
    pub fn publish_in_flight(&self) -> (publishing: bool)
        ensures
            publishing == self.publishing,
    {
        self.publishing
    }

    /// Whether the link has ended.
    pub fn is_stopped(&self) -> (stopped: bool)
        ensures
            stopped == (self.phase == LinkPhase::Stopped),
    {
        match self.phase {
            LinkPhase::Stopped => true,
            _ => false,
        }
    }

    fn back_off(&mut self)
        ensures
            *final(self) == backing_off(*old(self)),
    {
        self.phase = LinkPhase::Backoff;
        self.reconnect_pending = true;
    }
}

fn subscribed(link: &mut MqttLink, event: MqttEvent) -> (action: MqttAction)
    requires
        old(link).phase == LinkPhase::Subscribed,
    ensures
        (*final(link), action@) == subscribed_step(*old(link), event@),
{
    match event {
        MqttEvent::FromDevice(Some(json)) => {
            if link.publishing {
                MqttAction::Idle
            } else {
                link.publishing = true;
                MqttAction::Publish(json)
            }
        },
        MqttEvent::FromBroker(Some(msg)) => MqttAction::Forward(msg),
        MqttEvent::ReceiveFailed { still_connected } => {
            if !still_connected {
                link.back_off();
            }
            MqttAction::Idle
        },
        MqttEvent::ConnectionLost => {
            link.back_off();
            MqttAction::Idle
        },
        _ => MqttAction::Idle,
    }
}

fn running(link: &mut MqttLink, event: MqttEvent) -> (action: MqttAction)
    requires
        old(link).phase != LinkPhase::Stopped,
        old(link).phase != LinkPhase::Draining,
        !(event@ is Shutdown),
        !(event@ is PublishDone),
    ensures
        (*final(link), action@) == link_step(*old(link), event@),
{
    match link.phase {
        LinkPhase::Disconnected => match event {
            MqttEvent::Started => {
                link.phase = LinkPhase::Connecting;
                MqttAction::Idle
            },
            _ => MqttAction::Idle,
        },
        LinkPhase::Connecting => match event {
            MqttEvent::ConnectDone(ok) => {
                if ok {
                    link.phase = LinkPhase::Subscribing;
                    link.reconnect_pending = false;
                } else {
                    link.back_off();
                }
                MqttAction::Idle
            },
            _ => MqttAction::Idle,
        },
        LinkPhase::Subscribing => match event {
            MqttEvent::SubscribeDone(ok) => {
                if ok {
                    link.phase = LinkPhase::Subscribed;
                    MqttAction::Idle
                } else {
                    link.back_off();
                    MqttAction::Disconnect
                }
            },
            MqttEvent::ReceiveFailed { still_connected } => {
                if !still_connected {
                    link.back_off();
                }
                MqttAction::Idle
            },
            MqttEvent::ConnectionLost => {
                link.back_off();
                MqttAction::Idle
            },
            _ => MqttAction::Idle,
        },
        LinkPhase::Subscribed => subscribed(link, event),
        LinkPhase::Backoff => match event {
            MqttEvent::BackoffOver => {
                link.phase = LinkPhase::Connecting;
                MqttAction::Idle
            },
            _ => MqttAction::Idle,
        },
        _ => MqttAction::Idle,
    }
}

/// Advances the link by one event and says what its driver has to do at
/// once.
///
/// The link and the action are exactly those of [`link_step`]. A link that
/// has ended stays ended and asks for nothing.
pub fn handle_mqtt(link: &mut MqttLink, event: MqttEvent) -> (action: MqttAction)
    ensures
        (*final(link), action@) == link_step(*old(link), event@),
        link_wf(*old(link)) ==> link_wf(*final(link)),
{
    match link.phase {
        LinkPhase::Stopped => MqttAction::Idle,
        LinkPhase::Draining => match event {
            MqttEvent::PublishDone(_) => {
                link.phase = LinkPhase::Stopped;
                link.publishing = false;
                MqttAction::Exit
            },
            _ => MqttAction::Idle,
        },
        _ => match event {
            MqttEvent::Shutdown => {
                if link.publishing {
                    link.phase = LinkPhase::Draining;
                    MqttAction::Idle
                } else {
                    link.phase = LinkPhase::Stopped;
                    MqttAction::Exit
                }
            },
            MqttEvent::PublishDone(_) => {
                link.publishing = false;
                MqttAction::Idle
            },
            other => running(link, other),
        },
    }
}

/// The link after a run of events, each handled in turn.
pub open spec fn link_after(link: MqttLink, events: Seq<LinkEventView>) -> MqttLink
    decreases events.len(),
{
    if events.len() == 0 {
        link
    } else {
        link_after(link_step(link, events[0]).0, events.drop_first())
    }
}

/// How often a run of events makes the link ask to exit.
pub open spec fn exits_during(link: MqttLink, events: Seq<LinkEventView>) -> nat
    decreases events.len(),
{
    if events.len() == 0 {
        0
    } else {
        let (next, action) = link_step(link, events[0]);
        let rest = exits_during(next, events.drop_first());
        if action is Exit {
            rest + 1
        } else {
            rest
        }
    }
}

/// A fresh link satisfies the invariant, and no event breaks it.
pub proof fn lemma_link_stays_well_formed(link: MqttLink, e: LinkEventView)
    requires
        link_wf(link),
    ensures
        link_wf(fresh_link()),
        link_wf(link_step(link, e).0),
{
}

/// A failed connect attempt starts the fixed delay and marks the next
/// attempt as a reconnect; nothing is asked of the driver at once.
pub proof fn lemma_connect_failure_backs_off(link: MqttLink)
    requires
        link.phase == LinkPhase::Connecting,
    ensures
        link_step(link, LinkEventView::ConnectDone(false)) == (
            backing_off(link),
            LinkActionView::Idle,
        ),
        operation_of(backing_off(link)) == LinkOperation::BackOff(10),
{
}

/// While the delay runs the link neither connects nor subscribes, takes
/// nothing from the bus or the broker, and asks for no publish, forward or
/// disconnect. It leaves the delay only when the delay is over, and then
/// for one reconnect attempt, or on shutdown.
pub proof fn lemma_backoff_is_quiet(link: MqttLink, e: LinkEventView)
    requires
        link_wf(link),
        link.phase == LinkPhase::Backoff,
    ensures
        operation_of(link) == LinkOperation::BackOff(10),
        !takes_from_bus(link),
        !takes_from_broker(link),
        link_step(link, e).1 is Idle || link_step(link, e).1 is Exit,
        !(e is BackoffOver) && !(e is Shutdown) ==> link_step(link, e).0.phase
            == LinkPhase::Backoff,
        e is BackoffOver ==> link_step(link, e).0.phase == LinkPhase::Connecting && operation_of(
            link_step(link, e).0,
        ) == LinkOperation::Reconnect,
{
}

/// A connect attempt begins only when the driver starts a fresh link or
/// when a delay is over: one attempt for each delay, never two.
pub proof fn lemma_one_attempt_per_delay(link: MqttLink, e: LinkEventView)
    ensures
        (link.phase != LinkPhase::Connecting && link_step(link, e).0.phase
            == LinkPhase::Connecting) <==> ((link.phase == LinkPhase::Disconnected && e
            == LinkEventView::Started) || (link.phase == LinkPhase::Backoff && e
            == LinkEventView::BackoffOver)),
        link.phase == LinkPhase::Connecting && link_step(link, e).0.phase
            == LinkPhase::Connecting ==> link_step(link, e).0.reconnect_pending
            == link.reconnect_pending,
{
}

/// A publish is begun only while subscribed and with none in flight, and
/// a message from the broker is forwarded only while subscribed; a payload
/// that could not be parsed or serialized is dropped and changes nothing.
pub proof fn lemma_relay_only_while_subscribed(link: MqttLink, e: LinkEventView)
    ensures
        link_step(link, e).1 is Publish ==> takes_from_bus(link) && link_step(
            link,
            e,
        ).0.publishing && e is FromDevice,
        link_step(link, e).1 is Forward ==> takes_from_broker(link) && e is FromBroker,
        e == LinkEventView::FromBroker(None) || e == LinkEventView::FromDevice(None) || e
            == LinkEventView::BusLagged ==> link_step(link, e) == (link, LinkActionView::Idle),
{
}

/// Any loss of the connection that is seen while connected starts the
/// delay, whether or not the subscription was made yet.
pub proof fn lemma_disconnect_backs_off(link: MqttLink)
    requires
        link.phase == LinkPhase::Subscribing || link.phase == LinkPhase::Subscribed,
    ensures
        link_step(link, LinkEventView::ConnectionLost) == (
            backing_off(link),
            LinkActionView::Idle,
        ),
        link_step(link, LinkEventView::ReceiveFailed { still_connected: false }) == (
            backing_off(link),
            LinkActionView::Idle,
        ),
        link_step(link, LinkEventView::ReceiveFailed { still_connected: true }) == (
            link,
            LinkActionView::Idle,
        ),
{
}

/// On shutdown a link with a publish in flight awaits that publish and
/// nothing else, and exits with its end; a link with none exits at once.
pub proof fn lemma_shutdown_awaits_the_publish(link: MqttLink, e: LinkEventView)
    requires
        link.phase != LinkPhase::Stopped,
        link.phase != LinkPhase::Draining,
    ensures
        ({
            let (next, action) = link_step(link, LinkEventView::Shutdown);
            if link.publishing {
                &&& next.phase == LinkPhase::Draining
                &&& action is Idle
                &&& operation_of(next) == LinkOperation::Wait
                &&& !takes_from_bus(next)
                &&& !takes_from_broker(next)
                &&& (e is PublishDone ==> link_step(next, e).0.phase == LinkPhase::Stopped
                    && link_step(next, e).1 is Exit)
                &&& (!(e is PublishDone) ==> link_step(next, e) == (next, LinkActionView::Idle))
            } else {
                next.phase == LinkPhase::Stopped && action is Exit
            }
        }),
{
}

/// A step asks to exit exactly when it takes the link into `Stopped`, and
/// a stopped link never leaves that state.
pub proof fn lemma_exit_marks_the_end(link: MqttLink, e: LinkEventView)
    ensures
        link_step(link, e).1 is Exit <==> link.phase != LinkPhase::Stopped && link_step(
            link,
            e,
        ).0.phase == LinkPhase::Stopped,
        link.phase == LinkPhase::Stopped ==> link_step(link, e) == (link, LinkActionView::Idle),
{
}

/// Over any run of events the link asks to exit at most once, and exactly
/// once if the run stops it.
pub proof fn lemma_exits_exactly_once(link: MqttLink, events: Seq<LinkEventView>)
    ensures
        exits_during(link, events) == if link.phase != LinkPhase::Stopped && link_after(
            link,
            events,
        ).phase == LinkPhase::Stopped {
            1nat
        } else {
            0nat
        },
        link.phase == LinkPhase::Stopped ==> link_after(link, events) == link,
    decreases events.len(),
{
    if events.len() > 0 {
        lemma_exit_marks_the_end(link, events[0]);
        lemma_exits_exactly_once(link_step(link, events[0]).0, events.drop_first());
    }
}

} // verus!
