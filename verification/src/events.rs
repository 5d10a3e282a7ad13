//! Events that the worker sends without being asked, and their fan-out to
//! any number of subscribers.

use vstd::prelude::*;
use crate::json::Json;
use crate::json::json_of;
use crate::json::value_from_str;
use crate::json::value_empty_object;
use crate::json::value_with_member;

verus! {

/// `tokio::sync::broadcast::Sender`: the publishing end of a broadcast
/// channel.
#[verifier::external_type_specification]
#[verifier::external_body]
#[verifier::reject_recursive_types(T)]
pub struct ExBroadcastSender<T>(tokio::sync::broadcast::Sender<T>);

/// `tokio::sync::broadcast::Receiver`: one subscriber's end of a broadcast
/// channel.
#[verifier::external_type_specification]
#[verifier::external_body]
#[verifier::reject_recursive_types(T)]
pub struct ExBroadcastReceiver<T>(tokio::sync::broadcast::Receiver<T>);

/// The number of events that are kept for a subscriber that has fallen
/// behind. Of more than that, the oldest are lost to it.
pub const EVENT_BUFFER: usize = 32;

/// An event of the worker: its name, and the payload as the worker sent it.
#[derive(Debug, Clone, PartialEq)]
pub struct BridgeEvent {
    pub name: String,
    pub payload: serde_json::Value,
}

/// What a [`BridgeEvent`] holds.
pub struct BridgeEventView {
    pub name: Seq<char>,
    pub payload: Json,
}

impl View for BridgeEvent {
    type V = BridgeEventView;

    open spec fn view(&self) -> BridgeEventView {
        BridgeEventView { name: self.name@, payload: json_of(self.payload) }
    }
}

/// What stands before the name of an event of the worker on the host
/// application's own bus, so that it is told apart from everything else
/// there.
pub const EVENT_NAMESPACE: &'static str = "service://";

/// The name of the event that shows a toast.
pub const TOAST_EVENT: &'static str = "toast";

/// The name of the event that carries the worker's status.
pub const STATUS_EVENT: &'static str = "status";

/// The level of a toast that reports an error.
pub const ERROR_LEVEL: &'static str = "error";

/// The name under which an event of the worker is published on the host
/// application's own bus.
pub open spec fn namespaced(name: Seq<char>) -> Seq<char> {
    EVENT_NAMESPACE@ + name
}

/// The payload of a toast: an object with the members `message` and `level`.
pub open spec fn toast(message: Seq<char>, level: Seq<char>) -> Json {
    Json::empty_object().with_member("message"@, Json::Text(message)).with_member(
        "level"@,
        Json::Text(level),
    )
}

/// The text that tells the user that the worker is lost.
pub const WORKER_LOST_TEXT: &'static str =
    "The Namefix service stopped unexpectedly. Restart the application.";

/// The name under which the event `name` of the worker is published on the
/// host application's own bus: `service://` and the name.
pub fn namespaced_event(name: &str) -> (full: String)
    ensures
        full@ == namespaced(name@),
{
    String::from_str(EVENT_NAMESPACE).concat(name)
}

impl BridgeEvent {
    /// The name under which the event is published on the host application's
    /// own bus: `service://` and the event's name.
    pub fn namespaced_name(&self) -> (full: String)
        ensures
            full@ == namespaced(self@.name),
    {
        namespaced_event(self.name.as_str())
    }

    /// The event that tells the user that an action failed: a toast of level
    /// `error` whose message is `Action failed: ` and the reason.
    pub fn action_failed(reason: &str) -> (event: BridgeEvent)
        ensures
            event@.name == TOAST_EVENT@,
            event@.payload == toast("Action failed: "@ + reason@, ERROR_LEVEL@),
    {
        let message = String::from_str("Action failed: ").concat(reason);
        BridgeEvent {
            name: String::from_str(TOAST_EVENT),
            payload: toast_payload(message.as_str(), ERROR_LEVEL),
        }
    }

    /// The event that tells the user that the worker is lost and the
    /// application has to be started again: a toast of level `error`.
    pub fn worker_lost() -> (event: BridgeEvent)
        ensures
            event@.name == TOAST_EVENT@,
            event@.payload == toast(WORKER_LOST_TEXT@, ERROR_LEVEL@),
    {
        BridgeEvent {
            name: String::from_str(TOAST_EVENT),
            payload: toast_payload(WORKER_LOST_TEXT, ERROR_LEVEL),
        }
    }
}

/// The payload of a toast with the given message and level.
pub fn toast_payload(message: &str, level: &str) -> (payload: serde_json::Value)
    ensures
        json_of(payload) == toast(message@, level@),
{
    let object = value_empty_object();
    let object = value_with_member(object, "message", value_from_str(message));
    value_with_member(object, "level", value_from_str(level))
}

/// What a subscriber got when it asked for the next event.
#[derive(Debug, PartialEq)]
pub enum Received {
    /// The next event.
    Event(BridgeEvent),
    /// The subscriber fell behind, and this many of the oldest events are
    /// lost to it.
    Lagged(u64),
    /// The hub is gone.
    Closed,
}

/// What a [`Received`] holds.
pub enum ReceivedView {
    Event(BridgeEventView),
    Lagged(u64),
    Closed,
}

impl View for Received {
    type V = ReceivedView;

    open spec fn view(&self) -> ReceivedView {
        match self {
            Received::Event(event) => ReceivedView::Event(event@),
            Received::Lagged(lost) => ReceivedView::Lagged(*lost),
            Received::Closed => ReceivedView::Closed,
        }
    }
}

/// What the subscriber that passes the worker's events on to the host
/// application's bus does next.
#[derive(Debug, PartialEq)]
pub enum Forward {
    /// Publish the payload on the host's bus under this name.
    Emit { name: String, payload: serde_json::Value },
    /// Go on with the next event.
    Skip,
    /// Stop.
    Stop,
}

/// What a [`Forward`] holds.
pub enum ForwardView {
    Emit { name: Seq<char>, payload: Json },
    Skip,
    Stop,
}

impl View for Forward {
    type V = ForwardView;

    open spec fn view(&self) -> ForwardView {
        match self {
            Forward::Emit { name, payload } => ForwardView::Emit {
                name: name@,
                payload: json_of(*payload),
            },
            Forward::Skip => ForwardView::Skip,
            Forward::Stop => ForwardView::Stop,
        }
    }
}

/// What is done with what the forwarding subscriber got.
pub open spec fn forward_spec(received: ReceivedView) -> ForwardView {
    match received {
        ReceivedView::Event(event) => ForwardView::Emit {
            name: namespaced(event.name),
            payload: event.payload,
        },
        ReceivedView::Lagged(_) => ForwardView::Skip,
        ReceivedView::Closed => ForwardView::Stop,
    }
}

/// Decides what the forwarding subscriber does with what it got: an event
/// is published on the host's bus under its namespaced name, with its
/// payload as it is; events lost by falling behind are passed over; and
/// when the hub is gone the forwarding stops.
pub fn forward(received: Received) -> (next: Forward)
    ensures
        next@ == forward_spec(received@),
{
    match received {
        Received::Event(event) => {
            let name = event.namespaced_name();
            Forward::Emit { name, payload: event.payload }
        },
        Received::Lagged(_) => Forward::Skip,
        Received::Closed => Forward::Stop,
    }
}

/// The events that a broadcast channel took since it was made, in their
/// order: each event that was sent while the channel had a subscriber. An
/// event that is sent while there is none is dropped and is not among them.
pub uninterp spec fn published_on(
    sender: tokio::sync::broadcast::Sender<BridgeEvent>,
) -> Seq<BridgeEventView>;

/// The place of a subscriber in its channel: the position of the next event
/// that it is handed, among the events that the channel took. The channel
/// counts positions in 64 bits.
pub uninterp spec fn cursor_of(receiver: tokio::sync::broadcast::Receiver<BridgeEvent>) -> u64;

/// The position that follows `count` events, as the channel counts it.
pub open spec fn position_after(count: nat) -> u64 {
    (count % 0x1_0000_0000_0000_0000) as u64
}

/// The fan-out: a broadcast channel on which every event of the worker is
/// published. Each subscriber reads at its own pace from a buffer of
/// [`EVENT_BUFFER`] events; one that falls further behind loses the oldest,
/// and the publisher never waits.
///
/// The hub is the only publishing end of its channel, so what the channel
/// took changes only where the hub publishes.
pub struct EventHub {
    sender: tokio::sync::broadcast::Sender<BridgeEvent>,
}

/// `tokio::sync::broadcast::Sender::new`: the publishing end of a new
/// channel, which has no subscriber yet and has taken no event. It panics on
/// a capacity of 0 or of more than `usize::MAX / 2`, so those are left out.
#[verifier::external_body]
fn broadcast_sender(capacity: usize) -> (sender: tokio::sync::broadcast::Sender<BridgeEvent>)
    requires
        0 < capacity <= usize::MAX / 2,
    ensures
        published_on(sender) == Seq::<BridgeEventView>::empty(),
{
    tokio::sync::broadcast::Sender::new(capacity)
}

/// `tokio::sync::broadcast::Sender::send`: where the channel has a
/// subscriber at this moment, it takes the event as its next one and the
/// result is the number of subscribers, which is at least 1; where it has
/// none, the event is dropped, the channel is as before, and the result is
/// `None`. Which of the two happens is up to the subscribers. It never
/// waits.
#[verifier::external_body]
fn broadcast_send(
    sender: &mut tokio::sync::broadcast::Sender<BridgeEvent>,
    event: BridgeEvent,
) -> (reached: Option<usize>)
    ensures
        match reached {
            Some(subscribers) => subscribers >= 1 && published_on(*final(sender)) == published_on(
                *old(sender),
            ).push(event@),
            None => published_on(*final(sender)) == published_on(*old(sender)),
        },
{
    sender.send(event).ok()
}

/// `tokio::sync::broadcast::Sender::subscribe`: a new receiving end, placed
/// behind every event that the channel has taken so far. So it is handed
/// the events that are sent after this call, and none of those sent before.
#[verifier::external_body]
fn broadcast_subscribe(sender: &tokio::sync::broadcast::Sender<BridgeEvent>) -> (receiver:
    tokio::sync::broadcast::Receiver<BridgeEvent>)
    ensures
        cursor_of(receiver) == position_after(published_on(*sender).len()),
{
    sender.subscribe()
}

impl EventHub {
    /// The events that the hub has published to at least one subscriber, in
    /// their order.
    pub closed spec fn published(&self) -> Seq<BridgeEventView> {
        published_on(self.sender)
    }

    /// A hub with no subscriber, which has published nothing.
    pub fn new() -> (hub: EventHub)
        ensures
            hub.published() == Seq::<BridgeEventView>::empty(),
    {
        EventHub { sender: broadcast_sender(EVENT_BUFFER) }
    }

    /// A new subscriber. It is placed behind everything that was published
    /// so far: it is handed the events published after this call and none of
    /// those published before.
    pub fn subscribe(&self) -> (receiver: tokio::sync::broadcast::Receiver<BridgeEvent>)
        ensures
            cursor_of(receiver) == position_after(self.published().len()),
    {
        broadcast_subscribe(&self.sender)
    }

    /// Publishes `event` to every subscriber there is, without waiting for
    /// any of them, and returns how many there were. With at least one the
    /// event is the next one published; with none it is dropped.
    pub fn publish(&mut self, event: BridgeEvent) -> (reached: usize)
        ensures
            final(self).published() == if reached > 0 {
                old(self).published().push(event@)
            } else {
                old(self).published()
            },
    {
        match broadcast_send(&mut self.sender, event) {
            Some(subscribers) => subscribers,
            None => 0,
        }
    }
}

} // verus!
