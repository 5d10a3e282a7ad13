//! The bridge itself: the table of requests in flight, the id counter and
//! the fuse, with one operation for everything that can happen to them.
//!
//! Nothing here reads or writes a stream. The caller hands in what was read
//! and what went wrong, and is handed back the line to write and the replies
//! to deliver.

use std::collections::HashMap;
use vstd::prelude::*;
use vstd::std_specs::hash::group_hash_axioms;
use vstd::std_specs::iter::IteratorSpec;
use crate::codec::InboundMessage;
use crate::codec::decode_line;
use crate::codec::decode_spec;
use crate::codec::encode_request;
use crate::codec::request_line;
use crate::error::BridgeError;
use crate::error::BridgeErrorView;
use crate::events::BridgeEvent;
use crate::events::EventHub;
use crate::events::cursor_of;
use crate::events::position_after;
use crate::json::json_of;
use crate::lifecycle::Lifecycle;
use crate::lifecycle::Trigger;
use crate::model::BridgeState;
use crate::model::Input;
use crate::model::carries_out;
use crate::model::event_of;
use crate::model::reply_for_all;
use crate::model::reply_for_one;
use crate::reply::Delivery;
use crate::reply::DeliveryView;
use crate::reply::Reply;
use crate::reply::ReplyReceiver;
use crate::reply::ReplySlot;
use crate::reply::WaitOutcome;
use crate::reply::complete_all;
use crate::reply::deliveries_view;
use crate::reply::reply_channel;
use crate::reply::reply_view;

verus! {

broadcast use group_hash_axioms;

/// The time a caller waits for its reply unless told otherwise, in
/// milliseconds.
pub const DEFAULT_TIMEOUT_MS: u64 = 10_000;

/// A request that was taken on: its id, the line to write to the worker,
/// and the end of its reply slot at which the caller waits.
#[derive(Debug)]
pub struct Ticket {
    pub id: u64,
    pub line: String,
    pub receiver: ReplyReceiver,
}

/// The bridge.
pub struct NodeBridge {
    phase: Lifecycle,
    next_id: u64,
    pending: HashMap<u64, ReplySlot>,
    notified: bool,
    deadline_ms: u64,
    events: EventHub,
}

impl View for NodeBridge {
    type V = BridgeState;

    closed spec fn view(&self) -> BridgeState {
        BridgeState {
            phase: self.phase,
            next_id: self.next_id,
            pending: self.pending@,
            notified: self.notified,
            deadline_ms: self.deadline_ms,
            published: self.events.published(),
        }
    }
}

impl NodeBridge {
    /// A bridge in its first state: starting, with nothing in flight, 1 as
    /// the first id, and the reference deadline of ten seconds.
    pub fn new() -> (bridge: NodeBridge)
        ensures
            bridge@ == BridgeState::initial(DEFAULT_TIMEOUT_MS),
            bridge@.wf(),
    {
        NodeBridge::with_deadline(DEFAULT_TIMEOUT_MS)
    }

    /// A bridge in its first state whose callers wait for `deadline_ms`
    /// milliseconds.
    pub fn with_deadline(deadline_ms: u64) -> (bridge: NodeBridge)
        ensures
            bridge@ == BridgeState::initial(deadline_ms),
            bridge@.wf(),
    {
        NodeBridge {
            phase: Lifecycle::Starting,
            next_id: 1,
            pending: HashMap::new(),
            notified: false,
            deadline_ms,
            events: EventHub::new(),
        }
    }

    /// Takes on a request, unless the fuse is set.
    ///
    /// On a bridge that accepts it, the request gets the next id, a new
    /// reply slot is put in flight under that id, and the line to write is
    /// handed back with the end of the slot at which the caller waits. On a
    /// dead bridge, and on one that has no id left, nothing changes and the
    /// answer is `Disconnected`: there is no line, so nothing is written.
    pub fn invoke(&mut self, method: &str, params: serde_json::Value) -> (taken: Result<
        Ticket,
        BridgeError,
    >)
        ensures
            invoked(old(self)@, final(self)@, taken, method@, json_of(params)),
            old(self)@.wf() ==> final(self)@.wf(),
    {
        if self.phase.dead() || self.next_id == u64::MAX {
            return Err(BridgeError::Disconnected);
        }
        let id: u64 = self.next_id;
        let (slot, receiver) = reply_channel();
        self.next_id = id + 1;
        self.pending.insert(id, slot);
        Ok(Ticket { id, line: encode_request(id, method, params), receiver })
    }

    /// Records that the worker was started: a starting bridge becomes ready.
    pub fn launched(&mut self)
        ensures
            final(self)@ == old(self)@.triggered(Trigger::Launched),
            old(self)@.wf() ==> final(self)@.wf(),
    {
        self.phase = self.phase.next(Trigger::Launched);
    }

    /// Routes a message of the worker.
    ///
    /// A reply is delivered to the request with exactly its id, which
    /// leaves the table; where no such request is in flight, the reply is
    /// dropped and nothing changes. An unparsable line fails every request
    /// that is in flight at this moment with `ParseFault`, and empties the
    /// table. An event is handed back to be published. A blank line and an
    /// unrecognized document do nothing. None of these sets the fuse.
    pub fn on_message(&mut self, message: InboundMessage) -> (routed: Routed)
        ensures
            final(self)@ == old(self)@.after_message(message@),
            old(self)@.wf() ==> final(self)@.wf(),
            carries_out(
                deliveries_view(routed.deliveries@),
                old(self)@.pending,
                old(self)@.replies_to(message@),
            ),
            routed.event_view() == event_of(message@),
    {
        match message {
            InboundMessage::Event(event) => Routed { deliveries: Vec::new(), event: Some(event) },
            InboundMessage::Response { id, outcome } => {
                let reply: Reply = match outcome {
                    Ok(result) => Ok(result),
                    Err(text) => Err(BridgeError::Rpc(text)),
                };
                let deliveries = take_one(&mut self.pending, id, reply);
                Routed { deliveries, event: None }
            },
            InboundMessage::Unparsable { reason, .. } => {
                let fault = BridgeError::ParseFault(reason);
                let deliveries = take_all(&mut self.pending, &fault);
                Routed { deliveries, event: None }
            },
            _ => Routed { deliveries: Vec::new(), event: None },
        }
    }

    /// Decodes a line of the worker's output and routes it.
    pub fn on_line(&mut self, line: &str) -> (routed: Routed)
        ensures
            final(self)@ == old(self)@.after_message(decode_spec(line@)),
            old(self)@.wf() ==> final(self)@.wf(),
            carries_out(
                deliveries_view(routed.deliveries@),
                old(self)@.pending,
                old(self)@.replies_to(decode_spec(line@)),
            ),
            routed.event_view() == event_of(decode_spec(line@)),
    {
        self.on_message(decode_line(line))
    }

    /// Records that the worker's output ended: the fuse is set and every
    /// request in flight is failed with `Disconnected`. The user is to be
    /// told once, so `notify` is set the first time only.
    pub fn on_end_of_stream(&mut self) -> (shutoff: Shutoff)
        ensures
            final(self)@ == old(self)@.after_end_of_stream(),
            old(self)@.wf() ==> final(self)@.wf(),
            carries_out(
                deliveries_view(shutoff.deliveries@),
                old(self)@.pending,
                old(self)@.reply_to_all(Err(BridgeErrorView::Disconnected)),
            ),
            shutoff.notify == !old(self)@.notified,
    {
        let notify = !self.notified;
        self.notified = true;
        self.phase = self.phase.next(Trigger::EndOfStream);
        let deliveries = take_all(&mut self.pending, &BridgeError::Disconnected);
        Shutoff { deliveries, notify }
    }

    /// Records that the request `id` could not be written: the fuse is set,
    /// for good, and that request alone is failed with `Disconnected`. The
    /// other requests in flight stay there until their callers give up. The
    /// caller of `id` is answered `Disconnected`, which is handed back as the
    /// answer.
    pub fn on_write_failure(&mut self, id: u64) -> (failed: Failed)
        ensures
            final(self)@ == old(self)@.after_write_failure(id),
            old(self)@.wf() ==> final(self)@.wf(),
            carries_out(
                deliveries_view(failed.deliveries@),
                old(self)@.pending,
                old(self)@.reply_to_one(id, Err(BridgeErrorView::Disconnected)),
            ),
            failed.answer@ == BridgeErrorView::Disconnected,
    {
        self.phase = self.phase.next(Trigger::WriteFailed);
        let deliveries = take_one(&mut self.pending, id, Err(BridgeError::Disconnected));
        Failed { deliveries, answer: BridgeError::Disconnected }
    }

    /// Ends the wait of the caller of `id` and says what the caller is told:
    /// the reply that was put into its slot, `ChannelClosed` where the slot
    /// was dropped, `Timeout` where the deadline passed. After a timeout the
    /// request is out of flight, so a reply that comes later finds nothing
    /// and is dropped.
    pub fn conclude(&mut self, id: u64, outcome: WaitOutcome) -> (told: Reply)
        ensures
            final(self)@ == old(self)@.after_wait(id, outcome@),
            old(self)@.wf() ==> final(self)@.wf(),
            reply_view(told) == outcome@.conclusion(),
    {
        match outcome {
            WaitOutcome::Replied(reply) => reply,
            WaitOutcome::Closed => Err(BridgeError::ChannelClosed),
            WaitOutcome::Elapsed => {
                self.pending.remove(&id);
                Err(BridgeError::Timeout)
            },
        }
    }

    /// Whether the fuse is set.
    pub fn is_dead(&self) -> (dead: bool)
        ensures
            dead == self@.is_dead(),
    {
        self.phase.dead()
    }

    /// Where the bridge stands.
    pub fn phase(&self) -> (phase: Lifecycle)
        ensures
            phase == self@.phase,
    {
        self.phase
    }

    /// How long a caller waits for its reply, in milliseconds.
    pub fn deadline_ms(&self) -> (deadline_ms: u64)
        ensures
            deadline_ms == self@.deadline_ms,
    {
        self.deadline_ms
    }

    /// Whether the request `id` is in flight.
    pub fn is_pending(&self, id: u64) -> (pending: bool)
        ensures
            pending == self@.pending.contains_key(id),
    {
        self.pending.contains_key(&id)
    }

    /// The number of requests in flight.
    pub fn pending_count(&self) -> (count: usize)
        ensures
            count == self@.pending.len(),
    {
        self.pending.len()
    }

    /// A new subscriber to the worker's events. It is placed behind
    /// everything that was published so far: it is handed the events that
    /// are published from now on, and none of the earlier ones.
    pub fn subscribe(&self) -> (receiver: tokio::sync::broadcast::Receiver<BridgeEvent>)
        ensures
            cursor_of(receiver) == position_after(self@.published.len()),
    {
        self.events.subscribe()
    }

    /// Publishes an event of the worker to every subscriber there is, and
    /// returns how many there were. It never waits for a subscriber. With
    /// at least one the event is the next one published; with none it is
    /// dropped. Nothing else of the bridge changes.
    pub fn publish(&mut self, event: BridgeEvent) -> (reached: usize)
        ensures
            final(self)@ == old(self)@.after_publish(event@, reached as nat),
            old(self)@.wf() ==> final(self)@.wf(),
    {
        self.events.publish(event)
    }

    /// Does what routing a message left to do: completes the deliveries and
    /// publishes the event, if there is one. The result says how many
    /// callers were still waiting and how many subscribers there were.
    pub fn carry_out(&mut self, routed: Routed) -> (done: CarriedOut)
        ensures
            done.accepted <= routed.deliveries@.len(),
            final(self)@ == match routed.event_view() {
                Some(event) => old(self)@.after_publish(event, done.reached as nat),
                None => old(self)@,
            },
            routed.event is None ==> done.reached == 0,
            old(self)@.wf() ==> final(self)@.wf(),
    {
        let accepted = complete_all(routed.deliveries);
        let reached = match routed.event {
            Some(event) => self.events.publish(event),
            None => 0,
        };
        CarriedOut { accepted, reached }
    }
}

/// A new bridge, and the subscriber that passes every event of the worker
/// on to the host application's own bus. That subscriber is made before
/// anything is published, so it stands at the first position and misses
/// nothing.
pub fn init_bridge() -> (parts: (NodeBridge, tokio::sync::broadcast::Receiver<BridgeEvent>))
    ensures
        parts.0@ == BridgeState::initial(DEFAULT_TIMEOUT_MS),
        parts.0@.wf(),
        cursor_of(parts.1) == 0,
{
    let bridge = NodeBridge::new();
    let forwarder = bridge.subscribe();
    (bridge, forwarder)
}

/// Whether `taken` and `after` are what taking on the request `method` with
/// `params` at the bridge `before` gives. On a bridge that accepts it, the
/// request is in flight under the next id, with a slot of its own, and the
/// line to write carries that id, the method and the parameters. On any
/// other, nothing changes and the answer is `Disconnected`.
pub open spec fn invoked(
    before: BridgeState,
    after: BridgeState,
    taken: Result<Ticket, BridgeError>,
    method: Seq<char>,
    params: crate::json::Json,
) -> bool {
    match taken {
        Ok(ticket) => {
            &&& before.accepts()
            &&& ticket.id == before.next_id
            &&& ticket.line@ == request_line(ticket.id, method, params)
            &&& after.pending.contains_key(ticket.id)
            &&& after == before.step(Input::Invoke(after.pending[ticket.id]))
        },
        Err(error) => {
            &&& !before.accepts()
            &&& error@ == BridgeErrorView::Disconnected
            &&& after == before
        },
    }
}

/// What routing a message leaves to do: the replies to deliver, and the
/// event to publish.
pub struct Routed {
    pub deliveries: Vec<Delivery>,
    pub event: Option<BridgeEvent>,
}

impl Routed {
    /// The event to publish, as a view.
    pub open spec fn event_view(self) -> Option<crate::events::BridgeEventView> {
        match self.event {
            Some(event) => Some(event@),
            None => None,
        }
    }
}

/// What carrying out a routing did: how many callers got their reply, and
/// how many subscribers the event was published to.
#[derive(Debug, Clone, Copy, PartialEq, Eq)]
pub struct CarriedOut {
    pub accepted: usize,
    pub reached: usize,
}

/// What a failed write leaves to do: the reply to deliver, if the request
/// was still in flight, and what its caller is answered.
pub struct Failed {
    pub deliveries: Vec<Delivery>,
    pub answer: BridgeError,
}

/// What the end of the worker's output leaves to do: the replies to
/// deliver, and whether to tell the user.
pub struct Shutoff {
    pub deliveries: Vec<Delivery>,
    pub notify: bool,
}

/// Takes the request `id` out of the table, with the reply for it.
fn take_one(table: &mut HashMap<u64, ReplySlot>, id: u64, reply: Reply) -> (deliveries: Vec<
    Delivery,
>)
    ensures
        final(table)@ == old(table)@.remove(id),
        carries_out(
            deliveries_view(deliveries@),
            old(table)@,
            reply_for_one(old(table)@, id, reply_view(reply)),
        ),
{
    let mut deliveries: Vec<Delivery> = Vec::new();
    match table.remove(&id) {
        Some(slot) => {
            deliveries.push(Delivery { id, slot, reply });
            assert(deliveries_view(deliveries@)[0].id == id);
        },
        None => {},
    }
    deliveries
}

/// The ids of the requests in the table, each once, in no particular order.
fn ids_of(table: &HashMap<u64, ReplySlot>) -> (ids: Vec<u64>)
    ensures
        ids@.no_duplicates(),
        forall|id: u64| table@.contains_key(id) <==> ids@.contains(id),
        ids@.len() == table@.dom().len(),
{
    let mut ids: Vec<u64> = Vec::new();
    let keys = table.keys();
    let ghost all = keys.remaining();
    for id in it: keys
        invariant
            it.seq() == all,
            ids@.len() == it.index(),
            forall|i: int| 0 <= i < it.index() ==> ids@[i] == *(#[trigger] all[i]),
    {
        ids.push(*id);
    }
    proof {
        assert(ids@ =~= all.unref());
        assert(forall|id: u64| table@.dom().contains(id) <==> all.unref().to_set().contains(id));
    }
    ids
}

/// Takes every request out of the table, each with a reply that holds
/// `error`.
fn take_all(table: &mut HashMap<u64, ReplySlot>, error: &BridgeError) -> (deliveries: Vec<Delivery>)
    ensures
        final(table)@ == Map::<u64, ReplySlot>::empty(),
        carries_out(
            deliveries_view(deliveries@),
            old(table)@,
            reply_for_all(old(table)@, Err(error@)),
        ),
{
    let ghost before = table@;
    let ids = ids_of(table);
    let mut deliveries: Vec<Delivery> = Vec::new();
    let mut at: usize = 0;
    proof {
        assert forall|j: int| 0 <= j < ids@.len() implies table@.contains_key(
            #[trigger] ids@[j],
        ) by {
            assert(ids@.contains(ids@[j]));
        }
    }
    while at < ids.len()
        invariant
            at <= ids.len(),
            ids@.no_duplicates(),
            forall|id: u64| before.contains_key(id) <==> ids@.contains(id),
            ids@.len() == before.dom().len(),
            forall|j: int| at <= j < ids@.len() ==> table@.contains_key(#[trigger] ids@[j]),
            forall|j: int| 0 <= j < at ==> !table@.contains_key(#[trigger] ids@[j]),
            forall|id: u64| table@.contains_key(id) ==> before.contains_key(id),
            forall|id: u64| table@.contains_key(id) ==> table@[id] == before[id],
            deliveries@.len() == at,
            forall|i: int|
                0 <= i < at ==> (#[trigger] deliveries@[i])@ == (DeliveryView {
                    id: ids@[i],
                    slot: before[ids@[i]],
                    reply: Err(error@),
                }),
        decreases ids.len() - at,
    {
        let id: u64 = ids[at];
        match table.remove(&id) {
            Some(slot) => {
                deliveries.push(Delivery { id, slot, reply: Err(error.duplicate()) });
            },
            None => {
                assert(false);
            },
        }
        at = at + 1;
    }
    proof {
        assert forall|id: u64| !table@.contains_key(id) by {
            if table@.contains_key(id) {
                assert(ids@.contains(id));
                let j = choose|j: int| 0 <= j < ids@.len() && ids@[j] == id;
                assert(!table@.contains_key(ids@[j]));
            }
        }
        assert(table@ =~= Map::<u64, ReplySlot>::empty());
        let views = deliveries_view(deliveries@);
        assert(reply_for_all(before, Err(error@)).dom() =~= before.dom());
        assert forall|id: u64| before.contains_key(id) implies exists|i: int|
            0 <= i < views.len() && (#[trigger] views[i]).id == id by {
            assert(ids@.contains(id));
            let i = choose|i: int| 0 <= i < ids@.len() && ids@[i] == id;
            assert(views[i].id == id);
        }
    }
    deliveries
}

} // verus!
