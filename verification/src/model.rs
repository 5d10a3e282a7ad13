//! The bridge as a state machine: what it holds, what each input does to it,
//! and which waiting callers each input answers.

use vstd::prelude::*;
use crate::codec::InboundView;
use crate::error::BridgeErrorView;
use crate::events::BridgeEventView;
use crate::lifecycle::Lifecycle;
use crate::lifecycle::Trigger;
use crate::reply::DeliveryView;
use crate::reply::ReplySlot;
use crate::reply::ReplyView;
use crate::reply::WaitOutcomeView;
use crate::reply::reply_of_outcome;

verus! {

/// What the bridge holds.
pub struct BridgeState {
    /// Where the bridge stands. `Dead` is the fuse.
    pub phase: Lifecycle,
    /// The id that the next request gets. Ids start at 1 and only grow.
    pub next_id: u64,
    /// The requests in flight: the slot of each, by id.
    pub pending: Map<u64, ReplySlot>,
    /// Whether the user has been told that the worker is lost.
    pub notified: bool,
    /// How long a caller waits for its reply, in milliseconds.
    pub deadline_ms: u64,
    /// The events that were published to at least one subscriber, in their
    /// order.
    pub published: Seq<BridgeEventView>,
}

/// Something that happens to the bridge.
pub enum Input {
    /// The worker was started.
    Launched,
    /// A caller makes a request and waits at the other end of this slot.
    Invoke(ReplySlot),
    /// The request with this id could not be written to the worker.
    WriteFailed(u64),
    /// The caller of the request with this id stopped waiting.
    Waited(u64, WaitOutcomeView),
    /// The worker wrote a line.
    Line(InboundView),
    /// The worker's output ended.
    EndOfStream,
    /// An event of the worker was published to at least one subscriber.
    Published(BridgeEventView),
}

impl BridgeState {
    /// The state of a new bridge whose callers wait for `deadline_ms`.
    pub open spec fn initial(deadline_ms: u64) -> BridgeState {
        BridgeState {
            phase: Lifecycle::Starting,
            next_id: 1,
            pending: Map::empty(),
            notified: false,
            deadline_ms,
            published: Seq::empty(),
        }
    }

    /// What holds of every bridge: the ids in flight are finitely many, and
    /// each was handed out already.
    pub open spec fn wf(self) -> bool {
        &&& self.next_id >= 1
        &&& self.pending.dom().finite()
        &&& forall|id: u64| self.pending.contains_key(id) ==> 1 <= id < self.next_id
    }

    /// Whether the fuse is set.
    pub open spec fn is_dead(self) -> bool {
        self.phase.is_dead()
    }

    /// Whether a request is taken on: the fuse is not set, and an id is left.
    pub open spec fn accepts(self) -> bool {
        !self.is_dead() && self.next_id < u64::MAX
    }

    /// The state with `slot` in flight under the next id.
    pub open spec fn registered(self, slot: ReplySlot) -> BridgeState {
        BridgeState {
            next_id: (self.next_id + 1) as u64,
            pending: self.pending.insert(self.next_id, slot),
            ..self
        }
    }

    /// The state without the request `id`.
    pub open spec fn without(self, id: u64) -> BridgeState {
        BridgeState { pending: self.pending.remove(id), ..self }
    }

    /// The state with no request in flight.
    pub open spec fn drained(self) -> BridgeState {
        BridgeState { pending: Map::empty(), ..self }
    }

    /// The state with the fuse set by `trigger`.
    pub open spec fn triggered(self, trigger: Trigger) -> BridgeState {
        BridgeState { phase: self.phase.after(trigger), ..self }
    }

    /// The state with `event` as the last one published.
    pub open spec fn with_event(self, event: BridgeEventView) -> BridgeState {
        BridgeState { published: self.published.push(event), ..self }
    }

    /// The state after an event was offered to `reached` subscribers: with
    /// at least one it is the last one published, with none it is dropped.
    pub open spec fn after_publish(self, event: BridgeEventView, reached: nat) -> BridgeState {
        if reached > 0 {
            self.with_event(event)
        } else {
            self
        }
    }

    /// The state after a caller asked for a request. A bridge that does not
    /// accept it stays as it is.
    pub open spec fn after_invoke(self, slot: ReplySlot) -> BridgeState {
        if self.accepts() {
            self.registered(slot)
        } else {
            self
        }
    }

    /// The state after a message of the worker. A reply takes its request
    /// out of flight, an unparsable line takes all of them, and nothing else
    /// changes anything. The fuse is never touched.
    pub open spec fn after_message(self, message: InboundView) -> BridgeState {
        match message {
            InboundView::Response { id, .. } => self.without(id),
            InboundView::Unparsable { .. } => self.drained(),
            _ => self,
        }
    }

    /// The state after the worker's output ended: the fuse is set, nothing
    /// is in flight, and the user has been told.
    pub open spec fn after_end_of_stream(self) -> BridgeState {
        BridgeState { notified: true, ..self.drained().triggered(Trigger::EndOfStream) }
    }

    /// The state after the request `id` could not be written: the fuse is
    /// set and that request is out of flight. The others stay.
    pub open spec fn after_write_failure(self, id: u64) -> BridgeState {
        self.without(id).triggered(Trigger::WriteFailed)
    }

    /// The state after the caller of `id` stopped waiting. Where the
    /// deadline passed, the request is taken out of flight, so that a late
    /// reply finds nothing.
    pub open spec fn after_wait(self, id: u64, outcome: WaitOutcomeView) -> BridgeState {
        match outcome {
            WaitOutcomeView::Elapsed => self.without(id),
            _ => self,
        }
    }

    /// The one reply `reply` for the request `id` where it is in flight, and
    /// no reply where it is not.
    pub open spec fn reply_to_one(self, id: u64, reply: ReplyView) -> Map<u64, ReplyView> {
        reply_for_one(self.pending, id, reply)
    }

    /// The reply `reply` for every request in flight.
    pub open spec fn reply_to_all(self, reply: ReplyView) -> Map<u64, ReplyView> {
        reply_for_all(self.pending, reply)
    }

    /// The replies that a message of the worker causes, by request. A reply
    /// goes to the request with exactly its id, if that is in flight; an
    /// unparsable line fails every request in flight with `ParseFault`.
    pub open spec fn replies_to(self, message: InboundView) -> Map<u64, ReplyView> {
        match message {
            InboundView::Response { id, outcome } => self.reply_to_one(
                id,
                reply_of_outcome(outcome),
            ),
            InboundView::Unparsable { reason, .. } => self.reply_to_all(
                Err(BridgeErrorView::ParseFault(reason)),
            ),
            _ => Map::empty(),
        }
    }

    /// How each request that `input` takes out of flight ends, by id.
    pub open spec fn resolutions(self, input: Input) -> Map<u64, ReplyView> {
        match input {
            Input::Line(message) => self.replies_to(message),
            Input::EndOfStream => self.reply_to_all(Err(BridgeErrorView::Disconnected)),
            Input::WriteFailed(id) => self.reply_to_one(id, Err(BridgeErrorView::Disconnected)),
            Input::Waited(id, WaitOutcomeView::Elapsed) => self.reply_to_one(
                id,
                Err(BridgeErrorView::Timeout),
            ),
            _ => Map::empty(),
        }
    }

    /// The state after `input`.
    pub open spec fn step(self, input: Input) -> BridgeState {
        match input {
            Input::Launched => self.triggered(Trigger::Launched),
            Input::Invoke(slot) => self.after_invoke(slot),
            Input::WriteFailed(id) => self.after_write_failure(id),
            Input::Waited(id, outcome) => self.after_wait(id, outcome),
            Input::Line(message) => self.after_message(message),
            Input::EndOfStream => self.after_end_of_stream(),
            Input::Published(event) => self.with_event(event),
        }
    }

    /// The state after each of `inputs` in turn.
    pub open spec fn run(self, inputs: Seq<Input>) -> BridgeState
        decreases inputs.len(),
    {
        if inputs.len() == 0 {
            self
        } else {
            self.run(inputs.drop_last()).step(inputs.last())
        }
    }
}

/// The one reply `reply` for the request `id` where `pending` holds it, and
/// no reply where it does not.
pub open spec fn reply_for_one(pending: Map<u64, ReplySlot>, id: u64, reply: ReplyView) -> Map<
    u64,
    ReplyView,
> {
    if pending.contains_key(id) {
        Map::empty().insert(id, reply)
    } else {
        Map::empty()
    }
}

/// The reply `reply` for every request that `pending` holds.
pub open spec fn reply_for_all(pending: Map<u64, ReplySlot>, reply: ReplyView) -> Map<
    u64,
    ReplyView,
> {
    Map::new(|id: u64| pending.contains_key(id), |id: u64| reply)
}

/// The event that a message of the worker carries, if it is one.
pub open spec fn event_of(message: InboundView) -> Option<BridgeEventView> {
    match message {
        InboundView::Event(event) => Some(event),
        _ => None,
    }
}

/// Whether a list of deliveries carries out `replies`: each reply is there
/// once, for its own request and with the slot that was in flight for it,
/// and nothing else is there. So the list is as long as there are replies.
pub open spec fn carries_out(
    deliveries: Seq<DeliveryView>,
    pending: Map<u64, ReplySlot>,
    replies: Map<u64, ReplyView>,
) -> bool {
    &&& forall|i: int|
        0 <= i < deliveries.len() ==> {
            &&& replies.contains_key((#[trigger] deliveries[i]).id)
            &&& deliveries[i].reply == replies[deliveries[i].id]
            &&& deliveries[i].slot == pending[deliveries[i].id]
        }
    &&& forall|i: int, j: int|
        0 <= i < j < deliveries.len() ==> (#[trigger] deliveries[i]).id != (
        #[trigger] deliveries[j]).id
    &&& forall|id: u64| #[trigger]
        replies.contains_key(id) ==> exists|i: int|
            0 <= i < deliveries.len() && (#[trigger] deliveries[i]).id == id
    &&& deliveries.len() == replies.dom().len()
}

} // verus!
