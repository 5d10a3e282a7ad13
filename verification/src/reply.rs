//! Reply slots: the single-use channels through which a waiting caller is
//! told how its request ended.

use vstd::prelude::*;
use crate::error::BridgeError;
use crate::error::BridgeErrorView;
use crate::json::Json;
use crate::json::json_of;

verus! {

/// `tokio::sync::oneshot::Sender`: the end of a reply slot into which the
/// reply is put, once.
#[verifier::external_type_specification]
#[verifier::external_body]
#[verifier::reject_recursive_types(T)]
pub struct ExOneshotSender<T>(tokio::sync::oneshot::Sender<T>);

/// `tokio::sync::oneshot::Receiver`: the end of a reply slot at which the
/// caller waits.
#[verifier::external_type_specification]
#[verifier::external_body]
#[verifier::reject_recursive_types(T)]
pub struct ExOneshotReceiver<T>(tokio::sync::oneshot::Receiver<T>);

/// `tokio::sync::oneshot::error::RecvError`: what the wait at a reply slot
/// gives when the other end was dropped with nothing in it.
#[verifier::external_type_specification]
#[verifier::external_body]
pub struct ExOneshotRecvError(tokio::sync::oneshot::error::RecvError);

/// How a request ended, as far as the reader or the bridge can tell: the
/// worker's result, or the error that ends the wait.
pub type Reply = Result<serde_json::Value, BridgeError>;

/// The end of a reply slot that the bridge keeps.
pub type ReplySlot = tokio::sync::oneshot::Sender<Reply>;

/// The end of a reply slot that the caller keeps.
pub type ReplyReceiver = tokio::sync::oneshot::Receiver<Reply>;

/// What a [`Reply`] holds.
pub type ReplyView = Result<Json, BridgeErrorView>;

/// What a [`Reply`] holds.
pub open spec fn reply_view(reply: Reply) -> ReplyView {
    match reply {
        Ok(value) => Ok(json_of(value)),
        Err(error) => Err(error@),
    }
}

/// The reply that the outcome of a worker's answer makes: the result as it
/// is, and the worker's error text as an `Rpc` error.
pub open spec fn reply_of_outcome(outcome: Result<Json, Seq<char>>) -> ReplyView {
    match outcome {
        Ok(result) => Ok(result),
        Err(text) => Err(BridgeErrorView::Rpc(text)),
    }
}

/// A reply on its way: the request it belongs to, that request's slot, and
/// what is put into the slot.
pub struct Delivery {
    pub id: u64,
    pub slot: ReplySlot,
    pub reply: Reply,
}

/// What a [`Delivery`] holds.
pub struct DeliveryView {
    pub id: u64,
    pub slot: ReplySlot,
    pub reply: ReplyView,
}

impl View for Delivery {
    type V = DeliveryView;

    open spec fn view(&self) -> DeliveryView {
        DeliveryView { id: self.id, slot: self.slot, reply: reply_view(self.reply) }
    }
}

/// The views of a list of deliveries, one for one.
pub open spec fn deliveries_view(list: Seq<Delivery>) -> Seq<DeliveryView> {
    Seq::new(list.len(), |i: int| list[i]@)
}

/// `tokio::sync::oneshot::channel`: the two ends of a new reply slot.
#[verifier::external_body]
pub(crate) fn reply_channel() -> (ends: (ReplySlot, ReplyReceiver)) {
    tokio::sync::oneshot::channel()
}

/// `tokio::sync::oneshot::Sender::send`: puts the reply into the slot, which
/// is used up by it. The result says whether the receiving end was still
/// there; where it was not, the reply is lost.
#[verifier::external_body]
fn slot_send(slot: ReplySlot, reply: Reply) -> (accepted: bool) {
    slot.send(reply).is_ok()
}

impl Delivery {
    /// Puts the reply into the slot. The result says whether the caller was
    /// still waiting; a caller that has given up loses the reply, and nobody
    /// else is affected.
    pub fn complete(self) -> (accepted: bool) {
        slot_send(self.slot, self.reply)
    }
}

/// How many of a list of outcomes are `true`.
pub open spec fn count_accepted(outcomes: Seq<bool>) -> nat
    decreases outcomes.len(),
{
    if outcomes.len() == 0 {
        0
    } else {
        count_accepted(outcomes.drop_last()) + if outcomes.last() {
            1nat
        } else {
            0nat
        }
    }
}

/// How many callers were still waiting, given for each delivery whether
/// its caller was.
pub fn tally(outcomes: &Vec<bool>) -> (accepted: usize)
    ensures
        accepted == count_accepted(outcomes@),
        accepted <= outcomes@.len(),
{
    let mut accepted: usize = 0;
    let mut at: usize = 0;
    while at < outcomes.len()
        invariant
            at <= outcomes.len(),
            accepted == count_accepted(outcomes@.subrange(0, at as int)),
            accepted <= at,
        decreases outcomes.len() - at,
    {
        proof {
            let upto = outcomes@.subrange(0, at as int + 1);
            assert(upto.drop_last() =~= outcomes@.subrange(0, at as int));
            assert(upto.last() == outcomes@[at as int]);
        }
        if outcomes[at] {
            accepted = accepted + 1;
        }
        at = at + 1;
    }
    assert(outcomes@.subrange(0, at as int) =~= outcomes@);
    accepted
}

/// Completes each delivery of the list and returns how many of them found
/// their caller waiting. Whether a caller still waits is up to the caller,
/// so the number is anything from none to all of them.
pub fn complete_all(deliveries: Vec<Delivery>) -> (accepted: usize)
    ensures
        accepted <= deliveries@.len(),
{
    let mut deliveries = deliveries;
    let mut outcomes: Vec<bool> = Vec::new();
    let total: usize = deliveries.len();
    while deliveries.len() > 0
        invariant
            outcomes@.len() + deliveries@.len() == total,
        decreases deliveries@.len(),
    {
        match deliveries.pop() {
            Some(delivery) => {
                outcomes.push(delivery.complete());
            },
            None => {},
        }
    }
    tally(&outcomes)
}

/// How the wait at a reply slot ended.
#[derive(Debug, PartialEq)]
pub enum WaitOutcome {
    /// A reply was put into the slot.
    Replied(Reply),
    /// The slot was dropped with nothing in it.
    Closed,
    /// The deadline passed.
    Elapsed,
}

/// What a [`WaitOutcome`] holds.
pub enum WaitOutcomeView {
    Replied(ReplyView),
    Closed,
    Elapsed,
}

impl View for WaitOutcome {
    type V = WaitOutcomeView;

    open spec fn view(&self) -> WaitOutcomeView {
        match self {
            WaitOutcome::Replied(reply) => WaitOutcomeView::Replied(reply_view(*reply)),
            WaitOutcome::Closed => WaitOutcomeView::Closed,
            WaitOutcome::Elapsed => WaitOutcomeView::Elapsed,
        }
    }
}

impl WaitOutcomeView {
    /// What the caller is told: the reply where there is one,
    /// `ChannelClosed` where the slot was dropped, `Timeout` where the
    /// deadline passed.
    pub open spec fn conclusion(self) -> ReplyView {
        match self {
            WaitOutcomeView::Replied(reply) => reply,
            WaitOutcomeView::Closed => Err(BridgeErrorView::ChannelClosed),
            WaitOutcomeView::Elapsed => Err(BridgeErrorView::Timeout),
        }
    }
}

} // verus!
