//! What holds of the bridge over every course of events.

use vstd::prelude::*;
use crate::codec::InboundView;
use crate::error::BridgeErrorView;
use crate::events::BridgeEventView;
use crate::events::position_after;
use crate::json::Json;
use crate::lifecycle::Lifecycle;
use crate::lifecycle::ShutdownAction;
use crate::lifecycle::ShutdownEvent;
use crate::lifecycle::ShutdownStage;
use crate::lifecycle::StopOutcome;
use crate::lifecycle::Trigger;
use crate::lifecycle::worker_runs_after;
use crate::model::BridgeState;
use crate::model::Input;
use crate::reply::ReplySlot;
use crate::reply::ReplyView;
use crate::reply::WaitOutcomeView;

verus! {

/// Every input leaves a well-formed bridge well-formed, never lowers the
/// id counter, and never clears the fuse.
pub proof fn lemma_step_keeps_order(state: BridgeState, input: Input)
    requires
        state.wf(),
    ensures
        state.step(input).wf(),
        state.step(input).next_id >= state.next_id,
        state.is_dead() ==> state.step(input).is_dead(),
{
}

/// What an input resolves was in flight before it and is not after it.
pub proof fn lemma_resolved_leaves(state: BridgeState, input: Input, id: u64)
    requires
        state.wf(),
        state.resolutions(input).contains_key(id),
    ensures
        state.pending.contains_key(id),
        id < state.next_id,
        !state.step(input).pending.contains_key(id),
{
}

/// An id that was handed out and is no longer in flight is not put in
/// flight again by any input.
pub proof fn lemma_step_keeps_gone(state: BridgeState, input: Input, id: u64)
    requires
        state.wf(),
        id < state.next_id,
        !state.pending.contains_key(id),
    ensures
        !state.step(input).pending.contains_key(id),
        state.resolutions(input).contains_key(id) == false,
{
}

/// Over any course of events a well-formed bridge stays well-formed, its id
/// counter does not fall, a set fuse stays set, and an id that was handed
/// out and is no longer in flight stays out of flight.
pub proof fn lemma_run_keeps_order(state: BridgeState, inputs: Seq<Input>, id: u64)
    requires
        state.wf(),
    ensures
        state.run(inputs).wf(),
        state.run(inputs).next_id >= state.next_id,
        state.is_dead() ==> state.run(inputs).is_dead(),
        id < state.next_id && !state.pending.contains_key(id) ==> !state.run(
            inputs,
        ).pending.contains_key(id),
    decreases inputs.len(),
{
    if inputs.len() > 0 {
        lemma_run_keeps_order(state, inputs.drop_last(), id);
        let before = state.run(inputs.drop_last());
        lemma_step_keeps_order(before, inputs.last());
        if id < state.next_id && !state.pending.contains_key(id) {
            lemma_step_keeps_gone(before, inputs.last(), id);
        }
    }
}

/// Running two courses of events one after the other is running them as
/// one.
pub proof fn lemma_run_in_two(state: BridgeState, first: Seq<Input>, second: Seq<Input>)
    ensures
        state.run(first + second) == state.run(first).run(second),
    decreases second.len(),
{
    if second.len() == 0 {
        assert(first + second =~= first);
    } else {
        lemma_run_in_two(state, first, second.drop_last());
        assert((first + second).drop_last() =~= first + second.drop_last());
        assert((first + second).last() == second.last());
    }
}

/// No request is resolved twice.
///
/// Take any course of events from a well-formed bridge, and two different
/// moments in it. Whatever the input at the earlier moment resolves, the
/// input at the later moment does not resolve: a reply, a parse fault, the
/// end of the stream, a failed write and a timeout each take a request out
/// of flight, and nothing puts it back.
pub proof fn lemma_resolved_at_most_once(
    state: BridgeState,
    inputs: Seq<Input>,
    earlier: int,
    later: int,
    id: u64,
)
    requires
        state.wf(),
        0 <= earlier < later < inputs.len(),
        state.run(inputs.subrange(0, earlier)).resolutions(inputs[earlier]).contains_key(id),
    ensures
        !state.run(inputs.subrange(0, later)).resolutions(inputs[later]).contains_key(id),
{
    let head = inputs.subrange(0, earlier);
    let upto = inputs.subrange(0, earlier + 1);
    let between = inputs.subrange(earlier + 1, later);
    let at_earlier = state.run(head);
    lemma_run_keeps_order(state, head, id);
    lemma_resolved_leaves(at_earlier, inputs[earlier], id);
    let after_earlier = at_earlier.step(inputs[earlier]);
    lemma_step_keeps_order(at_earlier, inputs[earlier]);
    assert(upto.drop_last() =~= head);
    assert(upto.last() == inputs[earlier]);
    assert(state.run(upto) == after_earlier);
    lemma_run_keeps_order(after_earlier, between, id);
    lemma_run_in_two(state, upto, between);
    assert(upto + between =~= inputs.subrange(0, later));
    let at_later = state.run(inputs.subrange(0, later));
    assert(at_later == after_earlier.run(between));
    lemma_step_keeps_gone(at_later, inputs[later], id);
}

/// Whatever resolves a request resolves it in one of five ways: with the
/// worker's result, with the worker's error, with a parse fault, with
/// `Disconnected`, or with `Timeout`.
pub proof fn lemma_resolution_kinds(state: BridgeState, input: Input, id: u64)
    requires
        state.resolutions(input).contains_key(id),
    ensures
        ({
            let reply = state.resolutions(input)[id];
            ||| reply is Ok
            ||| reply matches Err(BridgeErrorView::Rpc(_))
            ||| reply matches Err(BridgeErrorView::ParseFault(_))
            ||| reply == Err::<Json, BridgeErrorView>(BridgeErrorView::Disconnected)
            ||| reply == Err::<Json, BridgeErrorView>(BridgeErrorView::Timeout)
        }),
{
}

/// No request stays in flight for ever: when the deadline of its caller
/// passes, a request that nothing else has resolved is resolved with
/// `Timeout` and is out of flight, and no other request is touched.
pub proof fn lemma_deadline_resolves_its_own_request(state: BridgeState, id: u64, other: u64)
    requires
        state.wf(),
        state.pending.contains_key(id),
        other != id,
    ensures
        ({
            let elapsed = Input::Waited(id, WaitOutcomeView::Elapsed);
            &&& state.resolutions(elapsed).contains_key(id)
            &&& state.resolutions(elapsed)[id] == Err::<Json, BridgeErrorView>(
                BridgeErrorView::Timeout,
            )
            &&& !state.resolutions(elapsed).contains_key(other)
            &&& !state.step(elapsed).pending.contains_key(id)
            &&& state.step(elapsed).pending.contains_key(other) == state.pending.contains_key(
                other,
            )
        }),
{
}

/// A line that is no JSON fails every request that is in flight at that
/// moment with `ParseFault`, and leaves the bridge as usable as it was: the
/// fuse and the id counter are untouched, and a request made next is taken
/// on if one would have been taken on before.
pub proof fn lemma_parse_fault_fails_all_and_keeps_fuse(
    state: BridgeState,
    raw: Seq<char>,
    reason: Seq<char>,
    slot: ReplySlot,
)
    requires
        state.wf(),
    ensures
        ({
            let fault = Input::Line(InboundView::Unparsable { raw, reason });
            let after = state.step(fault);
            &&& forall|id: u64| #[trigger]
                state.pending.contains_key(id) ==> state.resolutions(fault).contains_key(id)
                    && state.resolutions(fault)[id] == Err::<Json, BridgeErrorView>(
                    BridgeErrorView::ParseFault(reason),
                )
            &&& forall|id: u64| #[trigger]
                state.resolutions(fault).contains_key(id) ==> state.pending.contains_key(id)
            &&& after.pending == Map::<u64, ReplySlot>::empty()
            &&& after.phase == state.phase
            &&& after.next_id == state.next_id
            &&& after.accepts() == state.accepts()
            &&& state.accepts() ==> after.step(Input::Invoke(slot)).pending.contains_key(
                state.next_id,
            )
        }),
{
    let fault = Input::Line(InboundView::Unparsable { raw, reason });
    assert(state.step(fault).pending =~= Map::<u64, ReplySlot>::empty());
}

/// The end of the worker's output sets the fuse and fails every request in
/// flight with `Disconnected`. From then on, whatever else happens, the
/// bridge is dead, and a request made of it is not taken on: the state does
/// not change, so no id is handed out and nothing is there to write.
pub proof fn lemma_end_of_stream_is_final(
    state: BridgeState,
    afterwards: Seq<Input>,
    slot: ReplySlot,
)
    requires
        state.wf(),
    ensures
        ({
            let ended = state.step(Input::EndOfStream);
            let later = ended.run(afterwards);
            &&& ended.is_dead()
            &&& ended.pending == Map::<u64, ReplySlot>::empty()
            &&& forall|id: u64| #[trigger]
                state.pending.contains_key(id) ==> state.resolutions(
                    Input::EndOfStream,
                ).contains_key(id) && state.resolutions(Input::EndOfStream)[id] == Err::<
                    Json,
                    BridgeErrorView,
                >(BridgeErrorView::Disconnected)
            &&& later.is_dead()
            &&& !later.accepts()
            &&& later.step(Input::Invoke(slot)) == later
        }),
{
    let ended = state.step(Input::EndOfStream);
    assert(ended.pending =~= Map::<u64, ReplySlot>::empty());
    lemma_step_keeps_order(state, Input::EndOfStream);
    lemma_run_keeps_order(ended, afterwards, 0);
}

/// A write that fails sets the fuse and fails the request that was being
/// written, and no other: every other request in flight stays in flight.
pub proof fn lemma_write_failure_fails_one(state: BridgeState, id: u64, other: u64)
    requires
        state.wf(),
        other != id,
    ensures
        state.step(Input::WriteFailed(id)).is_dead(),
        !state.step(Input::WriteFailed(id)).pending.contains_key(id),
        !state.resolutions(Input::WriteFailed(id)).contains_key(other),
        state.step(Input::WriteFailed(id)).pending.contains_key(other)
            == state.pending.contains_key(other),
{
}

/// A reply that comes after its request timed out is dropped, and touches
/// nothing.
///
/// Let the request `id` have been handed out, let its caller's deadline
/// pass, and let anything happen after that. A reply for `id` that arrives
/// then resolves nothing and leaves the bridge exactly as it was.
pub proof fn lemma_late_reply_is_dropped(
    state: BridgeState,
    id: u64,
    between: Seq<Input>,
    outcome: Result<Json, Seq<char>>,
)
    requires
        state.wf(),
        id < state.next_id,
    ensures
        ({
            let timed_out = state.step(Input::Waited(id, WaitOutcomeView::Elapsed));
            let later = timed_out.run(between);
            let reply = Input::Line(InboundView::Response { id, outcome });
            &&& later.resolutions(reply) == Map::<u64, ReplyView>::empty()
            &&& later.step(reply) == later
        }),
{
    let timed_out = state.step(Input::Waited(id, WaitOutcomeView::Elapsed));
    lemma_step_keeps_order(state, Input::Waited(id, WaitOutcomeView::Elapsed));
    lemma_run_keeps_order(timed_out, between, id);
    let later = timed_out.run(between);
    let reply = Input::Line(InboundView::Response { id, outcome });
    assert(later.pending.remove(id) =~= later.pending);
    assert(later.resolutions(reply) =~= Map::<u64, ReplyView>::empty());
}

/// A reply with an id that no request in flight has is dropped, and touches
/// nothing.
pub proof fn lemma_unmatched_reply_is_dropped(
    state: BridgeState,
    id: u64,
    outcome: Result<Json, Seq<char>>,
)
    requires
        !state.pending.contains_key(id),
    ensures
        ({
            let reply = Input::Line(InboundView::Response { id, outcome });
            &&& state.resolutions(reply) == Map::<u64, ReplyView>::empty()
            &&& state.step(reply) == state
        }),
{
    let reply = Input::Line(InboundView::Response { id, outcome });
    assert(state.pending.remove(id) =~= state.pending);
    assert(state.resolutions(reply) =~= Map::<u64, ReplyView>::empty());
}

/// The ids that are handed out are new: the id of a request that is taken
/// on is in flight for no other request, and is larger than every id
/// handed out before.
pub proof fn lemma_ids_are_fresh(state: BridgeState, slot: ReplySlot)
    requires
        state.wf(),
        state.accepts(),
    ensures
        !state.pending.contains_key(state.next_id),
        state.step(Input::Invoke(slot)).pending.contains_key(state.next_id),
        state.step(Input::Invoke(slot)).next_id == state.next_id + 1,
        forall|id: u64| #[trigger]
            state.pending.contains_key(id) ==> state.step(Input::Invoke(slot)).pending[id]
                == state.pending[id],
{
}

/// A subscriber stands behind what was published before it came, and at
/// what is published next.
///
/// Let a subscriber come when the bridge has published some events, and let
/// `event` be the next one published. The position of that subscriber is
/// the position of `event`, so `event` is the first one it is handed. A
/// subscriber that comes after `event` was published stands behind it, so
/// `event` is not among what it is handed. No input other than a
/// publication changes what was published.
pub proof fn lemma_subscriber_stands_behind_earlier_events(
    state: BridgeState,
    event: BridgeEventView,
    input: Input,
)
    requires
        state.published.len() < u64::MAX,
    ensures
        ({
            let came_before = position_after(state.published.len());
            let after = state.step(Input::Published(event));
            let came_after = position_after(after.published.len());
            &&& after.published.len() == state.published.len() + 1
            &&& after.published[came_before as int] == event
            &&& after.published.subrange(0, came_before as int) == state.published
            &&& came_after == came_before + 1
            &&& !(input is Published) ==> state.step(input).published == state.published
        }),
{
    let after = state.step(Input::Published(event));
    assert(after.published.subrange(0, state.published.len() as int) =~= state.published);
}

/// Nothing leads out of `Dead`.
pub proof fn lemma_dead_is_terminal(triggers: Seq<Trigger>)
    ensures
        Lifecycle::Dead.after_all(triggers) == Lifecycle::Dead,
    decreases triggers.len(),
{
    if triggers.len() > 0 {
        lemma_dead_is_terminal(triggers.drop_first());
    }
}

/// A shutdown always ends with the worker killed.
///
/// From any stage, a request to shut down asks the worker to stop; however
/// that request ends, the grace period follows; and when it is over the
/// worker is killed, after which it does not run, whether it ran before or
/// not.
pub proof fn lemma_shutdown_always_kills(from: ShutdownStage, stop: StopOutcome, running: bool)
    ensures
        ({
            let asked = from.on(ShutdownEvent::Requested);
            let waiting = asked.stage.on(ShutdownEvent::StopSettled(stop));
            let finished = waiting.stage.on(ShutdownEvent::GraceElapsed);
            &&& asked.action == ShutdownAction::AskToStop
            &&& waiting.action is Wait
            &&& finished.action == ShutdownAction::ForceKill
            &&& finished.stage == ShutdownStage::Finished
            &&& !worker_runs_after(running, finished.action)
        }),
{
}

} // verus!
