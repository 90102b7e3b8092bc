//! What holds of the handler on every input.
//!
//! The lemmas here are stated over the transition function [`next`] and over
//! [`advance`], the function of the dedup gate, to which the executable
//! handler is held step by step. The first group is about the dedup gate
//! alone, the second about whole runs of the handler.

use crate::digest::{chained_digest, history_digest};
use crate::indices::{ExecutionIndices, ExecutionIndicesWithHash};
use crate::machine::{
    action_at, advance, ascending, deliveries_taken, next, payloads, replay, state_after,
    ActionView, Delivery, EventView, Fault, HandlerView, Outcome, StageView,
};
use crate::sequenced::SequencedConsensusTransaction;
use vstd::prelude::*;

verus! {

/// An accepted delivery moves the position strictly forward and chains the
/// payload into the digest; a position that is not accepted is exactly one
/// that does not lie after the current one.
pub proof fn lemma_advance_moves_forward(
    current: ExecutionIndicesWithHash,
    index: ExecutionIndices,
    payload: Seq<u8>,
)
    ensures
        advance(current, index, payload).is_some() <==> current.index.precedes(index),
        advance(current, index, payload) matches Some(recorded) ==> {
            &&& recorded.index == index
            &&& recorded.hash == chained_digest(current.hash, payload)
            &&& current.index.precedes(recorded.index)
        },
{
}

/// Replay is idempotent at the dedup gate: once a delivery has been accepted,
/// the same position is dropped when it comes again, whatever it carries.
pub proof fn lemma_redelivery_is_dropped(
    current: ExecutionIndicesWithHash,
    index: ExecutionIndices,
    payload: Seq<u8>,
    again: Seq<u8>,
)
    ensures
        advance(current, index, payload) matches Some(recorded) ==> advance(
            recorded,
            index,
            again,
        ).is_none(),
{
}

/// Offering the same delivery twice in a row leaves the dedup gate where
/// offering it once does.
pub proof fn lemma_replay_twice_is_replay_once(start: ExecutionIndicesWithHash, delivery: Delivery)
    ensures
        replay(start, seq![delivery, delivery]) == replay(start, seq![delivery]),
{
    assert(seq![delivery, delivery].drop_last() =~= seq![delivery]);
}

/// The dedup gate never moves backwards: after any deliveries the position is
/// the starting one or a later one.
pub proof fn lemma_replay_never_goes_back(start: ExecutionIndicesWithHash, deliveries: Seq<Delivery>)
    ensures
        start.index.at_most(replay(start, deliveries).index),
    decreases deliveries.len(),
{
    if deliveries.len() > 0 {
        lemma_replay_never_goes_back(start, deliveries.drop_last());
        let before = replay(start, deliveries.drop_last());
        if before.index.precedes(deliveries.last().index) {
            ExecutionIndices::lemma_at_most_then_precedes(
                start.index,
                before.index,
                deliveries.last().index,
            );
        }
    }
}

/// When nothing is replayed, the dedup gate ends at the last delivery's
/// position, and its digest is the digest of the payloads' history on top of
/// the starting digest. The positions themselves do not enter the digest.
pub proof fn lemma_replay_of_ascending(start: ExecutionIndicesWithHash, deliveries: Seq<Delivery>)
    requires
        ascending(start.index, deliveries),
    ensures
        replay(start, deliveries).hash == history_digest(start.hash, payloads(deliveries)),
        replay(start, deliveries).index == if deliveries.len() == 0 {
            start.index
        } else {
            deliveries.last().index
        },
    decreases deliveries.len(),
{
    if deliveries.len() > 0 {
        let earlier = deliveries.drop_last();
        assert(ascending(start.index, earlier));
        lemma_replay_of_ascending(start, earlier);
        assert(replay(start, earlier).index.precedes(deliveries.last().index));
        assert(payloads(deliveries).drop_last() =~= payloads(earlier));
    }
}

/// The digest is determined by the payloads and their order. Two handlers
/// that start from the same digest and are fed the same payloads in the same
/// order, none of them a replay, end with the same digest, even where the
/// positions differ.
pub proof fn lemma_digest_determined_by_payloads(
    one: ExecutionIndicesWithHash,
    other: ExecutionIndicesWithHash,
    fed_to_one: Seq<Delivery>,
    fed_to_other: Seq<Delivery>,
)
    requires
        one.hash == other.hash,
        ascending(one.index, fed_to_one),
        ascending(other.index, fed_to_other),
        payloads(fed_to_one) == payloads(fed_to_other),
    ensures
        replay(one, fed_to_one).hash == replay(other, fed_to_other).hash,
{
    lemma_replay_of_ascending(one, fed_to_one);
    lemma_replay_of_ascending(other, fed_to_other);
}

/// Only an accepted delivery changes the position and the digest, and it
/// moves the position strictly forward. An action other than
/// [`ActionView::Decode`] leaves both as they were; a `Decode` answers a
/// delivery, carries what the dedup gate recorded for it, and that is the
/// handler's new position and digest.
pub proof fn lemma_step_position<O, T>(state: HandlerView<O, T>, event: EventView<O, T>)
    ensures
        match next(state, event).1 {
            ActionView::Decode(recorded) => {
                &&& next(state, event).0.last_seen == recorded
                &&& state.last_seen.index.precedes(recorded.index)
                &&& event matches EventView::Delivered { consensus_index, serialized_transaction, .. }
                    && advance(state.last_seen, consensus_index, serialized_transaction) == Some(
                    recorded,
                )
            },
            _ => next(state, event).0.last_seen == state.last_seen,
        },
{
}

/// The state before the event at `step` leads, through that event, to the
/// state before the next one.
pub proof fn lemma_state_after_step<O, T>(
    state: HandlerView<O, T>,
    events: Seq<EventView<O, T>>,
    step: int,
)
    requires
        0 <= step < events.len(),
    ensures
        state_after(state, events.take(step + 1)) == next(
            state_after(state, events.take(step)),
            events[step],
        ).0,
{
    assert(events.take(step + 1).drop_last() =~= events.take(step));
}

/// A run can be cut in two: the second part continues from where the first
/// part ended.
pub proof fn lemma_state_after_concat<O, T>(
    state: HandlerView<O, T>,
    head: Seq<EventView<O, T>>,
    tail: Seq<EventView<O, T>>,
)
    ensures
        state_after(state, head + tail) == state_after(state_after(state, head), tail),
    decreases tail.len(),
{
    if tail.len() > 0 {
        lemma_state_after_concat(state, head, tail.drop_last());
        assert((head + tail).drop_last() =~= head + tail.drop_last());
    }
}

/// Over any run, the handler's position never moves backwards.
pub proof fn lemma_run_never_goes_back<O, T>(state: HandlerView<O, T>, events: Seq<EventView<O, T>>)
    ensures
        state.last_seen.index.at_most(state_after(state, events).last_seen.index),
    decreases events.len(),
{
    if events.len() > 0 {
        lemma_run_never_goes_back(state, events.drop_last());
        let before = state_after(state, events.drop_last());
        if next(before, events.last()).1 is Decode {
            ExecutionIndices::lemma_at_most_then_precedes(
                state.last_seen.index,
                before.last_seen.index,
                next(before, events.last()).0.last_seen.index,
            );
        }
    }
}

/// A halted handler stays halted, whatever it is fed.
pub proof fn lemma_halted_for_good<O, T>(state: HandlerView<O, T>, events: Seq<EventView<O, T>>)
    requires
        state.stage is Halted,
    ensures
        state_after(state, events) == state,
        forall|step: int|
            0 <= step < events.len() ==> #[trigger] action_at(state, events, step)
                == ActionView::<O, T>::Abort(Fault::Halted),
    decreases events.len(),
{
    if events.len() > 0 {
        lemma_halted_for_good(state, events.drop_last());
        assert forall|step: int| 0 <= step < events.len() implies #[trigger] action_at(
            state,
            events,
            step,
        ) == ActionView::<O, T>::Abort(Fault::Halted) by {
            lemma_halted_for_good(state, events.take(step));
        }
    }
}

/// Coherence is kept by every step, and so by every run: a handler that
/// starts coherent, as every new handler does, is coherent ever after.
pub proof fn lemma_run_stays_coherent<O, T>(state: HandlerView<O, T>, events: Seq<EventView<O, T>>)
    requires
        state.coherent(),
    ensures
        state_after(state, events).coherent(),
    decreases events.len(),
{
    if events.len() > 0 {
        lemma_run_stays_coherent(state, events.drop_last());
    }
}

/// What is handed out for execution carries the position and digest that
/// were recorded last, and execution is then awaited: a coherent handler that
/// answers with [`ActionView::Dispatch`] was waiting for the verdict on
/// exactly that transaction, and goes on to wait for the engine.
pub proof fn lemma_dispatch_carries_current_pair<O, T>(
    state: HandlerView<O, T>,
    event: EventView<O, T>,
)
    requires
        state.coherent(),
    ensures
        next(state, event).1 matches ActionView::Dispatch(sequenced) ==> {
            &&& event is Validated
            &&& state.transaction_in_flight() == Some(sequenced)
            &&& sequenced.consensus_index == state.last_seen
            &&& next(state, event).0.last_seen == state.last_seen
            &&& next(state, event).0.stage is Dispatching
        },
{
}

/// `position` lies behind everything that `state` may still hand out for
/// execution: it is not after the current position, and a delivery that
/// still waits to be decoded or validated lies strictly after it.
spec fn behind<O, T>(position: ExecutionIndices, state: HandlerView<O, T>) -> bool {
    &&& position.at_most(state.last_seen.index)
    &&& match state.stage {
        StageView::Decoding { consensus_index, .. } => position.precedes(consensus_index.index),
        StageView::Verifying { sequenced, .. } => position.precedes(
            sequenced.consensus_index.index,
        ),
        _ => true,
    }
}

proof fn lemma_run_stays_behind<O, T>(
    position: ExecutionIndices,
    state: HandlerView<O, T>,
    events: Seq<EventView<O, T>>,
)
    requires
        behind(position, state),
    ensures
        behind(position, state_after(state, events)),
    decreases events.len(),
{
    if events.len() > 0 {
        lemma_run_stays_behind(position, state, events.drop_last());
        let before = state_after(state, events.drop_last());
        if let ActionView::Decode(recorded) = next(before, events.last()).1 {
            ExecutionIndices::lemma_at_most_then_precedes(
                position,
                before.last_seen.index,
                recorded.index,
            );
        }
    }
}

/// Order is preserved. In a run that starts with nothing in flight, take two
/// steps at which a transaction is handed out for execution. Then the very
/// next event after the earlier step is the engine's report that it has
/// applied that transaction, so the earlier execution is over before the later
/// one is asked for; and the earlier transaction's position lies strictly
/// before the later one's.
pub proof fn lemma_dispatches_in_order<O, T>(
    state: HandlerView<O, T>,
    events: Seq<EventView<O, T>>,
    earlier: int,
    later: int,
)
    requires
        state.stage is Idle,
        0 <= earlier < later < events.len(),
        action_at(state, events, earlier) is Dispatch,
        action_at(state, events, later) is Dispatch,
    ensures
        earlier + 1 < later,
        events[earlier + 1] is Dispatched,
        action_at(state, events, earlier)->Dispatch_0.consensus_index.index.precedes(
            action_at(state, events, later)->Dispatch_0.consensus_index.index,
        ),
{
    let position = action_at(state, events, earlier)->Dispatch_0.consensus_index.index;

    // The earlier step hands out what was recorded last and leaves the
    // handler waiting for the engine.
    lemma_run_stays_coherent(state, events.take(earlier));
    lemma_state_after_step(state, events, earlier);
    let awaiting = state_after(state, events.take(earlier + 1));
    assert(awaiting.stage is Dispatching);
    assert(awaiting.last_seen.index == position);

    // A handler that waits for the engine hands out nothing: the later step
    // is not the very next one.
    assert(earlier + 1 < later);

    // Any event but the engine's report halts the handler for good, and a
    // halted handler hands out nothing either.
    lemma_state_after_step(state, events, earlier + 1);
    let resumed = state_after(state, events.take(earlier + 2));
    let rest = events.subrange(earlier + 2, later);
    assert(events.take(later) =~= events.take(earlier + 2) + rest);
    lemma_state_after_concat(state, events.take(earlier + 2), rest);
    if !(events[earlier + 1] is Dispatched) {
        lemma_halted_for_good(resumed, rest);
    }
    assert(events[earlier + 1] is Dispatched);

    // From here on, whatever is still to be handed out was delivered after
    // the earlier transaction.
    lemma_run_stays_behind(position, resumed, rest);
}

/// The same, read from the positions: of two transactions handed out for
/// execution in one run, the one with the earlier position is handed out
/// first, and its execution is reported over before the other is handed out.
pub proof fn lemma_earlier_position_dispatched_first<O, T>(
    state: HandlerView<O, T>,
    events: Seq<EventView<O, T>>,
    one: int,
    other: int,
)
    requires
        state.stage is Idle,
        0 <= one < events.len(),
        0 <= other < events.len(),
        action_at(state, events, one) is Dispatch,
        action_at(state, events, other) is Dispatch,
        action_at(state, events, one)->Dispatch_0.consensus_index.index.precedes(
            action_at(state, events, other)->Dispatch_0.consensus_index.index,
        ),
    ensures
        one + 1 < other,
        events[one + 1] is Dispatched,
{
    if other < one {
        lemma_dispatches_in_order(state, events, other, one);
    } else {
        lemma_dispatches_in_order(state, events, one, other);
    }
}

/// The position and digest after a run are those of the dedup gate after
/// the deliveries that the handler took in, in their order. How decoding,
/// validation, execution and notification went has no part in them.
pub proof fn lemma_run_is_replay<O, T>(state: HandlerView<O, T>, events: Seq<EventView<O, T>>)
    ensures
        state_after(state, events).last_seen == replay(
            state.last_seen,
            deliveries_taken(state, events),
        ),
    decreases events.len(),
{
    if events.len() > 0 {
        lemma_run_is_replay(state, events.drop_last());
        let before = state_after(state, events.drop_last());
        let earlier = deliveries_taken(state, events.drop_last());
        if let EventView::Delivered { consensus_index, serialized_transaction, .. } = events.last() {
            if before.stage is Idle {
                let taken = Delivery { index: consensus_index, payload: serialized_transaction };
                assert(earlier.push(taken).drop_last() =~= earlier);
            }
        }
    }
}

/// The digest is deterministic. Two handlers that start from the same
/// position and digest and take in the same deliveries in the same order end
/// with the same position and digest, however differently the rest of their
/// runs went.
pub proof fn lemma_same_deliveries_same_digest<O, T>(
    one: HandlerView<O, T>,
    fed_to_one: Seq<EventView<O, T>>,
    other: HandlerView<O, T>,
    fed_to_other: Seq<EventView<O, T>>,
)
    requires
        one.last_seen == other.last_seen,
        deliveries_taken(one, fed_to_one) == deliveries_taken(other, fed_to_other),
    ensures
        state_after(one, fed_to_one).last_seen == state_after(other, fed_to_other).last_seen,
{
    lemma_run_is_replay(one, fed_to_one);
    lemma_run_is_replay(other, fed_to_other);
}

/// Replay is idempotent. Once a delivery has been accepted, the same position
/// delivered again, at any later point of the run and whatever it carries, is
/// never accepted a second time: the position and the digest stay as they
/// are, and nothing is sent on for decoding. A handler with nothing in flight
/// answers that the delivery was deduplicated and is otherwise unchanged.
pub proof fn lemma_redelivery_is_deduped<O, T>(
    state: HandlerView<O, T>,
    delivery: EventView<O, T>,
    rest: Seq<EventView<O, T>>,
    again: EventView<O, T>,
)
    requires
        delivery is Delivered,
        again is Delivered,
        delivery->consensus_index == again->consensus_index,
        next(state, delivery).1 is Decode,
    ensures
        ({
            let later = state_after(next(state, delivery).0, rest);
            let (after, action) = next(later, again);
            &&& after.last_seen == later.last_seen
            &&& later.stage is Idle ==> after == later && action == ActionView::<O, T>::Done(
                Outcome::Deduped,
            )
            &&& !(later.stage is Idle) ==> action is Abort
        }),
{
    let accepted = next(state, delivery).0;
    lemma_run_never_goes_back(accepted, rest);
}

/// The whole way of one transaction. A delivery that advances the stream,
/// decodes, is found valid and is applied leads the handler through decoding,
/// validation, execution and notification, in this order and with nothing in
/// between. What is executed is the decoded transaction in the consensus
/// output it came in, at the delivered position and with the digest that
/// chains its payload; what the listener gets is that payload; and the handler
/// ends free for the next delivery, at the delivered position.
pub proof fn lemma_accepted_delivery_runs_to_notification<O, T>(
    state: HandlerView<O, T>,
    consensus_output: O,
    consensus_index: ExecutionIndices,
    serialized_transaction: Seq<u8>,
    transaction: T,
)
    requires
        state.stage is Idle,
        state.last_seen.index.precedes(consensus_index),
    ensures
        ({
            let events = seq![
                EventView::Delivered { consensus_output, consensus_index, serialized_transaction },
                EventView::Decoded(transaction),
                EventView::Validated,
                EventView::Dispatched,
                EventView::Notified,
            ];
            let recorded = ExecutionIndicesWithHash {
                index: consensus_index,
                hash: chained_digest(state.last_seen.hash, serialized_transaction),
            };
            &&& action_at(state, events, 0) == ActionView::<O, T>::Decode(recorded)
            &&& action_at(state, events, 1) == ActionView::<O, T>::Verify
            &&& action_at(state, events, 2) == ActionView::Dispatch(
                SequencedConsensusTransaction {
                    consensus_output,
                    consensus_index: recorded,
                    transaction,
                },
            )
            &&& action_at(state, events, 3) == ActionView::<O, T>::Notify(serialized_transaction)
            &&& action_at(state, events, 4) == ActionView::<O, T>::Done(Outcome::Notified)
            &&& state_after(state, events) == HandlerView::<O, T> {
                last_seen: recorded,
                stage: StageView::Idle,
            }
        }),
{
    let events = seq![
        EventView::Delivered { consensus_output, consensus_index, serialized_transaction },
        EventView::Decoded(transaction),
        EventView::Validated,
        EventView::Dispatched,
        EventView::Notified,
    ];
    lemma_state_after_step(state, events, 0);
    lemma_state_after_step(state, events, 1);
    lemma_state_after_step(state, events, 2);
    lemma_state_after_step(state, events, 3);
}

/// Faults are isolated. A payload that cannot be decoded is dropped and the
/// handler is free again: the next delivery at a later position, if it decodes
/// and is found valid, is handed out for execution, with a digest that chains
/// both payloads.
pub proof fn lemma_malformed_does_not_block<O, T>(
    state: HandlerView<O, T>,
    bad_output: O,
    bad_index: ExecutionIndices,
    bad_payload: Seq<u8>,
    good_output: O,
    good_index: ExecutionIndices,
    good_payload: Seq<u8>,
    transaction: T,
)
    requires
        state.stage is Idle,
        state.last_seen.index.precedes(bad_index),
        bad_index.precedes(good_index),
    ensures
        ({
            let events = seq![
                EventView::Delivered {
                    consensus_output: bad_output,
                    consensus_index: bad_index,
                    serialized_transaction: bad_payload,
                },
                EventView::Malformed,
                EventView::Delivered {
                    consensus_output: good_output,
                    consensus_index: good_index,
                    serialized_transaction: good_payload,
                },
                EventView::Decoded(transaction),
                EventView::Validated,
            ];
            &&& action_at(state, events, 1) == ActionView::<O, T>::Done(Outcome::DroppedMalformed)
            &&& action_at(state, events, 4) == ActionView::Dispatch(
                SequencedConsensusTransaction {
                    consensus_output: good_output,
                    consensus_index: ExecutionIndicesWithHash {
                        index: good_index,
                        hash: chained_digest(
                            chained_digest(state.last_seen.hash, bad_payload),
                            good_payload,
                        ),
                    },
                    transaction,
                },
            )
        }),
{
    let events = seq![
        EventView::Delivered {
            consensus_output: bad_output,
            consensus_index: bad_index,
            serialized_transaction: bad_payload,
        },
        EventView::Malformed,
        EventView::Delivered {
            consensus_output: good_output,
            consensus_index: good_index,
            serialized_transaction: good_payload,
        },
        EventView::Decoded(transaction),
        EventView::Validated,
    ];
    lemma_state_after_step(state, events, 0);
    lemma_state_after_step(state, events, 1);
    lemma_state_after_step(state, events, 2);
    lemma_state_after_step(state, events, 3);
}

} // verus!
