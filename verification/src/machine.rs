//! The handler as a transition system.
//!
//! Everything the handler decides is a function from its state and an event to
//! its next state and an action, [`next`]. The events are what the surroundings
//! report: a delivery from consensus, and the outcome of each piece of work
//! that the handler asked for. The actions are what the handler asks for in
//! turn. This module defines that function over mathematical values; the
//! executable handler is proved to compute it.

use crate::digest::chained_digest;
use crate::indices::{ExecutionIndices, ExecutionIndicesWithHash};
use crate::sequenced::SequencedConsensusTransaction;
use vstd::prelude::*;

verus! {

/// How the handling of one delivery ended, short of a fatal fault.
#[derive(Clone, Copy, Debug, PartialEq, Eq, Structural)]
pub enum Outcome {
    /// The position did not advance the stream: a replay, dropped unseen.
    Deduped,
    /// The payload could not be decoded and was dropped.
    DroppedMalformed,
    /// The execution engine refused the transaction and it was dropped.
    DroppedInvalid,
    /// The transaction was executed and the listener was told.
    Notified,
    /// The transaction was executed, but the listener is gone.
    Warned,
}

/// Why the handler gave up. None of these can be recovered from in place: the
/// process is expected to stop, and to start again from durable state.
#[derive(Clone, Copy, Debug, PartialEq, Eq, Structural)]
pub enum Fault {
    /// The execution engine failed while applying an admitted transaction.
    DispatchFailed,
    /// An event arrived that the handler was not waiting for, as happens when
    /// two deliveries overlap instead of following one another.
    OutOfTurn,
    /// The handler had already given up when the event arrived.
    Halted,
}

/// What the surroundings report to the handler, payloads as byte sequences.
pub enum EventView<O, T> {
    /// Consensus delivers a payload at a position.
    Delivered { consensus_output: O, consensus_index: ExecutionIndices, serialized_transaction: Seq<u8> },
    /// The payload in flight was decoded to this transaction.
    Decoded(T),
    /// The payload in flight could not be decoded.
    Malformed,
    /// The execution engine accepted the transaction in flight.
    Validated,
    /// The execution engine refused the transaction in flight.
    Invalid,
    /// The execution engine applied the transaction that was handed to it.
    Dispatched,
    /// The execution engine failed to apply it.
    DispatchFailed,
    /// The listener took the payload.
    Notified,
    /// The channel to the listener is closed.
    ListenerClosed,
}

/// What the handler asks of its surroundings, payloads as byte sequences.
pub enum ActionView<O, T> {
    /// Decode the payload in flight. The position and digest recorded for it
    /// are attached.
    Decode(ExecutionIndicesWithHash),
    /// Ask the execution engine whether the transaction in flight is valid.
    Verify,
    /// Hand this transaction to the execution engine and wait for it.
    Dispatch(SequencedConsensusTransaction<O, T>),
    /// Push this payload to the listener.
    Notify(Seq<u8>),
    /// Nothing more to do for this delivery.
    Done(Outcome),
    /// Stop the process.
    Abort(Fault),
}

/// Where the delivery in flight stands, payloads as byte sequences.
pub enum StageView<O, T> {
    /// No delivery is in flight.
    Idle,
    /// Accepted into the stream; waiting for the decoded transaction.
    Decoding { consensus_output: O, consensus_index: ExecutionIndicesWithHash, serialized_transaction: Seq<u8> },
    /// Decoded; waiting for the execution engine's verdict.
    Verifying { sequenced: SequencedConsensusTransaction<O, T>, serialized_transaction: Seq<u8> },
    /// Handed to the execution engine; waiting for it to finish.
    Dispatching { serialized_transaction: Seq<u8> },
    /// Executed; waiting for the listener.
    Notifying,
    /// Given up.
    Halted,
}

/// The handler's whole state: the last position accepted with the digest after
/// it, and the stage of the delivery in flight.
pub struct HandlerView<O, T> {
    /// The last position that was accepted, with the digest right after it.
    pub last_seen: ExecutionIndicesWithHash,
    /// Where the delivery in flight stands.
    pub stage: StageView<O, T>,
}

/// The dedup gate and the integrity chain in one step. A position that does
/// not lie strictly after `current` gets nothing. Any other becomes the new
/// current position, with `payload` chained into the digest.
pub open spec fn advance(
    current: ExecutionIndicesWithHash,
    index: ExecutionIndices,
    payload: Seq<u8>,
) -> Option<ExecutionIndicesWithHash> {
    if index.at_most(current.index) {
        None
    } else {
        Some(ExecutionIndicesWithHash { index, hash: chained_digest(current.hash, payload) })
    }
}

/// One delivery as the dedup gate sees it: a position and a payload.
pub struct Delivery {
    /// The position that consensus gave the payload.
    pub index: ExecutionIndices,
    /// The payload.
    pub payload: Seq<u8>,
}

/// The position and digest that the dedup gate holds after `deliveries`,
/// offered one after another, when it held `start` before. Deliveries that do
/// not advance the position leave no trace.
pub open spec fn replay(start: ExecutionIndicesWithHash, deliveries: Seq<Delivery>) -> ExecutionIndicesWithHash
    decreases deliveries.len(),
{
    if deliveries.len() == 0 {
        start
    } else {
        let before = replay(start, deliveries.drop_last());
        match advance(before, deliveries.last().index, deliveries.last().payload) {
            Some(recorded) => recorded,
            None => before,
        }
    }
}

/// Every delivery lies strictly after the one before it, and the first one
/// strictly after `start`: the stream as consensus delivers it when nothing is
/// replayed.
pub open spec fn ascending(start: ExecutionIndices, deliveries: Seq<Delivery>) -> bool {
    forall|i: int|
        0 <= i < deliveries.len() ==> (if i == 0 {
            start
        } else {
            deliveries[i - 1].index
        }).precedes(#[trigger] deliveries[i].index)
}

/// The payloads of `deliveries`, in order.
pub open spec fn payloads(deliveries: Seq<Delivery>) -> Seq<Seq<u8>> {
    Seq::new(deliveries.len(), |i: int| deliveries[i].payload)
}

impl<O, T> HandlerView<O, T> {
    /// A handler that has seen nothing and has nothing in flight.
    pub open spec fn initial() -> Self {
        HandlerView { last_seen: ExecutionIndicesWithHash::genesis(), stage: StageView::Idle }
    }

    /// This state, at another stage.
    pub open spec fn at(self, stage: StageView<O, T>) -> Self {
        HandlerView { last_seen: self.last_seen, stage }
    }

    /// The delivery that waits to be decoded or validated, if there is one,
    /// is the one that was recorded last: it carries the handler's current
    /// position and digest. Every state that a handler reaches from
    /// [`HandlerView::initial`] through [`next`] is coherent.
    pub open spec fn coherent(self) -> bool {
        match self.stage {
            StageView::Decoding { consensus_index, .. } => consensus_index == self.last_seen,
            StageView::Verifying { sequenced, .. } => sequenced.consensus_index == self.last_seen,
            _ => true,
        }
    }

    /// The payload of the delivery in flight, while the handler still holds it.
    pub open spec fn payload_in_flight(self) -> Option<Seq<u8>> {
        match self.stage {
            StageView::Decoding { serialized_transaction, .. } => Some(serialized_transaction),
            StageView::Verifying { serialized_transaction, .. } => Some(serialized_transaction),
            StageView::Dispatching { serialized_transaction } => Some(serialized_transaction),
            _ => None,
        }
    }

    /// The transaction that waits for the execution engine's verdict, if one does.
    pub open spec fn transaction_in_flight(self) -> Option<SequencedConsensusTransaction<O, T>> {
        match self.stage {
            StageView::Verifying { sequenced, .. } => Some(sequenced),
            _ => None,
        }
    }
}

/// What a delivery does to an idle handler.
pub open spec fn on_delivery<O, T>(
    state: HandlerView<O, T>,
    consensus_output: O,
    consensus_index: ExecutionIndices,
    serialized_transaction: Seq<u8>,
) -> (HandlerView<O, T>, ActionView<O, T>) {
    match advance(state.last_seen, consensus_index, serialized_transaction) {
        None => (state, ActionView::Done(Outcome::Deduped)),
        Some(recorded) => (
            HandlerView {
                last_seen: recorded,
                stage: StageView::Decoding {
                    consensus_output,
                    consensus_index: recorded,
                    serialized_transaction,
                },
            },
            ActionView::Decode(recorded),
        ),
    }
}

/// The transition function: the state and the action that follow from `state`
/// on `event`.
///
/// A delivery is taken only when nothing is in flight, and each report only at
/// the stage that asked for it. Any other pairing is a fault of the caller's
/// sequencing: the handler halts. A halted handler stays halted.
pub open spec fn next<O, T>(state: HandlerView<O, T>, event: EventView<O, T>) -> (
    HandlerView<O, T>,
    ActionView<O, T>,
) {
    match (state.stage, event) {
        (StageView::Halted, _) => (state, ActionView::Abort(Fault::Halted)),
        (
            StageView::Idle,
            EventView::Delivered { consensus_output, consensus_index, serialized_transaction },
        ) => on_delivery(state, consensus_output, consensus_index, serialized_transaction),
        (
            StageView::Decoding { consensus_output, consensus_index, serialized_transaction },
            EventView::Decoded(transaction),
        ) => (
            state.at(
                StageView::Verifying {
                    sequenced: SequencedConsensusTransaction {
                        consensus_output,
                        consensus_index,
                        transaction,
                    },
                    serialized_transaction,
                },
            ),
            ActionView::Verify,
        ),
        (StageView::Decoding { .. }, EventView::Malformed) => (
            state.at(StageView::Idle),
            ActionView::Done(Outcome::DroppedMalformed),
        ),
        (StageView::Verifying { sequenced, serialized_transaction }, EventView::Validated) => (
            state.at(StageView::Dispatching { serialized_transaction }),
            ActionView::Dispatch(sequenced),
        ),
        (StageView::Verifying { .. }, EventView::Invalid) => (
            state.at(StageView::Idle),
            ActionView::Done(Outcome::DroppedInvalid),
        ),
        (StageView::Dispatching { serialized_transaction }, EventView::Dispatched) => (
            state.at(StageView::Notifying),
            ActionView::Notify(serialized_transaction),
        ),
        (StageView::Dispatching { .. }, EventView::DispatchFailed) => (
            state.at(StageView::Halted),
            ActionView::Abort(Fault::DispatchFailed),
        ),
        (StageView::Notifying, EventView::Notified) => (
            state.at(StageView::Idle),
            ActionView::Done(Outcome::Notified),
        ),
        (StageView::Notifying, EventView::ListenerClosed) => (
            state.at(StageView::Idle),
            ActionView::Done(Outcome::Warned),
        ),
        _ => (state.at(StageView::Halted), ActionView::Abort(Fault::OutOfTurn)),
    }
}

/// The state that `events`, taken one after another, lead to from `state`.
pub open spec fn state_after<O, T>(state: HandlerView<O, T>, events: Seq<EventView<O, T>>) -> HandlerView<
    O,
    T,
>
    decreases events.len(),
{
    if events.len() == 0 {
        state
    } else {
        next(state_after(state, events.drop_last()), events.last()).0
    }
}

/// The action with which the handler answers the event at `step`, when it is
/// fed `events` from `state`.
pub open spec fn action_at<O, T>(
    state: HandlerView<O, T>,
    events: Seq<EventView<O, T>>,
    step: int,
) -> ActionView<O, T>
    recommends
        0 <= step < events.len(),
{
    next(state_after(state, events.take(step)), events[step]).1
}

/// The deliveries that the handler let through to its dedup gate in the
/// course of a run: those that arrived while nothing was in flight. What
/// became of each afterwards plays no part.
pub open spec fn deliveries_taken<O, T>(
    state: HandlerView<O, T>,
    events: Seq<EventView<O, T>>,
) -> Seq<Delivery>
    decreases events.len(),
{
    if events.len() == 0 {
        Seq::empty()
    } else {
        let earlier = deliveries_taken(state, events.drop_last());
        match (state_after(state, events.drop_last()).stage, events.last()) {
            (
                StageView::Idle,
                EventView::Delivered { consensus_index, serialized_transaction, .. },
            ) => earlier.push(Delivery { index: consensus_index, payload: serialized_transaction }),
            _ => earlier,
        }
    }
}

} // verus!
