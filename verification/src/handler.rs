//! The executable handler.
//!
//! [`ConsensusHandler`] keeps the last accepted position with its digest, and
//! the stage of the one delivery that may be in flight. It does no work of its
//! own on the outside world: its caller delivers a payload, carries out the
//! action that comes back, reports how that went, and so on until the action is
//! [`Action::Done`] or [`Action::Abort`]. Because every entry point takes the
//! handler by exclusive reference, its state has one writer at a time by
//! construction.

use crate::digest::chain_digest;
use crate::indices::{ExecutionIndices, ExecutionIndicesWithHash};
use crate::machine::{advance, next, ActionView, EventView, Fault, HandlerView, Outcome, StageView};
use crate::sequenced::{SequencedConsensusTransaction, VerifiedSequencedConsensusTransaction};
use vstd::prelude::*;

verus! {

/// What the surroundings report to the handler.
#[derive(Debug, PartialEq, Eq)]
pub enum Event<O, T> {
    /// Consensus delivers a payload at a position.
    Delivered { consensus_output: O, consensus_index: ExecutionIndices, serialized_transaction: Vec<u8> },
    /// The payload in flight was decoded to this transaction.
    Decoded(T),
    /// The payload in flight could not be decoded.
    Malformed,
    /// The execution engine accepted the transaction in flight.
    Validated,
    /// The execution engine refused the transaction in flight.
    Invalid,
    /// The execution engine applied the transaction that was handed to it.
    Dispatched,
    /// The execution engine failed to apply it.
    DispatchFailed,
    /// The listener took the payload.
    Notified,
    /// The channel to the listener is closed.
    ListenerClosed,
}

impl<O, T> View for Event<O, T> {
    type V = EventView<O, T>;

    open spec fn view(&self) -> EventView<O, T> {
        match *self {
            Event::Delivered { consensus_output, consensus_index, serialized_transaction } => {
                EventView::Delivered {
                    consensus_output,
                    consensus_index,
                    serialized_transaction: serialized_transaction@,
                }
            },
            Event::Decoded(transaction) => EventView::Decoded(transaction),
            Event::Malformed => EventView::Malformed,
            Event::Validated => EventView::Validated,
            Event::Invalid => EventView::Invalid,
            Event::Dispatched => EventView::Dispatched,
            Event::DispatchFailed => EventView::DispatchFailed,
            Event::Notified => EventView::Notified,
            Event::ListenerClosed => EventView::ListenerClosed,
        }
    }
}

/// What the handler asks of its surroundings.
#[derive(Debug, PartialEq, Eq)]
pub enum Action<O, T> {
    /// Decode the payload in flight, which
    /// [`ConsensusHandler::serialized_transaction`] lends out. The position and
    /// digest recorded for it are attached.
    Decode(ExecutionIndicesWithHash),
    /// Ask the execution engine whether the transaction in flight, which
    /// [`ConsensusHandler::sequenced_transaction`] lends out, is valid.
    Verify,
    /// Hand this transaction to the execution engine and wait for it.
    Dispatch(VerifiedSequencedConsensusTransaction<O, T>),
    /// Push this payload to the listener.
    Notify(Vec<u8>),
    /// Nothing more to do for this delivery.
    Done(Outcome),
    /// Stop the process.
    Abort(Fault),
}

impl<O, T> View for Action<O, T> {
    type V = ActionView<O, T>;

    open spec fn view(&self) -> ActionView<O, T> {
        match *self {
            Action::Decode(recorded) => ActionView::Decode(recorded),
            Action::Verify => ActionView::Verify,
            Action::Dispatch(verified) => ActionView::Dispatch(verified@),
            Action::Notify(payload) => ActionView::Notify(payload@),
            Action::Done(outcome) => ActionView::Done(outcome),
            Action::Abort(fault) => ActionView::Abort(fault),
        }
    }
}

enum Stage<O, T> {
    Idle,
    Decoding { consensus_output: O, consensus_index: ExecutionIndicesWithHash, serialized_transaction: Vec<u8> },
    Verifying { sequenced: SequencedConsensusTransaction<O, T>, serialized_transaction: Vec<u8> },
    Dispatching { serialized_transaction: Vec<u8> },
    Notifying,
    Halted,
}

impl<O, T> View for Stage<O, T> {
    type V = StageView<O, T>;

    closed spec fn view(&self) -> StageView<O, T> {
        match *self {
            Stage::Idle => StageView::Idle,
            Stage::Decoding { consensus_output, consensus_index, serialized_transaction } => {
                StageView::Decoding {
                    consensus_output,
                    consensus_index,
                    serialized_transaction: serialized_transaction@,
                }
            },
            Stage::Verifying { sequenced, serialized_transaction } => StageView::Verifying {
                sequenced,
                serialized_transaction: serialized_transaction@,
            },
            Stage::Dispatching { serialized_transaction } => StageView::Dispatching {
                serialized_transaction: serialized_transaction@,
            },
            Stage::Notifying => StageView::Notifying,
            Stage::Halted => StageView::Halted,
        }
    }
}

/// Sequences the transactions that consensus delivers: drops replays, chains
/// the digest, and leads each accepted payload through decoding, validation,
/// execution and notification, in the order of delivery.
pub struct ConsensusHandler<O, T> {
    last_seen: ExecutionIndicesWithHash,
    stage: Stage<O, T>,
}

impl<O, T> View for ConsensusHandler<O, T> {
    type V = HandlerView<O, T>;

    closed spec fn view(&self) -> HandlerView<O, T> {
        HandlerView { last_seen: self.last_seen, stage: self.stage@ }
    }
}

impl<O, T> ConsensusHandler<O, T> {
    /// A handler that has seen nothing yet.
    pub fn new() -> (handler: Self)
        ensures
            handler@ == HandlerView::<O, T>::initial(),
    {
        ConsensusHandler { last_seen: ExecutionIndicesWithHash::default(), stage: Stage::Idle }
    }

    /// The last position that was accepted, with the digest right after it.
    pub fn last_seen(&self) -> (current: ExecutionIndicesWithHash)
        ensures
            current == self@.last_seen,
    {
        self.last_seen
    }

    /// Lends out the payload of the delivery in flight, for as long as the
    /// handler holds it: from the moment the delivery is accepted until the
    /// payload is handed over for the listener.
    pub fn serialized_transaction(&self) -> (payload: Option<&[u8]>)
        ensures
            match payload {
                Some(bytes) => self@.payload_in_flight() == Some(bytes@),
                None => self@.payload_in_flight().is_none(),
            },
    {
        match &self.stage {
            Stage::Decoding { serialized_transaction, .. } => Some(serialized_transaction.as_slice()),
            Stage::Verifying { serialized_transaction, .. } => Some(serialized_transaction.as_slice()),
            Stage::Dispatching { serialized_transaction } => Some(serialized_transaction.as_slice()),
            _ => None,
        }
    }

    /// Lends out the transaction that waits for the execution engine's
    /// verdict, if one does.
    pub fn sequenced_transaction(&self) -> (waiting: Option<&SequencedConsensusTransaction<O, T>>)
        ensures
            match waiting {
                Some(sequenced) => self@.transaction_in_flight() == Some(*sequenced),
                None => self@.transaction_in_flight().is_none(),
            },
    {
        match &self.stage {
            Stage::Verifying { sequenced, .. } => Some(sequenced),
            _ => None,
        }
    }

    /// The dedup gate and the integrity chain. If `index` lies strictly after
    /// the last position seen, it becomes the last position seen, `v` is
    /// chained into the digest, and the new pair is returned. Otherwise
    /// nothing changes and nothing is returned. The stage of the delivery in
    /// flight is not touched.
    pub fn update_hash(&mut self, index: ExecutionIndices, v: &[u8]) -> (recorded: Option<
        ExecutionIndicesWithHash,
    >)
        ensures
            recorded == advance(old(self)@.last_seen, index, v@),
            final(self)@.stage == old(self)@.stage,
            final(self)@.last_seen == match recorded {
                Some(pair) => pair,
                None => old(self)@.last_seen,
            },
            recorded.is_some() ==> old(self)@.last_seen.index.precedes(final(self)@.last_seen.index),
    {
        if index <= self.last_seen.index {
            return None;
        }
        let hash: u64 = chain_digest(self.last_seen.hash, v);
        let last_seen = ExecutionIndicesWithHash { index, hash };
        self.last_seen = last_seen;
        Some(last_seen)
    }

    /// Takes the next event in the handling of a consensus transaction and
    /// answers with what is to be done next.
    ///
    /// A delivery opens the handling: a position that does not advance the
    /// stream is dropped at once, any other is recorded, chained into the
    /// digest, and sent on for decoding. Each later event reports how the
    /// action before it went. The handling ends with [`Action::Done`], after
    /// which the next delivery is taken, or with [`Action::Abort`], after which
    /// none is. State and action are exactly those of [`next`].
    pub fn handle_consensus_transaction(&mut self, event: Event<O, T>) -> (action: Action<O, T>)
        ensures
            (final(self)@, action@) == next(old(self)@, event@),
    {
        let mut stage = Stage::Halted;
        core::mem::swap(&mut self.stage, &mut stage);
        match (stage, event) {
            (Stage::Halted, _) => Action::Abort(Fault::Halted),
            (
                Stage::Idle,
                Event::Delivered { consensus_output, consensus_index, serialized_transaction },
            ) => {
                match self.update_hash(consensus_index, serialized_transaction.as_slice()) {
                    None => {
                        self.stage = Stage::Idle;
                        Action::Done(Outcome::Deduped)
                    },
                    Some(recorded) => {
                        self.stage = Stage::Decoding {
                            consensus_output,
                            consensus_index: recorded,
                            serialized_transaction,
                        };
                        Action::Decode(recorded)
                    },
                }
            },
            (
                Stage::Decoding { consensus_output, consensus_index, serialized_transaction },
                Event::Decoded(transaction),
            ) => {
                let sequenced = SequencedConsensusTransaction {
                    consensus_output,
                    consensus_index,
                    transaction,
                };
                self.stage = Stage::Verifying { sequenced, serialized_transaction };
                Action::Verify
            },
            (Stage::Decoding { .. }, Event::Malformed) => {
                self.stage = Stage::Idle;
                Action::Done(Outcome::DroppedMalformed)
            },
            (Stage::Verifying { sequenced, serialized_transaction }, Event::Validated) => {
                self.stage = Stage::Dispatching { serialized_transaction };
                Action::Dispatch(VerifiedSequencedConsensusTransaction::certify(sequenced))
            },
            (Stage::Verifying { .. }, Event::Invalid) => {
                self.stage = Stage::Idle;
                Action::Done(Outcome::DroppedInvalid)
            },
            (Stage::Dispatching { serialized_transaction }, Event::Dispatched) => {
                self.stage = Stage::Notifying;
                Action::Notify(serialized_transaction)
            },
            (Stage::Dispatching { .. }, Event::DispatchFailed) => Action::Abort(Fault::DispatchFailed),
            (Stage::Notifying, Event::Notified) => {
                self.stage = Stage::Idle;
                Action::Done(Outcome::Notified)
            },
            (Stage::Notifying, Event::ListenerClosed) => {
                self.stage = Stage::Idle;
                Action::Done(Outcome::Warned)
            },
            _ => Action::Abort(Fault::OutOfTurn),
        }
    }

    /// Seeds the handler with the position and digest that were last made
    /// durable, and returns the position from which consensus is to resume.
    /// The stage of the delivery in flight is not touched.
    pub fn load_execution_indices(&mut self, index_with_hash: ExecutionIndicesWithHash) -> (resume: ExecutionIndices)
        ensures
            resume == index_with_hash.index,
            final(self)@.last_seen == index_with_hash,
            final(self)@.stage == old(self)@.stage,
    {
        self.last_seen = index_with_hash;
        index_with_hash.index
    }
}

} // verus!
