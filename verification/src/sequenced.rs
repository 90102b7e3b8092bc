//! Transactions on their way from consensus to execution.
//!
//! A payload that was accepted into the stream and decoded becomes a
//! [`SequencedConsensusTransaction`]. Once the execution engine has admitted
//! it, the handler wraps it into a [`VerifiedSequencedConsensusTransaction`],
//! the only form that is handed out for execution.
//!
//! Both types are generic: `O` is the consensus output that the transaction
//! arrived in (typically a shared pointer to it), `T` the decoded transaction.
//! Neither is looked into here.

use crate::indices::ExecutionIndicesWithHash;
use vstd::prelude::*;

verus! {

/// A decoded transaction with its place in the stream.
#[derive(Debug, PartialEq, Eq)]
pub struct SequencedConsensusTransaction<O, T> {
    /// The consensus output that carried the transaction.
    pub consensus_output: O,
    /// The transaction's position, and the running digest right after it.
    pub consensus_index: ExecutionIndicesWithHash,
    /// The decoded transaction.
    pub transaction: T,
}

impl<O: Default, T> SequencedConsensusTransaction<O, T> {
    /// A fixture for tests: `transaction` at the genesis position, in a
    /// default consensus output.
    pub fn new_test(transaction: T) -> (sequenced: Self)
        ensures
            sequenced.transaction == transaction,
            sequenced.consensus_index == ExecutionIndicesWithHash::genesis(),
            call_ensures(O::default, (), sequenced.consensus_output),
    {
        SequencedConsensusTransaction {
            transaction,
            consensus_output: O::default(),
            consensus_index: ExecutionIndicesWithHash::default(),
        }
    }
}

/// A sequenced transaction that the execution engine has admitted.
///
/// The wrapped transaction cannot be set from outside this crate: a value of
/// this type comes only out of the handler, at the step at which the engine's
/// verdict arrives. Holding one is therefore the evidence that validation took
/// place; there is no flag to test.
#[derive(Debug, PartialEq, Eq)]
pub struct VerifiedSequencedConsensusTransaction<O, T>(SequencedConsensusTransaction<O, T>);

impl<O, T> View for VerifiedSequencedConsensusTransaction<O, T> {
    type V = SequencedConsensusTransaction<O, T>;

    /// The transaction that was admitted.
    closed spec fn view(&self) -> SequencedConsensusTransaction<O, T> {
        self.0
    }
}

impl<O, T> VerifiedSequencedConsensusTransaction<O, T> {
    /// Wraps a transaction on a positive verdict. Only the handler calls this.
    pub(crate) fn certify(sequenced: SequencedConsensusTransaction<O, T>) -> (verified: Self)
        ensures
            verified@ == sequenced,
    {
        VerifiedSequencedConsensusTransaction(sequenced)
    }

    /// Reads the admitted transaction.
    pub fn as_inner(&self) -> (sequenced: &SequencedConsensusTransaction<O, T>)
        ensures
            *sequenced == self@,
    {
        &self.0
    }

    /// Gives up the wrapper and returns the admitted transaction.
    pub fn into_inner(self) -> (sequenced: SequencedConsensusTransaction<O, T>)
        ensures
            sequenced == self@,
    {
        self.0
    }
}

} // verus!
