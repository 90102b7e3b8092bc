//! Positions in the consensus stream.
//!
//! Consensus tags every transaction it delivers with an [`ExecutionIndices`]
//! triple. Positions are totally ordered, lexicographically by certificate,
//! then batch, then transaction; the order is what the dedup gate of the
//! handler compares against. [`ExecutionIndicesWithHash`] pairs a position with
//! the running digest of everything delivered up to and including it.

use core::cmp::Ordering;
use vstd::prelude::*;
use vstd::std_specs::cmp::PartialOrdSpecImpl;

verus! {

/// Where in the consensus stream a transaction stands.
#[derive(Clone, Copy, Debug, PartialEq, Eq, Structural, Hash)]
pub struct ExecutionIndices {
    /// Index of the certificate the next transaction belongs to.
    pub next_certificate_index: u64,
    /// Index of the batch, within that certificate.
    pub next_batch_index: u64,
    /// Index of the transaction, within that batch.
    pub next_transaction_index: u64,
}

impl ExecutionIndices {
    /// The position before anything was delivered: all three counters zero.
    pub open spec fn origin() -> Self {
        ExecutionIndices {
            next_certificate_index: 0,
            next_batch_index: 0,
            next_transaction_index: 0,
        }
    }

    /// Strict lexicographic order: `self` comes earlier in the stream than `other`.
    pub open spec fn precedes(self, other: Self) -> bool {
        ||| self.next_certificate_index < other.next_certificate_index
        ||| (self.next_certificate_index == other.next_certificate_index
            && self.next_batch_index < other.next_batch_index)
        ||| (self.next_certificate_index == other.next_certificate_index
            && self.next_batch_index == other.next_batch_index
            && self.next_transaction_index < other.next_transaction_index)
    }

    /// `self` is `other` or comes earlier than it.
    pub open spec fn at_most(self, other: Self) -> bool {
        self == other || self.precedes(other)
    }

    /// Whether this position is the first transaction of the first batch of
    /// its certificate.
    pub open spec fn opens_certificate(self) -> bool {
        self.next_transaction_index == 1 && self.next_batch_index == 1
    }

    /// Builds a position from its three counters.
    pub fn new(
        next_certificate_index: u64,
        next_batch_index: u64,
        next_transaction_index: u64,
    ) -> (indices: Self)
        ensures
            indices.next_certificate_index == next_certificate_index,
            indices.next_batch_index == next_batch_index,
            indices.next_transaction_index == next_transaction_index,
    {
        ExecutionIndices { next_certificate_index, next_batch_index, next_transaction_index }
    }

    /// Tells whether the position starts a new certificate, the point at which
    /// the running digest is worth recording for audit.
    pub fn is_certificate_start(&self) -> (starts: bool)
        ensures
            starts == self.opens_certificate(),
    {
        self.next_transaction_index == 1 && self.next_batch_index == 1
    }

    /// No position comes before itself.
    pub proof fn lemma_precedes_irreflexive(a: Self)
        ensures
            !a.precedes(a),
    {
    }

    /// If `a` comes before `b` then `b` does not come before `a`.
    pub proof fn lemma_precedes_asymmetric(a: Self, b: Self)
        requires
            a.precedes(b),
        ensures
            !b.precedes(a),
            a != b,
    {
    }

    /// The order is transitive.
    pub proof fn lemma_precedes_transitive(a: Self, b: Self, c: Self)
        requires
            a.precedes(b),
            b.precedes(c),
        ensures
            a.precedes(c),
    {
    }

    /// The order is total: of two positions exactly one of "earlier", "equal"
    /// and "later" holds.
    pub proof fn lemma_trichotomy(a: Self, b: Self)
        ensures
            a.precedes(b) || a == b || b.precedes(a),
            !(a.precedes(b) && a == b),
            !(a.precedes(b) && b.precedes(a)),
            !(a == b && b.precedes(a)),
            a.at_most(b) <==> !b.precedes(a),
    {
    }

    /// `at_most` followed by `precedes` gives `precedes`.
    pub proof fn lemma_at_most_then_precedes(a: Self, b: Self, c: Self)
        requires
            a.at_most(b),
            b.precedes(c),
        ensures
            a.precedes(c),
    {
    }

    /// `at_most` is transitive.
    pub proof fn lemma_at_most_transitive(a: Self, b: Self, c: Self)
        requires
            a.at_most(b),
            b.at_most(c),
        ensures
            a.at_most(c),
    {
    }
}

impl Default for ExecutionIndices {
    fn default() -> (indices: Self)
        ensures
            indices == ExecutionIndices::origin(),
    {
        ExecutionIndices { next_certificate_index: 0, next_batch_index: 0, next_transaction_index: 0 }
    }
}

impl PartialOrdSpecImpl for ExecutionIndices {
    open spec fn obeys_partial_cmp_spec() -> bool {
        true
    }

    open spec fn partial_cmp_spec(&self, other: &ExecutionIndices) -> Option<Ordering> {
        if self.precedes(*other) {
            Some(Ordering::Less)
        } else if other.precedes(*self) {
            Some(Ordering::Greater)
        } else {
            Some(Ordering::Equal)
        }
    }
}

impl PartialOrd for ExecutionIndices {
    fn partial_cmp(&self, other: &ExecutionIndices) -> (order: Option<Ordering>) {
        if self.next_certificate_index < other.next_certificate_index {
            Some(Ordering::Less)
        } else if self.next_certificate_index > other.next_certificate_index {
            Some(Ordering::Greater)
        } else if self.next_batch_index < other.next_batch_index {
            Some(Ordering::Less)
        } else if self.next_batch_index > other.next_batch_index {
            Some(Ordering::Greater)
        } else if self.next_transaction_index < other.next_transaction_index {
            Some(Ordering::Less)
        } else if self.next_transaction_index > other.next_transaction_index {
            Some(Ordering::Greater)
        } else {
            Some(Ordering::Equal)
        }
    }
}

/// A position together with the running digest of the stream up to and
/// including the transaction delivered at that position.
#[derive(Clone, Copy, Debug, PartialEq, Eq, Structural, Hash)]
pub struct ExecutionIndicesWithHash {
    /// The position of the last transaction that was chained into `hash`.
    pub index: ExecutionIndices,
    /// The digest after that transaction.
    pub hash: u64,
}

impl ExecutionIndicesWithHash {
    /// The state before anything was delivered: the origin, with digest zero.
    pub open spec fn genesis() -> Self {
        ExecutionIndicesWithHash { index: ExecutionIndices::origin(), hash: 0 }
    }
}

impl Default for ExecutionIndicesWithHash {
    fn default() -> (state: Self)
        ensures
            state == ExecutionIndicesWithHash::genesis(),
    {
        ExecutionIndicesWithHash {
            index: ExecutionIndices { next_certificate_index: 0, next_batch_index: 0, next_transaction_index: 0 },
            hash: 0,
        }
    }
}

} // verus!
