//! The integrity chain: a rolling 64-bit digest over the delivered history.
//!
//! Each delivered payload is mixed into the digest that came before it, so the
//! digest after a delivery fingerprints every payload so far, in order. The
//! mixing function is the standard library's default hasher, started afresh
//! for every link and fed the previous digest, the payload's length and the
//! payload. A fresh default hasher is not seeded, so the same history gives the
//! same digest on every run and on every replica of the same build.

use std::collections::hash_map::DefaultHasher;
use std::hash::Hasher;
use vstd::bytes::{spec_u64_to_le_bytes, u64_to_le_bytes};
use vstd::prelude::*;
use vstd::std_specs::hash::DefaultHasherAdditionalSpecFns;

verus! {

/// What one link of the chain feeds to the hasher, write by write: the
/// previous digest and the payload's length, each as eight little-endian
/// bytes, then the payload itself.
pub open spec fn link_input(previous: u64, payload: Seq<u8>) -> Seq<Seq<u8>> {
    seq![
        spec_u64_to_le_bytes(previous),
        spec_u64_to_le_bytes(payload.len() as u64),
        payload,
    ]
}

/// The digest that follows `previous` once `payload` has been delivered.
pub open spec fn chained_digest(previous: u64, payload: Seq<u8>) -> u64 {
    DefaultHasher::spec_finish(link_input(previous, payload))
}

/// The digest after a whole history of payloads, delivered in order on top of
/// the digest `seed`.
pub open spec fn history_digest(seed: u64, payloads: Seq<Seq<u8>>) -> u64
    decreases payloads.len(),
{
    if payloads.len() == 0 {
        seed
    } else {
        chained_digest(history_digest(seed, payloads.drop_last()), payloads.last())
    }
}

/// Mixes `payload` into the digest `previous`.
pub fn chain_digest(previous: u64, payload: &[u8]) -> (digest: u64)
    ensures
        digest == chained_digest(previous, payload@),
{
    let mut hasher = DefaultHasher::new();
    let seed_bytes = u64_to_le_bytes(previous);
    let length: u64 = payload.len() as u64;
    let length_bytes = u64_to_le_bytes(length);
    hasher.write(seed_bytes.as_slice());
    hasher.write(length_bytes.as_slice());
    hasher.write(payload);
    proof {
        assert(hasher@ =~= link_input(previous, payload@));
    }
    hasher.finish()
}

/// Digests compose: the digest of a history is the digest of its tail seeded
/// with the digest of its head. A handler that starts again from a digest it
/// had reached therefore continues the very chain it had begun.
pub proof fn lemma_history_digest_concat(seed: u64, head: Seq<Seq<u8>>, tail: Seq<Seq<u8>>)
    ensures
        history_digest(seed, head + tail) == history_digest(history_digest(seed, head), tail),
    decreases tail.len(),
{
    if tail.len() > 0 {
        lemma_history_digest_concat(seed, head, tail.drop_last());
        assert((head + tail).drop_last() =~= head + tail.drop_last());
    }
}

} // verus!
