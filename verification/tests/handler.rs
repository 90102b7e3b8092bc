use consensus_handler::digest::chain_digest;
use consensus_handler::handler::{Action, ConsensusHandler, Event};
use consensus_handler::indices::{ExecutionIndices, ExecutionIndicesWithHash};
use consensus_handler::machine::{Fault, Outcome};
use consensus_handler::sequenced::{
    SequencedConsensusTransaction, VerifiedSequencedConsensusTransaction,
};

type Handler = ConsensusHandler<u32, String>;

/// The surroundings of a handler, as far as a test needs them: payloads decode
/// as UTF-8 text, a transaction that starts with "invalid" is refused, the
/// transaction "poison" makes execution fail.
struct World {
    listener_open: bool,
    dispatched: Vec<VerifiedSequencedConsensusTransaction<u32, String>>,
    notified: Vec<Vec<u8>>,
    log: Vec<String>,
}

fn world() -> World {
    World { listener_open: true, dispatched: Vec::new(), notified: Vec::new(), log: Vec::new() }
}

fn at(certificate: u64, batch: u64, transaction: u64) -> ExecutionIndices {
    ExecutionIndices::new(certificate, batch, transaction)
}

fn delivered(output: u32, index: ExecutionIndices, payload: &[u8]) -> Event<u32, String> {
    Event::Delivered {
        consensus_output: output,
        consensus_index: index,
        serialized_transaction: payload.to_vec(),
    }
}

fn deliver(
    handler: &mut Handler,
    world: &mut World,
    output: u32,
    index: ExecutionIndices,
    payload: &[u8],
) -> Result<Outcome, Fault> {
    let mut action = handler.handle_consensus_transaction(delivered(output, index, payload));
    loop {
        let event = match action {
            Action::Decode(recorded) => {
                world.log.push(format!("decode {}", recorded.index.next_transaction_index));
                let bytes = handler.serialized_transaction().expect("a payload is in flight");
                assert_eq!(bytes, payload);
                match String::from_utf8(bytes.to_vec()) {
                    Ok(text) => Event::Decoded(text),
                    Err(_) => Event::Malformed,
                }
            }
            Action::Verify => {
                let waiting = handler.sequenced_transaction().expect("a transaction is in flight");
                world.log.push(format!("verify {}", waiting.transaction));
                if waiting.transaction.starts_with("invalid") {
                    Event::Invalid
                } else {
                    Event::Validated
                }
            }
            Action::Dispatch(verified) => {
                let text = verified.as_inner().transaction.clone();
                world.log.push(format!("dispatch begins {}", text));
                if text == "poison" {
                    Event::DispatchFailed
                } else {
                    world.dispatched.push(verified);
                    world.log.push(format!("dispatch ends {}", text));
                    Event::Dispatched
                }
            }
            Action::Notify(payload) => {
                if world.listener_open {
                    world.notified.push(payload);
                    Event::Notified
                } else {
                    Event::ListenerClosed
                }
            }
            Action::Done(outcome) => return Ok(outcome),
            Action::Abort(fault) => return Err(fault),
        };
        action = handler.handle_consensus_transaction(event);
    }
}

#[test]
fn new_handler_has_seen_nothing() {
    let handler = Handler::new();
    assert_eq!(handler.last_seen(), ExecutionIndicesWithHash::default());
    assert!(handler.serialized_transaction().is_none());
    assert!(handler.sequenced_transaction().is_none());
}

#[test]
fn update_hash_accepts_a_later_position_and_chains_the_payload() {
    let mut handler = Handler::new();
    let recorded = handler.update_hash(at(1, 1, 1), b"b1");
    let expected = ExecutionIndicesWithHash { index: at(1, 1, 1), hash: chain_digest(0, b"b1") };
    assert_eq!(recorded, Some(expected));
    assert_eq!(handler.last_seen(), expected);
}

#[test]
fn update_hash_drops_the_same_position() {
    let mut handler = Handler::new();
    let recorded = handler.update_hash(at(1, 1, 1), b"b1").expect("accepted");
    assert_eq!(handler.update_hash(at(1, 1, 1), b"b1"), None);
    assert_eq!(handler.update_hash(at(1, 1, 1), b"something else"), None);
    assert_eq!(handler.last_seen(), recorded);
}

#[test]
fn update_hash_drops_an_earlier_position() {
    let mut handler = Handler::new();
    let recorded = handler.update_hash(at(2, 1, 1), b"b1").expect("accepted");
    assert_eq!(handler.update_hash(at(1, 9, 9), b"b2"), None);
    assert_eq!(handler.update_hash(at(2, 0, 9), b"b2"), None);
    assert_eq!(handler.update_hash(at(2, 1, 0), b"b2"), None);
    assert_eq!(handler.last_seen(), recorded);
}

#[test]
fn update_hash_drops_the_origin_on_a_new_handler() {
    let mut handler = Handler::new();
    assert_eq!(handler.update_hash(at(0, 0, 0), b"b1"), None);
    assert_eq!(handler.last_seen(), ExecutionIndicesWithHash::default());
    assert!(handler.update_hash(at(0, 0, 1), b"b1").is_some());
}

#[test]
fn position_is_monotone_over_deliveries() {
    let mut handler = Handler::new();
    let stream = [
        at(1, 1, 1),
        at(1, 1, 1),
        at(1, 1, 3),
        at(1, 1, 2),
        at(1, 2, 0),
        at(0, 9, 9),
        at(3, 0, 0),
        at(2, 5, 5),
        at(3, 0, 0),
        at(3, 0, 1),
    ];
    for index in stream {
        let before = handler.last_seen();
        match handler.update_hash(index, b"payload") {
            Some(recorded) => {
                assert!(before.index < recorded.index);
                assert_eq!(recorded.index, index);
                assert_eq!(recorded.hash, chain_digest(before.hash, b"payload"));
                assert_eq!(handler.last_seen(), recorded);
            }
            None => {
                assert!(index <= before.index);
                assert_eq!(handler.last_seen(), before);
            }
        }
    }
    assert_eq!(handler.last_seen().index, at(3, 0, 1));
}

#[test]
fn redelivery_computes_the_digest_once_and_dispatches_once() {
    let mut handler = Handler::new();
    let mut world = world();
    assert_eq!(deliver(&mut handler, &mut world, 1, at(1, 1, 1), b"b1"), Ok(Outcome::Notified));
    let after_first = handler.last_seen();
    assert_eq!(after_first.hash, chain_digest(0, b"b1"));
    assert_eq!(deliver(&mut handler, &mut world, 1, at(1, 1, 1), b"b1"), Ok(Outcome::Deduped));
    assert_eq!(handler.last_seen(), after_first);
    assert_eq!(world.dispatched.len(), 1);
    assert_eq!(world.notified, vec![b"b1".to_vec()]);
}

#[test]
fn distinct_deliveries_give_distinct_digests_and_are_dispatched_in_order() {
    let mut handler = Handler::new();
    let mut world = world();
    assert_eq!(deliver(&mut handler, &mut world, 1, at(1, 1, 1), b"b1"), Ok(Outcome::Notified));
    let first = handler.last_seen();
    assert_eq!(deliver(&mut handler, &mut world, 1, at(1, 1, 2), b"b2"), Ok(Outcome::Notified));
    let second = handler.last_seen();
    assert_ne!(first.hash, second.hash);
    assert_eq!(first.hash, chain_digest(0, b"b1"));
    assert_eq!(second.hash, chain_digest(first.hash, b"b2"));
    assert_eq!(world.dispatched.len(), 2);
    assert_eq!(world.dispatched[0].as_inner().consensus_index, first);
    assert_eq!(world.dispatched[0].as_inner().transaction, "b1");
    assert_eq!(world.dispatched[1].as_inner().consensus_index, second);
    assert_eq!(world.dispatched[1].as_inner().transaction, "b2");
    assert_eq!(world.notified, vec![b"b1".to_vec(), b"b2".to_vec()]);
}

#[test]
fn undecodable_payload_is_dropped_after_the_digest_update() {
    let mut handler = Handler::new();
    let mut world = world();
    let garbage = [0xff, 0xfe, 0xfd];
    assert_eq!(
        deliver(&mut handler, &mut world, 1, at(1, 1, 1), &garbage),
        Ok(Outcome::DroppedMalformed)
    );
    let expected = ExecutionIndicesWithHash { index: at(1, 1, 1), hash: chain_digest(0, &garbage) };
    assert_eq!(handler.last_seen(), expected);
    assert!(world.dispatched.is_empty());
    assert!(world.notified.is_empty());
    assert_eq!(world.log, vec!["decode 1".to_string()]);
    assert!(handler.serialized_transaction().is_none());
}

#[test]
fn recovery_rejects_the_stored_position_and_chains_from_the_stored_digest() {
    let mut handler = Handler::new();
    let mut world = world();
    let stored = ExecutionIndicesWithHash { index: at(2, 1, 1), hash: 0xd1d1_d1d1_d1d1_d1d1 };
    assert_eq!(handler.load_execution_indices(stored), at(2, 1, 1));
    assert_eq!(handler.last_seen(), stored);
    assert_eq!(deliver(&mut handler, &mut world, 1, at(2, 1, 1), b"old"), Ok(Outcome::Deduped));
    assert_eq!(handler.last_seen(), stored);
    assert!(world.dispatched.is_empty());
    assert_eq!(deliver(&mut handler, &mut world, 1, at(2, 1, 2), b"new"), Ok(Outcome::Notified));
    let expected =
        ExecutionIndicesWithHash { index: at(2, 1, 2), hash: chain_digest(stored.hash, b"new") };
    assert_eq!(handler.last_seen(), expected);
    assert_eq!(world.dispatched.len(), 1);
    assert_eq!(world.dispatched[0].as_inner().consensus_index, expected);
}

#[test]
fn recovery_may_move_the_position_back() {
    let mut handler = Handler::new();
    handler.update_hash(at(5, 0, 0), b"x").expect("accepted");
    let stored = ExecutionIndicesWithHash { index: at(2, 1, 1), hash: 9 };
    assert_eq!(handler.load_execution_indices(stored), at(2, 1, 1));
    assert_eq!(handler.last_seen(), stored);
}

#[test]
fn digest_is_the_same_on_two_handlers_fed_the_same_stream() {
    let stream: [(ExecutionIndices, &[u8]); 4] =
        [(at(1, 1, 1), b"one"), (at(1, 1, 2), b"two"), (at(1, 1, 2), b"two"), (at(2, 1, 1), b"")];
    let mut one = Handler::new();
    let mut other = Handler::new();
    let mut world_of_one = world();
    let mut world_of_other = world();
    world_of_other.listener_open = false;
    for (index, payload) in stream {
        let _ = deliver(&mut one, &mut world_of_one, 1, index, payload);
        let _ = deliver(&mut other, &mut world_of_other, 2, index, payload);
    }
    assert_eq!(one.last_seen(), other.last_seen());
    let expected = chain_digest(chain_digest(chain_digest(0, b"one"), b"two"), b"");
    assert_eq!(one.last_seen().hash, expected);
    assert_eq!(one.last_seen().index, at(2, 1, 1));
}

#[test]
fn digest_does_not_depend_on_the_positions() {
    let mut one = Handler::new();
    let mut other = Handler::new();
    one.update_hash(at(1, 1, 1), b"one").expect("accepted");
    one.update_hash(at(1, 1, 2), b"two").expect("accepted");
    other.update_hash(at(4, 0, 0), b"one").expect("accepted");
    other.update_hash(at(9, 9, 9), b"two").expect("accepted");
    assert_eq!(one.last_seen().hash, other.last_seen().hash);
    assert_ne!(one.last_seen().index, other.last_seen().index);
}

#[test]
fn dispatch_of_one_ends_before_dispatch_of_the_next_begins() {
    let mut handler = Handler::new();
    let mut world = world();
    assert_eq!(deliver(&mut handler, &mut world, 1, at(1, 1, 1), b"A"), Ok(Outcome::Notified));
    assert_eq!(deliver(&mut handler, &mut world, 1, at(1, 1, 2), b"B"), Ok(Outcome::Notified));
    let expected: Vec<String> = [
        "decode 1",
        "verify A",
        "dispatch begins A",
        "dispatch ends A",
        "decode 2",
        "verify B",
        "dispatch begins B",
        "dispatch ends B",
    ]
    .iter()
    .map(|line| line.to_string())
    .collect();
    assert_eq!(world.log, expected);
    assert!(
        world.dispatched[0].as_inner().consensus_index.index
            < world.dispatched[1].as_inner().consensus_index.index
    );
}

#[test]
fn malformed_payload_does_not_block_the_next_delivery() {
    let mut handler = Handler::new();
    let mut world = world();
    assert_eq!(
        deliver(&mut handler, &mut world, 1, at(1, 1, 1), &[0xc0]),
        Ok(Outcome::DroppedMalformed)
    );
    assert_eq!(deliver(&mut handler, &mut world, 2, at(1, 1, 2), b"good"), Ok(Outcome::Notified));
    assert_eq!(world.dispatched.len(), 1);
    let dispatched = world.dispatched.pop().expect("one transaction").into_inner();
    let expected = SequencedConsensusTransaction {
        consensus_output: 2,
        consensus_index: ExecutionIndicesWithHash {
            index: at(1, 1, 2),
            hash: chain_digest(chain_digest(0, &[0xc0]), b"good"),
        },
        transaction: "good".to_string(),
    };
    assert_eq!(dispatched, expected);
}

#[test]
fn invalid_transaction_is_dropped_and_the_next_goes_through() {
    let mut handler = Handler::new();
    let mut world = world();
    assert_eq!(
        deliver(&mut handler, &mut world, 1, at(1, 1, 1), b"invalid signature"),
        Ok(Outcome::DroppedInvalid)
    );
    assert!(world.dispatched.is_empty());
    assert!(world.notified.is_empty());
    assert_eq!(handler.last_seen().index, at(1, 1, 1));
    assert!(handler.sequenced_transaction().is_none());
    assert_eq!(deliver(&mut handler, &mut world, 1, at(1, 1, 2), b"fine"), Ok(Outcome::Notified));
    assert_eq!(world.dispatched.len(), 1);
}

#[test]
fn closed_listener_is_a_warning_only() {
    let mut handler = Handler::new();
    let mut world = world();
    world.listener_open = false;
    assert_eq!(deliver(&mut handler, &mut world, 1, at(1, 1, 1), b"A"), Ok(Outcome::Warned));
    assert_eq!(world.dispatched.len(), 1);
    assert!(world.notified.is_empty());
    assert_eq!(deliver(&mut handler, &mut world, 1, at(1, 1, 2), b"B"), Ok(Outcome::Warned));
    assert_eq!(world.dispatched.len(), 2);
}

#[test]
fn failed_dispatch_halts_the_handler() {
    let mut handler = Handler::new();
    let mut world = world();
    assert_eq!(
        deliver(&mut handler, &mut world, 1, at(1, 1, 1), b"poison"),
        Err(Fault::DispatchFailed)
    );
    assert!(world.notified.is_empty());
    let halted_at = handler.last_seen();
    assert_eq!(deliver(&mut handler, &mut world, 1, at(1, 1, 2), b"B"), Err(Fault::Halted));
    assert_eq!(handler.handle_consensus_transaction(Event::Notified), Action::Abort(Fault::Halted));
    assert_eq!(handler.last_seen(), halted_at);
    assert!(world.dispatched.is_empty());
}

#[test]
fn delivery_while_another_is_in_flight_halts_the_handler() {
    let mut handler = Handler::new();
    let first = handler.handle_consensus_transaction(delivered(1, at(1, 1, 1), b"A"));
    let recorded = ExecutionIndicesWithHash { index: at(1, 1, 1), hash: chain_digest(0, b"A") };
    assert_eq!(first, Action::Decode(recorded));
    let second = handler.handle_consensus_transaction(delivered(1, at(1, 1, 2), b"B"));
    assert_eq!(second, Action::Abort(Fault::OutOfTurn));
    assert_eq!(handler.last_seen(), recorded);
    assert_eq!(
        handler.handle_consensus_transaction(Event::Decoded("A".to_string())),
        Action::Abort(Fault::Halted)
    );
}

#[test]
fn report_without_a_delivery_halts_the_handler() {
    let reports: Vec<Event<u32, String>> = vec![
        Event::Decoded("A".to_string()),
        Event::Malformed,
        Event::Validated,
        Event::Invalid,
        Event::Dispatched,
        Event::DispatchFailed,
        Event::Notified,
        Event::ListenerClosed,
    ];
    for report in reports {
        let mut handler = Handler::new();
        assert_eq!(handler.handle_consensus_transaction(report), Action::Abort(Fault::OutOfTurn));
        assert_eq!(
            handler.handle_consensus_transaction(delivered(1, at(1, 1, 1), b"A")),
            Action::Abort(Fault::Halted)
        );
        assert_eq!(handler.last_seen(), ExecutionIndicesWithHash::default());
    }
}

#[test]
fn report_at_the_wrong_stage_halts_the_handler() {
    let mut handler = Handler::new();
    handler.handle_consensus_transaction(delivered(1, at(1, 1, 1), b"A"));
    assert_eq!(
        handler.handle_consensus_transaction(Event::Decoded("A".to_string())),
        Action::Verify
    );
    assert_eq!(handler.handle_consensus_transaction(Event::Dispatched), Action::Abort(Fault::OutOfTurn));
    assert_eq!(handler.handle_consensus_transaction(Event::Validated), Action::Abort(Fault::Halted));
}

#[test]
fn each_stage_answers_with_the_next_action() {
    let mut handler = Handler::new();
    let recorded = ExecutionIndicesWithHash { index: at(3, 1, 1), hash: chain_digest(0, b"tx") };
    assert_eq!(
        handler.handle_consensus_transaction(delivered(8, at(3, 1, 1), b"tx")),
        Action::Decode(recorded)
    );
    assert_eq!(handler.serialized_transaction(), Some(&b"tx"[..]));
    assert!(handler.sequenced_transaction().is_none());

    assert_eq!(
        handler.handle_consensus_transaction(Event::Decoded("tx".to_string())),
        Action::Verify
    );
    let sequenced = SequencedConsensusTransaction {
        consensus_output: 8,
        consensus_index: recorded,
        transaction: "tx".to_string(),
    };
    assert_eq!(handler.sequenced_transaction(), Some(&sequenced));
    assert_eq!(handler.serialized_transaction(), Some(&b"tx"[..]));

    match handler.handle_consensus_transaction(Event::Validated) {
        Action::Dispatch(verified) => {
            assert_eq!(verified.as_inner(), &sequenced);
            assert_eq!(verified.into_inner(), sequenced);
        }
        other => panic!("expected a dispatch, got {:?}", other),
    }
    assert!(handler.sequenced_transaction().is_none());
    assert_eq!(handler.serialized_transaction(), Some(&b"tx"[..]));

    assert_eq!(
        handler.handle_consensus_transaction(Event::Dispatched),
        Action::Notify(b"tx".to_vec())
    );
    assert!(handler.serialized_transaction().is_none());

    assert_eq!(
        handler.handle_consensus_transaction(Event::Notified),
        Action::Done(Outcome::Notified)
    );
    assert_eq!(handler.last_seen(), recorded);
    assert!(handler.update_hash(at(3, 1, 2), b"next").is_some());
}

#[test]
fn update_hash_leaves_the_delivery_in_flight_alone() {
    let mut handler = Handler::new();
    handler.handle_consensus_transaction(delivered(1, at(1, 1, 1), b"A"));
    assert!(handler.update_hash(at(1, 1, 5), b"other").is_some());
    assert_eq!(handler.serialized_transaction(), Some(&b"A"[..]));
    assert_eq!(
        handler.handle_consensus_transaction(Event::Decoded("A".to_string())),
        Action::Verify
    );
}

#[test]
fn empty_payload_is_a_delivery_like_any_other() {
    let mut handler = Handler::new();
    let mut world = world();
    assert_eq!(deliver(&mut handler, &mut world, 1, at(1, 1, 1), b""), Ok(Outcome::Notified));
    assert_eq!(handler.last_seen().hash, chain_digest(0, b""));
    assert_eq!(world.notified, vec![Vec::<u8>::new()]);
}

#[test]
fn new_test_builds_a_fixture_at_the_genesis_position() {
    let fixture: SequencedConsensusTransaction<u32, String> =
        SequencedConsensusTransaction::new_test("tx".to_string());
    assert_eq!(fixture.transaction, "tx");
    assert_eq!(fixture.consensus_output, 0);
    assert_eq!(fixture.consensus_index, ExecutionIndicesWithHash::default());
}
