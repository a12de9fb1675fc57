use producer_mux::engine::{resolve_send_outcome, EngineAction, ProducerEngine, Resolution};
use producer_mux::errors::{ConnectionError, ProducerError};
use producer_mux::message::{Message, SendReceipt};
use producer_mux::session::Producer;

fn msg(payload: &[u8]) -> Message {
    Message::with_payload(payload.to_vec(), Vec::new())
}

#[test]
fn concurrent_sends_issue_one_creation() {
    let mut engine = ProducerEngine::new();
    let first = engine.handle_message("topic-a".to_string(), msg(b"m1"), 1);
    assert_eq!(first, EngineAction::StartCreation { topic: "topic-a".to_string() });
    let second = engine.handle_message("topic-a".to_string(), msg(b"m2"), 2);
    assert_eq!(second, EngineAction::Chained);
}

#[test]
fn raced_callers_all_dispatch_after_success() {
    let mut engine = ProducerEngine::new();
    engine.handle_message("topic-a".to_string(), msg(b"m1"), 1);
    engine.handle_message("topic-a".to_string(), msg(b"m2"), 2);
    let p = Producer::new(7, "assigned".to_string(), "topic-a".to_string());
    let rs = engine.handle_creation_result(&"topic-a".to_string(), Ok(p));
    assert_eq!(rs.len(), 2);
    match &rs[0] {
        Resolution::Dispatch { command, caller } => {
            assert_eq!(*caller, 1);
            assert_eq!(command.producer_id, 7);
            assert_eq!(command.producer_name, "assigned");
            assert_eq!(command.sequence_id, 0);
            assert_eq!(command.message.payload, b"m1".to_vec());
        }
        other => panic!("expected a dispatch, got {:?}", other),
    }
    match &rs[1] {
        Resolution::Dispatch { command, caller } => {
            assert_eq!(*caller, 2);
            assert_eq!(command.sequence_id, 1);
            assert_eq!(command.message.payload, b"m2".to_vec());
        }
        other => panic!("expected a dispatch, got {:?}", other),
    }
}

#[test]
fn raced_callers_share_one_failure() {
    let mut engine = ProducerEngine::new();
    engine.handle_message("topic-a".to_string(), msg(b"m1"), 1);
    engine.handle_message("topic-a".to_string(), msg(b"m2"), 2);
    let rs = engine.handle_creation_result(&"topic-a".to_string(), Err(ConnectionError::Disconnected));
    assert_eq!(rs.len(), 2);
    let first_error = match &rs[0] {
        Resolution::Failed { caller, error } => {
            assert_eq!(*caller, 1);
            error.clone()
        }
        other => panic!("expected a failure, got {:?}", other),
    };
    let second_error = match &rs[1] {
        Resolution::Failed { caller, error } => {
            assert_eq!(*caller, 2);
            error.clone()
        }
        other => panic!("expected a failure, got {:?}", other),
    };
    assert_eq!(first_error, second_error);
    match first_error {
        ProducerError::Custom(text) => assert_eq!(text, "the connection was closed"),
        other => panic!("expected a custom error, got {:?}", other),
    }
}

#[test]
fn ready_topic_dispatches_without_creation() {
    let mut engine = ProducerEngine::new();
    engine.handle_message("topic-a".to_string(), msg(b"m1"), 1);
    let p = Producer::new(5, "n".to_string(), "topic-a".to_string());
    engine.handle_creation_result(&"topic-a".to_string(), Ok(p));
    let act = engine.handle_message("topic-a".to_string(), msg(b"m2"), 2);
    match act {
        EngineAction::Dispatch { command, caller } => {
            assert_eq!(caller, 2);
            assert_eq!(command.producer_id, 5);
            assert_eq!(command.sequence_id, 1);
        }
        other => panic!("expected a dispatch, got {:?}", other),
    }
}

#[test]
fn third_send_draws_sequence_two_despite_other_topic() {
    let mut engine = ProducerEngine::new();
    engine.handle_message("topic-a".to_string(), msg(b"m1"), 1);
    engine.handle_message("topic-a".to_string(), msg(b"m2"), 2);
    let p = Producer::new(11, "a-name".to_string(), "topic-a".to_string());
    let rs = engine.handle_creation_result(&"topic-a".to_string(), Ok(p));
    assert_eq!(rs.len(), 2);
    // Concurrent activity on an unrelated topic.
    let other = engine.handle_message("topic-b".to_string(), msg(b"x"), 9);
    assert_eq!(other, EngineAction::StartCreation { topic: "topic-b".to_string() });
    let third = engine.handle_message("topic-a".to_string(), msg(b"m3"), 3);
    match third {
        EngineAction::Dispatch { command, caller } => {
            assert_eq!(caller, 3);
            assert_eq!(command.producer_id, 11);
            assert_eq!(command.producer_name, "a-name");
            assert_eq!(command.sequence_id, 2);
        }
        other => panic!("expected a dispatch, got {:?}", other),
    }
}

#[test]
fn failed_then_fresh_creation_succeeds() {
    let mut engine = ProducerEngine::new();
    let first = engine.handle_message("topic-c".to_string(), msg(b"m1"), 1);
    assert_eq!(first, EngineAction::StartCreation { topic: "topic-c".to_string() });
    let rs = engine.handle_creation_result(
        &"topic-c".to_string(),
        Err(ConnectionError::Unexpected("broker rejected the producer".to_string())),
    );
    assert_eq!(rs.len(), 1);
    match &rs[0] {
        Resolution::Failed { caller, error } => {
            assert_eq!(*caller, 1);
            assert_eq!(
                *error,
                ProducerError::Custom("broker rejected the producer".to_string())
            );
        }
        other => panic!("expected a failure, got {:?}", other),
    }
    // The failed attempt cached nothing: the next send begins a second,
    // independent creation RPC.
    let second = engine.handle_message("topic-c".to_string(), msg(b"m2"), 2);
    assert_eq!(second, EngineAction::StartCreation { topic: "topic-c".to_string() });
    let p = Producer::new(3, "fresh".to_string(), "topic-c".to_string());
    let rs = engine.handle_creation_result(&"topic-c".to_string(), Ok(p));
    assert_eq!(rs.len(), 1);
    match &rs[0] {
        Resolution::Dispatch { command, caller } => {
            assert_eq!(*caller, 2);
            assert_eq!(command.producer_id, 3);
            assert_eq!(command.sequence_id, 0);
            assert_eq!(command.message.payload, b"m2".to_vec());
        }
        other => panic!("expected a dispatch, got {:?}", other),
    }
}

#[test]
fn shutdown_closes_each_session_exactly_once() {
    let mut engine = ProducerEngine::new();
    engine.handle_message("topic-a".to_string(), msg(b"m1"), 1);
    engine.handle_creation_result(
        &"topic-a".to_string(),
        Ok(Producer::new(21, "a".to_string(), "topic-a".to_string())),
    );
    engine.handle_message("topic-b".to_string(), msg(b"m2"), 2);
    engine.handle_creation_result(
        &"topic-b".to_string(),
        Ok(Producer::new(22, "b".to_string(), "topic-b".to_string())),
    );
    let closes = engine.shutdown();
    let mut ids: Vec<u64> = closes.iter().map(|c| c.producer_id).collect();
    ids.sort();
    assert_eq!(ids, vec![21, 22]);
    // Every session was released with its one close notification; nothing
    // is left to close.
    let again = engine.shutdown();
    assert!(again.is_empty());
}

#[test]
fn resolve_send_outcome_passes_answers_through() {
    let receipt = SendReceipt { producer_id: 4, sequence_id: 0 };
    assert_eq!(resolve_send_outcome(Some(Ok(receipt.clone()))), Ok(receipt));
    let failure = ProducerError::Custom("send failed".to_string());
    assert_eq!(
        resolve_send_outcome(Some(Err(failure.clone()))),
        Err(failure)
    );
}

#[test]
fn resolve_send_outcome_marks_vanished_engine() {
    assert_eq!(
        resolve_send_outcome(None),
        Err(ProducerError::EngineUnavailable)
    );
}
