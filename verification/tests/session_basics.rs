use producer_mux::errors::{ConnectionError, ProducerError};
use producer_mux::message::Message;
use producer_mux::sequence::SerialId;
use producer_mux::session::{CreationStage, Producer, ProducerSuccess};

fn msg(payload: &[u8]) -> Message {
    Message::with_payload(payload.to_vec(), Vec::new())
}

#[test]
fn sequence_generator_counts_from_zero() {
    let mut ids = SerialId::new();
    let drawn = vec![ids.get(), ids.get(), ids.get(), ids.get()];
    assert_eq!(drawn, vec![0, 1, 2, 3]);
    for pair in drawn.windows(2) {
        assert!(pair[0] < pair[1]);
    }
}

#[test]
fn fresh_id_avoids_live_identities() {
    let in_use: Vec<u64> = (0..64).collect();
    let id = producer_mux::session::fresh_producer_id(&in_use);
    assert!(!in_use.contains(&id));
    let (pc, _probe) =
        Producer::from_connection("topic-a".to_string(), None, &vec![7, 8, 9, u64::MAX]);
    assert!(pc.producer_id != 7 && pc.producer_id != 8 && pc.producer_id != 9);
    assert!(pc.producer_id != u64::MAX);
}

#[test]
fn handshake_happy_path() {
    let (pc, probe) = Producer::from_connection("topic-a".to_string(), Some("wanted".to_string()), &Vec::new());
    assert_eq!(probe.topic, "topic-a");
    assert!(!probe.authoritative);
    assert_eq!(pc.stage, CreationStage::LookupPending);
    let id = pc.producer_id;
    let (pc, req) = pc.on_lookup(Ok(())).unwrap();
    assert_eq!(pc.stage, CreationStage::CreatePending);
    assert_eq!(req.topic, "topic-a");
    assert_eq!(req.producer_id, id);
    assert_eq!(req.requested_name, Some("wanted".to_string()));
    let p = pc
        .on_created(Ok(ProducerSuccess { producer_name: "broker-name".to_string() }))
        .unwrap();
    assert_eq!(p.id, id);
    assert_eq!(p.name, "broker-name");
    assert_eq!(p.topic(), "topic-a");
    assert_eq!(p.message_id.next, 0);
}

#[test]
fn lookup_failure_yields_no_session() {
    let (pc, _probe) = Producer::from_connection("topic-a".to_string(), None, &Vec::new());
    let r = pc.on_lookup(Err(ConnectionError::Disconnected));
    assert_eq!(r.unwrap_err(), ConnectionError::Disconnected);
}

#[test]
fn create_failure_yields_no_session() {
    let (pc, _probe) = Producer::from_connection("topic-a".to_string(), None, &Vec::new());
    let (pc, _req) = pc.on_lookup(Ok(())).unwrap();
    let r = pc.on_created(Err(ConnectionError::Unexpected("no quota".to_string())));
    assert_eq!(r.unwrap_err(), ConnectionError::Unexpected("no quota".to_string()));
}

#[test]
fn sends_carry_identity_and_consecutive_sequence_ids() {
    let mut p = Producer::new(8, "name".to_string(), "topic".to_string());
    let c0 = p.send(msg(b"one"), None);
    let c1 = p.send(msg(b"two"), Some(2));
    assert_eq!(c0.producer_id, 8);
    assert_eq!(c0.producer_name, "name");
    assert_eq!(c0.sequence_id, 0);
    assert_eq!(c0.num_messages, None);
    assert_eq!(c0.message.payload, b"one".to_vec());
    assert_eq!(c1.sequence_id, 1);
    assert_eq!(c1.num_messages, Some(2));
}

#[test]
fn send_raw_builds_a_default_message() {
    let mut p = Producer::new(8, "name".to_string(), "topic".to_string());
    let props = vec![("k".to_string(), "v".to_string())];
    let c = p.send_raw(b"payload".to_vec(), Some(props.clone()));
    assert_eq!(c.message.payload, b"payload".to_vec());
    assert_eq!(c.message.properties, props);
    assert_eq!(c.message.partition_key, None);
    assert!(c.message.replicate_to.is_empty());
    assert_eq!(c.message.compression, None);
    assert_eq!(c.message.uncompressed_size, None);
    assert_eq!(c.message.num_messages_in_batch, None);
    assert_eq!(c.message.event_time, None);
    assert!(c.message.encryption_keys.is_empty());
    assert_eq!(c.message.encryption_algo, None);
    assert_eq!(c.message.encryption_param, None);
    assert_eq!(c.message.schema_version, None);
    let c2 = p.send_raw(b"more".to_vec(), None);
    assert!(c2.message.properties.is_empty());
    assert_eq!(c2.sequence_id, 1);
}

#[test]
fn send_json_encodes_the_value() {
    let mut p = Producer::new(9, "n".to_string(), "t".to_string());
    let mut fields = serde_json::Map::new();
    fields.insert(
        "greeting".to_string(),
        serde_json::Value::String("hello".to_string()),
    );
    let value = serde_json::Value::Object(fields);
    let c = p.send_json(&value, None).unwrap();
    assert_eq!(c.message.payload, serde_json::to_vec(&value).unwrap());
    assert_eq!(c.message.payload, b"{\"greeting\":\"hello\"}".to_vec());
    assert_eq!(c.sequence_id, 0);
    assert_eq!(p.message_id.next, 1);
}

#[test]
fn check_connection_probe_is_inert() {
    let p = Producer::new(8, "name".to_string(), "topic".to_string());
    let probe = p.check_connection();
    assert_eq!(probe.topic, "test");
    assert!(!probe.authoritative);
    assert_eq!(p.message_id.next, 0);
}

#[test]
fn close_command_names_the_session() {
    let p = Producer::new(77, "name".to_string(), "topic".to_string());
    assert_eq!(p.close_command().producer_id, 77);
}

#[test]
fn connection_error_descriptions() {
    assert_eq!(
        ConnectionError::Disconnected.description(),
        "the connection was closed"
    );
    assert_eq!(
        ConnectionError::Unexpected("odd frame".to_string()).description(),
        "odd frame"
    );
}

#[test]
fn producer_error_from_connection_error() {
    let e = ProducerError::from(ConnectionError::Disconnected);
    assert_eq!(e, ProducerError::Connection(ConnectionError::Disconnected));
}

#[test]
fn message_defaults_to_payload_only() {
    let m = Message::default();
    assert!(m.payload.is_empty());
    assert!(m.properties.is_empty());
    let m = Message::with_payload(b"data".to_vec(), Vec::new());
    assert_eq!(m.payload, b"data".to_vec());
    assert_eq!(m.partition_key, None);
    assert_eq!(m.event_time, None);
}
