use control_plane::causality::{
    record_step, CausalityPublication, CausalityRecord, EntryDraft, Headers,
    KafkaCapturedEntrySink, KafkaCapturedEntrySinkConfig, QueuedRecord, RecordStep, SinkError,
};
use control_plane::ids::{UnixNanos, UUID4};

fn entry() -> EntryDraft {
    EntryDraft {
        headers: Headers {
            correlation_id: Some(UUID4::from_text("correlation")),
            causation_id: None,
        },
        topic: "events.order".to_string(),
        payload_type: "OrderFilled".to_string(),
        ts_init: UnixNanos::from(42),
    }
}

fn sink() -> KafkaCapturedEntrySink {
    KafkaCapturedEntrySink::connect(KafkaCapturedEntrySinkConfig::default(), Ok(())).unwrap()
}

#[test]
fn test_default_config() {
    let config = KafkaCapturedEntrySinkConfig::default();
    assert_eq!(config.brokers, "127.0.0.1:9092");
    assert_eq!(config.topic, "hg.nautilus.causality.v1");
    assert_eq!(config.client_id, None);
    assert_eq!(config.message_timeout_ms, 5_000);
}

#[test]
fn the_producer_gets_what_is_configured() {
    let mut config = KafkaCapturedEntrySinkConfig::default();
    let client = config.producer_client();
    assert_eq!(client.get("bootstrap.servers"), Some("127.0.0.1:9092"));
    assert_eq!(client.get("client.id"), None);
    assert_eq!(client.get("message.timeout.ms"), Some("5000"));
    config.client_id = Some("c".to_string());
    assert_eq!(config.producer_client().get("client.id"), Some("c"));
}

#[test]
fn a_sink_without_a_producer_is_refused() {
    let config = KafkaCapturedEntrySinkConfig::default();
    let error = KafkaCapturedEntrySink::connect(config, Err("no".to_string())).unwrap_err();
    assert_eq!(error, SinkError::ProducerNotCreated("no".to_string()));
    assert_eq!(error.message(), "failed to create Kafka producer: no");
}

#[test]
fn captured_entries_become_records() {
    let record = sink().on_captured(Some(UUID4::from_text("identity")), &entry());
    assert_eq!(
        record,
        Some(CausalityRecord {
            identity: Some(UUID4::from_text("identity")),
            topic: "events.order".to_string(),
            payload_type: "OrderFilled".to_string(),
            correlation_id: Some(UUID4::from_text("correlation")),
            causation_id: None,
            ts_init: 42,
        })
    );
}

#[test]
fn records_are_keyed_by_identity_or_topic() {
    let sink = sink();
    let known = sink.on_captured(Some(UUID4::from_text("identity")), &entry()).unwrap();
    assert_eq!(known.key(), "identity");
    let unknown = sink.on_captured(None, &entry()).unwrap();
    assert_eq!(unknown.key(), "events.order");

    let queued = QueuedRecord { record: known, serialized: Ok(b"{}".to_vec()) };
    assert_eq!(
        record_step(sink.topic(), Some(queued)),
        RecordStep::Send(CausalityPublication {
            topic: "hg.nautilus.causality.v1".to_string(),
            key: "identity".to_string(),
            payload: b"{}".to_vec(),
        })
    );
}

#[test]
fn the_publish_task_skips_what_it_cannot_serialize() {
    let sink = sink();
    let record = sink.on_captured(None, &entry()).unwrap();
    let queued = QueuedRecord { record, serialized: Err("bad".to_string()) };
    assert_eq!(record_step("t", Some(queued)), RecordStep::Skip);
    assert_eq!(record_step("t", None), RecordStep::Stop);
}

#[test]
fn an_unserializable_record_costs_no_other() {
    let sink = sink();
    let mut keys = Vec::new();
    for (identity, ok) in [("a", true), ("b", false), ("c", true)] {
        let record = sink.on_captured(Some(UUID4::from_text(identity)), &entry()).unwrap();
        let serialized = if ok { Ok(b"{}".to_vec()) } else { Err("bad".to_string()) };
        if let RecordStep::Send(publication) =
            record_step("t", Some(QueuedRecord { record, serialized }))
        {
            keys.push(publication.key);
        }
    }
    assert_eq!(keys, vec!["a", "c"]);
}

#[test]
fn a_closed_sink_takes_nothing_and_can_be_closed_again() {
    let mut sink = sink();
    assert!(sink.close());
    assert_eq!(sink.on_captured(None, &entry()), None);
    assert!(!sink.close());
}
