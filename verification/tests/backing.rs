use control_plane::backing::{BackingError, BackingTask, KafkaMessageBusBacking};
use control_plane::ids::{TraderId, UUID4};
use control_plane::kafka_config::{KafkaMessageBusConfig, KafkaMessageBusFactory};
use control_plane::topic::{get_topic_key, MessageBusConfig};

const INSTANCE: &str = "2d89666b-1a1e-4a75-b193-4eb3b454c757";

fn start(config: &MessageBusConfig) -> Result<KafkaMessageBusBacking, BackingError> {
    KafkaMessageBusBacking::new(
        TraderId::new("TRADER-001"),
        UUID4::from_text(INSTANCE),
        config,
        &KafkaMessageBusConfig::default(),
    )
}

#[test]
fn test_get_topic_key_defaults() {
    let trader_id = TraderId::new("TRADER-001");
    let instance_id = UUID4::from_text(INSTANCE);
    let config =
        MessageBusConfig { streams_prefix: "stream".to_string(), ..MessageBusConfig::default() };

    let key = get_topic_key(&trader_id, &instance_id, &config);
    assert_eq!(key, "trader-TRADER-001.stream");
}

#[test]
fn topic_keys_hold_the_parts_that_are_used() {
    let trader_id = TraderId::new("T-1");
    let instance_id = UUID4::from_text("uuid");
    let key = |use_trader_prefix, use_trader_id, use_instance_id| {
        let config = MessageBusConfig {
            use_trader_prefix,
            use_trader_id,
            use_instance_id,
            streams_prefix: "s".to_string(),
            ..MessageBusConfig::default()
        };
        get_topic_key(&trader_id, &instance_id, &config)
    };
    assert_eq!(key(false, false, false), "s");
    assert_eq!(key(true, false, false), "trader-s");
    assert_eq!(key(false, true, false), "T-1.s");
    assert_eq!(key(false, false, true), "uuid.s");
    assert_eq!(key(true, true, true), "trader-T-1.uuid.s");
}

#[test]
fn instances_have_their_own_topics() {
    let config = MessageBusConfig { use_instance_id: true, ..MessageBusConfig::default() };
    let trader_id = TraderId::new("T-1");
    let left = get_topic_key(&trader_id, &UUID4::from_text("left"), &config);
    let right = get_topic_key(&trader_id, &UUID4::from_text("right"), &config);
    assert_eq!(left, "trader-T-1.left.stream");
    assert_ne!(left, right);
}

#[test]
fn the_topic_key_ignores_streams() {
    let config = MessageBusConfig {
        stream_per_topic: false,
        external_streams: Some(vec!["x".to_string()]),
        heartbeat_interval_secs: Some(9),
        ..MessageBusConfig::default()
    };
    let id = TraderId::new("T-1");
    let instance = UUID4::from_text("uuid");
    assert_eq!(
        get_topic_key(&id, &instance, &config),
        get_topic_key(&id, &instance, &MessageBusConfig::default())
    );
}

#[test]
fn a_zero_heartbeat_interval_is_refused() {
    let config =
        MessageBusConfig { heartbeat_interval_secs: Some(0), ..MessageBusConfig::default() };
    let error = start(&config).err().unwrap();
    assert_eq!(error, BackingError::ZeroHeartbeatInterval);
    assert_eq!(error.message(), "heartbeat_interval_secs must be greater than 0");
    let factory = KafkaMessageBusFactory::new(KafkaMessageBusConfig::default());
    let created = factory.create(TraderId::new("T-1"), UUID4::from_text("uuid"), config);
    assert_eq!(created.err(), Some(BackingError::ZeroHeartbeatInterval));
}

#[test]
fn a_plain_backing_only_publishes() {
    for external_streams in [None, Some(Vec::new())] {
        let config = MessageBusConfig { external_streams, ..MessageBusConfig::default() };
        let mut backing = start(&config).unwrap();
        assert_eq!(backing.egress_topic(), "trader-TRADER-001.stream");
        assert!(backing.stream().is_none());
        assert_eq!(backing.heartbeat_interval_secs(), None);
        assert_eq!(backing.take_receiver(), Err(BackingError::ReceiverTaken));
        assert_eq!(backing.close_async(), vec![BackingTask::Publish]);
    }
}

#[test]
fn the_receiver_is_handed_out_once() {
    let config = MessageBusConfig {
        external_streams: Some(vec!["a".to_string(), "b".to_string()]),
        heartbeat_interval_secs: Some(1),
        ..MessageBusConfig::default()
    };
    let mut backing = start(&config).unwrap();
    assert_eq!(backing.trader_id().as_str(), "TRADER-001");
    assert_eq!(backing.instance_id().as_str(), "2d89666b-1a1e-4a75-b193-4eb3b454c757");
    let plan = backing.stream().unwrap();
    assert_eq!(plan.topics, vec!["a", "b"]);
    assert_eq!(
        plan.node_group_id,
        "nautilus-TRADER-001-2d89666b-1a1e-4a75-b193-4eb3b454c757"
    );
    assert_eq!(backing.take_receiver(), Ok(()));
    let error = backing.take_receiver().unwrap_err();
    assert_eq!(error.message(), "Stream receiver already taken");
}

#[test]
fn closing_waits_for_every_task_once() {
    let config = MessageBusConfig {
        external_streams: Some(vec!["a".to_string()]),
        heartbeat_interval_secs: Some(1),
        ..MessageBusConfig::default()
    };
    let mut backing = start(&config).unwrap();
    assert!(!backing.stop_signalled());

    let steps = backing.close(false);
    assert!(backing.stop_signalled());
    assert_eq!(steps.close_message.unwrap().topic, "CLOSE");
    assert_eq!(
        steps.tasks,
        vec![BackingTask::Publish, BackingTask::Stream, BackingTask::Heartbeat]
    );

    let steps = backing.close(true);
    assert!(backing.stop_signalled());
    assert!(steps.close_message.is_none());
    assert!(steps.tasks.is_empty());
}

#[test]
fn tasks_have_names() {
    assert_eq!(BackingTask::Publish.name(), "msgbus-publish");
    assert_eq!(BackingTask::Stream.name(), "msgbus-stream");
    assert_eq!(BackingTask::Heartbeat.name(), "msgbus-heartbeat");
}

#[test]
fn factories_start_backings_with_their_configuration() {
    let kafka = KafkaMessageBusConfig {
        brokers: "b:1".to_string(),
        ..KafkaMessageBusConfig::default()
    };
    let factory = KafkaMessageBusFactory::new(kafka);
    let backing = factory
        .create(TraderId::new("T-1"), UUID4::from_text("uuid"), MessageBusConfig::default())
        .ok()
        .unwrap();
    assert_eq!(backing.kafka_config().brokers, "b:1");
    assert_eq!(backing.trader_id.as_str(), "T-1");
    assert_eq!(backing.instance_id.as_str(), "uuid");
}
