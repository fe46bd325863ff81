use control_plane::config_document::{
    parse_backing_config, parse_config, BackingConfigError, ConfigError,
};
use control_plane::kafka_config::{KafkaMessageBusConfig, KafkaMessageBusFactory};
use serde_json::Value;

#[test]
fn test_default_kafka_message_bus_config() {
    let config = KafkaMessageBusConfig::default();

    assert_eq!(config.brokers, "127.0.0.1:9092");
    assert_eq!(config.client_id, None);
    assert_eq!(config.group_id, None);
    assert_eq!(config.message_timeout_ms, 5_000);
    assert_eq!(config.security_protocol, None);
    assert_eq!(config.sasl_mechanism, None);
    assert_eq!(config.sasl_username, None);
    assert_eq!(config.sasl_password, None);
}

#[test]
fn test_parse_config_maps_database_config_to_kafka_backing() {
    let config_json = br#"{
        "database": {
            "type": "kafka",
            "host": "kafka.example.com",
            "port": 9093,
            "username": "trader",
            "password": "secret",
            "ssl": true
        },
        "streams_prefix": "stream",
        "external_streams": ["control-commands"]
    }"#;

    let (rest, backing) = parse_config(config_json).unwrap();

    assert_eq!(rest.get("streams_prefix").and_then(Value::as_str), Some("stream"));
    assert_eq!(
        rest.get("external_streams"),
        Some(&Value::Array(vec![Value::String("control-commands".to_string())]))
    );
    assert_eq!(rest.get("database"), None);
    assert_eq!(backing.brokers, "kafka.example.com:9093");
    assert_eq!(backing.sasl_username, Some("trader".to_string()));
    assert_eq!(backing.sasl_password, Some("secret".to_string()));
    assert_eq!(backing.security_protocol, Some("SASL_SSL".to_string()));
    assert_eq!(backing.sasl_mechanism, Some("PLAIN".to_string()));
}

#[test]
fn test_parse_config_rejects_wrong_database_type() {
    let config_json = br#"{"database": {"type": "redis", "host": "localhost"}}"#;
    match parse_config(config_json) {
        Err(ConfigError::Backing(error)) => {
            assert_eq!(error, BackingConfigError::WrongDatabaseType("redis".to_string()));
            assert_eq!(
                error.message(),
                "MessageBusConfig.database.type must be 'kafka', was 'redis'"
            );
        }
        _ => panic!("a wrong database type is rejected"),
    }
}

#[test]
fn test_parse_config_defaults_without_database() {
    let (_rest, backing) = parse_config(b"{}").unwrap();
    assert_eq!(backing.brokers, "127.0.0.1:9092");
    let (_rest, backing) = parse_config(br#"{"database": null}"#).unwrap();
    assert!(backing == KafkaMessageBusConfig::default());
}

#[test]
fn parse_config_rejects_what_is_not_json() {
    assert!(matches!(parse_config(b"{"), Err(ConfigError::InvalidJson(_))));
    assert!(matches!(parse_config(b""), Err(ConfigError::InvalidJson(_))));
}

fn rejection(config_json: &[u8]) -> BackingConfigError {
    match parse_config(config_json) {
        Err(ConfigError::Backing(error)) => error,
        _ => panic!("the document is rejected"),
    }
}

#[test]
fn parse_config_rejects_what_is_not_an_object() {
    let error = rejection(b"[1]");
    assert_eq!(error, BackingConfigError::NotAnObject);
    assert_eq!(error.message(), "MessageBusConfig must be a JSON object");

    let error = rejection(br#"{"database": "kafka"}"#);
    assert_eq!(error, BackingConfigError::DatabaseNotAnObject);
    assert_eq!(error.message(), "MessageBusConfig.database must be a JSON object");
}

#[test]
fn parse_config_rejects_a_type_that_is_no_string() {
    let error = rejection(br#"{"database": {"type": {"b": [1, null], "a": "x"}}}"#);
    let written = r#"{"a":"x","b":[1,null]}"#;
    assert_eq!(error, BackingConfigError::DatabaseTypeNotText(written.to_string()));
    assert_eq!(
        error.message(),
        r#"MessageBusConfig.database.type must be a string, was {"a":"x","b":[1,null]}"#
    );
}

#[test]
fn a_host_without_a_port_gets_the_default_port() {
    let (_, backing) = parse_config(br#"{"database": {"host": "h"}}"#).unwrap();
    assert_eq!(backing.brokers, "h:9092");
    // A port that is no unsigned integer counts as none.
    let (_, backing) = parse_config(br#"{"database": {"host": "h", "port": "1"}}"#).unwrap();
    assert_eq!(backing.brokers, "h:9092");
    let (_, backing) = parse_config(br#"{"database": {"host": "h", "port": -1}}"#).unwrap();
    assert_eq!(backing.brokers, "h:9092");
    // A port without a host is no broker.
    let (_, backing) = parse_config(br#"{"database": {"port": 1}}"#).unwrap();
    assert_eq!(backing.brokers, "127.0.0.1:9092");
}

#[test]
fn the_whole_range_of_port_numbers_is_rendered() {
    let json = br#"{"database": {"host": "h", "port": 18446744073709551615}}"#;
    let (_, backing) = parse_config(json).unwrap();
    assert_eq!(backing.brokers, "h:18446744073709551615");
    let (_, backing) = parse_config(br#"{"database": {"host": "h", "port": 0}}"#).unwrap();
    assert_eq!(backing.brokers, "h:0");
}

#[test]
fn encryption_without_a_user_does_not_authenticate() {
    let (_, backing) = parse_config(br#"{"database": {"ssl": true}}"#).unwrap();
    assert_eq!(backing.security_protocol, Some("SSL".to_string()));
    assert_eq!(backing.sasl_mechanism, None);

    let (_, backing) =
        parse_config(br#"{"database": {"username": "u", "ssl": false}}"#).unwrap();
    assert_eq!(backing.security_protocol, None);
    assert_eq!(backing.sasl_mechanism, None);
    assert_eq!(backing.sasl_username, Some("u".to_string()));

    let (_, backing) = parse_config(br#"{"database": {"ssl": "true"}}"#).unwrap();
    assert_eq!(backing.security_protocol, None);
}

#[test]
fn reading_the_backing_takes_the_section_out() {
    let mut document: Value =
        serde_json::from_str(r#"{"database": {"type": "redis"}, "a": 1}"#).unwrap();
    assert!(parse_backing_config(&mut document).is_err());
    let rest: Value = serde_json::from_str(r#"{"a": 1}"#).unwrap();
    assert_eq!(document, rest);
}

#[test]
fn the_backing_depends_on_the_database_alone() {
    let (_, left) = parse_config(br#"{"database": {"host": "h"}, "a": 1}"#).unwrap();
    let (_, right) = parse_config(br#"{"b": [2], "database": {"host": "h"}}"#).unwrap();
    assert!(left == right);
}

fn full_config() -> KafkaMessageBusConfig {
    KafkaMessageBusConfig {
        brokers: "b:1".to_string(),
        client_id: Some("c".to_string()),
        group_id: Some("g".to_string()),
        message_timeout_ms: 12_345,
        security_protocol: Some("SASL_SSL".to_string()),
        sasl_mechanism: Some("PLAIN".to_string()),
        sasl_username: Some("u".to_string()),
        sasl_password: Some("p".to_string()),
    }
}

#[test]
fn producers_get_what_is_configured() {
    let client = full_config().producer_client();
    assert_eq!(client.get("bootstrap.servers"), Some("b:1"));
    assert_eq!(client.get("client.id"), Some("c"));
    assert_eq!(client.get("security.protocol"), Some("SASL_SSL"));
    assert_eq!(client.get("sasl.mechanism"), Some("PLAIN"));
    assert_eq!(client.get("sasl.username"), Some("u"));
    assert_eq!(client.get("sasl.password"), Some("p"));
    assert_eq!(client.get("message.timeout.ms"), Some("12345"));
    assert_eq!(client.get("group.id"), None);

    let client = KafkaMessageBusConfig::default().producer_client();
    assert_eq!(client.config_map().len(), 2);
    assert_eq!(client.get("message.timeout.ms"), Some("5000"));
}

#[test]
fn consumers_join_the_configured_group_if_there_is_one() {
    let client = full_config().consumer_client();
    assert_eq!(client.get("group.id"), Some("g"));
    assert_eq!(client.get("enable.auto.commit"), Some("true"));
    assert_eq!(client.get("auto.offset.reset"), Some("latest"));
    assert_eq!(client.get("sasl.password"), Some("p"));
    assert_eq!(client.get("message.timeout.ms"), None);

    let client = KafkaMessageBusConfig::default().consumer_client();
    assert_eq!(client.get("group.id"), None);
    assert_eq!(client.get("enable.auto.commit"), Some("true"));
    assert_eq!(client.get("auto.offset.reset"), Some("latest"));
    assert_eq!(client.config_map().len(), 3);
}

#[test]
fn passwords_are_masked() {
    let config = full_config();
    let mut shown = config.redacted();
    assert_eq!(shown.sasl_password, Some("***".to_string()));
    shown.sasl_password = Some("p".to_string());
    assert!(shown == config);
    assert_eq!(KafkaMessageBusConfig::default().redacted().sasl_password, None);
}

#[test]
fn factories_keep_their_configuration() {
    let factory = KafkaMessageBusFactory::new(full_config());
    assert!(factory.backing_config() == &full_config());
    assert!(factory.clone().backing_config() == &full_config());
}
