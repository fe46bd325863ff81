//! Configuration of a Kafka message bus backing, and the client settings it stands for.

use crate::text::{copy_optional, decimal, decimal_text, optional_text};
use rdkafka::config::ClientConfig;
use vstd::prelude::*;

verus! {

/// The broker address used when none is configured.
pub const DEFAULT_BROKERS: &'static str = "127.0.0.1:9092";

/// The producer delivery timeout used when none is configured, in milliseconds.
pub const DEFAULT_MESSAGE_TIMEOUT_MS: u64 = 5_000;

/// What a configured password is replaced by wherever a configuration is shown.
pub const REDACTED: &'static str = "***";

/// Configuration for a Kafka-backed message bus backing.
///
/// The type has no `Debug` of its own, so that a password cannot reach a log by accident: see
/// [`KafkaMessageBusConfig::redacted`].
#[derive(PartialEq, Eq)]
pub struct KafkaMessageBusConfig {
    /// Comma-separated Kafka bootstrap servers, e.g. `"localhost:9092"`.
    pub brokers: String,
    /// The client ID reported to the broker. If `None`, librdkafka's default is used.
    pub client_id: Option<String>,
    /// The consumer group ID used for the ingress side. If `None`, librdkafka's default is used.
    pub group_id: Option<String>,
    /// The producer delivery timeout (milliseconds).
    pub message_timeout_ms: u64,
    /// The `security.protocol` passed straight through to librdkafka (e.g. `"SASL_SSL"`).
    /// If `None`, the connection is unauthenticated and unencrypted.
    pub security_protocol: Option<String>,
    /// The `sasl.mechanism` passed straight through to librdkafka (e.g. `"PLAIN"`).
    pub sasl_mechanism: Option<String>,
    /// The SASL username, if SASL is configured.
    pub sasl_username: Option<String>,
    /// The SASL password, if SASL is configured.
    pub sasl_password: Option<String>,
}

/// What a [`KafkaMessageBusConfig`] holds.
#[verifier::ext_equal]
pub struct KafkaConfigView {
    pub brokers: Seq<char>,
    pub client_id: Option<Seq<char>>,
    pub group_id: Option<Seq<char>>,
    pub message_timeout_ms: u64,
    pub security_protocol: Option<Seq<char>>,
    pub sasl_mechanism: Option<Seq<char>>,
    pub sasl_username: Option<Seq<char>>,
    pub sasl_password: Option<Seq<char>>,
}

impl View for KafkaMessageBusConfig {
    type V = KafkaConfigView;

    open spec fn view(&self) -> KafkaConfigView {
        KafkaConfigView {
            brokers: self.brokers@,
            client_id: optional_text(self.client_id),
            group_id: optional_text(self.group_id),
            message_timeout_ms: self.message_timeout_ms,
            security_protocol: optional_text(self.security_protocol),
            sasl_mechanism: optional_text(self.sasl_mechanism),
            sasl_username: optional_text(self.sasl_username),
            sasl_password: optional_text(self.sasl_password),
        }
    }
}

/// The configuration of a local, unauthenticated broker.
pub open spec fn default_kafka_config() -> KafkaConfigView {
    KafkaConfigView {
        brokers: DEFAULT_BROKERS@,
        client_id: None,
        group_id: None,
        message_timeout_ms: DEFAULT_MESSAGE_TIMEOUT_MS,
        security_protocol: None,
        sasl_mechanism: None,
        sasl_username: None,
        sasl_password: None,
    }
}

impl Default for KafkaMessageBusConfig {
    fn default() -> (config: Self)
        ensures
            config@ == default_kafka_config(),
    {
        KafkaMessageBusConfig {
            brokers: DEFAULT_BROKERS.to_string(),
            client_id: None,
            group_id: None,
            message_timeout_ms: DEFAULT_MESSAGE_TIMEOUT_MS,
            security_protocol: None,
            sasl_mechanism: None,
            sasl_username: None,
            sasl_password: None,
        }
    }
}

impl Clone for KafkaMessageBusConfig {
    fn clone(&self) -> (copy: Self)
        ensures
            copy@ == self@,
    {
        KafkaMessageBusConfig {
            brokers: self.brokers.clone(),
            client_id: copy_optional(&self.client_id),
            group_id: copy_optional(&self.group_id),
            message_timeout_ms: self.message_timeout_ms,
            security_protocol: copy_optional(&self.security_protocol),
            sasl_mechanism: copy_optional(&self.sasl_mechanism),
            sasl_username: copy_optional(&self.sasl_username),
            sasl_password: copy_optional(&self.sasl_password),
        }
    }
}

/// `config` with its password, if it has one, replaced by a fixed mark.
pub open spec fn redacted_config(config: KafkaConfigView) -> KafkaConfigView {
    KafkaConfigView {
        sasl_password: match config.sasl_password {
            Some(_) => Some(REDACTED@),
            None => None,
        },
        ..config
    }
}

/// `rdkafka::config::ClientConfig`, known by the parameters it holds.
#[verifier::external_type_specification]
#[verifier::external_body]
pub struct ExClientConfig(ClientConfig);

/// The parameters that a client configuration holds, by name.
pub uninterp spec fn client_settings(client: ClientConfig) -> Map<Seq<char>, Seq<char>>;

/// A configuration without parameters.
pub open spec fn no_settings() -> Map<Seq<char>, Seq<char>> {
    Map::empty()
}

/// `rdkafka::ClientConfig::new` makes a configuration that holds no parameter.
pub assume_specification[ ClientConfig::new ]() -> (client: ClientConfig)
    ensures
        client_settings(client) == no_settings(),
;

/// Calls `rdkafka::ClientConfig::set`: the parameter `key` holds `value` afterwards, whatever it
/// held before, and no other parameter changes.
#[verifier::external_body]
pub(crate) fn set_parameter(client: &mut ClientConfig, key: &str, value: &str)
    ensures
        client_settings(*final(client)) == client_settings(*old(client)).insert(key@, value@),
{
    client.set(key, value);
}

/// `settings` with `key` set to `value` where there is a value.
pub open spec fn with_optional(
    settings: Map<Seq<char>, Seq<char>>,
    key: Seq<char>,
    value: Option<Seq<char>>,
) -> Map<Seq<char>, Seq<char>> {
    match value {
        Some(text) => settings.insert(key, text),
        None => settings,
    }
}

/// `settings` with what every client of `config` sets: the brokers, and each of the client ID,
/// protocol, mechanism, username and password that is configured.
pub open spec fn common_settings(
    settings: Map<Seq<char>, Seq<char>>,
    config: KafkaConfigView,
) -> Map<Seq<char>, Seq<char>> {
    let settings = settings.insert("bootstrap.servers"@, config.brokers);
    let settings = with_optional(settings, "client.id"@, config.client_id);
    let settings = with_optional(settings, "security.protocol"@, config.security_protocol);
    let settings = with_optional(settings, "sasl.mechanism"@, config.sasl_mechanism);
    let settings = with_optional(settings, "sasl.username"@, config.sasl_username);
    with_optional(settings, "sasl.password"@, config.sasl_password)
}

/// The parameters of a producer of `config`.
pub open spec fn producer_settings(config: KafkaConfigView) -> Map<Seq<char>, Seq<char>> {
    common_settings(no_settings(), config).insert(
        "message.timeout.ms"@,
        decimal(config.message_timeout_ms as nat),
    )
}

/// The parameters of a consumer of `config`: it joins the configured group, if there is one,
/// commits offsets by itself, and starts at the end of each topic for which its group has no
/// offsets.
pub open spec fn consumer_settings(config: KafkaConfigView) -> Map<Seq<char>, Seq<char>> {
    with_optional(common_settings(no_settings(), config), "group.id"@, config.group_id).insert(
        "enable.auto.commit"@,
        "true"@,
    ).insert("auto.offset.reset"@, "latest"@)
}

fn set_optional(client: &mut ClientConfig, key: &str, value: &Option<String>)
    ensures
        client_settings(*final(client)) == with_optional(
            client_settings(*old(client)),
            key@,
            optional_text(*value),
        ),
{
    if let Some(text) = value {
        set_parameter(client, key, text.as_str());
    }
}

impl KafkaMessageBusConfig {
    /// Sets what producers and consumers have in common.
    pub fn apply_common(&self, client: &mut ClientConfig)
        ensures
            client_settings(*final(client)) == common_settings(
                client_settings(*old(client)),
                self@,
            ),
    {
        set_parameter(client, "bootstrap.servers", self.brokers.as_str());
        set_optional(client, "client.id", &self.client_id);
        set_optional(client, "security.protocol", &self.security_protocol);
        set_optional(client, "sasl.mechanism", &self.sasl_mechanism);
        set_optional(client, "sasl.username", &self.sasl_username);
        set_optional(client, "sasl.password", &self.sasl_password);
    }

    /// The client configuration from which the producer is created.
    pub fn producer_client(&self) -> (client: ClientConfig)
        ensures
            client_settings(client) == producer_settings(self@),
    {
        let mut client = ClientConfig::new();
        self.apply_common(&mut client);
        let timeout = decimal_text(self.message_timeout_ms);
        set_parameter(&mut client, "message.timeout.ms", timeout.as_str());
        client
    }

    /// The client configuration from which the consumer is created. Where no group is
    /// configured, the group is left to librdkafka.
    pub fn consumer_client(&self) -> (client: ClientConfig)
        ensures
            client_settings(client) == consumer_settings(self@),
    {
        let mut client = ClientConfig::new();
        self.apply_common(&mut client);
        set_optional(&mut client, "group.id", &self.group_id);
        set_parameter(&mut client, "enable.auto.commit", "true");
        set_parameter(&mut client, "auto.offset.reset", "latest");
        client
    }

    /// A copy that is safe to show: the password is masked, everything else is kept.
    pub fn redacted(&self) -> (shown: Self)
        ensures
            shown@ == redacted_config(self@),
    {
        KafkaMessageBusConfig {
            brokers: self.brokers.clone(),
            client_id: copy_optional(&self.client_id),
            group_id: copy_optional(&self.group_id),
            message_timeout_ms: self.message_timeout_ms,
            security_protocol: copy_optional(&self.security_protocol),
            sasl_mechanism: copy_optional(&self.sasl_mechanism),
            sasl_username: copy_optional(&self.sasl_username),
            sasl_password: match &self.sasl_password {
                Some(_) => Some(REDACTED.to_string()),
                None => None,
            },
        }
    }
}

/// What is shown of a configuration says nothing of its password beyond whether there is one:
/// two configurations that differ in their passwords alone are shown alike.
pub proof fn law_redaction_hides_the_password(config: KafkaConfigView, other_password: Seq<char>)
    requires
        config.sasl_password is Some,
    ensures
        redacted_config(config) == redacted_config(
            (KafkaConfigView { sasl_password: Some(other_password), ..config }),
        ),
{
}

/// `map[key]`, where there is one.
pub open spec fn lookup(map: Map<Seq<char>, Seq<char>>, key: Seq<char>) -> Option<Seq<char>> {
    if map.dom().contains(key) {
        Some(map[key])
    } else {
        None
    }
}

proof fn lemma_parameter_names_differ()
    ensures
        "bootstrap.servers"@ != "client.id"@,
        "bootstrap.servers"@ != "security.protocol"@,
        "bootstrap.servers"@ != "sasl.mechanism"@,
        "bootstrap.servers"@ != "sasl.username"@,
        "bootstrap.servers"@ != "sasl.password"@,
        "bootstrap.servers"@ != "message.timeout.ms"@,
        "bootstrap.servers"@ != "group.id"@,
        "bootstrap.servers"@ != "enable.auto.commit"@,
        "bootstrap.servers"@ != "auto.offset.reset"@,
        "client.id"@ != "security.protocol"@,
        "client.id"@ != "sasl.mechanism"@,
        "client.id"@ != "sasl.username"@,
        "client.id"@ != "sasl.password"@,
        "client.id"@ != "message.timeout.ms"@,
        "client.id"@ != "group.id"@,
        "client.id"@ != "enable.auto.commit"@,
        "client.id"@ != "auto.offset.reset"@,
        "security.protocol"@ != "sasl.mechanism"@,
        "security.protocol"@ != "sasl.username"@,
        "security.protocol"@ != "sasl.password"@,
        "security.protocol"@ != "message.timeout.ms"@,
        "security.protocol"@ != "group.id"@,
        "security.protocol"@ != "enable.auto.commit"@,
        "security.protocol"@ != "auto.offset.reset"@,
        "sasl.mechanism"@ != "sasl.username"@,
        "sasl.mechanism"@ != "sasl.password"@,
        "sasl.mechanism"@ != "message.timeout.ms"@,
        "sasl.mechanism"@ != "group.id"@,
        "sasl.mechanism"@ != "enable.auto.commit"@,
        "sasl.mechanism"@ != "auto.offset.reset"@,
        "sasl.username"@ != "sasl.password"@,
        "sasl.username"@ != "message.timeout.ms"@,
        "sasl.username"@ != "group.id"@,
        "sasl.username"@ != "enable.auto.commit"@,
        "sasl.username"@ != "auto.offset.reset"@,
        "sasl.password"@ != "message.timeout.ms"@,
        "sasl.password"@ != "group.id"@,
        "sasl.password"@ != "enable.auto.commit"@,
        "sasl.password"@ != "auto.offset.reset"@,
        "message.timeout.ms"@ != "group.id"@,
        "message.timeout.ms"@ != "enable.auto.commit"@,
        "message.timeout.ms"@ != "auto.offset.reset"@,
        "group.id"@ != "enable.auto.commit"@,
        "group.id"@ != "auto.offset.reset"@,
        "enable.auto.commit"@ != "auto.offset.reset"@,
{
    reveal_strlit("bootstrap.servers");
    reveal_strlit("client.id");
    reveal_strlit("security.protocol");
    reveal_strlit("sasl.mechanism");
    reveal_strlit("sasl.username");
    reveal_strlit("sasl.password");
    reveal_strlit("message.timeout.ms");
    reveal_strlit("group.id");
    reveal_strlit("enable.auto.commit");
    reveal_strlit("auto.offset.reset");
    assert("bootstrap.servers"@[0] == 'b');
    assert("client.id"@[0] == 'c');
    assert("group.id"@[0] == 'g');
    assert("security.protocol"@[0] == 's' && "security.protocol"@[1] == 'e');
    assert("auto.offset.reset"@[0] == 'a');
    assert("sasl.mechanism"@[1] == 'a');
    assert("sasl.username"@[5] == 'u');
    assert("sasl.password"@[5] == 'p');
    assert("message.timeout.ms"@[0] == 'm');
    assert("enable.auto.commit"@[0] == 'e');
}

/// A producer's parameters are the configured ones, each passed through unchanged under its own
/// name; what is not configured is not set, so a backing without a security protocol connects
/// unauthenticated and unencrypted.
pub proof fn law_producer_passes_settings_through(config: KafkaConfigView)
    ensures
        lookup(producer_settings(config), "bootstrap.servers"@) == Some(config.brokers),
        lookup(producer_settings(config), "client.id"@) == config.client_id,
        lookup(producer_settings(config), "security.protocol"@) == config.security_protocol,
        lookup(producer_settings(config), "sasl.mechanism"@) == config.sasl_mechanism,
        lookup(producer_settings(config), "sasl.username"@) == config.sasl_username,
        lookup(producer_settings(config), "sasl.password"@) == config.sasl_password,
        lookup(producer_settings(config), "message.timeout.ms"@) == Some(
            decimal(config.message_timeout_ms as nat),
        ),
        lookup(producer_settings(config), "group.id"@) is None,
{
    lemma_parameter_names_differ();
}

/// A consumer's parameters are those of a producer but for the delivery timeout, with the
/// configured group, automatic commits and the start at the latest offset added; without a
/// configured group, librdkafka's default is used.
pub proof fn law_consumer_passes_settings_through(config: KafkaConfigView)
    ensures
        lookup(consumer_settings(config), "bootstrap.servers"@) == Some(config.brokers),
        lookup(consumer_settings(config), "client.id"@) == config.client_id,
        lookup(consumer_settings(config), "security.protocol"@)
            == config.security_protocol,
        lookup(consumer_settings(config), "sasl.mechanism"@) == config.sasl_mechanism,
        lookup(consumer_settings(config), "sasl.username"@) == config.sasl_username,
        lookup(consumer_settings(config), "sasl.password"@) == config.sasl_password,
        lookup(consumer_settings(config), "group.id"@) == config.group_id,
        lookup(consumer_settings(config), "message.timeout.ms"@) is None,
        lookup(consumer_settings(config), "enable.auto.commit"@) == Some("true"@),
        lookup(consumer_settings(config), "auto.offset.reset"@) == Some("latest"@),
{
    lemma_parameter_names_differ();
}

/// Factory for constructing Kafka message bus backings.
pub struct KafkaMessageBusFactory {
    config: KafkaMessageBusConfig,
}

impl Clone for KafkaMessageBusFactory {
    fn clone(&self) -> (copy: Self)
        ensures
            copy.config() == self.config(),
    {
        KafkaMessageBusFactory { config: self.config.clone() }
    }
}

impl KafkaMessageBusFactory {
    /// The configuration that every backing of this factory gets.
    pub closed spec fn config(&self) -> KafkaConfigView {
        self.config@
    }

    /// Creates a factory from the given Kafka configuration.
    pub fn new(config: KafkaMessageBusConfig) -> (factory: Self)
        ensures
            factory.config() == config@,
    {
        KafkaMessageBusFactory { config }
    }

    /// The Kafka configuration of this factory.
    pub fn backing_config(&self) -> (config: &KafkaMessageBusConfig)
        ensures
            config@ == self.config(),
    {
        &self.config
    }
}

/// A default configuration is that of a local broker, without credentials or encryption.
pub proof fn law_default_config_is_a_local_broker(config: KafkaMessageBusConfig)
    requires
        call_ensures(KafkaMessageBusConfig::default, (), config),
    ensures
        config.brokers@ == "127.0.0.1:9092"@,
        config.message_timeout_ms == 5_000,
        config.client_id is None,
        config.group_id is None,
        config.security_protocol is None,
        config.sasl_mechanism is None,
        config.sasl_username is None,
        config.sasl_password is None,
{
}

/// A copied configuration says the same as the original, field by field.
pub proof fn law_copied_configs_say_the_same(
    config: KafkaMessageBusConfig,
    copy: KafkaMessageBusConfig,
)
    requires
        call_ensures(KafkaMessageBusConfig::clone, (&config,), copy),
    ensures
        copy.brokers@ == config.brokers@,
        copy.message_timeout_ms == config.message_timeout_ms,
        copy.client_id is Some <==> config.client_id is Some,
        copy.client_id is Some ==> copy.client_id->0@ == config.client_id->0@,
        copy.group_id is Some <==> config.group_id is Some,
        copy.group_id is Some ==> copy.group_id->0@ == config.group_id->0@,
        copy.security_protocol is Some <==> config.security_protocol is Some,
        copy.security_protocol is Some ==> copy.security_protocol->0@ == config.security_protocol->0@,
        copy.sasl_mechanism is Some <==> config.sasl_mechanism is Some,
        copy.sasl_mechanism is Some ==> copy.sasl_mechanism->0@ == config.sasl_mechanism->0@,
        copy.sasl_username is Some <==> config.sasl_username is Some,
        copy.sasl_username is Some ==> copy.sasl_username->0@ == config.sasl_username->0@,
        copy.sasl_password is Some <==> config.sasl_password is Some,
        copy.sasl_password is Some ==> copy.sasl_password->0@ == config.sasl_password->0@,
{
    assert(copy@ == config@);
    assert(optional_text(copy.client_id) == optional_text(config.client_id));
    assert(optional_text(copy.group_id) == optional_text(config.group_id));
    assert(optional_text(copy.security_protocol) == optional_text(config.security_protocol));
    assert(optional_text(copy.sasl_mechanism) == optional_text(config.sasl_mechanism));
    assert(optional_text(copy.sasl_username) == optional_text(config.sasl_username));
    assert(optional_text(copy.sasl_password) == optional_text(config.sasl_password));
}

/// What is shown of a configuration is all of it but the password, of which only whether there is
/// one is shown.
pub proof fn law_redaction_masks_the_password_alone(
    config: KafkaMessageBusConfig,
    shown: KafkaMessageBusConfig,
)
    requires
        call_ensures(KafkaMessageBusConfig::redacted, (&config,), shown),
    ensures
        shown.brokers@ == config.brokers@,
        shown.message_timeout_ms == config.message_timeout_ms,
        shown.client_id is Some <==> config.client_id is Some,
        shown.client_id is Some ==> shown.client_id->0@ == config.client_id->0@,
        shown.group_id is Some <==> config.group_id is Some,
        shown.group_id is Some ==> shown.group_id->0@ == config.group_id->0@,
        shown.security_protocol is Some <==> config.security_protocol is Some,
        shown.security_protocol is Some ==> shown.security_protocol->0@ == config.security_protocol->0@,
        shown.sasl_mechanism is Some <==> config.sasl_mechanism is Some,
        shown.sasl_mechanism is Some ==> shown.sasl_mechanism->0@ == config.sasl_mechanism->0@,
        shown.sasl_username is Some <==> config.sasl_username is Some,
        shown.sasl_username is Some ==> shown.sasl_username->0@ == config.sasl_username->0@,
        shown.sasl_password is Some <==> config.sasl_password is Some,
        shown.sasl_password is Some ==> shown.sasl_password->0@ == "***"@,
{
    assert(optional_text(shown.client_id) == optional_text(config.client_id));
    assert(optional_text(shown.group_id) == optional_text(config.group_id));
    assert(optional_text(shown.security_protocol) == optional_text(config.security_protocol));
    assert(optional_text(shown.sasl_mechanism) == optional_text(config.sasl_mechanism));
    assert(optional_text(shown.sasl_username) == optional_text(config.sasl_username));
    assert(shown@.sasl_password is Some <==> config@.sasl_password is Some);
    assert(optional_text(shown.sasl_password) == shown@.sasl_password);
}

/// A producer connects to the configured brokers, gives up a delivery after the configured time,
/// and gets each further parameter that is configured, under its own name and as it is written;
/// no other parameter is set.
pub proof fn law_producers_get_exactly_what_is_configured(
    config: KafkaMessageBusConfig,
    client: ClientConfig,
)
    requires
        call_ensures(KafkaMessageBusConfig::producer_client, (&config,), client),
    ensures
        client_settings(client).contains_key("bootstrap.servers"@),
        client_settings(client)["bootstrap.servers"@] == config.brokers@,
        client_settings(client).contains_key("message.timeout.ms"@),
        client_settings(client)["message.timeout.ms"@] == decimal(
            config.message_timeout_ms as nat,
        ),
        client_settings(client).contains_key("client.id"@) <==> config.client_id is Some,
        config.client_id is Some ==> client_settings(client)["client.id"@] == config.client_id->0@,
        client_settings(client).contains_key("security.protocol"@) <==> config.security_protocol is Some,
        config.security_protocol is Some ==> client_settings(client)["security.protocol"@] == config.security_protocol->0@,
        client_settings(client).contains_key("sasl.mechanism"@) <==> config.sasl_mechanism is Some,
        config.sasl_mechanism is Some ==> client_settings(client)["sasl.mechanism"@] == config.sasl_mechanism->0@,
        client_settings(client).contains_key("sasl.username"@) <==> config.sasl_username is Some,
        config.sasl_username is Some ==> client_settings(client)["sasl.username"@] == config.sasl_username->0@,
        client_settings(client).contains_key("sasl.password"@) <==> config.sasl_password is Some,
        config.sasl_password is Some ==> client_settings(client)["sasl.password"@] == config.sasl_password->0@,
        forall|key: Seq<char>| #[trigger]
            client_settings(client).contains_key(key) ==> key == "bootstrap.servers"@
                || key == "client.id"@
                || key == "security.protocol"@
                || key == "sasl.mechanism"@
                || key == "sasl.username"@
                || key == "sasl.password"@
                || key == "message.timeout.ms"@,
{
    lemma_parameter_names_differ();
}

/// A consumer connects to the configured brokers, commits its offsets by itself, starts where a
/// topic ends, and gets each further parameter that is configured, the group among them, under its
/// own name and as it is written; no other parameter is set.
pub proof fn law_consumers_get_exactly_what_is_configured(
    config: KafkaMessageBusConfig,
    client: ClientConfig,
)
    requires
        call_ensures(KafkaMessageBusConfig::consumer_client, (&config,), client),
    ensures
        client_settings(client).contains_key("bootstrap.servers"@),
        client_settings(client)["bootstrap.servers"@] == config.brokers@,
        client_settings(client).contains_key("enable.auto.commit"@),
        client_settings(client)["enable.auto.commit"@] == "true"@,
        client_settings(client).contains_key("auto.offset.reset"@),
        client_settings(client)["auto.offset.reset"@] == "latest"@,
        client_settings(client).contains_key("client.id"@) <==> config.client_id is Some,
        config.client_id is Some ==> client_settings(client)["client.id"@] == config.client_id->0@,
        client_settings(client).contains_key("security.protocol"@) <==> config.security_protocol is Some,
        config.security_protocol is Some ==> client_settings(client)["security.protocol"@] == config.security_protocol->0@,
        client_settings(client).contains_key("sasl.mechanism"@) <==> config.sasl_mechanism is Some,
        config.sasl_mechanism is Some ==> client_settings(client)["sasl.mechanism"@] == config.sasl_mechanism->0@,
        client_settings(client).contains_key("sasl.username"@) <==> config.sasl_username is Some,
        config.sasl_username is Some ==> client_settings(client)["sasl.username"@] == config.sasl_username->0@,
        client_settings(client).contains_key("sasl.password"@) <==> config.sasl_password is Some,
        config.sasl_password is Some ==> client_settings(client)["sasl.password"@] == config.sasl_password->0@,
        client_settings(client).contains_key("group.id"@) <==> config.group_id is Some,
        config.group_id is Some ==> client_settings(client)["group.id"@] == config.group_id->0@,
        forall|key: Seq<char>| #[trigger]
            client_settings(client).contains_key(key) ==> key == "bootstrap.servers"@
                || key == "client.id"@
                || key == "security.protocol"@
                || key == "sasl.mechanism"@
                || key == "sasl.username"@
                || key == "sasl.password"@
                || key == "group.id"@
                || key == "enable.auto.commit"@
                || key == "auto.offset.reset"@,
{
    lemma_parameter_names_differ();
}

/// What producers and consumers have in common is set over whatever a client holds already: each
/// configured parameter under its own name, and nothing else changes.
pub proof fn law_common_settings_change_their_own_alone(
    settings: Map<Seq<char>, Seq<char>>,
    config: KafkaConfigView,
    key: Seq<char>,
)
    ensures
        lookup(common_settings(settings, config), key) == {
            if key == "bootstrap.servers"@ {
                Some(config.brokers)
            } else if key == "client.id"@ && config.client_id is Some {
                config.client_id
            } else if key == "security.protocol"@ && config.security_protocol is Some {
                config.security_protocol
            } else if key == "sasl.mechanism"@ && config.sasl_mechanism is Some {
                config.sasl_mechanism
            } else if key == "sasl.username"@ && config.sasl_username is Some {
                config.sasl_username
            } else if key == "sasl.password"@ && config.sasl_password is Some {
                config.sasl_password
            } else {
                lookup(settings, key)
            }
        },
{
    lemma_parameter_names_differ();
}

/// A factory, and every copy of it, hands out the configuration that it was made with.
pub proof fn law_factories_keep_their_configuration(
    config: KafkaMessageBusConfig,
    factory: KafkaMessageBusFactory,
    copy: KafkaMessageBusFactory,
    kept: &KafkaMessageBusConfig,
    copied: &KafkaMessageBusConfig,
)
    requires
        call_ensures(KafkaMessageBusFactory::new, (config,), factory),
        call_ensures(KafkaMessageBusFactory::clone, (&factory,), copy),
        call_ensures(KafkaMessageBusFactory::backing_config, (&factory,), kept),
        call_ensures(KafkaMessageBusFactory::backing_config, (&copy,), copied),
    ensures
        kept@ == config@,
        copied@ == config@,
{
}

} // verus!
