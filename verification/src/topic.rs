//! The name of a node's Kafka egress topic.

use crate::ids::{TraderId, UUID4};
use crate::text::optional_texts;
use vstd::prelude::*;

verus! {

/// How the message bus of a node meets the outside.
#[derive(Debug, PartialEq, Eq)]
pub struct MessageBusConfig {
    /// Whether external names start with `trader-`.
    pub use_trader_prefix: bool,
    /// Whether external names hold the trader ID.
    pub use_trader_id: bool,
    /// Whether external names hold the instance ID.
    pub use_instance_id: bool,
    /// What external names end in.
    pub streams_prefix: String,
    /// Whether a backing with streams keeps one per topic.
    pub stream_per_topic: bool,
    /// The external streams to listen to.
    pub external_streams: Option<Vec<String>>,
    /// The interval between heartbeats (seconds). If `None`, there are none.
    pub heartbeat_interval_secs: Option<u16>,
}

/// What a [`MessageBusConfig`] holds.
#[verifier::ext_equal]
pub struct MessageBusConfigView {
    pub use_trader_prefix: bool,
    pub use_trader_id: bool,
    pub use_instance_id: bool,
    pub streams_prefix: Seq<char>,
    pub stream_per_topic: bool,
    pub external_streams: Option<Seq<Seq<char>>>,
    pub heartbeat_interval_secs: Option<u16>,
}

impl View for MessageBusConfig {
    type V = MessageBusConfigView;

    open spec fn view(&self) -> MessageBusConfigView {
        MessageBusConfigView {
            use_trader_prefix: self.use_trader_prefix,
            use_trader_id: self.use_trader_id,
            use_instance_id: self.use_instance_id,
            streams_prefix: self.streams_prefix@,
            stream_per_topic: self.stream_per_topic,
            external_streams: optional_texts(self.external_streams),
            heartbeat_interval_secs: self.heartbeat_interval_secs,
        }
    }
}

impl Default for MessageBusConfig {
    fn default() -> (config: Self)
        ensures
            config@ == (MessageBusConfigView {
                use_trader_prefix: true,
                use_trader_id: true,
                use_instance_id: false,
                streams_prefix: "stream"@,
                stream_per_topic: true,
                external_streams: None,
                heartbeat_interval_secs: None,
            }),
    {
        MessageBusConfig {
            use_trader_prefix: true,
            use_trader_id: true,
            use_instance_id: false,
            streams_prefix: "stream".to_string(),
            stream_per_topic: true,
            external_streams: None,
            heartbeat_interval_secs: None,
        }
    }
}

/// `part` where it is used, else nothing.
pub open spec fn part_if(used: bool, part: Seq<char>) -> Seq<char> {
    if used {
        part
    } else {
        Seq::empty()
    }
}

/// The Kafka topic that a node publishes to.
pub open spec fn topic_key(
    trader_id: Seq<char>,
    instance_id: Seq<char>,
    config: MessageBusConfigView,
) -> Seq<char> {
    part_if(config.use_trader_prefix, "trader-"@) + part_if(
        config.use_trader_id,
        trader_id + "."@,
    ) + part_if(config.use_instance_id, instance_id + "."@) + config.streams_prefix
}

/// Builds the name of the one Kafka topic that this node publishes to.
pub fn get_topic_key(trader_id: &TraderId, instance_id: &UUID4, config: &MessageBusConfig) -> (key:
    String)
    ensures
        key@ == topic_key(trader_id@, instance_id@, config@),
{
    let mut key = String::new();

    if config.use_trader_prefix {
        key.append("trader-");
    }
    if config.use_trader_id {
        key.append(trader_id.as_str());
        key.append(".");
    }
    if config.use_instance_id {
        key.append(instance_id.as_str());
        key.append(".");
    }
    key.append(config.streams_prefix.as_str());
    assert(key@ =~= topic_key(trader_id@, instance_id@, config@));
    key
}

/// A node has one Kafka topic whatever its bus is told about streams: neither keeping a stream
/// per topic nor the external streams nor the heartbeat changes the name.
pub proof fn law_topic_key_ignores_streams(
    trader_id: Seq<char>,
    instance_id: Seq<char>,
    config: MessageBusConfigView,
    stream_per_topic: bool,
    external_streams: Option<Seq<Seq<char>>>,
    heartbeat_interval_secs: Option<u16>,
)
    ensures
        topic_key(trader_id, instance_id, config) == topic_key(
            trader_id,
            instance_id,
            (MessageBusConfigView {
                stream_per_topic,
                external_streams,
                heartbeat_interval_secs,
                ..config
            }),
        ),
{
}

/// Nodes that use their instance IDs, and differ in nothing but those, publish to topics of
/// their own.
pub proof fn law_instances_have_their_own_topics(
    trader_id: Seq<char>,
    left: Seq<char>,
    right: Seq<char>,
    config: MessageBusConfigView,
)
    requires
        config.use_instance_id,
        topic_key(trader_id, left, config) == topic_key(trader_id, right, config),
    ensures
        left == right,
{
    let head = part_if(config.use_trader_prefix, "trader-"@) + part_if(
        config.use_trader_id,
        trader_id + "."@,
    );
    let a = topic_key(trader_id, left, config);
    let b = topic_key(trader_id, right, config);
    assert(a.len() == head.len() + left.len() + "."@.len() + config.streams_prefix.len());
    assert(b.len() == head.len() + right.len() + "."@.len() + config.streams_prefix.len());
    assert(left =~= a.subrange(head.len() as int, (head.len() + left.len()) as int));
    assert(right =~= b.subrange(head.len() as int, (head.len() + right.len()) as int));
}

/// The trader prefix stands in front of whatever else the name holds.
pub proof fn law_trader_prefix_comes_first(
    trader_id: TraderId,
    instance_id: UUID4,
    with: MessageBusConfig,
    without: MessageBusConfig,
    key: String,
    plain: String,
)
    requires
        with.use_trader_prefix,
        !without.use_trader_prefix,
        with.use_trader_id == without.use_trader_id,
        with.use_instance_id == without.use_instance_id,
        with.streams_prefix@ == without.streams_prefix@,
        call_ensures(get_topic_key, (&trader_id, &instance_id, &with), key),
        call_ensures(get_topic_key, (&trader_id, &instance_id, &without), plain),
    ensures
        key@ == "trader-"@ + plain@,
{
    assert(key@ =~= "trader-"@ + plain@);
}

/// The trader ID and a point stand in front of the instance ID and of what the name ends in.
pub proof fn law_trader_id_comes_before_the_instance(
    trader_id: TraderId,
    instance_id: UUID4,
    with: MessageBusConfig,
    without: MessageBusConfig,
    key: String,
    plain: String,
)
    requires
        !with.use_trader_prefix,
        !without.use_trader_prefix,
        with.use_trader_id,
        !without.use_trader_id,
        with.use_instance_id == without.use_instance_id,
        with.streams_prefix@ == without.streams_prefix@,
        call_ensures(get_topic_key, (&trader_id, &instance_id, &with), key),
        call_ensures(get_topic_key, (&trader_id, &instance_id, &without), plain),
    ensures
        key@ == trader_id@ + "."@ + plain@,
{
    assert(key@ =~= trader_id@ + "."@ + plain@);
}

/// The instance ID and a point stand in front of what the name ends in, which is the whole name
/// where nothing else is used.
pub proof fn law_instance_id_comes_before_the_end(
    trader_id: TraderId,
    instance_id: UUID4,
    config: MessageBusConfig,
    key: String,
)
    requires
        !config.use_trader_prefix,
        !config.use_trader_id,
        call_ensures(get_topic_key, (&trader_id, &instance_id, &config), key),
    ensures
        config.use_instance_id ==> key@ == instance_id@ + "."@ + config.streams_prefix@,
        !config.use_instance_id ==> key@ == config.streams_prefix@,
{
    if config.use_instance_id {
        assert(key@ =~= instance_id@ + "."@ + config.streams_prefix@);
    } else {
        assert(key@ =~= config.streams_prefix@);
    }
}

/// A bus that is told nothing names its topic by prefix and trader, listens to nothing and sends
/// no heartbeats.
pub proof fn law_default_bus_is_named_by_its_trader(config: MessageBusConfig)
    requires
        call_ensures(MessageBusConfig::default, (), config),
    ensures
        config.use_trader_prefix,
        config.use_trader_id,
        !config.use_instance_id,
        config.streams_prefix@ == "stream"@,
        config.stream_per_topic,
        config.external_streams is None,
        config.heartbeat_interval_secs is None,
{
}

} // verus!
