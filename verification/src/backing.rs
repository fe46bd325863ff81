//! The life of a Kafka message bus backing: which tasks it runs, who gets its receiver, and how
//! it closes.

use crate::bus::{custom_message, BusMessage, CLOSE_TOPIC};
use crate::ids::{TraderId, UUID4};
use crate::kafka_config::{KafkaConfigView, KafkaMessageBusConfig, KafkaMessageBusFactory};
use crate::tasks::{FLUSH_TIMEOUT_SECS, HEARTBEAT_CHECK_INTERVAL_MS, STREAM_POLL_INTERVAL_MS};
use crate::text::{copy_texts, optional_text, texts};
use crate::topic::{get_topic_key, topic_key, MessageBusConfig, MessageBusConfigView};
use vstd::prelude::*;

verus! {

/// How many inbound messages wait for their receiver at most.
pub const STREAM_CAPACITY: usize = 100_000;

/// How long closing waits for each task, in seconds.
pub const TASK_TIMEOUT_SECS: u64 = 2;

/// Why a backing refuses.
#[derive(Debug, Clone, Copy, PartialEq, Eq, Structural)]
pub enum BackingError {
    /// The heartbeat interval is configured as zero seconds.
    ZeroHeartbeatInterval,
    /// There is no receiver of inbound messages to hand out (any more).
    ReceiverTaken,
}

/// The text that reports an error to an operator.
pub open spec fn error_message(error: BackingError) -> Seq<char> {
    match error {
        BackingError::ZeroHeartbeatInterval => "heartbeat_interval_secs must be greater than 0"@,
        BackingError::ReceiverTaken => "Stream receiver already taken"@,
    }
}

impl BackingError {
    /// The text that reports this error to an operator.
    pub fn message(&self) -> (message: String)
        ensures
            message@ == error_message(*self),
    {
        match self {
            BackingError::ZeroHeartbeatInterval => {
                "heartbeat_interval_secs must be greater than 0".to_string()
            },
            BackingError::ReceiverTaken => "Stream receiver already taken".to_string(),
        }
    }
}

/// A task of a backing.
#[derive(Debug, Clone, Copy, PartialEq, Eq, Structural)]
pub enum BackingTask {
    /// Publishes the node's messages.
    Publish,
    /// Consumes external topics.
    Stream,
    /// Publishes heartbeats.
    Heartbeat,
}

/// The name of a task in logs.
pub open spec fn task_name(task: BackingTask) -> Seq<char> {
    match task {
        BackingTask::Publish => "msgbus-publish"@,
        BackingTask::Stream => "msgbus-stream"@,
        BackingTask::Heartbeat => "msgbus-heartbeat"@,
    }
}

impl BackingTask {
    /// The task's name in logs.
    pub fn name(&self) -> (name: &'static str)
        ensures
            name@ == task_name(*self),
    {
        match self {
            BackingTask::Publish => "msgbus-publish",
            BackingTask::Stream => "msgbus-stream",
            BackingTask::Heartbeat => "msgbus-heartbeat",
        }
    }
}

/// What the stream task of a backing consumes.
#[derive(Debug, PartialEq, Eq)]
pub struct StreamPlan {
    /// The external topics it subscribes to.
    pub topics: Vec<String>,
    /// A group name of the node's own, to suggest where none is configured.
    pub node_group_id: String,
}

/// What a [`StreamPlan`] holds.
#[verifier::ext_equal]
pub struct StreamPlanView {
    pub topics: Seq<Seq<char>>,
    pub node_group_id: Seq<char>,
}

impl View for StreamPlan {
    type V = StreamPlanView;

    open spec fn view(&self) -> StreamPlanView {
        StreamPlanView {
            topics: texts(self.topics@),
            node_group_id: self.node_group_id@,
        }
    }
}

/// What is known of a backing.
#[verifier::ext_equal]
pub struct BackingView {
    pub trader_id: Seq<char>,
    pub instance_id: Seq<char>,
    /// The Kafka configuration of its clients.
    pub kafka: KafkaConfigView,
    /// The Kafka topic it publishes to.
    pub egress_topic: Seq<char>,
    /// What it consumes, if anything.
    pub stream: Option<StreamPlanView>,
    /// The interval between its heartbeats, if it has any.
    pub heartbeat_interval_secs: Option<u16>,
    /// Whether the receiver of inbound messages is still to be handed out.
    pub receiver_available: bool,
    /// Whether its tasks were told to stop.
    pub stop_signalled: bool,
    /// The tasks that closing still has to wait for, in order.
    pub pending: Seq<BackingTask>,
}

/// The consumer group name of a node's own.
pub open spec fn node_group_id(trader_id: Seq<char>, instance_id: Seq<char>) -> Seq<char> {
    "nautilus-"@ + trader_id + "-"@ + instance_id
}

/// What a backing consumes: the configured external streams, if there are any.
pub open spec fn stream_plan(
    trader_id: Seq<char>,
    instance_id: Seq<char>,
    config: MessageBusConfigView,
) -> Option<StreamPlanView> {
    match config.external_streams {
        Some(topics) => if topics.len() == 0 {
            None
        } else {
            Some(
                StreamPlanView { topics, node_group_id: node_group_id(trader_id, instance_id) },
            )
        },
        None => None,
    }
}

/// The tasks of a backing: it always publishes, and streams or sends heartbeats where that is
/// configured.
pub open spec fn started_tasks(streams: bool, heartbeats: bool) -> Seq<BackingTask> {
    seq![BackingTask::Publish] + (if streams {
        seq![BackingTask::Stream]
    } else {
        Seq::empty()
    }) + (if heartbeats {
        seq![BackingTask::Heartbeat]
    } else {
        Seq::empty()
    })
}

/// A backing that was just started.
pub open spec fn started(
    trader_id: Seq<char>,
    instance_id: Seq<char>,
    config: MessageBusConfigView,
    kafka: KafkaConfigView,
) -> BackingView {
    let stream = stream_plan(trader_id, instance_id, config);
    BackingView {
        trader_id,
        instance_id,
        kafka,
        egress_topic: topic_key(trader_id, instance_id, config),
        stream,
        heartbeat_interval_secs: config.heartbeat_interval_secs,
        receiver_available: stream is Some,
        stop_signalled: false,
        pending: started_tasks(stream is Some, config.heartbeat_interval_secs is Some),
    }
}

/// A backing after its receiver was asked for.
pub open spec fn after_take_receiver(backing: BackingView) -> BackingView {
    BackingView { receiver_available: false, ..backing }
}

/// A backing after it was closed.
pub open spec fn after_close(backing: BackingView) -> BackingView {
    BackingView { stop_signalled: true, pending: Seq::empty(), ..backing }
}

/// A Kafka message bus backing: what it was started with, and how far its life has come.
pub struct KafkaMessageBusBacking {
    /// The trader ID for this message bus backing.
    pub trader_id: TraderId,
    /// The instance ID for this message bus backing.
    pub instance_id: UUID4,
    kafka: KafkaMessageBusConfig,
    egress_topic: String,
    stream: Option<StreamPlan>,
    heartbeat_interval_secs: Option<u16>,
    receiver_available: bool,
    stop_signalled: bool,
    pending: Vec<BackingTask>,
}

impl View for KafkaMessageBusBacking {
    type V = BackingView;

    closed spec fn view(&self) -> BackingView {
        BackingView {
            trader_id: self.trader_id@,
            instance_id: self.instance_id@,
            kafka: self.kafka@,
            egress_topic: self.egress_topic@,
            stream: match self.stream {
                Some(plan) => Some(plan@),
                None => None,
            },
            heartbeat_interval_secs: self.heartbeat_interval_secs,
            receiver_available: self.receiver_available,
            stop_signalled: self.stop_signalled,
            pending: self.pending@,
        }
    }
}

/// What closing a backing comes to.
#[derive(Debug)]
pub struct CloseSteps {
    /// The message to send to the publish task first, if any.
    pub close_message: Option<BusMessage>,
    /// The tasks to wait for then, in order.
    pub tasks: Vec<BackingTask>,
}

fn plan_stream(trader_id: &TraderId, instance_id: &UUID4, config: &MessageBusConfig) -> (plan:
    Option<StreamPlan>)
    ensures
        match plan {
            Some(plan) => stream_plan(trader_id@, instance_id@, config@) == Some(plan@),
            None => stream_plan(trader_id@, instance_id@, config@) is None,
        },
{
    match &config.external_streams {
        None => None,
        Some(topics) => {
            assert(texts(topics@).len() == topics@.len());
            if topics.len() == 0 {
                None
            } else {
                let node_group_id = "nautilus-".to_string().concat(trader_id.as_str()).concat(
                    "-",
                ).concat(instance_id.as_str());
                Some(StreamPlan { topics: copy_texts(topics), node_group_id })
            }
        },
    }
}

impl KafkaMessageBusBacking {
    /// Starts a backing for the given trader, instance and configuration.
    ///
    /// # Errors
    ///
    /// Returns an error if the heartbeat interval is configured as zero seconds.
    pub fn new(
        trader_id: TraderId,
        instance_id: UUID4,
        config: &MessageBusConfig,
        backing: &KafkaMessageBusConfig,
    ) -> (created: Result<Self, BackingError>)
        ensures
            match created {
                Ok(created) => {
                    &&& config.heartbeat_interval_secs != Some(0u16)
                    &&& created@ == started(trader_id@, instance_id@, config@, backing@)
                },
                Err(error) => {
                    &&& config.heartbeat_interval_secs == Some(0u16)
                    &&& error == BackingError::ZeroHeartbeatInterval
                },
            },
    {
        if let Some(seconds) = config.heartbeat_interval_secs {
            if seconds == 0 {
                return Err(BackingError::ZeroHeartbeatInterval);
            }
        }
        let egress_topic = get_topic_key(&trader_id, &instance_id, config);
        let stream = plan_stream(&trader_id, &instance_id, config);
        let streams = stream.is_some();
        let heartbeats = config.heartbeat_interval_secs.is_some();

        let mut pending: Vec<BackingTask> = Vec::new();
        pending.push(BackingTask::Publish);
        if streams {
            pending.push(BackingTask::Stream);
        }
        if heartbeats {
            pending.push(BackingTask::Heartbeat);
        }
        assert(pending@ =~= started_tasks(streams, heartbeats));

        Ok(
            KafkaMessageBusBacking {
                trader_id,
                instance_id,
                kafka: backing.clone(),
                egress_topic,
                stream,
                heartbeat_interval_secs: config.heartbeat_interval_secs,
                receiver_available: streams,
                stop_signalled: false,
                pending,
            },
        )
    }

    /// The trader ID of this backing.
    pub fn trader_id(&self) -> (id: &TraderId)
        ensures
            id@ == self@.trader_id,
    {
        &self.trader_id
    }

    /// The instance ID of this backing.
    pub fn instance_id(&self) -> (id: &UUID4)
        ensures
            id@ == self@.instance_id,
    {
        &self.instance_id
    }

    /// The Kafka configuration of this backing's clients.
    pub fn kafka_config(&self) -> (config: &KafkaMessageBusConfig)
        ensures
            config@ == self@.kafka,
    {
        &self.kafka
    }

    /// The Kafka topic that this backing publishes to.
    pub fn egress_topic(&self) -> (topic: &str)
        ensures
            topic@ == self@.egress_topic,
    {
        self.egress_topic.as_str()
    }

    /// What this backing consumes, if anything.
    pub fn stream(&self) -> (plan: Option<&StreamPlan>)
        ensures
            match plan {
                Some(plan) => self@.stream == Some(plan@),
                None => self@.stream is None,
            },
    {
        match &self.stream {
            Some(plan) => Some(plan),
            None => None,
        }
    }

    /// The interval between this backing's heartbeats (seconds), if it has any.
    pub fn heartbeat_interval_secs(&self) -> (seconds: Option<u16>)
        ensures
            seconds == self@.heartbeat_interval_secs,
    {
        self.heartbeat_interval_secs
    }

    /// Whether this backing's tasks were told to stop.
    pub fn stop_signalled(&self) -> (signalled: bool)
        ensures
            signalled == self@.stop_signalled,
    {
        self.stop_signalled
    }

    /// Hands out the receiver of inbound messages, which can be had once.
    ///
    /// # Errors
    ///
    /// Returns an error if the receiver was taken already, or if nothing is consumed.
    pub fn take_receiver(&mut self) -> (taken: Result<(), BackingError>)
        ensures
            taken == (if old(self)@.receiver_available {
                Ok::<(), BackingError>(())
            } else {
                Err::<(), BackingError>(BackingError::ReceiverTaken)
            }),
            final(self)@ == after_take_receiver(old(self)@),
            final(self)@ == (BackingView { receiver_available: false, ..old(self)@ }),
    {
        if self.receiver_available {
            self.receiver_available = false;
            Ok(())
        } else {
            Err(BackingError::ReceiverTaken)
        }
    }

    /// Closes the backing: its tasks are told to stop, the publish task by a message where its
    /// channel is still open, and then each task that runs is waited for.
    pub fn close(&mut self, channel_closed: bool) -> (steps: CloseSteps)
        ensures
            final(self)@ == after_close(old(self)@),
            final(self)@ == (BackingView {
                stop_signalled: true,
                pending: Seq::empty(),
                ..old(self)@
            }),
            steps.tasks@ == old(self)@.pending,
            channel_closed ==> steps.close_message is None,
            !channel_closed ==> steps.close_message is Some && steps.close_message->0@
                == custom_message(CLOSE_TOPIC@, Seq::empty()),
            !channel_closed ==> steps.close_message->0.topic@ == "CLOSE"@,
    {
        self.stop_signalled = true;
        let close_message = if channel_closed {
            None
        } else {
            Some(BusMessage::new_close())
        };
        CloseSteps { close_message, tasks: self.close_async() }
    }

    /// The tasks still to be waited for, in order; each is handed out once.
    pub fn close_async(&mut self) -> (tasks: Vec<BackingTask>)
        ensures
            tasks@ == old(self)@.pending,
            final(self)@ == (BackingView { pending: Seq::empty(), ..old(self)@ }),
    {
        let mut tasks: Vec<BackingTask> = Vec::new();
        std::mem::swap(&mut tasks, &mut self.pending);
        tasks
    }
}

impl KafkaMessageBusFactory {
    /// Starts a backing with this factory's Kafka configuration.
    ///
    /// # Errors
    ///
    /// Returns an error if [`KafkaMessageBusBacking::new`] does.
    pub fn create(&self, trader_id: TraderId, instance_id: UUID4, config: MessageBusConfig) -> (
    created: Result<KafkaMessageBusBacking, BackingError>)
        ensures
            match created {
                Ok(created) => {
                    &&& config.heartbeat_interval_secs != Some(0u16)
                    &&& created@ == started(trader_id@, instance_id@, config@, self.config())
                },
                Err(error) => {
                    &&& config.heartbeat_interval_secs == Some(0u16)
                    &&& error == BackingError::ZeroHeartbeatInterval
                },
            },
    {
        KafkaMessageBusBacking::new(trader_id, instance_id, &config, self.backing_config())
    }
}

/// The receiver of a started backing can be had where something is consumed, and then once.
pub proof fn law_receiver_is_handed_out_once(
    trader_id: Seq<char>,
    instance_id: Seq<char>,
    config: MessageBusConfigView,
    kafka: KafkaConfigView,
)
    ensures
        started(trader_id, instance_id, config, kafka).receiver_available <==> (
        config.external_streams is Some && config.external_streams->0.len() > 0),
        !after_take_receiver(started(trader_id, instance_id, config, kafka)).receiver_available,
{
}

/// Closing stops the tasks for good: closing again finds nothing left to wait for, and neither
/// closing nor taking the receiver brings a task back or takes the stop signal away.
pub proof fn law_closing_again_waits_for_nothing(backing: BackingView)
    ensures
        after_close(backing).pending.len() == 0,
        after_close(after_close(backing)) == after_close(backing),
        after_take_receiver(after_close(backing)).stop_signalled,
        after_take_receiver(after_close(backing)).pending.len() == 0,
{
}

/// Every task that was started is waited for when the backing is closed: the publish task first,
/// the heartbeat task last, and none twice.
pub proof fn law_closing_waits_for_every_task(
    trader_id: Seq<char>,
    instance_id: Seq<char>,
    config: MessageBusConfigView,
    kafka: KafkaConfigView,
)
    ensures
        ({
            let backing = started(trader_id, instance_id, config, kafka);
            &&& backing.pending.len() > 0 && backing.pending[0] == BackingTask::Publish
            &&& backing.pending.contains(BackingTask::Stream) <==> backing.stream is Some
            &&& backing.pending.contains(BackingTask::Heartbeat)
                <==> backing.heartbeat_interval_secs is Some
            &&& backing.heartbeat_interval_secs is Some ==> backing.pending.last()
                == BackingTask::Heartbeat
            &&& backing.pending.no_duplicates()
        }),
{
    let backing = started(trader_id, instance_id, config, kafka);
    let pending = backing.pending;
    if backing.stream is Some {
        assert(pending[1] == BackingTask::Stream);
    }
    if backing.heartbeat_interval_secs is Some {
        assert(pending[pending.len() - 1] == BackingTask::Heartbeat);
    }
}

/// A backing is refused exactly where its heartbeat interval is zero, and starts out as it was
/// told otherwise: under the given identifiers, with the given heartbeat interval, publishing to
/// the node's topic, and with no task told to stop.
pub proof fn law_backings_start_as_they_are_told(
    trader_id: TraderId,
    instance_id: UUID4,
    config: MessageBusConfig,
    kafka: KafkaMessageBusConfig,
    created: Result<KafkaMessageBusBacking, BackingError>,
    topic: String,
)
    requires
        call_ensures(
            KafkaMessageBusBacking::new,
            (trader_id, instance_id, &config, &kafka),
            created,
        ),
        call_ensures(get_topic_key, (&trader_id, &instance_id, &config), topic),
    ensures
        created is Err <==> config.heartbeat_interval_secs == Some(0u16),
        created matches Err(error) ==> error == BackingError::ZeroHeartbeatInterval,
        created matches Ok(backing) ==> {
            &&& backing@.trader_id == trader_id@
            &&& backing@.instance_id == instance_id@
            &&& backing@.egress_topic == topic@
            &&& backing@.heartbeat_interval_secs == config.heartbeat_interval_secs
            &&& !backing@.stop_signalled
        },
{
}

/// The clients of a backing get the Kafka configuration that it was started with, field by field.
pub proof fn law_backings_keep_their_kafka_configuration(
    trader_id: TraderId,
    instance_id: UUID4,
    config: MessageBusConfig,
    kafka: KafkaMessageBusConfig,
    backing: KafkaMessageBusBacking,
    kept: &KafkaMessageBusConfig,
)
    requires
        call_ensures(
            KafkaMessageBusBacking::new,
            (trader_id, instance_id, &config, &kafka),
            Ok(backing),
        ),
        call_ensures(KafkaMessageBusBacking::kafka_config, (&backing,), kept),
    ensures
        kept.brokers@ == kafka.brokers@,
        kept.message_timeout_ms == kafka.message_timeout_ms,
        kept.client_id is Some <==> kafka.client_id is Some,
        kept.client_id is Some ==> kept.client_id->0@ == kafka.client_id->0@,
        kept.group_id is Some <==> kafka.group_id is Some,
        kept.group_id is Some ==> kept.group_id->0@ == kafka.group_id->0@,
        kept.security_protocol is Some <==> kafka.security_protocol is Some,
        kept.security_protocol is Some ==> kept.security_protocol->0@ == kafka.security_protocol->0@,
        kept.sasl_mechanism is Some <==> kafka.sasl_mechanism is Some,
        kept.sasl_mechanism is Some ==> kept.sasl_mechanism->0@ == kafka.sasl_mechanism->0@,
        kept.sasl_username is Some <==> kafka.sasl_username is Some,
        kept.sasl_username is Some ==> kept.sasl_username->0@ == kafka.sasl_username->0@,
        kept.sasl_password is Some <==> kafka.sasl_password is Some,
        kept.sasl_password is Some ==> kept.sasl_password->0@ == kafka.sasl_password->0@,
{
    assert(kept@ == kafka@);
    assert(optional_text(kept.client_id) == optional_text(kafka.client_id));
    assert(optional_text(kept.group_id) == optional_text(kafka.group_id));
    assert(optional_text(kept.security_protocol) == optional_text(kafka.security_protocol));
    assert(optional_text(kept.sasl_mechanism) == optional_text(kafka.sasl_mechanism));
    assert(optional_text(kept.sasl_username) == optional_text(kafka.sasl_username));
    assert(optional_text(kept.sasl_password) == optional_text(kafka.sasl_password));
}

/// A backing consumes exactly the configured external streams, in order, and nothing where none is
/// configured; its own group name is made of both its identifiers. Its receiver is there to be had
/// exactly where it consumes something.
pub proof fn law_backings_consume_the_configured_streams(
    trader_id: TraderId,
    instance_id: UUID4,
    config: MessageBusConfig,
    kafka: KafkaMessageBusConfig,
    backing: KafkaMessageBusBacking,
    plan: Option<&StreamPlan>,
)
    requires
        call_ensures(
            KafkaMessageBusBacking::new,
            (trader_id, instance_id, &config, &kafka),
            Ok(backing),
        ),
        call_ensures(KafkaMessageBusBacking::stream, (&backing,), plan),
    ensures
        plan is Some <==> config.external_streams is Some && config.external_streams->0@.len() > 0,
        plan is Some <==> backing@.receiver_available,
        plan matches Some(plan) ==> {
            &&& plan.topics@.len() == config.external_streams->0@.len()
            &&& forall|i: int|
                0 <= i < plan.topics@.len() ==> (#[trigger] plan.topics@[i])@
                    == config.external_streams->0@[i]@
            &&& plan.node_group_id@ == "nautilus-"@ + trader_id@ + "-"@ + instance_id@
        },
{
    if let Some(streams) = config.external_streams {
        assert(config@.external_streams == Some(texts(streams@)));
        assert(texts(streams@).len() == streams@.len());
        if let Some(plan) = plan {
            assert(texts(plan.topics@) == texts(streams@));
            assert(texts(plan.topics@).len() == plan.topics@.len());
            assert forall|i: int| 0 <= i < plan.topics@.len() implies (#[trigger] plan.topics@[i])@
                == streams@[i]@ by {
                assert(texts(plan.topics@)[i] == plan.topics@[i]@);
                assert(texts(streams@)[i] == streams@[i]@);
            }
        }
    }
}

/// The tasks of a started backing, in the order in which closing waits for them: the publish task,
/// the stream task where streams are configured, and the heartbeat task where an interval is.
pub proof fn law_backings_run_the_configured_tasks(
    trader_id: TraderId,
    instance_id: UUID4,
    config: MessageBusConfig,
    kafka: KafkaMessageBusConfig,
    backing: KafkaMessageBusBacking,
)
    requires
        call_ensures(
            KafkaMessageBusBacking::new,
            (trader_id, instance_id, &config, &kafka),
            Ok(backing),
        ),
    ensures
        ({
            let streams = config.external_streams is Some && config.external_streams->0@.len() > 0;
            let heartbeats = config.heartbeat_interval_secs is Some;
            let pending = backing@.pending;
            &&& pending.len() == 1 + (if streams {
                1int
            } else {
                0
            }) + (if heartbeats {
                1int
            } else {
                0
            })
            &&& pending[0] == BackingTask::Publish
            &&& streams ==> pending[1] == BackingTask::Stream
            &&& heartbeats ==> pending[pending.len() - 1] == BackingTask::Heartbeat
        }),
{
    if let Some(streams) = config.external_streams {
        assert(config@.external_streams == Some(texts(streams@)));
        assert(texts(streams@).len() == streams@.len());
    }
}

/// A factory starts the backing that its configuration would start directly, or refuses alike.
pub proof fn law_factories_start_what_their_configuration_would(
    kafka: KafkaMessageBusConfig,
    factory: KafkaMessageBusFactory,
    trader_id: TraderId,
    instance_id: UUID4,
    config: MessageBusConfig,
    created: Result<KafkaMessageBusBacking, BackingError>,
    direct: Result<KafkaMessageBusBacking, BackingError>,
)
    requires
        call_ensures(KafkaMessageBusFactory::new, (kafka,), factory),
        call_ensures(
            KafkaMessageBusFactory::create,
            (&factory, trader_id, instance_id, config),
            created,
        ),
        call_ensures(
            KafkaMessageBusBacking::new,
            (trader_id, instance_id, &config, &kafka),
            direct,
        ),
    ensures
        created is Ok <==> direct is Ok,
        created is Ok ==> created->Ok_0@ == direct->Ok_0@,
        created is Err ==> created->Err_0 == direct->Err_0,
{
}

/// Asking for the receiver changes nothing but that it is gone.
pub proof fn law_taking_the_receiver_changes_nothing_else(backing: BackingView)
    ensures
        ({
            let after = after_take_receiver(backing);
            &&& !after.receiver_available
            &&& after.trader_id == backing.trader_id
            &&& after.instance_id == backing.instance_id
            &&& after.kafka == backing.kafka
            &&& after.egress_topic == backing.egress_topic
            &&& after.stream == backing.stream
            &&& after.heartbeat_interval_secs == backing.heartbeat_interval_secs
            &&& after.stop_signalled == backing.stop_signalled
            &&& after.pending == backing.pending
        }),
{
}

/// Closing tells the tasks to stop and leaves none to wait for; what the backing is, and whether
/// its receiver can still be had, stays as it was.
pub proof fn law_closing_changes_nothing_else(backing: BackingView)
    ensures
        ({
            let after = after_close(backing);
            &&& after.stop_signalled
            &&& after.pending.len() == 0
            &&& after.trader_id == backing.trader_id
            &&& after.instance_id == backing.instance_id
            &&& after.kafka == backing.kafka
            &&& after.egress_topic == backing.egress_topic
            &&& after.stream == backing.stream
            &&& after.heartbeat_interval_secs == backing.heartbeat_interval_secs
            &&& after.receiver_available == backing.receiver_available
        }),
{
}

/// Each task goes by its own name in logs.
pub proof fn law_tasks_go_by_their_names(task: BackingTask, name: &'static str)
    requires
        call_ensures(BackingTask::name, (&task,), name),
    ensures
        name@ == "msgbus-"@ + (match task {
            BackingTask::Publish => "publish"@,
            BackingTask::Stream => "stream"@,
            BackingTask::Heartbeat => "heartbeat"@,
        }),
{
    reveal_strlit("msgbus-");
    reveal_strlit("publish");
    reveal_strlit("stream");
    reveal_strlit("heartbeat");
    reveal_strlit("msgbus-publish");
    reveal_strlit("msgbus-stream");
    reveal_strlit("msgbus-heartbeat");
    assert("msgbus-publish"@ =~= "msgbus-"@ + "publish"@);
    assert("msgbus-stream"@ =~= "msgbus-"@ + "stream"@);
    assert("msgbus-heartbeat"@ =~= "msgbus-"@ + "heartbeat"@);
}

/// A refusal is reported in the operator's words.
pub proof fn law_refusals_say_why(error: BackingError, message: String)
    requires
        call_ensures(BackingError::message, (&error,), message),
    ensures
        error == BackingError::ZeroHeartbeatInterval ==> message@
            == "heartbeat_interval_secs must be greater than 0"@,
        error == BackingError::ReceiverTaken ==> message@ == "Stream receiver already taken"@,
{
}

/// A task that looks at its stop signal as often as it should notices it while closing waits for
/// the task.
pub proof fn law_stop_signals_are_noticed_while_closing_waits()
    ensures
        STREAM_POLL_INTERVAL_MS < TASK_TIMEOUT_SECS * 1_000,
        HEARTBEAT_CHECK_INTERVAL_MS < TASK_TIMEOUT_SECS * 1_000,
        STREAM_POLL_INTERVAL_MS == 200,
        HEARTBEAT_CHECK_INTERVAL_MS == 100,
        TASK_TIMEOUT_SECS == 2,
        FLUSH_TIMEOUT_SECS == 5,
        STREAM_CAPACITY == 100_000,
{
}

} // verus!
