//! A side channel of causality records: for every entry that the event store has captured, a
//! small record that tells what the entry belongs to and what caused it.
//!
//! Consumers join these records with the main event stream on the `identity`, an identifier that
//! the event payloads carry already.

use crate::ids::{UnixNanos, UUID4};
use crate::kafka_config::{
    client_settings, no_settings, set_parameter, with_optional, DEFAULT_BROKERS,
    DEFAULT_MESSAGE_TIMEOUT_MS,
};
use crate::tasks::FLUSH_TIMEOUT_SECS;
use crate::text::{copy_optional, decimal, decimal_text, optional_text};
use rdkafka::config::ClientConfig;
use vstd::prelude::*;

verus! {

/// The topic that causality records are published to when none is configured.
pub const DEFAULT_TOPIC: &'static str = "hg.nautilus.causality.v1";

/// How long closing waits for the publish task, in seconds.
pub const CLOSE_TIMEOUT_SECS: u64 = 5;

/// Configuration for [`KafkaCapturedEntrySink`].
#[derive(Debug, PartialEq, Eq)]
pub struct KafkaCapturedEntrySinkConfig {
    /// Comma-separated Kafka bootstrap servers, e.g. `"localhost:9092"`.
    pub brokers: String,
    /// The Kafka topic causality records are published to.
    pub topic: String,
    /// The client ID reported to the broker. If `None`, librdkafka's default is used.
    pub client_id: Option<String>,
    /// The producer delivery timeout (milliseconds).
    pub message_timeout_ms: u64,
}

/// What a [`KafkaCapturedEntrySinkConfig`] holds.
#[verifier::ext_equal]
pub struct SinkConfigView {
    pub brokers: Seq<char>,
    pub topic: Seq<char>,
    pub client_id: Option<Seq<char>>,
    pub message_timeout_ms: u64,
}

impl View for KafkaCapturedEntrySinkConfig {
    type V = SinkConfigView;

    open spec fn view(&self) -> SinkConfigView {
        SinkConfigView {
            brokers: self.brokers@,
            topic: self.topic@,
            client_id: optional_text(self.client_id),
            message_timeout_ms: self.message_timeout_ms,
        }
    }
}

impl Default for KafkaCapturedEntrySinkConfig {
    fn default() -> (config: Self)
        ensures
            config@ == (SinkConfigView {
                brokers: DEFAULT_BROKERS@,
                topic: DEFAULT_TOPIC@,
                client_id: None,
                message_timeout_ms: DEFAULT_MESSAGE_TIMEOUT_MS,
            }),
    {
        KafkaCapturedEntrySinkConfig {
            brokers: DEFAULT_BROKERS.to_string(),
            topic: DEFAULT_TOPIC.to_string(),
            client_id: None,
            message_timeout_ms: DEFAULT_MESSAGE_TIMEOUT_MS,
        }
    }
}

impl Clone for KafkaCapturedEntrySinkConfig {
    fn clone(&self) -> (copy: Self)
        ensures
            copy@ == self@,
    {
        KafkaCapturedEntrySinkConfig {
            brokers: self.brokers.clone(),
            topic: self.topic.clone(),
            client_id: copy_optional(&self.client_id),
            message_timeout_ms: self.message_timeout_ms,
        }
    }
}

/// The parameters of the producer of `config`.
pub open spec fn sink_settings(config: SinkConfigView) -> Map<Seq<char>, Seq<char>> {
    with_optional(
        no_settings().insert("bootstrap.servers"@, config.brokers),
        "client.id"@,
        config.client_id,
    ).insert("message.timeout.ms"@, decimal(config.message_timeout_ms as nat))
}

impl KafkaCapturedEntrySinkConfig {
    /// The client configuration from which the producer is created.
    pub fn producer_client(&self) -> (client: ClientConfig)
        ensures
            client_settings(client) == sink_settings(self@),
    {
        let mut client = ClientConfig::new();
        set_parameter(&mut client, "bootstrap.servers", self.brokers.as_str());
        if let Some(client_id) = &self.client_id {
            set_parameter(&mut client, "client.id", client_id.as_str());
        }
        let timeout = decimal_text(self.message_timeout_ms);
        set_parameter(&mut client, "message.timeout.ms", timeout.as_str());
        client
    }
}

/// The identifier inside an option.
pub open spec fn optional_id(id: Option<UUID4>) -> Option<Seq<char>> {
    match id {
        Some(id) => Some(id@),
        None => None,
    }
}

fn copy_id(id: &Option<UUID4>) -> (copy: Option<UUID4>)
    ensures
        optional_id(copy) == optional_id(*id),
{
    match id {
        Some(id) => Some(id.clone()),
        None => None,
    }
}

/// What an entry belongs to and what caused it.
#[derive(Debug, PartialEq, Eq)]
pub struct Headers {
    pub correlation_id: Option<UUID4>,
    pub causation_id: Option<UUID4>,
}

/// A captured entry, as far as causality records tell of it.
#[derive(Debug, PartialEq, Eq)]
pub struct EntryDraft {
    pub headers: Headers,
    pub topic: String,
    pub payload_type: String,
    pub ts_init: UnixNanos,
}

/// What an [`EntryDraft`] holds.
#[verifier::ext_equal]
pub struct EntryView {
    pub topic: Seq<char>,
    pub payload_type: Seq<char>,
    pub correlation_id: Option<Seq<char>>,
    pub causation_id: Option<Seq<char>>,
    pub ts_init: u64,
}

impl View for EntryDraft {
    type V = EntryView;

    open spec fn view(&self) -> EntryView {
        EntryView {
            topic: self.topic@,
            payload_type: self.payload_type@,
            correlation_id: optional_id(self.headers.correlation_id),
            causation_id: optional_id(self.headers.causation_id),
            ts_init: self.ts_init.nanos,
        }
    }
}

/// What is published of a captured entry.
#[derive(Debug, PartialEq, Eq)]
pub struct CausalityRecord {
    /// The entry's own identifier, if its type has one: what a consumer joins on.
    pub identity: Option<UUID4>,
    pub topic: String,
    pub payload_type: String,
    pub correlation_id: Option<UUID4>,
    pub causation_id: Option<UUID4>,
    pub ts_init: u64,
}

/// What a [`CausalityRecord`] holds.
#[verifier::ext_equal]
pub struct CausalityRecordView {
    pub identity: Option<Seq<char>>,
    pub topic: Seq<char>,
    pub payload_type: Seq<char>,
    pub correlation_id: Option<Seq<char>>,
    pub causation_id: Option<Seq<char>>,
    pub ts_init: u64,
}

impl View for CausalityRecord {
    type V = CausalityRecordView;

    open spec fn view(&self) -> CausalityRecordView {
        CausalityRecordView {
            identity: optional_id(self.identity),
            topic: self.topic@,
            payload_type: self.payload_type@,
            correlation_id: optional_id(self.correlation_id),
            causation_id: optional_id(self.causation_id),
            ts_init: self.ts_init,
        }
    }
}

/// The record of a captured entry.
pub open spec fn entry_record(identity: Option<Seq<char>>, entry: EntryView) -> CausalityRecordView {
    CausalityRecordView {
        identity,
        topic: entry.topic,
        payload_type: entry.payload_type,
        correlation_id: entry.correlation_id,
        causation_id: entry.causation_id,
        ts_init: entry.ts_init,
    }
}

/// The key under which a record is published: the identity, or the topic of an entry without
/// one.
pub open spec fn record_key(record: CausalityRecordView) -> Seq<char> {
    match record.identity {
        Some(identity) => identity,
        None => record.topic,
    }
}

impl CausalityRecord {
    /// The key under which this record is published.
    pub fn key(&self) -> (key: String)
        ensures
            key@ == record_key(self@),
    {
        match &self.identity {
            Some(identity) => identity.as_str().to_string(),
            None => self.topic.clone(),
        }
    }
}

/// Why a sink cannot be connected.
#[derive(Debug, PartialEq, Eq)]
pub enum SinkError {
    /// The Kafka producer could not be constructed, for the reason given here.
    ProducerNotCreated(String),
}

impl SinkError {
    /// The text that reports this error to an operator.
    pub fn message(&self) -> (message: String)
        ensures
            message@ == "failed to create Kafka producer: "@ + self->ProducerNotCreated_0@,
    {
        match self {
            SinkError::ProducerNotCreated(reason) => {
                "failed to create Kafka producer: ".to_string().concat(reason.as_str())
            },
        }
    }
}

/// A record as it is handed to the producer.
#[derive(Debug, PartialEq, Eq)]
pub struct CausalityPublication {
    pub topic: String,
    pub key: String,
    pub payload: Vec<u8>,
}

/// What a [`CausalityPublication`] holds.
#[verifier::ext_equal]
pub struct PublicationView {
    pub topic: Seq<char>,
    pub key: Seq<char>,
    pub payload: Seq<u8>,
}

impl View for CausalityPublication {
    type V = PublicationView;

    open spec fn view(&self) -> PublicationView {
        PublicationView { topic: self.topic@, key: self.key@, payload: self.payload@ }
    }
}

/// A queued record, with its serialized form or the reason why it has none.
#[derive(Debug)]
pub struct QueuedRecord {
    pub record: CausalityRecord,
    pub serialized: Result<Vec<u8>, String>,
}

/// What a [`QueuedRecord`] holds.
#[verifier::ext_equal]
pub struct QueuedRecordView {
    pub record: CausalityRecordView,
    pub serialized: Option<Seq<u8>>,
}

impl View for QueuedRecord {
    type V = QueuedRecordView;

    open spec fn view(&self) -> QueuedRecordView {
        QueuedRecordView {
            record: self.record@,
            serialized: match self.serialized {
                Ok(payload) => Some(payload@),
                Err(_) => None,
            },
        }
    }
}

/// What the publish task of a sink does about what its channel gave it.
#[derive(Debug, PartialEq, Eq)]
pub enum RecordStep {
    /// Hand the record to the producer, and receive again.
    Send(CausalityPublication),
    /// Note that the record cannot be serialized, and receive again.
    Skip,
    /// Flush the producer and end.
    Stop,
}

/// What a [`RecordStep`] holds.
pub enum RecordStepView {
    Send(PublicationView),
    Skip,
    Stop,
}

impl View for RecordStep {
    type V = RecordStepView;

    open spec fn view(&self) -> RecordStepView {
        match self {
            RecordStep::Send(publication) => RecordStepView::Send(publication@),
            RecordStep::Skip => RecordStepView::Skip,
            RecordStep::Stop => RecordStepView::Stop,
        }
    }
}

/// The step that follows what the channel gave: the task ends with the channel, sends what is
/// serialized under the record's key, and passes over what is not.
pub open spec fn record_next(topic: Seq<char>, given: Option<QueuedRecordView>) -> RecordStepView {
    match given {
        None => RecordStepView::Stop,
        Some(queued) => match queued.serialized {
            Some(payload) => RecordStepView::Send(
                PublicationView { topic, key: record_key(queued.record), payload },
            ),
            None => RecordStepView::Skip,
        },
    }
}

/// Decides what to do about a record received for the Kafka topic `topic`, or about the end of
/// the channel.
pub fn record_step(topic: &str, given: Option<QueuedRecord>) -> (step: RecordStep)
    ensures
        step@ == record_next(
            topic@,
            (match given {
                Some(queued) => Some(queued@),
                None => None,
            }),
        ),
{
    match given {
        None => RecordStep::Stop,
        Some(queued) => match queued.serialized {
            Ok(payload) => RecordStep::Send(
                CausalityPublication {
                    topic: topic.to_string(),
                    key: queued.record.key(),
                    payload,
                },
            ),
            Err(_) => RecordStep::Skip,
        },
    }
}

/// What the publish task of a sink sends when its channel gives the records of `queue`, one step
/// after the other, and then ends.
pub open spec fn sent(topic: Seq<char>, queue: Seq<QueuedRecordView>) -> Seq<PublicationView>
    decreases queue.len(),
{
    if queue.len() == 0 {
        Seq::empty()
    } else {
        let rest = sent(topic, queue.drop_first());
        match record_next(topic, Some(queue[0])) {
            RecordStepView::Send(publication) => seq![publication] + rest,
            RecordStepView::Skip => rest,
            RecordStepView::Stop => Seq::empty(),
        }
    }
}

/// A record that cannot be serialized costs no other record: the others are sent as if it had
/// not been queued, wherever in the queue it stood.
pub proof fn law_unserializable_records_cost_no_other(
    topic: Seq<char>,
    before: Seq<QueuedRecordView>,
    bad: QueuedRecordView,
    after: Seq<QueuedRecordView>,
)
    requires
        bad.serialized is None,
    ensures
        sent(topic, before + seq![bad] + after) == sent(topic, before + after),
    decreases before.len(),
{
    let queue = before + seq![bad] + after;
    if before.len() == 0 {
        assert(queue[0] == bad);
        assert(queue.drop_first() =~= after);
        assert(before + after =~= after);
    } else {
        law_unserializable_records_cost_no_other(topic, before.drop_first(), bad, after);
        assert(queue.drop_first() =~= before.drop_first() + seq![bad] + after);
        assert((before + after).drop_first() =~= before.drop_first() + after);
        assert(queue[0] == before[0]);
        assert((before + after)[0] == before[0]);
    }
}

/// Every record of a queue that can be serialized is sent, in order, each under its own key, to
/// the one topic.
pub proof fn law_every_serialized_record_is_sent(topic: Seq<char>, queue: Seq<QueuedRecordView>)
    requires
        forall|i: int| 0 <= i < queue.len() ==> (#[trigger] queue[i]).serialized is Some,
    ensures
        sent(topic, queue).len() == queue.len(),
        forall|i: int|
            0 <= i < queue.len() ==> #[trigger] sent(topic, queue)[i] == (PublicationView {
                topic,
                key: record_key(queue[i].record),
                payload: queue[i].serialized->0,
            }),
    decreases queue.len(),
{
    if queue.len() > 0 {
        let rest = queue.drop_first();
        assert(forall|i: int| 0 <= i < rest.len() ==> rest[i] == queue[i + 1]);
        law_every_serialized_record_is_sent(topic, rest);
        let head = PublicationView {
            topic,
            key: record_key(queue[0].record),
            payload: queue[0].serialized->0,
        };
        assert(sent(topic, queue) == seq![head] + sent(topic, rest));
        assert forall|i: int| 0 <= i < queue.len() implies #[trigger] sent(topic, queue)[i] == (
        PublicationView {
            topic,
            key: record_key(queue[i].record),
            payload: queue[i].serialized->0,
        }) by {
            if i > 0 {
                assert(sent(topic, queue)[i] == sent(topic, rest)[i - 1]);
                assert(rest[i - 1] == queue[i]);
            }
        }
    }
}

/// What is known of a sink.
#[verifier::ext_equal]
pub struct SinkView {
    /// The topic it publishes to.
    pub topic: Seq<char>,
    /// Whether it takes records.
    pub open: bool,
    /// Whether its publish task is still to be waited for.
    pub task_pending: bool,
}

/// A sink that was just connected.
pub open spec fn connected(config: SinkConfigView) -> SinkView {
    SinkView { topic: config.topic, open: true, task_pending: true }
}

/// A sink after it was closed.
pub open spec fn after_close(sink: SinkView) -> SinkView {
    SinkView { open: false, task_pending: false, ..sink }
}

/// Publishes a [`CausalityRecord`] for every captured entry, until it is closed.
#[derive(Debug)]
pub struct KafkaCapturedEntrySink {
    topic: String,
    open: bool,
    task_pending: bool,
}

impl View for KafkaCapturedEntrySink {
    type V = SinkView;

    closed spec fn view(&self) -> SinkView {
        SinkView { topic: self.topic@, open: self.open, task_pending: self.task_pending }
    }
}

impl KafkaCapturedEntrySink {
    /// Connects a sink whose producer was created as `producer` tells, from
    /// [`KafkaCapturedEntrySinkConfig::producer_client`].
    ///
    /// # Errors
    ///
    /// Returns an error if the Kafka producer cannot be constructed.
    pub fn connect(config: KafkaCapturedEntrySinkConfig, producer: Result<(), String>) -> (sink:
        Result<Self, SinkError>)
        ensures
            match producer {
                Ok(_) => sink matches Ok(sink) && sink@ == connected(config@),
                Err(reason) => sink matches Err(SinkError::ProducerNotCreated(text)) && text@
                    == reason@,
            },
    {
        match producer {
            Ok(_) => Ok(
                KafkaCapturedEntrySink { topic: config.topic, open: true, task_pending: true },
            ),
            Err(reason) => Err(SinkError::ProducerNotCreated(reason)),
        }
    }

    /// The record to queue for a captured entry; a closed sink queues none.
    pub fn on_captured(&self, identity: Option<UUID4>, entry: &EntryDraft) -> (record: Option<
        CausalityRecord,
    >)
        ensures
            record is Some <==> self@.open,
            record matches Some(record) ==> record@ == entry_record(optional_id(identity), entry@),
    {
        if !self.open {
            return None;
        }
        Some(
            CausalityRecord {
                identity,
                topic: entry.topic.clone(),
                payload_type: entry.payload_type.clone(),
                correlation_id: copy_id(&entry.headers.correlation_id),
                causation_id: copy_id(&entry.headers.causation_id),
                ts_init: entry.ts_init.nanos,
            },
        )
    }

    /// The topic that this sink publishes to.
    pub fn topic(&self) -> (topic: &str)
        ensures
            topic@ == self@.topic,
    {
        self.topic.as_str()
    }

    /// Closes the sink: it takes no more records. Returns whether its publish task is to be
    /// waited for, so that what is queued gets a chance to be sent. Closing again finds nothing
    /// left to do.
    pub fn close(&mut self) -> (await_task: bool)
        ensures
            await_task == old(self)@.task_pending,
            final(self)@ == after_close(old(self)@),
            final(self)@ == (SinkView { open: false, task_pending: false, ..old(self)@ }),
    {
        let await_task = self.task_pending;
        self.open = false;
        self.task_pending = false;
        await_task
    }
}

/// Closing a sink more than once is safe: the second time there is no task to wait for, and
/// nothing changes.
pub proof fn law_closing_again_does_nothing(sink: SinkView)
    ensures
        !after_close(sink).task_pending,
        !after_close(sink).open,
        after_close(after_close(sink)) == after_close(sink),
{
}

/// A consumer can join on the key alone: records of entries with an identity are keyed by it,
/// and no other part of the entry matters.
pub proof fn law_identity_is_the_key(identity: Seq<char>, left: EntryView, right: EntryView)
    ensures
        record_key(entry_record(Some(identity), left)) == identity,
        record_key(entry_record(Some(identity), left)) == record_key(
            entry_record(Some(identity), right),
        ),
        record_key(entry_record(None, left)) == left.topic,
{
}

/// The record of a captured entry tells of that entry: its topic, its payload type, what it
/// belongs to, what caused it and when it came to be, and the identity given with it. A record is
/// owed for every entry, whatever it holds, exactly as long as the sink is open.
pub proof fn law_records_tell_what_the_entry_holds(
    sink: KafkaCapturedEntrySink,
    identity: Option<UUID4>,
    entry: EntryDraft,
    record: Option<CausalityRecord>,
)
    requires
        call_ensures(KafkaCapturedEntrySink::on_captured, (&sink, identity, &entry), record),
    ensures
        record is Some <==> sink@.open,
        record matches Some(record) ==> {
            &&& record.topic@ == entry.topic@
            &&& record.payload_type@ == entry.payload_type@
            &&& record.ts_init == entry.ts_init.nanos
            &&& record.identity is Some <==> identity is Some
            &&& record.identity is Some ==> record.identity->0@ == identity->0@
            &&& record.correlation_id is Some <==> entry.headers.correlation_id is Some
            &&& record.correlation_id is Some ==> record.correlation_id->0@
                == entry.headers.correlation_id->0@
            &&& record.causation_id is Some <==> entry.headers.causation_id is Some
            &&& record.causation_id is Some ==> record.causation_id->0@
                == entry.headers.causation_id->0@
        },
{
    if let Some(record) = record {
        assert(record@ == entry_record(optional_id(identity), entry@));
        assert(optional_id(record.identity) == optional_id(identity));
        assert(optional_id(record.correlation_id) == optional_id(entry.headers.correlation_id));
        assert(optional_id(record.causation_id) == optional_id(entry.headers.causation_id));
    }
}

/// A connected sink takes entries and publishes to the topic that it is configured with; a
/// producer that could not be created is reported, with the reason, and leaves no sink.
pub proof fn law_connected_sinks_take_entries(
    config: KafkaCapturedEntrySinkConfig,
    producer: Result<(), String>,
    connected: Result<KafkaCapturedEntrySink, SinkError>,
    sink: KafkaCapturedEntrySink,
    identity: Option<UUID4>,
    entry: EntryDraft,
    record: Option<CausalityRecord>,
    topic: &str,
)
    requires
        call_ensures(KafkaCapturedEntrySink::connect, (config, producer), connected),
        connected is Ok ==> sink == connected->Ok_0,
        call_ensures(KafkaCapturedEntrySink::on_captured, (&sink, identity, &entry), record),
        call_ensures(KafkaCapturedEntrySink::topic, (&sink,), topic),
    ensures
        connected is Ok <==> producer is Ok,
        connected is Ok ==> record is Some && topic@ == config.topic@ && sink@.task_pending,
        connected matches Err(SinkError::ProducerNotCreated(reason)) ==> reason@
            == producer->Err_0@,
{
}

/// Closing ends the taking of records and the waiting, and leaves the topic as it was.
pub proof fn law_closed_sinks_keep_their_topic(sink: SinkView)
    ensures
        after_close(sink).topic == sink.topic,
        !after_close(sink).open,
        !after_close(sink).task_pending,
{
}

/// A record is keyed by its identity, and by its topic where it has none.
pub proof fn law_records_are_keyed_by_identity_or_topic(record: CausalityRecord, key: String)
    requires
        call_ensures(CausalityRecord::key, (&record,), key),
    ensures
        record.identity is Some ==> key@ == record.identity->0@,
        record.identity is None ==> key@ == record.topic@,
{
}

/// The publish task of a sink ends with its channel and not before, passes over exactly what could
/// not be serialized, and sends every other record as it was serialized, to the one topic and
/// under the record's key.
pub proof fn law_record_steps_send_what_is_serialized(
    topic: &str,
    given: Option<QueuedRecord>,
    step: RecordStep,
)
    requires
        call_ensures(record_step, (topic, given), step),
    ensures
        step is Stop <==> given is None,
        step is Skip <==> given is Some && given->0.serialized is Err,
        step matches RecordStep::Send(publication) ==> {
            &&& publication.topic@ == topic@
            &&& publication.payload@ == given->0.serialized->Ok_0@
            &&& given->0.record.identity is Some ==> publication.key@
                == given->0.record.identity->0@
            &&& given->0.record.identity is None ==> publication.key@ == given->0.record.topic@
        },
{
}

proof fn lemma_sink_parameter_names_differ()
    ensures
        "bootstrap.servers"@ != "client.id"@,
        "bootstrap.servers"@ != "message.timeout.ms"@,
        "client.id"@ != "message.timeout.ms"@,
{
    reveal_strlit("bootstrap.servers");
    reveal_strlit("client.id");
    reveal_strlit("message.timeout.ms");
    assert("bootstrap.servers"@[0] == 'b');
    assert("client.id"@[0] == 'c');
    assert("message.timeout.ms"@[0] == 'm');
}

/// The producer of a sink connects to the configured brokers, gives up a delivery after the
/// configured time and reports the configured client ID, if there is one; no other parameter is
/// set.
pub proof fn law_sink_producers_get_exactly_what_is_configured(
    config: KafkaCapturedEntrySinkConfig,
    client: ClientConfig,
)
    requires
        call_ensures(KafkaCapturedEntrySinkConfig::producer_client, (&config,), client),
    ensures
        client_settings(client).contains_key("bootstrap.servers"@),
        client_settings(client)["bootstrap.servers"@] == config.brokers@,
        client_settings(client).contains_key("message.timeout.ms"@),
        client_settings(client)["message.timeout.ms"@] == decimal(
            config.message_timeout_ms as nat,
        ),
        client_settings(client).contains_key("client.id"@) <==> config.client_id is Some,
        config.client_id is Some ==> client_settings(client)["client.id"@]
            == config.client_id->0@,
        forall|key: Seq<char>| #[trigger]
            client_settings(client).contains_key(key) ==> key == "bootstrap.servers"@
                || key == "client.id"@ || key == "message.timeout.ms"@,
{
    lemma_sink_parameter_names_differ();
}

/// A sink that is told nothing publishes to a local broker, on the topic for causality records.
pub proof fn law_default_sink_publishes_locally(config: KafkaCapturedEntrySinkConfig)
    requires
        call_ensures(KafkaCapturedEntrySinkConfig::default, (), config),
    ensures
        config.brokers@ == "127.0.0.1:9092"@,
        config.topic@ == "hg.nautilus.causality.v1"@,
        config.client_id is None,
        config.message_timeout_ms == 5_000,
{
}

/// A copied configuration says the same as the original, field by field.
pub proof fn law_copied_sink_configs_say_the_same(
    config: KafkaCapturedEntrySinkConfig,
    copy: KafkaCapturedEntrySinkConfig,
)
    requires
        call_ensures(KafkaCapturedEntrySinkConfig::clone, (&config,), copy),
    ensures
        copy.brokers@ == config.brokers@,
        copy.topic@ == config.topic@,
        copy.client_id is Some <==> config.client_id is Some,
        copy.client_id is Some ==> copy.client_id->0@ == config.client_id->0@,
        copy.message_timeout_ms == config.message_timeout_ms,
{
    assert(optional_text(copy.client_id) == optional_text(config.client_id));
}

/// Closing waits for the publish task as long as its producer may take to flush.
pub proof fn law_closing_waits_for_the_flush()
    ensures
        CLOSE_TIMEOUT_SECS >= FLUSH_TIMEOUT_SECS,
        CLOSE_TIMEOUT_SECS == 5,
{
}

} // verus!
