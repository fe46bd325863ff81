//! What the tasks of a Kafka backing do next.
//!
//! Each task is a loop around a channel, a consumer or a timer. The loops run elsewhere; here
//! each event they meet is answered with what to do about it.

use crate::bus::{
    bytes_content, BusMessage, BusMessageView, SerializationEncoding, CLOSE_TOPIC,
};
use crate::text::same_text;
use crate::wire::{
    carried_message, decode_bus_message, encode_bus_message, law_ingress_reads_back_egress,
    message_headers, message_record, received, InboundRecord, InboundRecordView, ProducerRecord,
    ProducerRecordView,
};
use vstd::prelude::*;
use vstd::utf8::encode_utf8;

verus! {

/// How long the stream task waits for a record before it looks at its stop signal, in
/// milliseconds.
pub const STREAM_POLL_INTERVAL_MS: u64 = 200;

/// How often the heartbeat task looks at its stop signal, in milliseconds.
pub const HEARTBEAT_CHECK_INTERVAL_MS: u64 = 100;

/// How long a producer may take to flush when its task ends, in seconds.
pub const FLUSH_TIMEOUT_SECS: u64 = 5;

/// What the publish task does about what its channel gave it.
#[derive(Debug)]
pub enum PublishStep {
    /// Hand the record to the producer, and receive again.
    Send(ProducerRecord),
    /// Flush the producer and end.
    Stop,
}

/// What a [`PublishStep`] holds.
pub enum PublishStepView {
    Send(ProducerRecordView),
    Stop,
}

impl View for PublishStep {
    type V = PublishStepView;

    open spec fn view(&self) -> PublishStepView {
        match self {
            PublishStep::Send(record) => PublishStepView::Send(record@),
            PublishStep::Stop => PublishStepView::Stop,
        }
    }
}

/// The step that follows what the channel gave: it stops at the close message and at the end of
/// the channel, and sends every other message.
pub open spec fn publish_next(
    topic: Seq<char>,
    given: Option<BusMessageView>,
) -> PublishStepView {
    match given {
        None => PublishStepView::Stop,
        Some(message) => if message.topic == CLOSE_TOPIC@ {
            PublishStepView::Stop
        } else {
            PublishStepView::Send(message_record(topic, message))
        },
    }
}

/// Decides what to do about a message received for the Kafka topic `topic`, or about the end of
/// the channel.
pub fn publish_step(topic: &str, given: Option<BusMessage>) -> (step: PublishStep)
    ensures
        step@ == publish_next(
            topic@,
            (match given {
                Some(message) => Some(message@),
                None => None,
            }),
        ),
{
    match given {
        None => PublishStep::Stop,
        Some(message) => if same_text(message.topic.as_str(), CLOSE_TOPIC) {
            PublishStep::Stop
        } else {
            PublishStep::Send(encode_bus_message(topic, message))
        },
    }
}

/// The records that the publish task sends when its channel gives the messages of `inbox`, one
/// step after the other, and then ends.
pub open spec fn published(topic: Seq<char>, inbox: Seq<BusMessageView>) -> Seq<ProducerRecordView>
    decreases inbox.len(),
{
    if inbox.len() == 0 {
        Seq::empty()
    } else {
        match publish_next(topic, Some(inbox[0])) {
            PublishStepView::Send(record) => seq![record] + published(topic, inbox.drop_first()),
            PublishStepView::Stop => Seq::empty(),
        }
    }
}

/// Whether no message of `messages` asks the publish task to stop.
pub open spec fn none_closes(messages: Seq<BusMessageView>) -> bool {
    forall|i: int| 0 <= i < messages.len() ==> (#[trigger] messages[i]).topic != CLOSE_TOPIC@
}

/// The records of `messages`, one for one.
pub open spec fn records(topic: Seq<char>, messages: Seq<BusMessageView>) -> Seq<
    ProducerRecordView,
> {
    messages.map_values(|message: BusMessageView| message_record(topic, message))
}

/// Messages that come before the close message are all published, in the order in which they
/// came, and nothing that comes after it is; where no close message comes, all are.
pub proof fn law_publishes_all_before_the_close_message(
    topic: Seq<char>,
    before: Seq<BusMessageView>,
    close: BusMessageView,
    after: Seq<BusMessageView>,
)
    requires
        none_closes(before),
        close.topic == CLOSE_TOPIC@,
    ensures
        published(topic, before) == records(topic, before),
        published(topic, before + seq![close] + after) == records(topic, before),
    decreases before.len(),
{
    let inbox = before + seq![close] + after;
    if before.len() == 0 {
        assert(inbox[0] == close);
        assert(published(topic, inbox) =~= records(topic, before));
        assert(published(topic, before) =~= records(topic, before));
    } else {
        let rest = before.drop_first();
        assert(forall|i: int| 0 <= i < rest.len() ==> rest[i] == before[i + 1]);
        law_publishes_all_before_the_close_message(topic, rest, close, after);
        assert(inbox[0] == before[0]);
        assert(inbox.drop_first() =~= rest + seq![close] + after);
        assert(records(topic, before) =~= seq![message_record(topic, before[0])] + records(
            topic,
            rest,
        ));
    }
}

/// Where the stream task stands.
#[derive(Debug, Clone, Copy, PartialEq, Eq, Structural)]
pub enum StreamState {
    /// It is about to look at its stop signal.
    Checking,
    /// It is waiting for a record.
    Receiving,
    /// It is handing a message to the node.
    Forwarding,
    /// It has ended.
    Stopped,
}

/// What the stream task meets.
#[derive(Debug)]
pub enum StreamEvent {
    /// The stop signal was looked at, and was raised or not.
    Signal(bool),
    /// A record was received.
    Record(InboundRecord),
    /// Receiving failed.
    ReceiveFailed,
    /// No record came within the poll interval.
    Elapsed,
    /// The message was handed over, or the node has dropped its receiver.
    Forwarded(bool),
}

/// What a [`StreamEvent`] holds.
pub enum StreamEventView {
    Signal(bool),
    Record(InboundRecordView),
    ReceiveFailed,
    Elapsed,
    Forwarded(bool),
}

impl View for StreamEvent {
    type V = StreamEventView;

    open spec fn view(&self) -> StreamEventView {
        match self {
            StreamEvent::Signal(raised) => StreamEventView::Signal(*raised),
            StreamEvent::Record(record) => StreamEventView::Record(record@),
            StreamEvent::ReceiveFailed => StreamEventView::ReceiveFailed,
            StreamEvent::Elapsed => StreamEventView::Elapsed,
            StreamEvent::Forwarded(delivered) => StreamEventView::Forwarded(*delivered),
        }
    }
}

/// What the stream task does next.
#[derive(Debug)]
pub enum StreamAction {
    /// Look at the stop signal.
    CheckSignal,
    /// Note that the record carries no message, and look at the stop signal.
    Skip,
    /// Wait for a record.
    Receive,
    /// Hand the message to the node.
    Forward(BusMessage),
    /// End.
    Stop,
    /// Nothing: the event does not belong to the state.
    Ignore,
}

/// What a [`StreamAction`] holds.
pub enum StreamActionView {
    CheckSignal,
    Skip,
    Receive,
    Forward(BusMessageView),
    Stop,
    Ignore,
}

impl View for StreamAction {
    type V = StreamActionView;

    open spec fn view(&self) -> StreamActionView {
        match self {
            StreamAction::CheckSignal => StreamActionView::CheckSignal,
            StreamAction::Skip => StreamActionView::Skip,
            StreamAction::Receive => StreamActionView::Receive,
            StreamAction::Forward(message) => StreamActionView::Forward(message@),
            StreamAction::Stop => StreamActionView::Stop,
            StreamAction::Ignore => StreamActionView::Ignore,
        }
    }
}

/// The state and action that follow an event. A raised signal ends the task before it receives
/// again, and so does a node that has dropped its receiver; nothing else does.
pub open spec fn stream_next(state: StreamState, event: StreamEventView) -> (
    StreamState,
    StreamActionView,
) {
    match (state, event) {
        (StreamState::Checking, StreamEventView::Signal(raised)) => if raised {
            (StreamState::Stopped, StreamActionView::Stop)
        } else {
            (StreamState::Receiving, StreamActionView::Receive)
        },
        (StreamState::Receiving, StreamEventView::Record(record)) => match carried_message(record) {
            Some(message) => (StreamState::Forwarding, StreamActionView::Forward(message)),
            None => (StreamState::Checking, StreamActionView::Skip),
        },
        (StreamState::Receiving, StreamEventView::ReceiveFailed) => (
            StreamState::Checking,
            StreamActionView::CheckSignal,
        ),
        (StreamState::Receiving, StreamEventView::Elapsed) => (
            StreamState::Checking,
            StreamActionView::CheckSignal,
        ),
        (StreamState::Forwarding, StreamEventView::Forwarded(delivered)) => if delivered {
            (StreamState::Checking, StreamActionView::CheckSignal)
        } else {
            (StreamState::Stopped, StreamActionView::Stop)
        },
        _ => (state, StreamActionView::Ignore),
    }
}

/// Decides what the stream task does about an event.
pub fn stream_step(state: StreamState, event: StreamEvent) -> (next: (StreamState, StreamAction))
    ensures
        (next.0, next.1@) == stream_next(state, event@),
{
    match (state, event) {
        (StreamState::Checking, StreamEvent::Signal(raised)) => if raised {
            (StreamState::Stopped, StreamAction::Stop)
        } else {
            (StreamState::Receiving, StreamAction::Receive)
        },
        (StreamState::Receiving, StreamEvent::Record(record)) => {
            match decode_bus_message(&record) {
                Some(message) => (StreamState::Forwarding, StreamAction::Forward(message)),
                None => (StreamState::Checking, StreamAction::Skip),
            }
        },
        (StreamState::Receiving, StreamEvent::ReceiveFailed) => {
            (StreamState::Checking, StreamAction::CheckSignal)
        },
        (StreamState::Receiving, StreamEvent::Elapsed) => {
            (StreamState::Checking, StreamAction::CheckSignal)
        },
        (StreamState::Forwarding, StreamEvent::Forwarded(delivered)) => if delivered {
            (StreamState::Checking, StreamAction::CheckSignal)
        } else {
            (StreamState::Stopped, StreamAction::Stop)
        },
        (state, _) => (state, StreamAction::Ignore),
    }
}

/// The messages that the stream task hands to the node when it meets `events` from `state` on.
pub open spec fn forwarded(state: StreamState, events: Seq<StreamEventView>) -> Seq<BusMessageView>
    decreases events.len(),
{
    if events.len() == 0 {
        Seq::empty()
    } else {
        let (next, action) = stream_next(state, events[0]);
        let rest = forwarded(next, events.drop_first());
        match action {
            StreamActionView::Forward(message) => seq![message] + rest,
            _ => rest,
        }
    }
}

/// Once it has ended, the stream task hands over nothing, whatever comes.
pub proof fn law_stopped_stream_forwards_nothing(events: Seq<StreamEventView>)
    ensures
        forwarded(StreamState::Stopped, events) == Seq::<BusMessageView>::empty(),
    decreases events.len(),
{
    if events.len() > 0 {
        law_stopped_stream_forwards_nothing(events.drop_first());
    }
}

/// A raised signal, and a node that has dropped its receiver, end the task then and there.
pub proof fn law_stream_stops_when_told(events: Seq<StreamEventView>)
    ensures
        forwarded(StreamState::Checking, seq![StreamEventView::Signal(true)] + events) == Seq::<
            BusMessageView,
        >::empty(),
        forwarded(StreamState::Forwarding, seq![StreamEventView::Forwarded(false)] + events)
            == Seq::<BusMessageView>::empty(),
{
    law_stopped_stream_forwards_nothing(events);
    assert((seq![StreamEventView::Signal(true)] + events).drop_first() =~= events);
    assert((seq![StreamEventView::Forwarded(false)] + events).drop_first() =~= events);
}

/// What one attempt to receive gives.
pub enum Outcome {
    Record(InboundRecordView),
    Failed,
    Elapsed,
}

/// The message of a received record that carries one.
pub open spec fn outcome_message(outcome: Outcome) -> Option<BusMessageView> {
    match outcome {
        Outcome::Record(record) => carried_message(record),
        _ => None,
    }
}

/// What the stream task meets around one attempt to receive, when nobody stops it.
pub open spec fn round(outcome: Outcome) -> Seq<StreamEventView> {
    let receipt = match outcome {
        Outcome::Record(record) => StreamEventView::Record(record),
        Outcome::Failed => StreamEventView::ReceiveFailed,
        Outcome::Elapsed => StreamEventView::Elapsed,
    };
    if outcome_message(outcome) is Some {
        seq![StreamEventView::Signal(false), receipt, StreamEventView::Forwarded(true)]
    } else {
        seq![StreamEventView::Signal(false), receipt]
    }
}

/// What the stream task meets around many attempts to receive, when nobody stops it.
pub open spec fn rounds(outcomes: Seq<Outcome>) -> Seq<StreamEventView>
    decreases outcomes.len(),
{
    if outcomes.len() == 0 {
        Seq::empty()
    } else {
        round(outcomes[0]) + rounds(outcomes.drop_first())
    }
}

/// The messages that the received records carry, in order.
pub open spec fn carried_messages(outcomes: Seq<Outcome>) -> Seq<BusMessageView>
    decreases outcomes.len(),
{
    if outcomes.len() == 0 {
        Seq::empty()
    } else {
        match outcome_message(outcomes[0]) {
            Some(message) => seq![message] + carried_messages(outcomes.drop_first()),
            None => carried_messages(outcomes.drop_first()),
        }
    }
}

/// Until it is stopped, the stream task hands over every message that it receives, each once and
/// in order; records that carry none, failures and empty polls neither stop nor disturb it.
pub proof fn law_stream_forwards_every_carried_message(outcomes: Seq<Outcome>)
    ensures
        forwarded(StreamState::Checking, rounds(outcomes)) == carried_messages(outcomes),
    decreases outcomes.len(),
{
    if outcomes.len() > 0 {
        let rest = outcomes.drop_first();
        law_stream_forwards_every_carried_message(rest);
        let events = rounds(outcomes);
        let tail = rounds(rest);
        let first = round(outcomes[0]);
        assert(events[0] == first[0]);
        assert(events[1] == first[1]);
        let after_signal = events.drop_first();
        assert(after_signal[0] == first[1]);
        let after_receipt = after_signal.drop_first();
        if outcome_message(outcomes[0]) is Some {
            assert(after_receipt[0] == first[2]);
            assert(after_receipt.drop_first() =~= tail);
            assert(forwarded(StreamState::Forwarding, after_receipt) == forwarded(
                StreamState::Checking,
                tail,
            ));
        } else {
            assert(after_receipt =~= tail);
        }
        assert(forwarded(StreamState::Checking, events) == forwarded(
            StreamState::Receiving,
            after_signal,
        ));
    }
}

/// A stream task that ran for a while and is told to stop then has handed over every message that
/// came until then, each once and in order, and hands over nothing that comes later.
pub proof fn law_stream_stopped_after_a_run_has_forwarded_all(
    outcomes: Seq<Outcome>,
    events: Seq<StreamEventView>,
)
    ensures
        forwarded(
            StreamState::Checking,
            rounds(outcomes) + seq![StreamEventView::Signal(true)] + events,
        ) == carried_messages(outcomes),
    decreases outcomes.len(),
{
    let stop = seq![StreamEventView::Signal(true)];
    let all = rounds(outcomes) + stop + events;
    if outcomes.len() == 0 {
        assert(all =~= stop + events);
        law_stream_stops_when_told(events);
    } else {
        let rest = outcomes.drop_first();
        law_stream_stopped_after_a_run_has_forwarded_all(rest, events);
        let tail = rounds(rest) + stop + events;
        let first = round(outcomes[0]);
        assert(all =~= first + tail);
        assert(all[0] == first[0]);
        let after_signal = all.drop_first();
        assert(after_signal[0] == first[1]);
        let after_receipt = after_signal.drop_first();
        if outcome_message(outcomes[0]) is Some {
            assert(after_receipt[0] == first[2]);
            assert(after_receipt.drop_first() =~= tail);
            assert(forwarded(StreamState::Forwarding, after_receipt) == forwarded(
                StreamState::Checking,
                tail,
            ));
        } else {
            assert(after_receipt =~= tail);
        }
        assert(forwarded(StreamState::Checking, all) == forwarded(
            StreamState::Receiving,
            after_signal,
        ));
    }
}

/// What a consumer receives of `records` when nothing is lost on the way.
pub open spec fn receipts(records: Seq<ProducerRecordView>) -> Seq<Outcome> {
    records.map_values(|record: ProducerRecordView| Outcome::Record(received(record)))
}

proof fn lemma_carried_messages_of_records(topic: Seq<char>, inbox: Seq<BusMessageView>)
    ensures
        carried_messages(receipts(records(topic, inbox))) == inbox,
    decreases inbox.len(),
{
    let outcomes = receipts(records(topic, inbox));
    if inbox.len() == 0 {
        assert(carried_messages(outcomes) =~= inbox);
    } else {
        let rest = inbox.drop_first();
        lemma_carried_messages_of_records(topic, rest);
        law_ingress_reads_back_egress(topic, inbox[0]);
        assert(outcomes[0] == Outcome::Record(received(message_record(topic, inbox[0]))));
        assert(outcomes.drop_first() =~= receipts(records(topic, rest)));
        assert(seq![inbox[0]] + rest =~= inbox);
    }
}

/// From node to node: what one node's publish task was given, another node's stream task hands
/// over, message for message and in order, as long as neither is stopped and nothing is lost in
/// between.
pub proof fn law_streams_hand_over_what_was_published(topic: Seq<char>, inbox: Seq<BusMessageView>)
    requires
        none_closes(inbox),
    ensures
        forwarded(StreamState::Checking, rounds(receipts(published(topic, inbox)))) == inbox,
{
    let close = BusMessageView {
        topic: CLOSE_TOPIC@,
        payload_type: Seq::empty(),
        payload: Seq::empty(),
        encoding: SerializationEncoding::MsgPack,
    };
    law_publishes_all_before_the_close_message(topic, inbox, close, Seq::empty());
    lemma_carried_messages_of_records(topic, inbox);
    law_stream_forwards_every_carried_message(receipts(published(topic, inbox)));
}

/// Where the heartbeat task stands.
#[derive(Debug, Clone, Copy, PartialEq, Eq, Structural)]
pub enum HeartbeatState {
    /// It is about to look at its stop signal.
    Checking,
    /// It is waiting for one of its timers.
    Waiting,
    /// It has ended.
    Stopped,
}

/// What the heartbeat task meets.
#[derive(Debug, Clone, Copy, PartialEq, Eq, Structural)]
pub enum HeartbeatEvent {
    /// The stop signal was looked at, and was raised or not.
    Signal(bool),
    /// A heartbeat is due.
    HeartbeatTick,
    /// It is time to look at the stop signal.
    CheckTick,
}

/// What the heartbeat task does next.
#[derive(Debug, Clone, Copy, PartialEq, Eq, Structural)]
pub enum HeartbeatAction {
    /// Wait for one of the timers.
    Wait,
    /// Publish a heartbeat, whether or not anyone takes it, and look at the stop signal.
    Publish,
    /// Look at the stop signal.
    CheckSignal,
    /// End.
    Stop,
    /// Nothing: the event does not belong to the state.
    Ignore,
}

/// The state and action that follow an event: the task ends when its signal is raised, and
/// publishes a heartbeat each time one is due.
pub open spec fn heartbeat_next(state: HeartbeatState, event: HeartbeatEvent) -> (
    HeartbeatState,
    HeartbeatAction,
) {
    match (state, event) {
        (HeartbeatState::Checking, HeartbeatEvent::Signal(raised)) => if raised {
            (HeartbeatState::Stopped, HeartbeatAction::Stop)
        } else {
            (HeartbeatState::Waiting, HeartbeatAction::Wait)
        },
        (HeartbeatState::Waiting, HeartbeatEvent::HeartbeatTick) => (
            HeartbeatState::Checking,
            HeartbeatAction::Publish,
        ),
        (HeartbeatState::Waiting, HeartbeatEvent::CheckTick) => (
            HeartbeatState::Checking,
            HeartbeatAction::CheckSignal,
        ),
        _ => (state, HeartbeatAction::Ignore),
    }
}

/// Decides what the heartbeat task does about an event.
pub fn heartbeat_step(state: HeartbeatState, event: HeartbeatEvent) -> (next: (
    HeartbeatState,
    HeartbeatAction,
))
    ensures
        next == heartbeat_next(state, event),
{
    match (state, event) {
        (HeartbeatState::Checking, HeartbeatEvent::Signal(raised)) => if raised {
            (HeartbeatState::Stopped, HeartbeatAction::Stop)
        } else {
            (HeartbeatState::Waiting, HeartbeatAction::Wait)
        },
        (HeartbeatState::Waiting, HeartbeatEvent::HeartbeatTick) => {
            (HeartbeatState::Checking, HeartbeatAction::Publish)
        },
        (HeartbeatState::Waiting, HeartbeatEvent::CheckTick) => {
            (HeartbeatState::Checking, HeartbeatAction::CheckSignal)
        },
        (state, _) => (state, HeartbeatAction::Ignore),
    }
}

/// How many heartbeats are published when the task meets `events` from `state` on.
pub open spec fn heartbeats(state: HeartbeatState, events: Seq<HeartbeatEvent>) -> nat
    decreases events.len(),
{
    if events.len() == 0 {
        0
    } else {
        let (next, action) = heartbeat_next(state, events[0]);
        let rest = heartbeats(next, events.drop_first());
        if action == HeartbeatAction::Publish {
            1 + rest
        } else {
            rest
        }
    }
}

/// Once its signal is raised, the heartbeat task publishes nothing more, whatever comes.
pub proof fn law_heartbeats_stop_when_told(events: Seq<HeartbeatEvent>)
    ensures
        heartbeats(HeartbeatState::Stopped, events) == 0,
        heartbeats(HeartbeatState::Checking, seq![HeartbeatEvent::Signal(true)] + events) == 0,
    decreases events.len(),
{
    if events.len() > 0 {
        law_heartbeats_stop_when_told(events.drop_first());
    }
    let told = seq![HeartbeatEvent::Signal(true)] + events;
    assert(told[0] == HeartbeatEvent::Signal(true));
    assert(told.drop_first() =~= events);
    assert(heartbeats(HeartbeatState::Checking, told) == heartbeats(
        HeartbeatState::Stopped,
        events,
    ));
}

/// What the heartbeat task meets while nobody stops it and one timer after the other fires; each
/// entry of `due` tells whether it was the heartbeat timer.
pub open spec fn ticks(due: Seq<bool>) -> Seq<HeartbeatEvent>
    decreases due.len(),
{
    if due.len() == 0 {
        Seq::empty()
    } else {
        let tick = if due[0] {
            HeartbeatEvent::HeartbeatTick
        } else {
            HeartbeatEvent::CheckTick
        };
        seq![HeartbeatEvent::Signal(false), tick] + ticks(due.drop_first())
    }
}

/// How many entries of `due` are true.
pub open spec fn count_due(due: Seq<bool>) -> nat
    decreases due.len(),
{
    if due.len() == 0 {
        0
    } else {
        (if due[0] {
            1nat
        } else {
            0nat
        }) + count_due(due.drop_first())
    }
}

/// Until it is stopped, the heartbeat task publishes one heartbeat for each that is due.
pub proof fn law_every_due_heartbeat_is_published(due: Seq<bool>)
    ensures
        heartbeats(HeartbeatState::Checking, ticks(due)) == count_due(due),
    decreases due.len(),
{
    if due.len() > 0 {
        law_every_due_heartbeat_is_published(due.drop_first());
        let events = ticks(due);
        let after_signal = events.drop_first();
        assert(after_signal.drop_first() =~= ticks(due.drop_first()));
        assert(heartbeats(HeartbeatState::Checking, events) == heartbeats(
            HeartbeatState::Waiting,
            after_signal,
        ));
    }
}

/// A heartbeat task that ran for a while and is told to stop then has published one heartbeat for
/// each that was due until then, and publishes none later.
pub proof fn law_heartbeats_stopped_after_a_run_were_all_published(
    due: Seq<bool>,
    events: Seq<HeartbeatEvent>,
)
    ensures
        heartbeats(
            HeartbeatState::Checking,
            ticks(due) + seq![HeartbeatEvent::Signal(true)] + events,
        ) == count_due(due),
    decreases due.len(),
{
    let stop = seq![HeartbeatEvent::Signal(true)];
    let all = ticks(due) + stop + events;
    if due.len() == 0 {
        assert(all =~= stop + events);
        law_heartbeats_stop_when_told(events);
    } else {
        let rest = due.drop_first();
        law_heartbeats_stopped_after_a_run_were_all_published(rest, events);
        let after_signal = all.drop_first();
        assert(all[0] == HeartbeatEvent::Signal(false));
        assert(after_signal[0] == ticks(due)[1]);
        assert(after_signal.drop_first() =~= ticks(rest) + stop + events);
        assert(heartbeats(HeartbeatState::Checking, all) == heartbeats(
            HeartbeatState::Waiting,
            after_signal,
        ));
    }
}

/// The publish task ends exactly at the end of its channel and at the close message; every other
/// message is sent, as one record that goes to the task's Kafka topic, is keyed by the message's
/// topic, holds its bytes and names it in the headers.
pub proof fn law_publish_sends_the_message_it_was_given(
    topic: &str,
    given: Option<BusMessage>,
    step: PublishStep,
)
    requires
        call_ensures(publish_step, (topic, given), step),
    ensures
        step is Stop <==> given is None || given->0.topic@ == "CLOSE"@,
        step matches PublishStep::Send(record) ==> {
            &&& given is Some
            &&& record.topic@ == topic@
            &&& record.key@ == given->0.topic@
            &&& bytes_content(record.payload) == bytes_content(given->0.payload)
            &&& record.headers@.len() == 3
            &&& record.headers@[0].key@ == "topic"@
            &&& record.headers@[1].key@ == "type"@
            &&& record.headers@[2].key@ == "encoding"@
            &&& record.headers@[0].value matches Some(bytes)
            &&& bytes@ == encode_utf8(given->0.topic@)
            &&& record.headers@[1].value matches Some(bytes)
            &&& bytes@ == encode_utf8(given->0.payload_type@)
            &&& record.headers@[2].value matches Some(bytes)
            &&& bytes@ == (match given->0.encoding {
                SerializationEncoding::MsgPack => encode_utf8("msgpack"@),
                SerializationEncoding::Json => encode_utf8("json"@),
            })
        },
{
    if let PublishStep::Send(record) = step {
        let views = record@.headers;
        assert(views == message_headers(given->0@));
        assert(views[0] == record.headers@[0]@);
        assert(views[1] == record.headers@[1]@);
        assert(views[2] == record.headers@[2]@);
    }
}

/// The stream task is told to end only where its signal was found raised or the node has dropped
/// its receiver, and always then; that is when it comes to stand still, and once it does it is
/// told nothing more and stays so.
pub proof fn law_stream_ends_only_when_told(
    state: StreamState,
    event: StreamEvent,
    next: StreamState,
    action: StreamAction,
)
    requires
        call_ensures(stream_step, (state, event), (next, action)),
    ensures
        action is Stop <==> {
            ||| state == StreamState::Checking && event == StreamEvent::Signal(true)
            ||| state == StreamState::Forwarding && event == StreamEvent::Forwarded(false)
        },
        action is Stop <==> next == StreamState::Stopped && state != StreamState::Stopped,
        state == StreamState::Stopped ==> next == StreamState::Stopped && action is Ignore,
{
}

/// What the stream task is told agrees with where it stands then: it looks at its signal or waits
/// for a record exactly where it is told to, and an event that does not belong to its state
/// changes nothing.
pub proof fn law_stream_action_leads_to_its_state(
    state: StreamState,
    event: StreamEvent,
    next: StreamState,
    action: StreamAction,
)
    requires
        call_ensures(stream_step, (state, event), (next, action)),
    ensures
        action is CheckSignal || action is Skip ==> next == StreamState::Checking,
        action is Receive ==> next == StreamState::Receiving,
        action is Forward ==> next == StreamState::Forwarding,
        action is Stop ==> next == StreamState::Stopped,
        action is Ignore <==> next == state,
        action is Ignore <==> !(match state {
            StreamState::Checking => event is Signal,
            StreamState::Receiving => event is Record || event is ReceiveFailed || event is Elapsed,
            StreamState::Forwarding => event is Forwarded,
            StreamState::Stopped => false,
        }),
{
}

/// While nobody stops it the stream task goes round: an unraised signal lets it wait for a record,
/// and a failure, an empty poll, a record without a message and a delivered message each bring it
/// back to its signal.
pub proof fn law_stream_goes_on_until_told(
    state: StreamState,
    event: StreamEvent,
    next: StreamState,
    action: StreamAction,
)
    requires
        call_ensures(stream_step, (state, event), (next, action)),
    ensures
        action is Receive <==> state == StreamState::Checking && event == StreamEvent::Signal(
            false,
        ),
        action is CheckSignal <==> {
            ||| state == StreamState::Receiving && (event is ReceiveFailed || event is Elapsed)
            ||| state == StreamState::Forwarding && event == StreamEvent::Forwarded(true)
        },
{
}

/// The stream task hands over exactly the messages that the records it waited for decode to, part
/// for part, and passes over exactly the records that decode to none.
pub proof fn law_stream_hands_over_what_the_record_carries(
    state: StreamState,
    record: InboundRecord,
    decoded: Option<BusMessage>,
    next: StreamState,
    action: StreamAction,
)
    requires
        call_ensures(decode_bus_message, (&record,), decoded),
        call_ensures(stream_step, (state, StreamEvent::Record(record)), (next, action)),
    ensures
        action is Forward <==> state == StreamState::Receiving && decoded is Some,
        action is Skip <==> state == StreamState::Receiving && decoded is None,
        action matches StreamAction::Forward(message) ==> {
            &&& message.topic@ == decoded->0.topic@
            &&& message.payload_type@ == decoded->0.payload_type@
            &&& message.encoding == decoded->0.encoding
            &&& bytes_content(message.payload) == bytes_content(decoded->0.payload)
        },
{
    if let StreamAction::Forward(message) = action {
        assert(message@ == decoded->0@);
    }
}

/// Nothing but a record gives the stream task a message to hand over or to pass over.
pub proof fn law_stream_forwards_records_only(
    state: StreamState,
    event: StreamEvent,
    next: StreamState,
    action: StreamAction,
)
    requires
        call_ensures(stream_step, (state, event), (next, action)),
    ensures
        action is Forward || action is Skip ==> event is Record,
{
}

/// The heartbeat task is told to end only where its signal was found raised, and always then; that
/// is when it comes to stand still, and once it does it is told nothing more and stays so.
pub proof fn law_heartbeat_ends_only_when_told(
    state: HeartbeatState,
    event: HeartbeatEvent,
    next: HeartbeatState,
    action: HeartbeatAction,
)
    requires
        call_ensures(heartbeat_step, (state, event), (next, action)),
    ensures
        action == HeartbeatAction::Stop <==> state == HeartbeatState::Checking && event
            == HeartbeatEvent::Signal(true),
        action == HeartbeatAction::Stop <==> next == HeartbeatState::Stopped && state
            != HeartbeatState::Stopped,
        state == HeartbeatState::Stopped ==> next == HeartbeatState::Stopped && action
            == HeartbeatAction::Ignore,
{
}

/// The heartbeat task publishes exactly where it was waiting and a heartbeat is due; either timer
/// brings it back to its signal, an unraised signal lets it wait, and an event that does not belong
/// to its state changes nothing.
pub proof fn law_heartbeat_publishes_exactly_when_due(
    state: HeartbeatState,
    event: HeartbeatEvent,
    next: HeartbeatState,
    action: HeartbeatAction,
)
    requires
        call_ensures(heartbeat_step, (state, event), (next, action)),
    ensures
        action == HeartbeatAction::Publish <==> state == HeartbeatState::Waiting && event
            == HeartbeatEvent::HeartbeatTick,
        action == HeartbeatAction::CheckSignal <==> state == HeartbeatState::Waiting && event
            == HeartbeatEvent::CheckTick,
        action == HeartbeatAction::Wait <==> state == HeartbeatState::Checking && event
            == HeartbeatEvent::Signal(false),
        action == HeartbeatAction::Publish || action == HeartbeatAction::CheckSignal ==> next
            == HeartbeatState::Checking,
        action == HeartbeatAction::Wait ==> next == HeartbeatState::Waiting,
        action == HeartbeatAction::Ignore <==> next == state,
{
}

} // verus!
