use bytes::Bytes;
use control_plane::bus::{
    create_heartbeat_msg, BusMessage, BusPayloadType, SerializationEncoding,
};
use control_plane::tasks::{
    heartbeat_step, publish_step, stream_step, HeartbeatAction, HeartbeatEvent, HeartbeatState,
    PublishStep, StreamAction, StreamEvent, StreamState,
};
use control_plane::wire::{
    decode_bus_message, encode_bus_message, InboundRecord, ProducerRecord, RecordHeader,
};
use rdkafka::message::Headers;

fn message(topic: &str, payload_type: &str, payload: &[u8]) -> BusMessage {
    BusMessage::new(
        topic,
        BusPayloadType::from_name(payload_type),
        Bytes::copy_from_slice(payload),
        SerializationEncoding::Json,
    )
}

fn header(key: &str, value: Option<&[u8]>) -> RecordHeader {
    RecordHeader { key: key.to_string(), value: value.map(<[u8]>::to_vec) }
}

fn inbound(record: ProducerRecord) -> InboundRecord {
    InboundRecord { headers: Some(record.headers), payload: Some(record.payload.to_vec()) }
}

#[test]
fn records_carry_topic_type_and_encoding_in_headers() {
    let record = encode_bus_message("node", message("data.quotes", "QuoteTick", b"{}"));
    assert_eq!(record.topic, "node");
    assert_eq!(record.key, "data.quotes");
    assert_eq!(record.payload.as_ref(), b"{}");
    assert_eq!(
        record.headers,
        vec![
            header("topic", Some(b"data.quotes")),
            header("type", Some(b"QuoteTick")),
            header("encoding", Some(b"json")),
        ]
    );
}

#[test]
fn native_headers_hold_the_record_headers() {
    let mut record = encode_bus_message("node", message("t", "", b""));
    record.headers.push(header("none", None));
    let headers = record.native_headers();
    assert_eq!(headers.count(), 4);
    assert_eq!(headers.get(0).key, "topic");
    assert_eq!(headers.get(0).value, Some(b"t".as_slice()));
    assert_eq!(headers.get(1).key, "type");
    assert_eq!(headers.get(1).value, Some(b"".as_slice()));
    assert_eq!(headers.get(2).key, "encoding");
    assert_eq!(headers.get(2).value, Some(b"json".as_slice()));
    assert_eq!(headers.get(3).key, "none");
    assert_eq!(headers.get(3).value, None);
}

#[test]
fn ingress_reads_back_egress() {
    for (topic, name, payload) in
        [("a.b", "Trade", b"xyz".as_slice()), ("", "", b""), ("über", "数据", &[0, 255])]
    {
        let record = encode_bus_message("node", message(topic, name, payload));
        let decoded = decode_bus_message(&inbound(record)).unwrap();
        assert_eq!(decoded.topic, topic);
        assert_eq!(decoded.payload_type, BusPayloadType::from_name(name));
        assert_eq!(decoded.payload.as_ref(), payload);
        assert_eq!(decoded.encoding, SerializationEncoding::Json);
    }
}

#[test]
fn incomplete_records_carry_no_message() {
    let full = || {
        vec![
            header("topic", Some(b"t")),
            header("type", Some(b"T")),
            header("encoding", Some(b"msgpack")),
        ]
    };
    let payload = Some(b"p".to_vec());
    let ok = InboundRecord { headers: Some(full()), payload: payload.clone() };
    assert!(decode_bus_message(&ok).is_some());

    let no_payload = InboundRecord { headers: Some(full()), payload: None };
    assert!(decode_bus_message(&no_payload).is_none());
    let no_headers = InboundRecord { headers: None, payload: payload.clone() };
    assert!(decode_bus_message(&no_headers).is_none());
    for i in 0..3 {
        let mut headers = full();
        headers.remove(i);
        let record = InboundRecord { headers: Some(headers), payload: payload.clone() };
        assert!(decode_bus_message(&record).is_none());

        let mut headers = full();
        headers[i].value = None;
        let record = InboundRecord { headers: Some(headers), payload: payload.clone() };
        assert!(decode_bus_message(&record).is_none());
    }
    let mut headers = full();
    headers[2].value = Some(b"yaml".to_vec());
    let unknown = InboundRecord { headers: Some(headers), payload };
    assert!(decode_bus_message(&unknown).is_none());
}

#[test]
fn the_last_header_of_a_key_counts() {
    let mut headers = vec![
        header("topic", Some(b"first")),
        header("type", Some(b"T")),
        header("encoding", Some(b"JSON")),
        header("other", Some(b"x")),
        header("topic", Some(b"second")),
    ];
    let record = InboundRecord { headers: Some(headers), payload: Some(Vec::new()) };
    let decoded = decode_bus_message(&record).unwrap();
    assert_eq!(decoded.topic, "second");
    assert_eq!(decoded.encoding, SerializationEncoding::Json);

    headers = record.headers.unwrap();
    headers.push(header("topic", None));
    let record = InboundRecord { headers: Some(headers), payload: Some(Vec::new()) };
    assert!(decode_bus_message(&record).is_none());
}

#[test]
fn invalid_utf8_is_replaced() {
    let headers = vec![
        header("topic", Some(&[b'a', 0xff, b'b'])),
        header("type", Some(b"T")),
        header("encoding", Some(b"json")),
    ];
    let record = InboundRecord { headers: Some(headers), payload: Some(Vec::new()) };
    assert_eq!(decode_bus_message(&record).unwrap().topic, "a\u{fffd}b");
}

#[test]
fn encodings_are_found_under_their_names() {
    for encoding in [SerializationEncoding::MsgPack, SerializationEncoding::Json] {
        assert_eq!(SerializationEncoding::from_name(encoding.as_str()), Some(encoding));
    }
    assert_eq!(
        SerializationEncoding::from_name("MsgPack"),
        Some(SerializationEncoding::MsgPack)
    );
    assert_eq!(SerializationEncoding::from_name(""), None);
    assert_eq!(SerializationEncoding::from_name("jso"), None);
    assert_eq!(SerializationEncoding::from_name("jsonx"), None);
    assert_eq!(SerializationEncoding::default(), SerializationEncoding::MsgPack);
}

#[test]
fn heartbeats_carry_the_utc_time() {
    let heartbeat = create_heartbeat_msg();
    assert_eq!(heartbeat.topic, "health:heartbeat");
    assert_eq!(heartbeat.payload_type, BusPayloadType::unnamed());
    assert_eq!(heartbeat.encoding, SerializationEncoding::default());
    let text = String::from_utf8(heartbeat.payload.to_vec()).unwrap();
    assert!(text.ends_with("+00:00"));
    let shape: String =
        text.chars().map(|c| if c.is_ascii_digit() { '0' } else { c }).collect();
    assert!([
        "0000-00-00T00:00:00+00:00",
        "0000-00-00T00:00:00.000+00:00",
        "0000-00-00T00:00:00.000000+00:00",
        "0000-00-00T00:00:00.000000000+00:00",
    ]
    .contains(&shape.as_str()));
    let time = chrono::DateTime::parse_from_rfc3339(&text).unwrap();
    let age = chrono::Utc::now().signed_duration_since(time);
    assert!(age.num_seconds().abs() < 60);
}

#[test]
fn the_publish_task_stops_at_the_close_message() {
    let mut sent = Vec::new();
    let inbox = vec![
        message("a", "T", b"1"),
        create_heartbeat_msg(),
        message("a", "T", b"2"),
        BusMessage::new_close(),
        message("a", "T", b"3"),
    ];
    for given in inbox {
        match publish_step("node", Some(given)) {
            PublishStep::Send(record) => sent.push(record.key),
            PublishStep::Stop => break,
        }
    }
    assert_eq!(sent, vec!["a", "health:heartbeat", "a"]);
    assert!(matches!(publish_step("node", None), PublishStep::Stop));
}

#[test]
fn custom_messages_copy_their_payload() {
    let custom = BusMessage::custom("t", b"raw");
    assert_eq!(custom.topic, "t");
    assert_eq!(custom.payload.as_ref(), b"raw");
    assert_eq!(custom.payload_type.as_str(), "");
    assert_eq!(custom.encoding, SerializationEncoding::MsgPack);
    assert!(BusMessage::new_close().payload.is_empty());
    assert_eq!(BusMessage::new_close().topic, "CLOSE");
}

fn run_stream(events: Vec<StreamEvent>) -> (StreamState, Vec<String>) {
    let mut state = StreamState::Checking;
    let mut forwarded = Vec::new();
    for event in events {
        let (next, action) = stream_step(state, event);
        state = next;
        if let StreamAction::Forward(message) = action {
            forwarded.push(message.topic);
        }
    }
    (state, forwarded)
}

fn record(topic: &str) -> StreamEvent {
    StreamEvent::Record(inbound(encode_bus_message("node", message(topic, "T", b""))))
}

#[test]
fn the_stream_task_forwards_what_it_can_decode() {
    let undecodable = InboundRecord { headers: None, payload: None };
    let (state, forwarded) = run_stream(vec![
        StreamEvent::Signal(false),
        record("a"),
        StreamEvent::Forwarded(true),
        StreamEvent::Signal(false),
        StreamEvent::Record(undecodable),
        StreamEvent::Signal(false),
        StreamEvent::ReceiveFailed,
        StreamEvent::Signal(false),
        StreamEvent::Elapsed,
        StreamEvent::Signal(false),
        record("b"),
        StreamEvent::Forwarded(true),
    ]);
    assert_eq!(state, StreamState::Checking);
    assert_eq!(forwarded, vec!["a", "b"]);
}

#[test]
fn the_stream_task_stops_when_told() {
    let (state, forwarded) =
        run_stream(vec![StreamEvent::Signal(true), StreamEvent::Signal(false), record("a")]);
    assert_eq!(state, StreamState::Stopped);
    assert!(forwarded.is_empty());

    let (state, forwarded) = run_stream(vec![
        StreamEvent::Signal(false),
        record("a"),
        StreamEvent::Forwarded(false),
        StreamEvent::Signal(false),
        record("b"),
    ]);
    assert_eq!(state, StreamState::Stopped);
    assert_eq!(forwarded, vec!["a"]);
}

#[test]
fn a_stream_task_stopped_after_a_run_has_forwarded_all() {
    let (state, forwarded) = run_stream(vec![
        StreamEvent::Signal(false),
        record("a"),
        StreamEvent::Forwarded(true),
        StreamEvent::Signal(false),
        StreamEvent::Elapsed,
        StreamEvent::Signal(false),
        record("b"),
        StreamEvent::Forwarded(true),
        StreamEvent::Signal(true),
        StreamEvent::Signal(false),
        record("c"),
        StreamEvent::Forwarded(true),
    ]);
    assert_eq!(state, StreamState::Stopped);
    assert_eq!(forwarded, vec!["a", "b"]);
}

#[test]
fn streams_hand_over_what_was_published() {
    let mut events = Vec::new();
    for topic in ["a", "b", "a"] {
        match publish_step("node", Some(message(topic, "T", b"p"))) {
            PublishStep::Send(record) => {
                events.push(StreamEvent::Signal(false));
                events.push(StreamEvent::Record(inbound(record)));
                events.push(StreamEvent::Forwarded(true));
            }
            PublishStep::Stop => panic!("no message closes the task"),
        }
    }
    let (state, forwarded) = run_stream(events);
    assert_eq!(state, StreamState::Checking);
    assert_eq!(forwarded, vec!["a", "b", "a"]);
}

#[test]
fn messages_of_one_topic_share_a_key() {
    let first = encode_bus_message("node", message("a", "T", b"1"));
    let second = encode_bus_message("node", message("a", "U", b"2"));
    let other = encode_bus_message("node", message("b", "T", b"1"));
    assert_eq!(first.key, second.key);
    assert_ne!(first.key, other.key);
    assert_eq!(first.topic, other.topic);
}

#[test]
fn the_heartbeat_task_publishes_until_told_to_stop() {
    let mut state = HeartbeatState::Checking;
    let mut published = 0;
    let events = [
        HeartbeatEvent::Signal(false),
        HeartbeatEvent::HeartbeatTick,
        HeartbeatEvent::Signal(false),
        HeartbeatEvent::CheckTick,
        HeartbeatEvent::Signal(false),
        HeartbeatEvent::HeartbeatTick,
        HeartbeatEvent::Signal(true),
        HeartbeatEvent::HeartbeatTick,
    ];
    for event in events {
        let (next, action) = heartbeat_step(state, event);
        state = next;
        if action == HeartbeatAction::Publish {
            published += 1;
        }
    }
    assert_eq!(state, HeartbeatState::Stopped);
    assert_eq!(published, 2);
}
