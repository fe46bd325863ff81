//! Bus messages as Kafka records.
//!
//! On the way out a message becomes one record: its topic, payload type and encoding travel as
//! headers, and the topic is the record's key as well, so that the messages of a topic share a
//! partition and keep their order. On the way in the same headers give the message back.

use crate::bus::{
    bytes_content, encoding_name, law_encoding_names_are_read_back, named_encoding, BusMessage,
    BusMessageView, BusPayloadType, SerializationEncoding,
};
use crate::text::{optional_text, same_text};
use bytes::Bytes;
use rdkafka::message::{Header, OwnedHeaders};
use vstd::prelude::*;
use vstd::utf8::{decode_utf8, encode_utf8, valid_utf8};

verus! {

/// The header that carries the topic.
pub const HEADER_TOPIC: &'static str = "topic";

/// The header that carries the name of the payload type.
pub const HEADER_TYPE: &'static str = "type";

/// The header that carries the name of the encoding.
pub const HEADER_ENCODING: &'static str = "encoding";

/// A record header: a key, and a value where there is one.
#[derive(Debug, PartialEq, Eq)]
pub struct RecordHeader {
    pub key: String,
    pub value: Option<Vec<u8>>,
}

/// What a [`RecordHeader`] holds.
pub type HeaderView = (Seq<char>, Option<Seq<u8>>);

impl View for RecordHeader {
    type V = HeaderView;

    open spec fn view(&self) -> HeaderView {
        (
            self.key@,
            match self.value {
                Some(bytes) => Some(bytes@),
                None => None,
            },
        )
    }
}

/// What a list of headers holds.
pub open spec fn header_views(headers: Seq<RecordHeader>) -> Seq<HeaderView> {
    headers.map_values(|header: RecordHeader| header@)
}

/// A record to be produced.
#[derive(Debug)]
pub struct ProducerRecord {
    /// The Kafka topic it goes to.
    pub topic: String,
    /// Its key, which decides its partition.
    pub key: String,
    /// Its headers, in order.
    pub headers: Vec<RecordHeader>,
    /// Its payload.
    pub payload: Bytes,
}

/// What a [`ProducerRecord`] holds.
#[verifier::ext_equal]
pub struct ProducerRecordView {
    pub topic: Seq<char>,
    pub key: Seq<char>,
    pub headers: Seq<HeaderView>,
    pub payload: Seq<u8>,
}

impl View for ProducerRecord {
    type V = ProducerRecordView;

    open spec fn view(&self) -> ProducerRecordView {
        ProducerRecordView {
            topic: self.topic@,
            key: self.key@,
            headers: header_views(self.headers@),
            payload: bytes_content(self.payload),
        }
    }
}

/// The headers of a message.
pub open spec fn message_headers(message: BusMessageView) -> Seq<HeaderView> {
    seq![
        (HEADER_TOPIC@, Some(encode_utf8(message.topic))),
        (HEADER_TYPE@, Some(encode_utf8(message.payload_type))),
        (HEADER_ENCODING@, Some(encode_utf8(encoding_name(message.encoding)))),
    ]
}

/// The record of a message on the given Kafka topic.
pub open spec fn message_record(topic: Seq<char>, message: BusMessageView) -> ProducerRecordView {
    ProducerRecordView {
        topic,
        key: message.topic,
        headers: message_headers(message),
        payload: message.payload,
    }
}

fn text_header(key: &str, text: &str) -> (header: RecordHeader)
    ensures
        header@ == (key@, Some(encode_utf8(text@))),
{
    RecordHeader { key: key.to_string(), value: Some(text.as_bytes_vec()) }
}

/// Makes the record that carries `message` on the Kafka topic `topic`.
pub fn encode_bus_message(topic: &str, message: BusMessage) -> (record: ProducerRecord)
    ensures
        record@ == message_record(topic@, message@),
{
    let mut headers: Vec<RecordHeader> = Vec::new();
    headers.push(text_header(HEADER_TOPIC, message.topic.as_str()));
    headers.push(text_header(HEADER_TYPE, message.payload_type.as_str()));
    headers.push(text_header(HEADER_ENCODING, message.encoding.as_str()));
    assert(header_views(headers@) =~= message_headers(message@));
    ProducerRecord {
        topic: topic.to_string(),
        key: message.topic,
        headers,
        payload: message.payload,
    }
}

/// `rdkafka::message::OwnedHeaders`, known by the headers it holds.
#[verifier::external_type_specification]
#[verifier::external_body]
pub struct ExOwnedHeaders(OwnedHeaders);

/// The headers that an `rdkafka` header collection holds, in order, as a producer writes them.
pub uninterp spec fn held_headers(headers: OwnedHeaders) -> Seq<HeaderView>;

/// `rdkafka::message::OwnedHeaders::new` makes a collection without headers.
pub assume_specification[ OwnedHeaders::new ]() -> (headers: OwnedHeaders)
    ensures
        held_headers(headers).len() == 0,
;

/// Calls `rdkafka::message::OwnedHeaders::insert`, which adds a header behind those that are
/// there. librdkafka counts headers in a C `int`; the bound keeps clear of its limit.
#[verifier::external_body]
fn add_header(headers: OwnedHeaders, key: &str, value: Option<&[u8]>) -> (extended: OwnedHeaders)
    requires
        held_headers(headers).len() < MAX_HEADERS,
    ensures
        value matches Some(bytes) ==> held_headers(extended) == held_headers(headers).push(
            (key@, Some(bytes@)),
        ),
        value is None ==> held_headers(extended) == held_headers(headers).push((key@, None)),
{
    headers.insert(Header { key, value })
}

/// The most headers that a record is given.
pub const MAX_HEADERS: usize = 0x1000_0000;

impl ProducerRecord {
    /// The record's headers in the form in which a producer takes them.
    pub fn native_headers(&self) -> (headers: OwnedHeaders)
        requires
            self.headers@.len() <= MAX_HEADERS,
        ensures
            held_headers(headers) == self@.headers,
    {
        let mut headers = OwnedHeaders::new();
        assert(held_headers(headers) =~= self@.headers.take(0));
        let mut i: usize = 0;
        while i < self.headers.len()
            invariant
                i <= self.headers@.len() <= MAX_HEADERS,
                held_headers(headers) == self@.headers.take(i as int),
            decreases self.headers.len() - i,
        {
            let header = &self.headers[i];
            let ghost before = held_headers(headers);
            headers = match &header.value {
                Some(bytes) => add_header(headers, header.key.as_str(), Some(bytes.as_slice())),
                None => add_header(headers, header.key.as_str(), None),
            };
            assert(held_headers(headers) == before.push(header@));
            assert(held_headers(headers) =~= self@.headers.take(i + 1));
            i = i + 1;
        }
        assert(self@.headers.take(i as int) =~= self@.headers);
        headers
    }
}

/// A record as it was received: its headers where it has any, and its payload where it has one.
#[derive(Debug, PartialEq, Eq)]
pub struct InboundRecord {
    pub headers: Option<Vec<RecordHeader>>,
    pub payload: Option<Vec<u8>>,
}

/// What an [`InboundRecord`] holds.
#[verifier::ext_equal]
pub struct InboundRecordView {
    pub headers: Option<Seq<HeaderView>>,
    pub payload: Option<Seq<u8>>,
}

impl View for InboundRecord {
    type V = InboundRecordView;

    open spec fn view(&self) -> InboundRecordView {
        InboundRecordView {
            headers: match self.headers {
                Some(headers) => Some(header_views(headers@)),
                None => None,
            },
            payload: match self.payload {
                Some(bytes) => Some(bytes@),
                None => None,
            },
        }
    }
}

/// The text that stands for bytes that are not valid UTF-8.
pub uninterp spec fn replaced_text(bytes: Seq<u8>) -> Seq<char>;

/// The text of `bytes`: what they encode, where they are valid UTF-8.
pub open spec fn lossy_text(bytes: Seq<u8>) -> Seq<char> {
    if valid_utf8(bytes) {
        decode_utf8(bytes)
    } else {
        replaced_text(bytes)
    }
}

/// Calls `String::from_utf8_lossy`: valid UTF-8 is decoded; of other bytes, the text depends on
/// the bytes alone.
#[verifier::external_body]
fn text_from_utf8_lossy(bytes: &[u8]) -> (text: String)
    ensures
        valid_utf8(bytes@) ==> text@ == decode_utf8(bytes@),
        !valid_utf8(bytes@) ==> text@ == replaced_text(bytes@),
{
    String::from_utf8_lossy(bytes).into_owned()
}

/// The value of the last header of that key. A last header without a value hides earlier ones.
pub open spec fn header_value(headers: Seq<HeaderView>, key: Seq<char>) -> Option<Seq<u8>>
    decreases headers.len(),
{
    if headers.len() == 0 {
        None
    } else if headers.last().0 == key {
        headers.last().1
    } else {
        header_value(headers.drop_last(), key)
    }
}

/// The text of the header of that key, where it has a value.
pub open spec fn header_text(headers: Seq<HeaderView>, key: Seq<char>) -> Option<Seq<char>> {
    match header_value(headers, key) {
        Some(bytes) => Some(lossy_text(bytes)),
        None => None,
    }
}

/// The message that a record carries, where it carries one: it has a payload, and headers that
/// name the topic, the type and a known encoding.
pub open spec fn carried_message(record: InboundRecordView) -> Option<BusMessageView> {
    match (record.headers, record.payload) {
        (Some(headers), Some(payload)) => match (
            header_text(headers, HEADER_TOPIC@),
            header_text(headers, HEADER_TYPE@),
            header_text(headers, HEADER_ENCODING@),
        ) {
            (Some(topic), Some(payload_type), Some(name)) => match named_encoding(name) {
                Some(encoding) => Some(BusMessageView { topic, payload_type, payload, encoding }),
                None => None,
            },
            _ => None,
        },
        _ => None,
    }
}

fn header_value_text(header: &RecordHeader) -> (text: Option<String>)
    ensures
        optional_text(text) == (match header@.1 {
            Some(bytes) => Some(lossy_text(bytes)),
            None => None,
        }),
{
    match &header.value {
        Some(bytes) => Some(text_from_utf8_lossy(bytes.as_slice())),
        None => None,
    }
}

proof fn lemma_header_keys_differ()
    ensures
        HEADER_TOPIC@ != HEADER_TYPE@,
        HEADER_TOPIC@ != HEADER_ENCODING@,
        HEADER_TYPE@ != HEADER_ENCODING@,
{
    reveal_strlit("topic");
    reveal_strlit("type");
    reveal_strlit("encoding");
    assert(HEADER_TOPIC@.len() == 5);
    assert(HEADER_TYPE@.len() == 4);
    assert(HEADER_ENCODING@.len() == 8);
}

proof fn lemma_header_text_step(headers: Seq<HeaderView>, i: int, key: Seq<char>)
    requires
        0 <= i < headers.len(),
    ensures
        header_text(headers.take(i + 1), key) == if headers[i].0 == key {
            match headers[i].1 {
                Some(bytes) => Some(lossy_text(bytes)),
                None => None,
            }
        } else {
            header_text(headers.take(i), key)
        },
{
    assert(headers.take(i + 1).drop_last() =~= headers.take(i));
    assert(headers.take(i + 1).last() == headers[i]);
}

/// Reads the message that a received record carries. Returns `None` for a record without headers
/// or payload, and for one whose headers lack the topic, the type or a known encoding.
pub fn decode_bus_message(record: &InboundRecord) -> (message: Option<BusMessage>)
    ensures
        match message {
            Some(carried) => carried_message(record@) == Some(carried@),
            None => carried_message(record@) is None,
        },
{
    let headers = match &record.headers {
        Some(headers) => headers,
        None => {
            return None;
        },
    };
    let ghost views = header_views(headers@);
    let mut topic: Option<String> = None;
    let mut payload_name: Option<String> = None;
    let mut encoding_name: Option<String> = None;
    let mut i: usize = 0;
    while i < headers.len()
        invariant
            i <= headers@.len(),
            views == header_views(headers@),
            optional_text(topic) == header_text(views.take(i as int), HEADER_TOPIC@),
            optional_text(payload_name) == header_text(
                views.take(i as int),
                HEADER_TYPE@,
            ),
            optional_text(encoding_name) == header_text(
                views.take(i as int),
                HEADER_ENCODING@,
            ),
        decreases headers.len() - i,
    {
        let header = &headers[i];
        let value = header_value_text(header);
        proof {
            lemma_header_keys_differ();
            lemma_header_text_step(views, i as int, HEADER_TOPIC@);
            lemma_header_text_step(views, i as int, HEADER_TYPE@);
            lemma_header_text_step(views, i as int, HEADER_ENCODING@);
            assert(views[i as int] == header@);
        }
        if same_text(header.key.as_str(), HEADER_TOPIC) {
            topic = value;
        } else if same_text(header.key.as_str(), HEADER_TYPE) {
            payload_name = value;
        } else if same_text(header.key.as_str(), HEADER_ENCODING) {
            encoding_name = value;
        }
        i = i + 1;
    }
    assert(views.take(i as int) =~= views);

    match (topic, payload_name, encoding_name, &record.payload) {
        (Some(topic), Some(payload_name), Some(name), Some(payload)) => {
            match SerializationEncoding::from_name(name.as_str()) {
                Some(encoding) => Some(
                    BusMessage::new(
                        topic.as_str(),
                        BusPayloadType::from_name(payload_name.as_str()),
                        Bytes::copy_from_slice(payload.as_slice()),
                        encoding,
                    ),
                ),
                None => None,
            }
        },
        _ => None,
    }
}

/// A record as a consumer receives it when nothing is lost on the way.
pub open spec fn received(record: ProducerRecordView) -> InboundRecordView {
    InboundRecordView { headers: Some(record.headers), payload: Some(record.payload) }
}

/// What egress writes, ingress reads back: the record of any message, on whatever Kafka topic,
/// carries that very message.
pub proof fn law_ingress_reads_back_egress(topic: Seq<char>, message: BusMessageView)
    ensures
        carried_message(received(message_record(topic, message))) == Some(message),
{
    let headers = message_headers(message);
    lemma_header_keys_differ();
    law_encoding_names_are_read_back(message.encoding);
    vstd::utf8::encode_utf8_valid_utf8(message.topic);
    vstd::utf8::encode_utf8_decode_utf8(message.topic);
    vstd::utf8::encode_utf8_valid_utf8(message.payload_type);
    vstd::utf8::encode_utf8_decode_utf8(message.payload_type);
    vstd::utf8::encode_utf8_valid_utf8(encoding_name(message.encoding));
    vstd::utf8::encode_utf8_decode_utf8(encoding_name(message.encoding));
    lemma_header_text_step(headers, 2, HEADER_ENCODING@);
    lemma_header_text_step(headers, 2, HEADER_TYPE@);
    lemma_header_text_step(headers, 2, HEADER_TOPIC@);
    lemma_header_text_step(headers, 1, HEADER_TYPE@);
    lemma_header_text_step(headers, 1, HEADER_TOPIC@);
    lemma_header_text_step(headers, 0, HEADER_TOPIC@);
    assert(headers.take(3) =~= headers);
}

/// Messages of one bus topic get one key, and with it one partition, so their order is kept; the
/// Kafka topic is the node's, whatever the message.
pub proof fn law_topic_is_the_partition_key(
    topic: Seq<char>,
    left: BusMessageView,
    right: BusMessageView,
)
    ensures
        (message_record(topic, left).key == message_record(topic, right).key) <==> left.topic
            == right.topic,
        message_record(topic, left).topic == topic,
        message_record(topic, right).topic == topic,
{
}

/// A record that lacks its payload, all headers, or the value of one of the three headers
/// carries no message.
pub proof fn law_incomplete_records_are_skipped(record: InboundRecordView)
    requires
        record.payload is None || record.headers is None || header_value(
            record.headers->0,
            HEADER_TOPIC@,
        ) is None || header_value(record.headers->0, HEADER_TYPE@) is None || header_value(
            record.headers->0,
            HEADER_ENCODING@,
        ) is None,
    ensures
        carried_message(record) is None,
{
}

/// Of several headers with one key the last counts, value or not, and a header changes nothing
/// for other keys.
pub proof fn law_last_header_counts(
    headers: Seq<HeaderView>,
    key: Seq<char>,
    value: Option<Seq<u8>>,
    other: Seq<char>,
)
    ensures
        header_value(headers.push((key, value)), key) == value,
        other != key ==> header_value(headers.push((key, value)), other) == header_value(
            headers,
            other,
        ),
{
    assert(headers.push((key, value)).drop_last() =~= headers);
}

/// The record of a message names the message in its headers: the topic under `topic`, the name of
/// the payload type under `type` and the name of the encoding under `encoding`, each in UTF-8,
/// whatever the encoding. It is keyed by the message's topic, goes to the given Kafka topic and
/// holds the message's bytes.
pub proof fn law_records_name_topic_type_and_encoding(
    topic: &str,
    message: BusMessage,
    record: ProducerRecord,
)
    requires
        call_ensures(encode_bus_message, (topic, message), record),
    ensures
        record.topic@ == topic@,
        record.key@ == message.topic@,
        bytes_content(record.payload) == bytes_content(message.payload),
        record.headers@.len() == 3,
        record.headers@[0].key@ == "topic"@,
        record.headers@[1].key@ == "type"@,
        record.headers@[2].key@ == "encoding"@,
        record.headers@[0].value matches Some(bytes) && bytes@ == encode_utf8(message.topic@),
        record.headers@[1].value matches Some(bytes) && bytes@ == encode_utf8(
            message.payload_type@,
        ),
        record.headers@[2].value matches Some(bytes) && bytes@ == (match message.encoding {
            SerializationEncoding::MsgPack => encode_utf8("msgpack"@),
            SerializationEncoding::Json => encode_utf8("json"@),
        }),
{
    let views = record@.headers;
    assert(views == message_headers(message@));
    assert(views[0] == record.headers@[0]@);
    assert(views[1] == record.headers@[1]@);
    assert(views[2] == record.headers@[2]@);
}

/// Whoever looks a header of a message's record up by its key finds the message's topic, type and
/// encoding.
pub proof fn law_header_lookup_finds_topic_type_and_encoding(
    topic: Seq<char>,
    message: BusMessageView,
)
    ensures
        header_value(message_record(topic, message).headers, "topic"@) == Some(
            encode_utf8(message.topic),
        ),
        header_value(message_record(topic, message).headers, "type"@) == Some(
            encode_utf8(message.payload_type),
        ),
        header_value(message_record(topic, message).headers, "encoding"@) == Some(
            match message.encoding {
                SerializationEncoding::MsgPack => encode_utf8("msgpack"@),
                SerializationEncoding::Json => encode_utf8("json"@),
            },
        ),
{
    let headers = message_headers(message);
    lemma_header_keys_differ();
    reveal_with_fuel(header_value, 4);
    assert(headers.drop_last().last() == headers[1]);
    assert(headers.drop_last().drop_last().last() == headers[0]);
}

/// Looking a header up finds the last one of its key, value or not, and nothing where no header
/// has the key.
pub proof fn law_lookup_finds_the_last_header(
    headers: Seq<HeaderView>,
    key: Seq<char>,
    last: int,
)
    requires
        -1 <= last < headers.len(),
        last >= 0 ==> headers[last].0 == key,
        forall|i: int| last < i < headers.len() ==> (#[trigger] headers[i]).0 != key,
    ensures
        last >= 0 ==> header_value(headers, key) == headers[last].1,
        last == -1 ==> header_value(headers, key) is None,
    decreases headers.len(),
{
    if headers.len() > 0 && last < headers.len() - 1 {
        assert(headers.last() == headers[headers.len() - 1]);
        let rest = headers.drop_last();
        assert(forall|i: int| 0 <= i < rest.len() ==> rest[i] == headers[i]);
        law_lookup_finds_the_last_header(rest, key, last);
    }
}

proof fn lemma_lookup_in_record(headers: Seq<RecordHeader>, key: Seq<char>, last: int)
    requires
        -1 <= last < headers.len(),
        last >= 0 ==> headers[last].key@ == key,
        forall|i: int| last < i < headers.len() ==> (#[trigger] headers[i]).key@ != key,
    ensures
        last >= 0 ==> header_value(header_views(headers), key) == (match headers[last].value {
            Some(bytes) => Some(bytes@),
            None => None,
        }),
        last == -1 ==> header_value(header_views(headers), key) is None,
{
    let views = header_views(headers);
    assert(forall|i: int| 0 <= i < views.len() ==> views[i] == headers[i]@);
    law_lookup_finds_the_last_header(views, key, last);
}

/// The message of a received record is what its headers say: the topic is the text of its last
/// `topic` header, the payload type that of its last `type` header and the encoding the one that
/// its last `encoding` header names; the bytes are the record's. Such a message is owed wherever
/// each of these headers has a value, the encoding is known and the record has a payload.
pub proof fn law_messages_are_what_the_headers_say(
    record: InboundRecord,
    message: Option<BusMessage>,
    topic_at: int,
    type_at: int,
    encoding_at: int,
)
    requires
        call_ensures(decode_bus_message, (&record,), message),
        record.headers is Some,
        0 <= topic_at < record.headers->0@.len(),
        record.headers->0@[topic_at].key@ == "topic"@,
        forall|i: int|
            topic_at < i < record.headers->0@.len() ==> (#[trigger] record.headers->0@[i]).key@
                != "topic"@,
        0 <= type_at < record.headers->0@.len(),
        record.headers->0@[type_at].key@ == "type"@,
        forall|i: int|
            type_at < i < record.headers->0@.len() ==> (#[trigger] record.headers->0@[i]).key@
                != "type"@,
        0 <= encoding_at < record.headers->0@.len(),
        record.headers->0@[encoding_at].key@ == "encoding"@,
        forall|i: int|
            encoding_at < i < record.headers->0@.len() ==> (#[trigger] record.headers->0@[i]).key@
                != "encoding"@,
    ensures
        ({
            let topic = record.headers->0@[topic_at].value;
            let kind = record.headers->0@[type_at].value;
            let encoding = record.headers->0@[encoding_at].value;
            let encoding_text = if valid_utf8(encoding->0@) {
                decode_utf8(encoding->0@)
            } else {
                replaced_text(encoding->0@)
            };
            &&& message is Some <==> topic is Some && kind is Some && encoding is Some
                && record.payload is Some && named_encoding(encoding_text) is Some
            &&& message matches Some(message) ==> {
                &&& valid_utf8(topic->0@) ==> message.topic@ == decode_utf8(topic->0@)
                &&& !valid_utf8(topic->0@) ==> message.topic@ == replaced_text(topic->0@)
                &&& valid_utf8(kind->0@) ==> message.payload_type@ == decode_utf8(
                    kind->0@,
                )
                &&& !valid_utf8(kind->0@) ==> message.payload_type@ == replaced_text(
                    kind->0@,
                )
                &&& named_encoding(encoding_text) == Some(message.encoding)
                &&& bytes_content(message.payload) == record.payload->0@
            }
        }),
{
    let headers = record.headers->0@;
    lemma_lookup_in_record(headers, "topic"@, topic_at);
    lemma_lookup_in_record(headers, "type"@, type_at);
    lemma_lookup_in_record(headers, "encoding"@, encoding_at);
}

/// A record without headers carries no message, nor does one in which no header has one of the
/// three keys.
pub proof fn law_records_without_a_header_carry_nothing(
    record: InboundRecord,
    message: Option<BusMessage>,
    key: Seq<char>,
)
    requires
        call_ensures(decode_bus_message, (&record,), message),
        key == "topic"@ || key == "type"@ || key == "encoding"@,
        record.headers matches Some(headers) ==> forall|i: int|
            0 <= i < headers@.len() ==> (#[trigger] headers@[i]).key@ != key,
    ensures
        message is None,
{
    if let Some(headers) = record.headers {
        lemma_lookup_in_record(headers@, key, -1);
    }
}

/// Decoding undoes encoding: a record that arrives with the headers and the bytes that a message
/// was encoded to gives that message back, each part in its place.
pub proof fn law_decoding_undoes_encoding(
    topic: &str,
    message: BusMessage,
    record: ProducerRecord,
    arrived: InboundRecord,
    decoded: Option<BusMessage>,
)
    requires
        call_ensures(encode_bus_message, (topic, message), record),
        arrived.headers == Some(record.headers),
        arrived.payload matches Some(bytes) && bytes@ == bytes_content(record.payload),
        call_ensures(decode_bus_message, (&arrived,), decoded),
    ensures
        decoded is Some,
        decoded->0.topic@ == message.topic@,
        decoded->0.payload_type@ == message.payload_type@,
        decoded->0.encoding == message.encoding,
        bytes_content(decoded->0.payload) == bytes_content(message.payload),
{
    law_ingress_reads_back_egress(topic@, message@);
    assert(arrived@ =~= received(record@));
}

/// A producer is handed a record's headers one for one, in order, each with its key and, where
/// there is one, its value.
pub proof fn law_producers_get_every_header(record: ProducerRecord, native: OwnedHeaders)
    requires
        record.headers@.len() <= MAX_HEADERS,
        call_ensures(ProducerRecord::native_headers, (&record,), native),
    ensures
        held_headers(native).len() == record.headers@.len(),
        forall|i: int|
            0 <= i < record.headers@.len() ==> {
                let (key, value) = #[trigger] held_headers(native)[i];
                &&& key == record.headers@[i].key@
                &&& value is Some <==> record.headers@[i].value is Some
                &&& value matches Some(bytes) ==> bytes == record.headers@[i].value->0@
            },
{
    assert forall|i: int| 0 <= i < record.headers@.len() implies held_headers(native)[i]
        == record.headers@[i]@ by {}
}

} // verus!
