//! Messages of the node's bus, as external backings see them.

use bytes::Bytes;
use vstd::prelude::*;

verus! {

/// The topic of the message that asks the publish task to stop.
pub const CLOSE_TOPIC: &'static str = "CLOSE";

/// The topic of heartbeat messages.
pub const HEARTBEAT_TOPIC: &'static str = "health:heartbeat";

/// How a payload is encoded.
#[derive(Debug, Clone, Copy, PartialEq, Eq, Structural)]
pub enum SerializationEncoding {
    MsgPack,
    Json,
}

impl Default for SerializationEncoding {
    fn default() -> (encoding: Self)
        ensures
            encoding == SerializationEncoding::MsgPack,
    {
        SerializationEncoding::MsgPack
    }
}

/// The name of an encoding on the wire.
pub open spec fn encoding_name(encoding: SerializationEncoding) -> Seq<char> {
    match encoding {
        SerializationEncoding::MsgPack => "msgpack"@,
        SerializationEncoding::Json => "json"@,
    }
}

/// `c`, in lower case where it is an ASCII letter.
pub open spec fn ascii_lower(c: char) -> char {
    if 'A' <= c && c <= 'Z' {
        ((c as u32) + 32) as char
    } else {
        c
    }
}

/// `text` with its ASCII letters in lower case.
pub open spec fn ascii_lowercase(text: Seq<char>) -> Seq<char> {
    text.map_values(|c: char| ascii_lower(c))
}

/// The encoding that `text` names, in whatever case it is written.
pub open spec fn named_encoding(text: Seq<char>) -> Option<SerializationEncoding> {
    if ascii_lowercase(text) == encoding_name(SerializationEncoding::MsgPack) {
        Some(SerializationEncoding::MsgPack)
    } else if ascii_lowercase(text) == encoding_name(SerializationEncoding::Json) {
        Some(SerializationEncoding::Json)
    } else {
        None
    }
}

fn lower(c: char) -> (lowered: char)
    ensures
        lowered == ascii_lower(c),
{
    if 'A' <= c && c <= 'Z' {
        let code: u8 = c as u8;
        (code + 32) as char
    } else {
        c
    }
}

fn is_written(text: &str, name: &str) -> (written: bool)
    ensures
        written == (ascii_lowercase(text@) == name@),
{
    let length: usize = text.unicode_len();
    if length != name.unicode_len() {
        assert(ascii_lowercase(text@).len() != name@.len());
        return false;
    }
    let mut i: usize = 0;
    while i < length
        invariant
            i <= length,
            length == text@.len(),
            length == name@.len(),
            forall|j: int| 0 <= j < i ==> ascii_lower(#[trigger] text@[j]) == name@[j],
        decreases length - i,
    {
        if lower(text.get_char(i)) != name.get_char(i) {
            assert(ascii_lowercase(text@)[i as int] != name@[i as int]);
            return false;
        }
        i = i + 1;
    }
    assert(ascii_lowercase(text@) =~= name@);
    true
}

impl SerializationEncoding {
    /// The encoding's name on the wire.
    pub fn as_str(&self) -> (name: &'static str)
        ensures
            name@ == encoding_name(*self),
    {
        match self {
            SerializationEncoding::MsgPack => "msgpack",
            SerializationEncoding::Json => "json",
        }
    }

    /// The encoding of that name, whatever the case of its letters.
    pub fn from_name(name: &str) -> (encoding: Option<Self>)
        ensures
            encoding == named_encoding(name@),
    {
        if is_written(name, "msgpack") {
            Some(SerializationEncoding::MsgPack)
        } else if is_written(name, "json") {
            Some(SerializationEncoding::Json)
        } else {
            None
        }
    }
}

/// An encoding is found again under its own name.
pub proof fn law_encoding_names_are_read_back(encoding: SerializationEncoding)
    ensures
        named_encoding(encoding_name(encoding)) == Some(encoding),
{
    reveal_strlit("msgpack");
    reveal_strlit("json");
    assert(ascii_lowercase("msgpack"@) =~= "msgpack"@);
    assert(ascii_lowercase("json"@) =~= "json"@);
}

/// The type of a payload, by name; a custom payload may have the empty name.
#[derive(Debug, PartialEq, Eq)]
pub struct BusPayloadType {
    name: String,
}

impl View for BusPayloadType {
    type V = Seq<char>;

    closed spec fn view(&self) -> Seq<char> {
        self.name@
    }
}

impl Clone for BusPayloadType {
    fn clone(&self) -> (copy: Self)
        ensures
            copy@ == self@,
    {
        BusPayloadType { name: self.name.clone() }
    }
}

impl BusPayloadType {
    /// The type of that name.
    pub fn from_name(name: &str) -> (payload_type: Self)
        ensures
            payload_type@ == name@,
    {
        BusPayloadType { name: name.to_string() }
    }

    /// The type of a custom payload that has no name.
    pub fn unnamed() -> (payload_type: Self)
        ensures
            payload_type@ == Seq::<char>::empty(),
    {
        BusPayloadType { name: String::new() }
    }

    /// The type's name.
    pub fn as_str(&self) -> (name: &str)
        ensures
            name@ == self@,
    {
        self.name.as_str()
    }
}

/// `bytes::Bytes`, known by the bytes it holds.
#[verifier::external_type_specification]
#[verifier::external_body]
pub struct ExBytes(Bytes);

/// The bytes that a `bytes::Bytes` holds.
pub uninterp spec fn bytes_content(bytes: Bytes) -> Seq<u8>;

/// `bytes::Bytes::copy_from_slice` holds a copy of the slice.
pub assume_specification[ Bytes::copy_from_slice ](data: &[u8]) -> (bytes: Bytes)
    ensures
        bytes_content(bytes) == data@,
;

/// Calls the conversion of `Vec<u8>` into `bytes::Bytes`, which keeps the bytes.
#[verifier::external_body]
pub(crate) fn bytes_from_vec(data: Vec<u8>) -> (bytes: Bytes)
    ensures
        bytes_content(bytes) == data@,
{
    Bytes::from(data)
}

/// A serialized message of the bus.
#[derive(Debug)]
pub struct BusMessage {
    /// The topic the message was published on.
    pub topic: String,
    /// The type of the payload.
    pub payload_type: BusPayloadType,
    /// The serialized payload.
    pub payload: Bytes,
    /// How the payload is encoded.
    pub encoding: SerializationEncoding,
}

/// What a [`BusMessage`] holds.
#[verifier::ext_equal]
pub struct BusMessageView {
    pub topic: Seq<char>,
    pub payload_type: Seq<char>,
    pub payload: Seq<u8>,
    pub encoding: SerializationEncoding,
}

impl View for BusMessage {
    type V = BusMessageView;

    open spec fn view(&self) -> BusMessageView {
        BusMessageView {
            topic: self.topic@,
            payload_type: self.payload_type@,
            payload: bytes_content(self.payload),
            encoding: self.encoding,
        }
    }
}

/// A message of a custom, unnamed type in the default encoding.
pub open spec fn custom_message(topic: Seq<char>, payload: Seq<u8>) -> BusMessageView {
    BusMessageView {
        topic,
        payload_type: Seq::empty(),
        payload,
        encoding: SerializationEncoding::MsgPack,
    }
}

impl BusMessage {
    /// Makes a message of its parts.
    pub fn new(
        topic: &str,
        payload_type: BusPayloadType,
        payload: Bytes,
        encoding: SerializationEncoding,
    ) -> (message: Self)
        ensures
            message@ == (BusMessageView {
                topic: topic@,
                payload_type: payload_type@,
                payload: bytes_content(payload),
                encoding,
            }),
    {
        BusMessage { topic: topic.to_string(), payload_type, payload, encoding }
    }

    /// Makes a message of a custom, unnamed type from raw bytes.
    pub fn custom(topic: &str, payload: &[u8]) -> (message: Self)
        ensures
            message@ == custom_message(topic@, payload@),
    {
        BusMessage::new(
            topic,
            BusPayloadType::unnamed(),
            Bytes::copy_from_slice(payload),
            SerializationEncoding::default(),
        )
    }

    /// Makes the message that asks the publish task to stop.
    pub fn new_close() -> (message: Self)
        ensures
            message@ == custom_message(CLOSE_TOPIC@, Seq::empty()),
    {
        BusMessage::new(
            CLOSE_TOPIC,
            BusPayloadType::unnamed(),
            bytes_from_vec(Vec::new()),
            SerializationEncoding::default(),
        )
    }

    /// Makes the heartbeat message for the time written in `timestamp`.
    pub fn heartbeat(timestamp: &str) -> (message: Self)
        ensures
            message@ == custom_message(HEARTBEAT_TOPIC@, vstd::utf8::encode_utf8(timestamp@)),
    {
        BusMessage::new(
            HEARTBEAT_TOPIC,
            BusPayloadType::unnamed(),
            bytes_from_vec(timestamp.as_bytes_vec()),
            SerializationEncoding::default(),
        )
    }
}

/// Whether `text` holds decimal digits, and nothing else, from `start` to just before `end`.
pub open spec fn digits_between(text: Seq<char>, start: int, end: int) -> bool {
    forall|i: int| start <= i < end ==> '0' <= #[trigger] text[i] && text[i] <= '9'
}

/// Whether the first `end` characters of `text` are a year: four digits, or a plus sign and at
/// least five.
pub open spec fn is_year(text: Seq<char>, end: int) -> bool {
    ||| end == 4 && digits_between(text, 0, 4)
    ||| end >= 6 && text[0] == '+' && digits_between(text, 1, end)
}

/// Whether `-MM-DDTHH:MM:SS` stands in `text` from `start` on, each letter but the `T` a digit.
pub open spec fn is_day_and_time(text: Seq<char>, start: int) -> bool {
    &&& text[start] == '-' && digits_between(text, start + 1, start + 3)
    &&& text[start + 3] == '-' && digits_between(text, start + 4, start + 6)
    &&& text[start + 6] == 'T' && digits_between(text, start + 7, start + 9)
    &&& text[start + 9] == ':' && digits_between(text, start + 10, start + 12)
    &&& text[start + 12] == ':' && digits_between(text, start + 13, start + 15)
}

/// Whether a fraction of a second stands in `text` from `start` to just before `end`: nothing, or
/// a point and three, six or nine digits.
pub open spec fn is_fraction(text: Seq<char>, start: int, end: int) -> bool {
    ||| end == start
    ||| (end == start + 4 || end == start + 7 || end == start + 10) && text[start] == '.'
        && digits_between(text, start + 1, end)
}

/// Whether `text` is a UTC time in RFC 3339 notation whose year takes up `year` characters and
/// whose offset follows after `seconds`.
pub open spec fn is_utc_timestamp_of(text: Seq<char>, year: int, seconds: int) -> bool {
    &&& text.len() == seconds + 6
    &&& is_year(text, year)
    &&& is_day_and_time(text, year)
    &&& is_fraction(text, year + 15, seconds)
    &&& text.skip(seconds) == "+00:00"@
}

/// Whether `text` is a UTC time in RFC 3339 notation: a year, month, day, hour, minute and second,
/// a fraction of a second or none, and the offset zero.
pub open spec fn is_utc_timestamp(text: Seq<char>) -> bool {
    exists|year: int, seconds: int| is_utc_timestamp_of(text, year, seconds)
}

/// Calls `chrono::Utc::now` and `chrono::DateTime::to_rfc3339`: the current UTC time in RFC 3339
/// notation, down to the second, with a fraction in thousandths, millionths or billionths of a
/// second where there is one, and with the offset written out. Which time it is depends on the
/// system clock, and no clause says; a clock set before the UNIX epoch makes `chrono` panic, so no
/// year is negative.
#[verifier::external_body]
fn utc_now_rfc3339() -> (timestamp: String)
    ensures
        is_utc_timestamp(timestamp@),
{
    chrono::Utc::now().to_rfc3339()
}

/// Makes a heartbeat message that carries the current UTC time.
pub fn create_heartbeat_msg() -> (message: BusMessage)
    ensures
        exists|timestamp: Seq<char>|
            is_utc_timestamp(timestamp) && message@ == #[trigger] custom_message(
                HEARTBEAT_TOPIC@,
                vstd::utf8::encode_utf8(timestamp),
            ),
{
    let timestamp = utc_now_rfc3339();
    BusMessage::heartbeat(timestamp.as_str())
}

/// A heartbeat is never taken for the message that asks the publish task to stop.
pub proof fn law_heartbeats_do_not_close(payload: Seq<u8>)
    ensures
        custom_message(HEARTBEAT_TOPIC@, payload).topic != CLOSE_TOPIC@,
{
    reveal_strlit("CLOSE");
    reveal_strlit("health:heartbeat");
    assert(CLOSE_TOPIC@.len() == 5);
    assert(HEARTBEAT_TOPIC@.len() == 16);
}

/// Each encoding has the name that other readers and writers of records know it by.
pub proof fn law_encodings_go_by_their_names(encoding: SerializationEncoding, name: &'static str)
    requires
        call_ensures(SerializationEncoding::as_str, (&encoding,), name),
    ensures
        encoding == SerializationEncoding::MsgPack <==> name@ == "msgpack"@,
        encoding == SerializationEncoding::Json <==> name@ == "json"@,
{
    reveal_strlit("msgpack");
    reveal_strlit("json");
    assert("msgpack"@.len() == 7);
    assert("json"@.len() == 4);
}

proof fn lemma_lowercase_of(text: Seq<char>, name: Seq<char>)
    requires
        forall|i: int| 0 <= i < name.len() ==> 'a' <= #[trigger] name[i] && name[i] <= 'z',
    ensures
        (ascii_lowercase(text) == name) <==> {
            &&& text.len() == name.len()
            &&& forall|i: int|
                0 <= i < name.len() ==> #[trigger] text[i] == name[i] || text[i] as u32 + 32
                    == name[i] as u32
        },
{
    let lowered = ascii_lowercase(text);
    assert(lowered.len() == text.len());
    if lowered == name {
        assert forall|i: int| 0 <= i < name.len() implies #[trigger] text[i] == name[i]
            || text[i] as u32 + 32 == name[i] as u32 by {
            assert(lowered[i] == ascii_lower(text[i]));
        }
    }
    if text.len() == name.len() && forall|i: int|
        0 <= i < name.len() ==> #[trigger] text[i] == name[i] || text[i] as u32 + 32
            == name[i] as u32 {
        assert forall|i: int| 0 <= i < name.len() implies lowered[i] == name[i] by {
            assert(lowered[i] == ascii_lower(text[i]));
            assert('a' <= name[i] && name[i] <= 'z');
        }
        assert(lowered =~= name);
    }
}

/// A text names an encoding exactly where it is that encoding's name letter for letter, each
/// letter in upper or in lower case; any other text names none.
pub proof fn law_names_are_read_in_either_case(text: Seq<char>)
    ensures
        named_encoding(text) == Some(SerializationEncoding::MsgPack) <==> {
            &&& text.len() == 7
            &&& forall|i: int|
                0 <= i < 7 ==> #[trigger] text[i] == "msgpack"@[i] || text[i] as u32 + 32
                    == "msgpack"@[i] as u32
        },
        named_encoding(text) == Some(SerializationEncoding::Json) <==> {
            &&& text.len() == 4
            &&& forall|i: int|
                0 <= i < 4 ==> #[trigger] text[i] == "json"@[i] || text[i] as u32 + 32
                    == "json"@[i] as u32
        },
{
    reveal_strlit("msgpack");
    reveal_strlit("json");
    assert("msgpack"@.len() == 7);
    assert("json"@.len() == 4);
    lemma_lowercase_of(text, "msgpack"@);
    lemma_lowercase_of(text, "json"@);
}

/// Looking an encoding up by name undoes naming it, in whatever case the name is written, and no
/// two encodings answer to one name.
pub proof fn law_lookup_undoes_naming(
    encoding: SerializationEncoding,
    name: &'static str,
    text: &str,
    found: Option<SerializationEncoding>,
)
    requires
        call_ensures(SerializationEncoding::as_str, (&encoding,), name),
        call_ensures(SerializationEncoding::from_name, (text,), found),
    ensures
        found == Some(encoding) <==> {
            &&& text@.len() == name@.len()
            &&& forall|i: int|
                0 <= i < name@.len() ==> #[trigger] text@[i] == name@[i] || text@[i] as u32 + 32
                    == name@[i] as u32
        },
{
    law_names_are_read_in_either_case(text@);
    reveal_strlit("msgpack");
    reveal_strlit("json");
    assert("msgpack"@.len() == 7);
    assert("json"@.len() == 4);
}

/// A custom message is published on the topic and with the bytes that it was made from, under no
/// type name and in the default encoding.
pub proof fn law_custom_messages_keep_topic_and_bytes(
    topic: &str,
    payload: &[u8],
    message: BusMessage,
)
    requires
        call_ensures(BusMessage::custom, (topic, payload), message),
    ensures
        message.topic@ == topic@,
        bytes_content(message.payload) == payload@,
        message.payload_type@.len() == 0,
        message.encoding == SerializationEncoding::MsgPack,
{
}

/// A heartbeat is published on the heartbeat topic and holds the timestamp that it was made for,
/// in UTF-8, under no type name and in the default encoding.
pub proof fn law_heartbeats_hold_their_timestamp(timestamp: &str, message: BusMessage)
    requires
        call_ensures(BusMessage::heartbeat, (timestamp,), message),
    ensures
        message.topic@ == "health:heartbeat"@,
        bytes_content(message.payload) == vstd::utf8::encode_utf8(timestamp@),
        message.payload_type@.len() == 0,
        message.encoding == SerializationEncoding::MsgPack,
{
}

/// The heartbeat of this moment is a heartbeat of some UTC time.
pub proof fn law_created_heartbeats_hold_a_utc_time(message: BusMessage)
    requires
        call_ensures(create_heartbeat_msg, (), message),
    ensures
        message.topic@ == "health:heartbeat"@,
        exists|timestamp: Seq<char>|
            is_utc_timestamp(timestamp) && bytes_content(message.payload)
                == #[trigger] vstd::utf8::encode_utf8(timestamp),
        message.payload_type@.len() == 0,
        message.encoding == SerializationEncoding::MsgPack,
{
}

/// The message that asks the publish task to stop is empty but for its topic.
pub proof fn law_close_message_holds_nothing(message: BusMessage)
    requires
        call_ensures(BusMessage::new_close, (), message),
    ensures
        message.topic@ == "CLOSE"@,
        bytes_content(message.payload).len() == 0,
        message.payload_type@.len() == 0,
        message.encoding == SerializationEncoding::MsgPack,
{
}

/// A message made of its parts holds those very parts.
pub proof fn law_messages_hold_their_parts(
    topic: &str,
    payload_type: BusPayloadType,
    payload: Bytes,
    encoding: SerializationEncoding,
    message: BusMessage,
)
    requires
        call_ensures(BusMessage::new, (topic, payload_type, payload, encoding), message),
    ensures
        message.topic@ == topic@,
        message.payload_type@ == payload_type@,
        bytes_content(message.payload) == bytes_content(payload),
        message.encoding == encoding,
{
}

} // verus!
