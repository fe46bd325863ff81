//! The configuration document of a message bus, and the Kafka backing its `database` section
//! describes.
//!
//! The document's `database` section has the shape that all backings share (`type`, `host`,
//! `port`, `username`, `password`, `ssl`); here it is mapped onto the fields of
//! [`KafkaMessageBusConfig`]. The rest of the document is the message bus's own.

use crate::json::{
    get_member, json_content, json_notation, parse_json, parsed_json, remove_member, write_json,
    Json,
};
use crate::kafka_config::{default_kafka_config, KafkaConfigView, KafkaMessageBusConfig};
use crate::text::{decimal, decimal_text, optional_text, same_text};
use serde_json::Value;
use vstd::prelude::*;

verus! {

/// The port used for a host that is configured without one.
pub const DEFAULT_PORT: u64 = 9092;

/// Why a document describes no Kafka backing.
#[derive(Debug, PartialEq, Eq)]
pub enum BackingConfigError {
    /// The document is not a JSON object.
    NotAnObject,
    /// The `database` section is neither an object nor null.
    DatabaseNotAnObject,
    /// The `database` section is for another kind of backing, the one given here.
    WrongDatabaseType(String),
    /// The `type` in the `database` section is not a string, but what is written here.
    DatabaseTypeNotText(String),
}

/// What a [`BackingConfigError`] holds.
pub enum BackingConfigErrorView {
    NotAnObject,
    DatabaseNotAnObject,
    WrongDatabaseType(Seq<char>),
    DatabaseTypeNotText(Seq<char>),
}

impl View for BackingConfigError {
    type V = BackingConfigErrorView;

    open spec fn view(&self) -> BackingConfigErrorView {
        match self {
            BackingConfigError::NotAnObject => BackingConfigErrorView::NotAnObject,
            BackingConfigError::DatabaseNotAnObject => BackingConfigErrorView::DatabaseNotAnObject,
            BackingConfigError::WrongDatabaseType(name) =>
                BackingConfigErrorView::WrongDatabaseType(name@),
            BackingConfigError::DatabaseTypeNotText(written) =>
                BackingConfigErrorView::DatabaseTypeNotText(written@),
        }
    }
}

/// The text that reports an error to an operator.
pub open spec fn error_message(error: BackingConfigErrorView) -> Seq<char> {
    match error {
        BackingConfigErrorView::NotAnObject => "MessageBusConfig must be a JSON object"@,
        BackingConfigErrorView::DatabaseNotAnObject =>
            "MessageBusConfig.database must be a JSON object"@,
        BackingConfigErrorView::WrongDatabaseType(name) =>
            "MessageBusConfig.database.type must be 'kafka', was '"@ + name + "'"@,
        BackingConfigErrorView::DatabaseTypeNotText(written) =>
            "MessageBusConfig.database.type must be a string, was "@ + written,
    }
}

impl BackingConfigError {
    /// The text that reports this error to an operator.
    pub fn message(&self) -> (message: String)
        ensures
            message@ == error_message(self@),
    {
        match self {
            BackingConfigError::NotAnObject => {
                "MessageBusConfig must be a JSON object".to_string()
            },
            BackingConfigError::DatabaseNotAnObject => {
                "MessageBusConfig.database must be a JSON object".to_string()
            },
            BackingConfigError::WrongDatabaseType(name) => {
                "MessageBusConfig.database.type must be 'kafka', was '".to_string().concat(
                    name.as_str(),
                ).concat("'")
            },
            BackingConfigError::DatabaseTypeNotText(written) => {
                "MessageBusConfig.database.type must be a string, was ".to_string().concat(
                    written.as_str(),
                )
            },
        }
    }
}

/// Why a configuration document is not accepted.
#[derive(Debug)]
pub enum ConfigError {
    /// The bytes are not a JSON document.
    InvalidJson(serde_json::Error),
    /// The document describes no Kafka backing.
    Backing(BackingConfigError),
}

/// The member `key` of `database`, where it is a text.
pub open spec fn text_member(database: Json, key: Seq<char>) -> Option<Seq<char>> {
    match database.member(key) {
        Some(value) => value.text(),
        None => None,
    }
}

/// The member `port` of `database` where it is a port number, else the default port.
pub open spec fn port(database: Json) -> u64 {
    match database.member("port"@) {
        Some(value) => match value.unsigned() {
            Some(number) => number,
            None => DEFAULT_PORT,
        },
        None => DEFAULT_PORT,
    }
}

/// Whether `database` asks for encryption: its member `ssl` is the truth value `true`.
pub open spec fn wants_ssl(database: Json) -> bool {
    match database.member("ssl"@) {
        Some(value) => value.boolean() == Some(true),
        None => false,
    }
}

/// What is wrong with the `type` of a `database` section: a section without one is fine, and so
/// is one that names Kafka.
pub open spec fn type_error(database: Json) -> Option<BackingConfigErrorView> {
    match database.member("type"@) {
        None => None,
        Some(Json::Text(name)) => if name == "kafka"@ {
            None
        } else {
            Some(BackingConfigErrorView::WrongDatabaseType(name))
        },
        Some(other) => Some(BackingConfigErrorView::DatabaseTypeNotText(json_notation(other))),
    }
}

/// The Kafka configuration that a `database` section stands for: a host gives the one broker, an
/// encrypted connection authenticates where there is a username, and by password then.
pub open spec fn database_backing(database: Json) -> KafkaConfigView {
    let username = text_member(database, "username"@);
    KafkaConfigView {
        brokers: match text_member(database, "host"@) {
            Some(host) => host + ":"@ + decimal(port(database) as nat),
            None => default_kafka_config().brokers,
        },
        sasl_username: username,
        sasl_password: text_member(database, "password"@),
        security_protocol: if !wants_ssl(database) {
            None
        } else if username is Some {
            Some("SASL_SSL"@)
        } else {
            Some("SSL"@)
        },
        sasl_mechanism: if wants_ssl(database) && username is Some {
            Some("PLAIN"@)
        } else {
            None
        },
        ..default_kafka_config()
    }
}

/// The backing that a document describes, or why it describes none. A document without a
/// `database` section, or with a null one, stands for the default backing.
pub open spec fn described_backing(document: Json) -> Result<
    KafkaConfigView,
    BackingConfigErrorView,
> {
    if document !is Object {
        Err(BackingConfigErrorView::NotAnObject)
    } else {
        match document.member("database"@) {
            None => Ok(default_kafka_config()),
            Some(Json::Null) => Ok(default_kafka_config()),
            Some(Json::Object(members)) => match type_error(Json::Object(members)) {
                Some(error) => Err(error),
                None => Ok(database_backing(Json::Object(members))),
            },
            Some(_) => Err(BackingConfigErrorView::DatabaseNotAnObject),
        }
    }
}

/// `document` without its `database` section.
pub open spec fn without_database(document: Json) -> Json {
    match document {
        Json::Object(members) => Json::Object(members.remove("database"@)),
        other => other,
    }
}

fn get_text(database: &Value, key: &str) -> (text: Option<String>)
    ensures
        optional_text(text) == text_member(json_content(*database), key@),
{
    match get_member(database, key) {
        Some(value) => match value.as_str() {
            Some(text) => Some(text.to_string()),
            None => None,
        },
        None => None,
    }
}

fn get_port(database: &Value) -> (number: u64)
    ensures
        number == port(json_content(*database)),
{
    match get_member(database, "port") {
        Some(value) => match value.as_u64() {
            Some(number) => number,
            None => DEFAULT_PORT,
        },
        None => DEFAULT_PORT,
    }
}

fn get_ssl(database: &Value) -> (wanted: bool)
    ensures
        wanted == wants_ssl(json_content(*database)),
{
    match get_member(database, "ssl") {
        Some(value) => match value.as_bool() {
            Some(wanted) => wanted,
            None => false,
        },
        None => false,
    }
}

fn check_type(database: &Value) -> (checked: Result<(), BackingConfigError>)
    ensures
        match checked {
            Ok(_) => type_error(json_content(*database)) is None,
            Err(error) => type_error(json_content(*database)) == Some(error@),
        },
{
    match get_member(database, "type") {
        None => Ok(()),
        Some(value) => match value.as_str() {
            Some(name) => if same_text(name, "kafka") {
                Ok(())
            } else {
                Err(BackingConfigError::WrongDatabaseType(name.to_string()))
            },
            None => Err(BackingConfigError::DatabaseTypeNotText(write_json(value))),
        },
    }
}

fn database_config(database: &Value) -> (backing: KafkaMessageBusConfig)
    ensures
        backing@ == database_backing(json_content(*database)),
{
    let mut backing = KafkaMessageBusConfig::default();

    if let Some(host) = get_text(database, "host") {
        let number = decimal_text(get_port(database));
        backing.brokers = host.concat(":").concat(number.as_str());
    }
    backing.sasl_username = get_text(database, "username");
    backing.sasl_password = get_text(database, "password");

    if get_ssl(database) {
        if backing.sasl_username.is_some() {
            backing.security_protocol = Some("SASL_SSL".to_string());
            backing.sasl_mechanism = Some("PLAIN".to_string());
        } else {
            backing.security_protocol = Some("SSL".to_string());
        }
    }
    backing
}

/// Takes the `database` section out of a configuration document and maps it onto a Kafka
/// configuration.
///
/// # Errors
///
/// Returns an error if the document or its `database` section is not an object, or if the
/// section's `type` is not `"kafka"`.
pub fn parse_backing_config(document: &mut Value) -> (backing: Result<
    KafkaMessageBusConfig,
    BackingConfigError,
>)
    ensures
        match backing {
            Ok(config) => described_backing(json_content(*old(document))) == Ok::<
                KafkaConfigView,
                BackingConfigErrorView,
            >(config@),
            Err(error) => described_backing(json_content(*old(document))) == Err::<
                KafkaConfigView,
                BackingConfigErrorView,
            >(error@),
        },
        json_content(*final(document)) == without_database(json_content(*old(document))),
{
    if !document.is_object() {
        return Err(BackingConfigError::NotAnObject);
    }
    let database = match remove_member(document, "database") {
        None => {
            return Ok(KafkaMessageBusConfig::default());
        },
        Some(database) => database,
    };
    if database.is_null() {
        return Ok(KafkaMessageBusConfig::default());
    }
    if !database.is_object() {
        return Err(BackingConfigError::DatabaseNotAnObject);
    }
    match check_type(&database) {
        Ok(_) => Ok(database_config(&database)),
        Err(error) => Err(error),
    }
}

/// Reads a configuration document: the Kafka backing that its `database` section describes, and
/// the rest of the document, which configures the message bus itself.
///
/// # Errors
///
/// Returns an error if the bytes are not JSON, or if [`parse_backing_config`] fails.
pub fn parse_config(config_json: &[u8]) -> (parsed: Result<
    (Value, KafkaMessageBusConfig),
    ConfigError,
>)
    ensures
        match parsed {
            Ok((rest, backing)) => {
                &&& parsed_json(config_json@) matches Some(document)
                &&& json_content(rest) == without_database(document)
                &&& described_backing(document) == Ok::<KafkaConfigView, BackingConfigErrorView>(
                    backing@,
                )
            },
            Err(ConfigError::InvalidJson(_)) => parsed_json(config_json@) is None,
            Err(ConfigError::Backing(error)) => {
                &&& parsed_json(config_json@) matches Some(document)
                &&& described_backing(document) == Err::<KafkaConfigView, BackingConfigErrorView>(
                    error@,
                )
            },
        },
{
    match parse_json(config_json) {
        Err(reason) => Err(ConfigError::InvalidJson(reason)),
        Ok(document) => {
            let mut rest = document;
            match parse_backing_config(&mut rest) {
                Ok(backing) => Ok((rest, backing)),
                Err(error) => Err(ConfigError::Backing(error)),
            }
        },
    }
}

/// Reading the backing takes the `database` section out of the document and leaves every other
/// member as it was.
pub proof fn law_rest_keeps_all_but_the_database(document: Json, key: Seq<char>)
    ensures
        without_database(document).member("database"@) is None,
        key != "database"@ ==> without_database(document).member(key) == document.member(key),
        without_database(without_database(document)) == without_database(document),
{
    if let Json::Object(members) = document {
        assert(members.remove("database"@).remove("database"@) =~= members.remove("database"@));
    }
}

/// The backing depends on the `database` section alone: two objects with the same section
/// describe the same backing, or fail alike.
pub proof fn law_backing_depends_on_the_database_alone(left: Json, right: Json)
    requires
        left is Object,
        right is Object,
        left.member("database"@) == right.member("database"@),
    ensures
        described_backing(left) == described_backing(right),
{
}

/// A backing authenticates over an encrypted connection only, as the configured user, and
/// encrypts exactly where the document asks for it; what a document cannot configure keeps its
/// default.
pub proof fn law_described_backing_is_consistent(document: Json)
    requires
        described_backing(document) is Ok,
    ensures
        ({
            let backing = described_backing(document)->Ok_0;
            &&& backing.sasl_mechanism is Some <==> backing.security_protocol == Some("SASL_SSL"@)
            &&& backing.sasl_mechanism is Some ==> backing.sasl_username is Some
            &&& backing.security_protocol is Some && backing.sasl_username is None
                ==> backing.security_protocol == Some("SSL"@)
            &&& backing.security_protocol is Some <==> (document.member("database"@) matches Some(
                database,
            ) && wants_ssl(database))
            &&& backing.client_id is None && backing.group_id is None
            &&& backing.message_timeout_ms == default_kafka_config().message_timeout_ms
        }),
{
    reveal_strlit("SASL_SSL");
    reveal_strlit("SSL");
    assert("SASL_SSL"@.len() == 8);
    assert("SSL"@.len() == 3);
}

/// A configured host gives the brokers: the host, a colon and the configured port in decimal
/// digits, or 9092 where no port is configured that a number stands for, whatever else the section
/// holds. Without a host the brokers are the default ones.
pub proof fn law_host_and_port_give_the_brokers(
    config_json: &[u8],
    rest: Value,
    backing: KafkaMessageBusConfig,
    document: Map<Seq<char>, Json>,
    section: Map<Seq<char>, Json>,
)
    requires
        call_ensures(parse_config, (config_json,), Ok((rest, backing))),
        parsed_json(config_json@) == Some(Json::Object(document)),
        document.contains_key("database"@),
        document["database"@] == Json::Object(section),
    ensures
        section.contains_key("host"@) && section["host"@] is Text ==> backing.brokers@
            == section["host"@]->Text_0 + ":"@ + decimal(
            (if section.contains_key("port"@) && section["port"@] is Number
                && section["port"@]->unsigned is Some {
                section["port"@]->unsigned->0
            } else {
                9092
            }) as nat,
        ),
        !(section.contains_key("host"@) && section["host"@] is Text) ==> backing.brokers@
            == "127.0.0.1:9092"@,
{
}

/// The configured username and password are taken over as they are written, whatever else the
/// section holds; what is missing, or no text, gives none.
pub proof fn law_credentials_are_taken_over(
    config_json: &[u8],
    rest: Value,
    backing: KafkaMessageBusConfig,
    document: Map<Seq<char>, Json>,
    section: Map<Seq<char>, Json>,
)
    requires
        call_ensures(parse_config, (config_json,), Ok((rest, backing))),
        parsed_json(config_json@) == Some(Json::Object(document)),
        document.contains_key("database"@),
        document["database"@] == Json::Object(section),
    ensures
        backing.sasl_username is Some <==> section.contains_key("username"@)
            && section["username"@] is Text,
        backing.sasl_username is Some ==> section["username"@] == Json::Text(
            backing.sasl_username->0@,
        ),
        backing.sasl_password is Some <==> section.contains_key("password"@)
            && section["password"@] is Text,
        backing.sasl_password is Some ==> section["password"@] == Json::Text(
            backing.sasl_password->0@,
        ),
{
    let view = backing@;
    assert(view.sasl_username == optional_text(backing.sasl_username));
    assert(view.sasl_password == optional_text(backing.sasl_password));
}

/// The connection is encrypted exactly where the section's `ssl` is true; an encrypted connection
/// authenticates, with a plain password, exactly where there is a username.
pub proof fn law_ssl_encrypts_and_a_username_authenticates(
    config_json: &[u8],
    rest: Value,
    backing: KafkaMessageBusConfig,
    document: Map<Seq<char>, Json>,
    section: Map<Seq<char>, Json>,
)
    requires
        call_ensures(parse_config, (config_json,), Ok((rest, backing))),
        parsed_json(config_json@) == Some(Json::Object(document)),
        document.contains_key("database"@),
        document["database"@] == Json::Object(section),
    ensures
        backing.security_protocol is Some <==> section.contains_key("ssl"@) && section["ssl"@]
            == Json::Bool(true),
        backing.security_protocol is Some && backing.sasl_username is Some ==> {
            &&& backing.security_protocol->0@ == "SASL_SSL"@
            &&& backing.sasl_mechanism is Some
            &&& backing.sasl_mechanism->0@ == "PLAIN"@
        },
        backing.security_protocol is Some && backing.sasl_username is None
            ==> backing.security_protocol->0@ == "SSL"@,
        backing.security_protocol is None || backing.sasl_username is None
            ==> backing.sasl_mechanism is None,
{
    let view = backing@;
    assert(view.sasl_username == optional_text(backing.sasl_username));
    assert(view.security_protocol == optional_text(backing.security_protocol));
    assert(view.sasl_mechanism == optional_text(backing.sasl_mechanism));
    if section.contains_key("ssl"@) {
        assert(section["ssl"@].boolean() == Some(true) <==> section["ssl"@] == Json::Bool(true));
    }
}

/// What no document can configure keeps its default, and without a section, or with a null one,
/// everything does.
pub proof fn law_unconfigured_is_left_at_its_default(
    config_json: &[u8],
    rest: Value,
    backing: KafkaMessageBusConfig,
    document: Map<Seq<char>, Json>,
)
    requires
        call_ensures(parse_config, (config_json,), Ok((rest, backing))),
        parsed_json(config_json@) == Some(Json::Object(document)),
    ensures
        backing.client_id is None,
        backing.group_id is None,
        backing.message_timeout_ms == 5_000,
        !document.contains_key("database"@) || document["database"@] is Null ==> {
            &&& backing.brokers@ == "127.0.0.1:9092"@
            &&& backing.security_protocol is None
            &&& backing.sasl_mechanism is None
            &&& backing.sasl_username is None
            &&& backing.sasl_password is None
        },
{
    let view = backing@;
    assert(view.client_id == optional_text(backing.client_id));
    assert(view.group_id == optional_text(backing.group_id));
    assert(view.security_protocol == optional_text(backing.security_protocol));
    assert(view.sasl_mechanism == optional_text(backing.sasl_mechanism));
    assert(view.sasl_username == optional_text(backing.sasl_username));
    assert(view.sasl_password == optional_text(backing.sasl_password));
}

/// A document is refused exactly for what is wrong with it: bytes that are no JSON, a document
/// that is no object, a section that is neither an object nor null, a section of a type that is
/// another name than `kafka`, and one of a type that is no text. Everything else is accepted.
pub proof fn law_documents_are_refused_for_what_is_wrong(
    config_json: &[u8],
    parsed: Result<(Value, KafkaMessageBusConfig), ConfigError>,
)
    requires
        call_ensures(parse_config, (config_json,), parsed),
    ensures
        parsed matches Err(ConfigError::InvalidJson(_)) <==> parsed_json(config_json@) is None,
        parsed_json(config_json@) matches Some(document) ==> match document {
            Json::Object(members) => if !members.contains_key("database"@) {
                parsed is Ok
            } else {
                match members["database"@] {
                    Json::Null => parsed is Ok,
                    Json::Object(section) => if !section.contains_key("type"@) {
                        parsed is Ok
                    } else {
                        match section["type"@] {
                            Json::Text(name) => {
                                &&& name == "kafka"@ <==> parsed is Ok
                                &&& name != "kafka"@ ==> (parsed matches Err(
                                    ConfigError::Backing(
                                        BackingConfigError::WrongDatabaseType(told),
                                    ),
                                ) && told@ == name)
                            },
                            other => parsed matches Err(
                                ConfigError::Backing(BackingConfigError::DatabaseTypeNotText(told)),
                            ) && told@ == json_notation(other),
                        }
                    },
                    _ => parsed matches Err(
                        ConfigError::Backing(BackingConfigError::DatabaseNotAnObject),
                    ),
                }
            },
            _ => parsed matches Err(ConfigError::Backing(BackingConfigError::NotAnObject)),
        },
{
}

/// The rest of an accepted document holds every member but the `database` section, as it was, and
/// nothing else.
pub proof fn law_rest_holds_every_other_member(
    config_json: &[u8],
    rest: Value,
    backing: KafkaMessageBusConfig,
    document: Map<Seq<char>, Json>,
)
    requires
        call_ensures(parse_config, (config_json,), Ok((rest, backing))),
        parsed_json(config_json@) == Some(Json::Object(document)),
    ensures
        json_content(rest) is Object,
        forall|key: Seq<char>| #[trigger]
            json_content(rest)->Object_0.contains_key(key) <==> document.contains_key(key) && key
                != "database"@,
        forall|key: Seq<char>|
            document.contains_key(key) && key != "database"@ ==> #[trigger] json_content(
                rest,
            )->Object_0[key] == document[key],
{
}

/// A document that is no object is left as it is, and an object stays one.
pub proof fn law_taking_the_section_out_keeps_the_kind(document: Json)
    ensures
        document is Object <==> without_database(document) is Object,
        document !is Object ==> without_database(document) == document,
{
}

/// An error is reported in the operator's words, with the type that was found where that is what
/// is wrong.
pub proof fn law_config_errors_say_what_was_found(error: BackingConfigError, message: String)
    requires
        call_ensures(BackingConfigError::message, (&error,), message),
    ensures
        match error {
            BackingConfigError::NotAnObject => message@ == "MessageBusConfig must be a JSON object"@,
            BackingConfigError::DatabaseNotAnObject => message@
                == "MessageBusConfig.database must be a JSON object"@,
            BackingConfigError::WrongDatabaseType(name) => message@
                == "MessageBusConfig.database.type must be 'kafka', was '"@ + name@ + "'"@,
            BackingConfigError::DatabaseTypeNotText(written) => message@
                == "MessageBusConfig.database.type must be a string, was "@ + written@,
        },
{
}

} // verus!
