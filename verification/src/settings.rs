//! The settings record, and how it is read from the fields of a document.
//!
//! Reading is strict. Every field of the record but `headers` is required, a
//! field of the wrong type is an error, and so is a logging level other than
//! `ERROR`, `INFO` and `DEBUG`. Nothing is filled in with a default.

use crate::text::{copy_text, same_text};
use vstd::prelude::*;

verus! {

/// How much the publisher logs.
#[allow(non_camel_case_types)]
#[derive(Debug, Clone, Copy, PartialEq, Eq, Structural)]
pub enum LoggingLevel {
    ERROR,
    INFO,
    DEBUG,
}

/// How the connection to the broker is secured.
#[derive(Debug, Clone, Copy, PartialEq, Eq, Structural)]
pub enum Security {
    /// No transport security.
    Plaintext,
    /// TLS with a client certificate.
    Ssl,
    /// TLS with SASL credentials.
    SaslSsl,
}

/// The settings of the publisher, as the settings file gives them.
#[derive(Debug, Clone, PartialEq, Eq)]
pub struct Settings {
    pub bootstrap_servers: String,
    pub topic: String,
    pub group: String,
    pub broker_timeout_milis: String,
    pub headers: Option<String>,
    pub key: String,
    pub body_file: String,
    pub logging_level: LoggingLevel,
    pub ssl_enabled: bool,
    pub ssl_protocol: String,
    pub ssl_ca_file: String,
    pub ssl_client_cert_file: String,
    pub ssl_private_key_location: String,
    pub ssl_key_password: String,
    pub sasl_mechanisms: String,
    pub sasl_username: String,
    pub sasl_password: String,
}

/// What a `Settings` record holds.
pub struct SettingsView {
    pub bootstrap_servers: Seq<char>,
    pub topic: Seq<char>,
    pub group: Seq<char>,
    pub broker_timeout_milis: Seq<char>,
    pub headers: Option<Seq<char>>,
    pub key: Seq<char>,
    pub body_file: Seq<char>,
    pub logging_level: LoggingLevel,
    pub ssl_enabled: bool,
    pub ssl_protocol: Seq<char>,
    pub ssl_ca_file: Seq<char>,
    pub ssl_client_cert_file: Seq<char>,
    pub ssl_private_key_location: Seq<char>,
    pub ssl_key_password: Seq<char>,
    pub sasl_mechanisms: Seq<char>,
    pub sasl_username: Seq<char>,
    pub sasl_password: Seq<char>,
}

impl View for Settings {
    type V = SettingsView;

    open spec fn view(&self) -> SettingsView {
        SettingsView {
            bootstrap_servers: self.bootstrap_servers@,
            topic: self.topic@,
            group: self.group@,
            broker_timeout_milis: self.broker_timeout_milis@,
            headers: match self.headers {
                Some(h) => Some(h@),
                None => None,
            },
            key: self.key@,
            body_file: self.body_file@,
            logging_level: self.logging_level,
            ssl_enabled: self.ssl_enabled,
            ssl_protocol: self.ssl_protocol@,
            ssl_ca_file: self.ssl_ca_file@,
            ssl_client_cert_file: self.ssl_client_cert_file@,
            ssl_private_key_location: self.ssl_private_key_location@,
            ssl_key_password: self.ssl_key_password@,
            sasl_mechanisms: self.sasl_mechanisms@,
            sasl_username: self.sasl_username@,
            sasl_password: self.sasl_password@,
        }
    }
}

impl SettingsView {
    /// The security that the settings ask for: none where SSL is off, else
    /// what the protocol selector names. `None` where SSL is on and the
    /// selector is neither `ssl` nor `sasl_ssl`.
    pub open spec fn security(self) -> Option<Security> {
        if !self.ssl_enabled {
            Some(Security::Plaintext)
        } else if self.ssl_protocol == "ssl"@ {
            Some(Security::Ssl)
        } else if self.ssl_protocol == "sasl_ssl"@ {
            Some(Security::SaslSsl)
        } else {
            None
        }
    }
}

/// The level that a name stands for.
pub open spec fn spec_logging_level(name: Seq<char>) -> Option<LoggingLevel> {
    if name == "ERROR"@ {
        Some(LoggingLevel::ERROR)
    } else if name == "INFO"@ {
        Some(LoggingLevel::INFO)
    } else if name == "DEBUG"@ {
        Some(LoggingLevel::DEBUG)
    } else {
        None
    }
}

impl LoggingLevel {
    /// The name of the level.
    pub open spec fn spec_name(self) -> Seq<char> {
        match self {
            LoggingLevel::ERROR => "ERROR"@,
            LoggingLevel::INFO => "INFO"@,
            LoggingLevel::DEBUG => "DEBUG"@,
        }
    }

    /// Reads a level from its name. Only `ERROR`, `INFO` and `DEBUG`, written
    /// so, are levels.
    pub fn parse(name: &str) -> (level: Option<LoggingLevel>)
        ensures
            level == spec_logging_level(name@),
    {
        if same_text(name, "ERROR") {
            Some(LoggingLevel::ERROR)
        } else if same_text(name, "INFO") {
            Some(LoggingLevel::INFO)
        } else if same_text(name, "DEBUG") {
            Some(LoggingLevel::DEBUG)
        } else {
            None
        }
    }

    /// The name of the level.
    pub fn name(&self) -> (name: &'static str)
        ensures
            name@ == self.spec_name(),
    {
        match self {
            LoggingLevel::ERROR => "ERROR",
            LoggingLevel::INFO => "INFO",
            LoggingLevel::DEBUG => "DEBUG",
        }
    }
}

/// Every level is read back from its own name.
pub proof fn lemma_logging_level_round_trip(level: LoggingLevel)
    ensures
        spec_logging_level(level.spec_name()) == Some(level),
{
    reveal_strlit("ERROR");
    reveal_strlit("INFO");
    reveal_strlit("DEBUG");
    assert("ERROR"@.len() == 5);
    assert("INFO"@.len() == 4);
    assert("DEBUG"@[0] == 'D');
    assert("ERROR"@[0] == 'E');
}

impl Settings {
    /// The security that the settings ask for, or `None` where SSL is on and
    /// the protocol selector is neither `ssl` nor `sasl_ssl`.
    pub fn security(&self) -> (security: Option<Security>)
        ensures
            security == self@.security(),
    {
        if !self.ssl_enabled {
            Some(Security::Plaintext)
        } else if same_text(self.ssl_protocol.as_str(), "ssl") {
            Some(Security::Ssl)
        } else if same_text(self.ssl_protocol.as_str(), "sasl_ssl") {
            Some(Security::SaslSsl)
        } else {
            None
        }
    }
}

/// The value of one field of a settings document.
#[derive(Debug, Clone, PartialEq, Eq)]
pub enum FieldValue {
    /// The field is there and holds nothing.
    Null,
    /// A truth value.
    Bool(bool),
    /// A string.
    Text(String),
    /// A number, a list or a nested document: nothing that the settings hold.
    Other,
}

/// What a `FieldValue` holds.
pub enum FieldValueView {
    Null,
    Bool(bool),
    Text(Seq<char>),
    Other,
}

impl DeepView for FieldValue {
    type V = FieldValueView;

    open spec fn deep_view(&self) -> FieldValueView {
        match self {
            FieldValue::Null => FieldValueView::Null,
            FieldValue::Bool(b) => FieldValueView::Bool(*b),
            FieldValue::Text(t) => FieldValueView::Text(t@),
            FieldValue::Other => FieldValueView::Other,
        }
    }
}

/// Why a document is no settings record.
#[derive(Debug, Clone, PartialEq, Eq)]
pub enum SettingsError {
    /// A required field is absent.
    MissingField(String),
    /// A field of the record occurs more than once.
    DuplicateField(String),
    /// A field holds a value of another type than the record asks for.
    WrongType(String),
    /// The logging level is none of `ERROR`, `INFO` and `DEBUG`.
    UnknownLoggingLevel(String),
}

/// What a `SettingsError` holds.
pub enum SettingsErrorView {
    MissingField(Seq<char>),
    DuplicateField(Seq<char>),
    WrongType(Seq<char>),
    UnknownLoggingLevel(Seq<char>),
}

impl View for SettingsError {
    type V = SettingsErrorView;

    open spec fn view(&self) -> SettingsErrorView {
        match self {
            SettingsError::MissingField(name) => SettingsErrorView::MissingField(name@),
            SettingsError::DuplicateField(name) => SettingsErrorView::DuplicateField(name@),
            SettingsError::WrongType(name) => SettingsErrorView::WrongType(name@),
            SettingsError::UnknownLoggingLevel(text) => SettingsErrorView::UnknownLoggingLevel(
                text@,
            ),
        }
    }
}

impl SettingsError {
    /// The error in words.
    pub fn message(&self) -> (message: String)
        ensures
            message@ == match self@ {
                SettingsErrorView::MissingField(name) => "missing field: "@ + name,
                SettingsErrorView::DuplicateField(name) => "duplicate field: "@ + name,
                SettingsErrorView::WrongType(name) => "wrong type in field: "@ + name,
                SettingsErrorView::UnknownLoggingLevel(text) => "unknown logging level: "@ + text,
            },
    {
        match self {
            SettingsError::MissingField(name) => "missing field: ".to_owned().concat(
                name.as_str(),
            ),
            SettingsError::DuplicateField(name) => "duplicate field: ".to_owned().concat(
                name.as_str(),
            ),
            SettingsError::WrongType(name) => "wrong type in field: ".to_owned().concat(
                name.as_str(),
            ),
            SettingsError::UnknownLoggingLevel(text) => "unknown logging level: ".to_owned().concat(
                text.as_str(),
            ),
        }
    }
}

/// A settings document: its fields by name, in the order of the document.
pub type Document = Seq<(Seq<char>, FieldValueView)>;

/// What a document holds under one name.
pub enum Lookup {
    /// No field has the name.
    Absent,
    /// One field has the name, with this value.
    Unique(FieldValueView),
    /// Two fields or more have the name.
    Repeated,
}

/// What `document` holds under `name`.
pub open spec fn spec_lookup(document: Document, name: Seq<char>) -> Lookup
    decreases document.len(),
{
    if document.len() == 0 {
        Lookup::Absent
    } else {
        let before = spec_lookup(document.drop_last(), name);
        if document.last().0 == name {
            match before {
                Lookup::Absent => Lookup::Unique(document.last().1),
                _ => Lookup::Repeated,
            }
        } else {
            before
        }
    }
}

/// The error of a field that cannot be read for what it holds under its name,
/// whatever the type asked for: it occurs twice, or holds something that is
/// neither asked for nor a string.
pub open spec fn spec_unreadable(name: Seq<char>, found: Lookup) -> SettingsErrorView {
    match found {
        Lookup::Absent => SettingsErrorView::MissingField(name),
        Lookup::Repeated => SettingsErrorView::DuplicateField(name),
        Lookup::Unique(_) => SettingsErrorView::WrongType(name),
    }
}

/// A required string field.
pub open spec fn spec_text_field(document: Document, name: Seq<char>) -> Result<
    Seq<char>,
    SettingsErrorView,
> {
    match spec_lookup(document, name) {
        Lookup::Unique(FieldValueView::Text(text)) => Ok(text),
        found => Err(spec_unreadable(name, found)),
    }
}

/// A string field that may be absent, or there and hold nothing.
pub open spec fn spec_optional_text_field(document: Document, name: Seq<char>) -> Result<
    Option<Seq<char>>,
    SettingsErrorView,
> {
    match spec_lookup(document, name) {
        Lookup::Absent => Ok(None),
        Lookup::Unique(FieldValueView::Null) => Ok(None),
        Lookup::Unique(FieldValueView::Text(text)) => Ok(Some(text)),
        found => Err(spec_unreadable(name, found)),
    }
}

/// A required truth value.
pub open spec fn spec_flag_field(document: Document, name: Seq<char>) -> Result<
    bool,
    SettingsErrorView,
> {
    match spec_lookup(document, name) {
        Lookup::Unique(FieldValueView::Bool(flag)) => Ok(flag),
        found => Err(spec_unreadable(name, found)),
    }
}

/// A required logging level, written as its name.
pub open spec fn spec_level_field(document: Document, name: Seq<char>) -> Result<
    LoggingLevel,
    SettingsErrorView,
> {
    match spec_lookup(document, name) {
        Lookup::Unique(FieldValueView::Text(text)) => match spec_logging_level(text) {
            Some(level) => Ok(level),
            None => Err(SettingsErrorView::UnknownLoggingLevel(text)),
        },
        found => Err(spec_unreadable(name, found)),
    }
}

/// The settings that a document holds, or the error of the first field, in the
/// order of the record, that cannot be read.
pub open spec fn spec_settings(document: Document) -> Result<SettingsView, SettingsErrorView> {
    let bootstrap_servers = spec_text_field(document, "bootstrap_servers"@);
    let topic = spec_text_field(document, "topic"@);
    let group = spec_text_field(document, "group"@);
    let broker_timeout_milis = spec_text_field(document, "broker_timeout_milis"@);
    let headers = spec_optional_text_field(document, "headers"@);
    let key = spec_text_field(document, "key"@);
    let body_file = spec_text_field(document, "body_file"@);
    let logging_level = spec_level_field(document, "logging_level"@);
    let ssl_enabled = spec_flag_field(document, "ssl_enabled"@);
    let ssl_protocol = spec_text_field(document, "ssl_protocol"@);
    let ssl_ca_file = spec_text_field(document, "ssl_ca_file"@);
    let ssl_client_cert_file = spec_text_field(document, "ssl_client_cert_file"@);
    let ssl_private_key_location = spec_text_field(document, "ssl_private_key_location"@);
    let ssl_key_password = spec_text_field(document, "ssl_key_password"@);
    let sasl_mechanisms = spec_text_field(document, "sasl_mechanisms"@);
    let sasl_username = spec_text_field(document, "sasl_username"@);
    let sasl_password = spec_text_field(document, "sasl_password"@);
    if bootstrap_servers is Err {
        Err(bootstrap_servers->Err_0)
    } else if topic is Err {
        Err(topic->Err_0)
    } else if group is Err {
        Err(group->Err_0)
    } else if broker_timeout_milis is Err {
        Err(broker_timeout_milis->Err_0)
    } else if headers is Err {
        Err(headers->Err_0)
    } else if key is Err {
        Err(key->Err_0)
    } else if body_file is Err {
        Err(body_file->Err_0)
    } else if logging_level is Err {
        Err(logging_level->Err_0)
    } else if ssl_enabled is Err {
        Err(ssl_enabled->Err_0)
    } else if ssl_protocol is Err {
        Err(ssl_protocol->Err_0)
    } else if ssl_ca_file is Err {
        Err(ssl_ca_file->Err_0)
    } else if ssl_client_cert_file is Err {
        Err(ssl_client_cert_file->Err_0)
    } else if ssl_private_key_location is Err {
        Err(ssl_private_key_location->Err_0)
    } else if ssl_key_password is Err {
        Err(ssl_key_password->Err_0)
    } else if sasl_mechanisms is Err {
        Err(sasl_mechanisms->Err_0)
    } else if sasl_username is Err {
        Err(sasl_username->Err_0)
    } else if sasl_password is Err {
        Err(sasl_password->Err_0)
    } else {
        Ok(
            SettingsView {
                bootstrap_servers: bootstrap_servers->Ok_0,
                topic: topic->Ok_0,
                group: group->Ok_0,
                broker_timeout_milis: broker_timeout_milis->Ok_0,
                headers: headers->Ok_0,
                key: key->Ok_0,
                body_file: body_file->Ok_0,
                logging_level: logging_level->Ok_0,
                ssl_enabled: ssl_enabled->Ok_0,
                ssl_protocol: ssl_protocol->Ok_0,
                ssl_ca_file: ssl_ca_file->Ok_0,
                ssl_client_cert_file: ssl_client_cert_file->Ok_0,
                ssl_private_key_location: ssl_private_key_location->Ok_0,
                ssl_key_password: ssl_key_password->Ok_0,
                sasl_mechanisms: sasl_mechanisms->Ok_0,
                sasl_username: sasl_username->Ok_0,
                sasl_password: sasl_password->Ok_0,
            },
        )
    }
}

/// Whether `name` is a field that every settings document must hold.
pub open spec fn is_required_field(name: Seq<char>) -> bool {
    ||| name == "bootstrap_servers"@
    ||| name == "topic"@
    ||| name == "group"@
    ||| name == "broker_timeout_milis"@
    ||| name == "key"@
    ||| name == "body_file"@
    ||| name == "logging_level"@
    ||| name == "ssl_enabled"@
    ||| name == "ssl_protocol"@
    ||| name == "ssl_ca_file"@
    ||| name == "ssl_client_cert_file"@
    ||| name == "ssl_private_key_location"@
    ||| name == "ssl_key_password"@
    ||| name == "sasl_mechanisms"@
    ||| name == "sasl_username"@
    ||| name == "sasl_password"@
}

/// A document that lacks a required field is no settings record: reading it
/// fails, and nothing stands in for the field.
pub proof fn lemma_missing_field_is_rejected(document: Document, name: Seq<char>)
    requires
        is_required_field(name),
        spec_lookup(document, name) is Absent,
    ensures
        spec_settings(document) is Err,
{
}

/// The settings that are read from a document hold, field for field, what the
/// document holds under the field's name.
pub proof fn lemma_settings_match_document(document: Document)
    requires
        spec_settings(document) is Ok,
    ensures
        ({
            let settings = spec_settings(document)->Ok_0;
            &&& spec_lookup(document, "bootstrap_servers"@) == Lookup::Unique(
                FieldValueView::Text(settings.bootstrap_servers),
            )
            &&& spec_lookup(document, "topic"@) == Lookup::Unique(
                FieldValueView::Text(settings.topic),
            )
            &&& spec_lookup(document, "group"@) == Lookup::Unique(
                FieldValueView::Text(settings.group),
            )
            &&& spec_lookup(document, "broker_timeout_milis"@) == Lookup::Unique(
                FieldValueView::Text(settings.broker_timeout_milis),
            )
            &&& match settings.headers {
                Some(headers) => spec_lookup(document, "headers"@) == Lookup::Unique(
                    FieldValueView::Text(headers),
                ),
                None => spec_lookup(document, "headers"@) is Absent || spec_lookup(
                    document,
                    "headers"@,
                ) == Lookup::Unique(FieldValueView::Null),
            }
            &&& spec_lookup(document, "key"@) == Lookup::Unique(FieldValueView::Text(settings.key))
            &&& spec_lookup(document, "body_file"@) == Lookup::Unique(
                FieldValueView::Text(settings.body_file),
            )
            &&& spec_lookup(document, "logging_level"@) == Lookup::Unique(
                FieldValueView::Text(settings.logging_level.spec_name()),
            )
            &&& spec_lookup(document, "ssl_enabled"@) == Lookup::Unique(
                FieldValueView::Bool(settings.ssl_enabled),
            )
            &&& spec_lookup(document, "ssl_protocol"@) == Lookup::Unique(
                FieldValueView::Text(settings.ssl_protocol),
            )
            &&& spec_lookup(document, "ssl_ca_file"@) == Lookup::Unique(
                FieldValueView::Text(settings.ssl_ca_file),
            )
            &&& spec_lookup(document, "ssl_client_cert_file"@) == Lookup::Unique(
                FieldValueView::Text(settings.ssl_client_cert_file),
            )
            &&& spec_lookup(document, "ssl_private_key_location"@) == Lookup::Unique(
                FieldValueView::Text(settings.ssl_private_key_location),
            )
            &&& spec_lookup(document, "ssl_key_password"@) == Lookup::Unique(
                FieldValueView::Text(settings.ssl_key_password),
            )
            &&& spec_lookup(document, "sasl_mechanisms"@) == Lookup::Unique(
                FieldValueView::Text(settings.sasl_mechanisms),
            )
            &&& spec_lookup(document, "sasl_username"@) == Lookup::Unique(
                FieldValueView::Text(settings.sasl_username),
            )
            &&& spec_lookup(document, "sasl_password"@) == Lookup::Unique(
                FieldValueView::Text(settings.sasl_password),
            )
        }),
{
}

/// What a document holds under a name: the value of the one field with that
/// name, or `None` where there is no such field.
fn lookup<'a>(document: &'a Vec<(String, FieldValue)>, name: &str) -> (found: Result<
    Option<&'a FieldValue>,
    SettingsError,
>)
    ensures
        match spec_lookup(document.deep_view(), name@) {
            Lookup::Absent => found == (Ok::<Option<&FieldValue>, SettingsError>(None)),
            Lookup::Unique(value) => found matches Ok(Some(field)) && field.deep_view() == value,
            Lookup::Repeated => found matches Err(error) && error@
                == SettingsErrorView::DuplicateField(name@),
        },
{
    let mut found: Option<&'a FieldValue> = None;
    let mut repeated = false;
    let ghost fields = document.deep_view();
    assert(fields.take(0) =~= Seq::empty());
    for i in 0..document.len()
        invariant
            fields == document.deep_view(),
            match spec_lookup(fields.take(i as int), name@) {
                Lookup::Absent => found is None && !repeated,
                Lookup::Unique(value) => found matches Some(field) && field.deep_view() == value
                    && !repeated,
                Lookup::Repeated => repeated,
            },
    {
        proof {
            assert(fields.take(i + 1).drop_last() =~= fields.take(i as int));
            assert(fields.take(i + 1).last() == fields[i as int]);
            assert(fields[i as int] == document[i as int].deep_view());
        }
        if same_text(document[i].0.as_str(), name) {
            if found.is_some() {
                repeated = true;
            }
            found = Some(&document[i].1);
        }
    }
    assert(fields.take(document.len() as int) =~= fields);
    if repeated {
        Err(SettingsError::DuplicateField(name.to_owned()))
    } else {
        Ok(found)
    }
}

/// The error of a field that holds `found` where something else is asked for.
fn unreadable(name: &str, found: Option<&FieldValue>) -> (error: SettingsError)
    ensures
        error@ == match found {
            None => SettingsErrorView::MissingField(name@),
            Some(_) => SettingsErrorView::WrongType(name@),
        },
{
    match found {
        None => SettingsError::MissingField(name.to_owned()),
        Some(_) => SettingsError::WrongType(name.to_owned()),
    }
}

fn text_field(document: &Vec<(String, FieldValue)>, name: &str) -> (field: Result<
    String,
    SettingsError,
>)
    ensures
        match spec_text_field(document.deep_view(), name@) {
            Ok(text) => field matches Ok(t) && t@ == text,
            Err(error) => field matches Err(e) && e@ == error,
        },
{
    match lookup(document, name) {
        Err(error) => Err(error),
        Ok(Some(FieldValue::Text(text))) => Ok(copy_text(text)),
        Ok(found) => Err(unreadable(name, found)),
    }
}

fn optional_text_field(document: &Vec<(String, FieldValue)>, name: &str) -> (field: Result<
    Option<String>,
    SettingsError,
>)
    ensures
        match spec_optional_text_field(document.deep_view(), name@) {
            Ok(Some(text)) => field matches Ok(Some(t)) && t@ == text,
            Ok(None) => field == (Ok::<Option<String>, SettingsError>(None)),
            Err(error) => field matches Err(e) && e@ == error,
        },
{
    match lookup(document, name) {
        Err(error) => Err(error),
        Ok(None) => Ok(None),
        Ok(Some(FieldValue::Null)) => Ok(None),
        Ok(Some(FieldValue::Text(text))) => Ok(Some(copy_text(text))),
        Ok(found) => Err(unreadable(name, found)),
    }
}

fn flag_field(document: &Vec<(String, FieldValue)>, name: &str) -> (field: Result<
    bool,
    SettingsError,
>)
    ensures
        match spec_flag_field(document.deep_view(), name@) {
            Ok(flag) => field == (Ok::<bool, SettingsError>(flag)),
            Err(error) => field matches Err(e) && e@ == error,
        },
{
    match lookup(document, name) {
        Err(error) => Err(error),
        Ok(Some(FieldValue::Bool(flag))) => Ok(*flag),
        Ok(found) => Err(unreadable(name, found)),
    }
}

fn level_field(document: &Vec<(String, FieldValue)>, name: &str) -> (field: Result<
    LoggingLevel,
    SettingsError,
>)
    ensures
        match spec_level_field(document.deep_view(), name@) {
            Ok(level) => field == (Ok::<LoggingLevel, SettingsError>(level)),
            Err(error) => field matches Err(e) && e@ == error,
        },
{
    match lookup(document, name) {
        Err(error) => Err(error),
        Ok(Some(FieldValue::Text(text))) => match LoggingLevel::parse(text.as_str()) {
            Some(level) => Ok(level),
            None => Err(SettingsError::UnknownLoggingLevel(copy_text(text))),
        },
        Ok(found) => Err(unreadable(name, found)),
    }
}

impl Settings {
    /// Reads the settings from the fields of a document.
    ///
    /// Succeeds if and only if every field of the record can be read. The
    /// fields are read in the order of the record, and the first that cannot
    /// be read gives the error. Fields of other names are passed over.
    pub fn from_fields(document: &Vec<(String, FieldValue)>) -> (settings: Result<
        Settings,
        SettingsError,
    >)
        ensures
            match spec_settings(document.deep_view()) {
                Ok(view) => settings matches Ok(s) && s@ == view,
                Err(error) => settings matches Err(e) && e@ == error,
            },
    {
        let bootstrap_servers = match text_field(document, "bootstrap_servers") {
            Ok(text) => text,
            Err(error) => return Err(error),
        };
        let topic = match text_field(document, "topic") {
            Ok(text) => text,
            Err(error) => return Err(error),
        };
        let group = match text_field(document, "group") {
            Ok(text) => text,
            Err(error) => return Err(error),
        };
        let broker_timeout_milis = match text_field(document, "broker_timeout_milis") {
            Ok(text) => text,
            Err(error) => return Err(error),
        };
        let headers = match optional_text_field(document, "headers") {
            Ok(text) => text,
            Err(error) => return Err(error),
        };
        let key = match text_field(document, "key") {
            Ok(text) => text,
            Err(error) => return Err(error),
        };
        let body_file = match text_field(document, "body_file") {
            Ok(text) => text,
            Err(error) => return Err(error),
        };
        let logging_level = match level_field(document, "logging_level") {
            Ok(level) => level,
            Err(error) => return Err(error),
        };
        let ssl_enabled = match flag_field(document, "ssl_enabled") {
            Ok(flag) => flag,
            Err(error) => return Err(error),
        };
        let ssl_protocol = match text_field(document, "ssl_protocol") {
            Ok(text) => text,
            Err(error) => return Err(error),
        };
        let ssl_ca_file = match text_field(document, "ssl_ca_file") {
            Ok(text) => text,
            Err(error) => return Err(error),
        };
        let ssl_client_cert_file = match text_field(document, "ssl_client_cert_file") {
            Ok(text) => text,
            Err(error) => return Err(error),
        };
        let ssl_private_key_location = match text_field(document, "ssl_private_key_location") {
            Ok(text) => text,
            Err(error) => return Err(error),
        };
        let ssl_key_password = match text_field(document, "ssl_key_password") {
            Ok(text) => text,
            Err(error) => return Err(error),
        };
        let sasl_mechanisms = match text_field(document, "sasl_mechanisms") {
            Ok(text) => text,
            Err(error) => return Err(error),
        };
        let sasl_username = match text_field(document, "sasl_username") {
            Ok(text) => text,
            Err(error) => return Err(error),
        };
        let sasl_password = match text_field(document, "sasl_password") {
            Ok(text) => text,
            Err(error) => return Err(error),
        };
        Ok(
            Settings {
                bootstrap_servers,
                topic,
                group,
                broker_timeout_milis,
                headers,
                key,
                body_file,
                logging_level,
                ssl_enabled,
                ssl_protocol,
                ssl_ca_file,
                ssl_client_cert_file,
                ssl_private_key_location,
                ssl_key_password,
                sasl_mechanisms,
                sasl_username,
                sasl_password,
            },
        )
    }
}

} // verus!
