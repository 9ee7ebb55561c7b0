//! What compilation works with and what it yields: the schema of a
//! connection, the operator configuration handed to the engine, the
//! connection record, and the errors that stop compilation.

use vstd::prelude::*;
use vstd::string::*;
use crate::json::{lemma_member_views, Json, JsonValue};

verus! {

/// Which way the data of a connection flows.
#[derive(Clone, Copy, Debug, PartialEq, Eq, Structural)]
pub enum ConnectionType {
    Source,
    Sink,
}

/// How the records of a connection are written on the wire.
#[derive(Clone, Copy, Debug, PartialEq, Eq, Structural)]
pub enum Format {
    Json,
    Avro,
    Parquet,
    RawString,
}

impl Format {
    /// The name under which the format appears in an operator configuration.
    pub open spec fn name(self) -> Seq<char> {
        match self {
            Format::Json => "json"@,
            Format::Avro => "avro"@,
            Format::Parquet => "parquet"@,
            Format::RawString => "raw_string"@,
        }
    }

    /// The name under which the format appears in an operator configuration.
    pub fn as_str(&self) -> (name: &'static str)
        ensures
            name@ == self.name(),
    {
        match self {
            Format::Json => "json",
            Format::Avro => "avro",
            Format::Parquet => "parquet",
            Format::RawString => "raw_string",
        }
    }
}

/// The data-format contract of a connection. The format may be left open
/// while a connection is being set up; compilation needs it.
#[derive(Clone, Copy, Debug, PartialEq, Eq, Structural)]
pub struct ConnectionSchema {
    pub format: Option<Format>,
}

/// A limit on how fast an operator may emit.
#[derive(Clone, Copy, Debug, PartialEq, Eq, Structural)]
pub struct RateLimit {
    pub messages_per_second: u32,
}

/// The connection-level settings of a connector that has none.
#[derive(Clone, Copy, Debug, PartialEq, Eq, Structural)]
pub struct EmptyConfig {}

impl EmptyConfig {
    /// The document that stands for the settings: an object without members.
    pub open spec fn json() -> Json {
        Json::Object(Seq::empty())
    }

    /// The settings that a document stands for: any object does, whatever
    /// its members.
    pub open spec fn parsed(doc: Json) -> Option<EmptyConfig> {
        if doc is Object {
            Some(EmptyConfig {  })
        } else {
            None
        }
    }

    /// Writes the settings as a document.
    pub fn to_json(&self) -> (doc: JsonValue)
        ensures
            doc@ == Self::json(),
    {
        let doc = JsonValue::Object(Vec::new());
        proof {
            lemma_member_views(doc->Object_0@, 0);
            assert(doc@->Object_0 =~= Seq::empty());
        }
        doc
    }

    /// Reads the settings back from a document.
    pub fn from_json(doc: &JsonValue) -> (settings: Option<EmptyConfig>)
        ensures
            settings == Self::parsed(doc@),
    {
        match doc {
            JsonValue::Object(_) => Some(EmptyConfig {  }),
            _ => None,
        }
    }
}

/// The configuration that the engine is handed for one operator.
#[derive(Debug)]
pub struct OperatorConfig {
    /// The connection-level settings, as a document.
    pub connection: JsonValue,
    /// The table settings, as a document.
    pub table: JsonValue,
    pub rate_limit: Option<RateLimit>,
    pub format: Option<Format>,
}

/// The mathematical value of an [`OperatorConfig`].
pub struct OperatorSettings {
    pub connection: Json,
    pub table: Json,
    pub rate_limit: Option<RateLimit>,
    pub format: Option<Format>,
}

impl View for OperatorConfig {
    type V = OperatorSettings;

    open spec fn view(&self) -> OperatorSettings {
        OperatorSettings {
            connection: self.connection@,
            table: self.table@,
            rate_limit: self.rate_limit,
            format: self.format,
        }
    }
}

/// The document that stands for an optional rate limit.
pub open spec fn rate_limit_json(rate_limit: Option<RateLimit>) -> Json {
    match rate_limit {
        Some(limit) => Json::Object(
            seq![("messages_per_second"@, Json::Number(limit.messages_per_second as nat))],
        ),
        None => Json::Null,
    }
}

/// The document that stands for an optional format.
pub open spec fn format_json(format: Option<Format>) -> Json {
    match format {
        Some(format) => Json::String(format.name()),
        None => Json::Null,
    }
}

impl OperatorSettings {
    /// The document that stands for the configuration: an object with the
    /// members `connection`, `table`, `rate_limit` and `format`, in this
    /// order.
    pub open spec fn json(self) -> Json {
        Json::Object(
            seq![
                ("connection"@, self.connection),
                ("table"@, self.table),
                ("rate_limit"@, rate_limit_json(self.rate_limit)),
                ("format"@, format_json(self.format)),
            ],
        )
    }
}

/// Writes an optional rate limit as a document.
pub fn rate_limit_to_json(rate_limit: Option<RateLimit>) -> (doc: JsonValue)
    ensures
        doc@ == rate_limit_json(rate_limit),
{
    match rate_limit {
        Some(limit) => {
            let mut members: Vec<(String, JsonValue)> = Vec::new();
            members.push(
                (
                    String::from_str("messages_per_second"),
                    JsonValue::Number(limit.messages_per_second as u64),
                ),
            );
            let doc = JsonValue::Object(members);
            proof {
                lemma_member_views(doc->Object_0@, 1);
                assert(doc@->Object_0 =~= rate_limit_json(rate_limit)->Object_0);
            }
            doc
        },
        None => JsonValue::Null,
    }
}

/// Writes an optional format as a document.
pub fn format_to_json(format: Option<Format>) -> (doc: JsonValue)
    ensures
        doc@ == format_json(format),
{
    match format {
        Some(format) => JsonValue::String(String::from_str(format.as_str())),
        None => JsonValue::Null,
    }
}

impl OperatorConfig {
    /// Writes the configuration as a document.
    pub fn to_json(self) -> (doc: JsonValue)
        ensures
            doc@ == self@.json(),
    {
        let ghost settings = self@;
        let mut members: Vec<(String, JsonValue)> = Vec::new();
        members.push((String::from_str("connection"), self.connection));
        members.push((String::from_str("table"), self.table));
        members.push((String::from_str("rate_limit"), rate_limit_to_json(self.rate_limit)));
        members.push((String::from_str("format"), format_to_json(self.format)));
        let doc = JsonValue::Object(members);
        proof {
            lemma_member_views(doc->Object_0@, 4);
            assert(doc@->Object_0 =~= settings.json()->Object_0);
        }
        doc
    }
}

/// The record of a compiled connection.
#[derive(Debug)]
pub struct Connection {
    pub id: Option<i64>,
    pub name: String,
    pub connection_type: ConnectionType,
    pub schema: ConnectionSchema,
    /// The key under which the engine finds the operator to run.
    pub operator: String,
    /// The operator configuration, as JSON text.
    pub config: String,
    pub description: String,
}

/// The mathematical value of a [`Connection`].
pub struct ConnectionRecord {
    pub id: Option<i64>,
    pub name: Seq<char>,
    pub connection_type: ConnectionType,
    pub schema: ConnectionSchema,
    pub operator: Seq<char>,
    pub config: Seq<char>,
    pub description: Seq<char>,
}

impl View for Connection {
    type V = ConnectionRecord;

    open spec fn view(&self) -> ConnectionRecord {
        ConnectionRecord {
            id: self.id,
            name: self.name@,
            connection_type: self.connection_type,
            schema: self.schema,
            operator: self.operator@,
            config: self.config@,
            description: self.description@,
        }
    }
}

/// Why a connection could not be compiled.
#[derive(Debug)]
pub enum CompileError {
    /// A required option is not among the options given; the text is its name.
    MissingOption(String),
    /// No schema was given.
    MissingSchema,
    /// The schema leaves the format open.
    MissingFormat,
}

/// The mathematical value of a [`CompileError`].
pub enum CompileFailure {
    MissingOption(Seq<char>),
    MissingSchema,
    MissingFormat,
}

impl View for CompileError {
    type V = CompileFailure;

    open spec fn view(&self) -> CompileFailure {
        match self {
            CompileError::MissingOption(name) => CompileFailure::MissingOption(name@),
            CompileError::MissingSchema => CompileFailure::MissingSchema,
            CompileError::MissingFormat => CompileFailure::MissingFormat,
        }
    }
}

impl CompileFailure {
    /// The error in words.
    pub open spec fn message(self) -> Seq<char> {
        match self {
            CompileFailure::MissingOption(name) => "required option '"@ + name + "' not set"@,
            CompileFailure::MissingSchema => "no schema defined for WebSocket connection"@,
            CompileFailure::MissingFormat => "'format' must be set for WebSocket connection"@,
        }
    }
}

impl CompileError {
    /// The error in words.
    pub fn message(&self) -> (text: String)
        ensures
            text@ == self@.message(),
    {
        match self {
            CompileError::MissingOption(name) => String::from_str("required option '").concat(
                name.as_str(),
            ).concat("' not set"),
            CompileError::MissingSchema => String::from_str(
                "no schema defined for WebSocket connection",
            ),
            CompileError::MissingFormat => String::from_str(
                "'format' must be set for WebSocket connection",
            ),
        }
    }
}

/// The value of the result of a compilation.
pub open spec fn compiled_view(result: Result<Connection, CompileError>) -> Result<
    ConnectionRecord,
    CompileFailure,
> {
    match result {
        Ok(connection) => Ok(connection@),
        Err(error) => Err(error@),
    }
}

} // verus!
