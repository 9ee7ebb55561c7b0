//! The websocket connector: its descriptor, and the compilation of settings
//! and of raw options into a connection.

use vstd::prelude::*;
use vstd::string::*;
use crate::config::{
    compiled_view, CompileError, CompileFailure, Connection, ConnectionRecord, ConnectionSchema,
    ConnectionType, EmptyConfig, Format, OperatorConfig, OperatorSettings,
};
use crate::descriptor::{ConnectorDescriptor, Descriptor};
use crate::json::first_named;
use crate::options::{pull_opt, RawOptions};
use crate::session::{ConnectionTestSession, Session};
use crate::table::{lemma_table_round_trip, SubscriptionMessage, TableSettings, WebsocketTable};

verus! {

/// The JSON schema of the table settings: `endpoint` is required,
/// `subscription_message` is not.
pub const TABLE_SCHEMA: &'static str =
    "{\"type\":\"object\",\"title\":\"WebsocketTable\",\"properties\":{\"endpoint\":{\"title\":\"Endpoint\",\"type\":\"string\",\"description\":\"The websocket URL to connect to\",\"format\":\"uri\"},\"subscription_message\":{\"title\":\"Subscription Message\",\"type\":\"string\",\"description\":\"A message to send to the server once the socket is open\"}},\"required\":[\"endpoint\"]}";

/// The icon of the connector, as SVG.
pub const ICON: &'static str =
    "<svg xmlns=\"http://www.w3.org/2000/svg\" viewBox=\"0 0 24 24\" fill=\"none\" stroke=\"currentColor\" stroke-width=\"2\"><path d=\"M4 8h10l-3-3\"/><path d=\"M20 16H10l3 3\"/></svg>";

/// The key under which the engine finds the operator that reads a websocket.
pub const OPERATOR: &'static str = "connectors::websocket::WebsocketSourceFunc";

/// The connector for websocket sources.
#[derive(Debug)]
pub struct WebsocketConnector {}

/// What the websocket connector says of itself.
pub open spec fn websocket_descriptor() -> Descriptor {
    Descriptor {
        id: "websocket"@,
        name: "Websocket"@,
        icon: ICON@,
        description: "Connect to a Websocket server"@,
        enabled: true,
        source: true,
        sink: false,
        testing: true,
        hidden: false,
        custom_schemas: true,
        connection_config: None,
        table_config: TABLE_SCHEMA@,
    }
}

/// The summary of a table that a connection carries as its description.
pub open spec fn description_of(table: TableSettings) -> Seq<char> {
    "WebsocketSource<"@ + table.endpoint + ">"@
}

/// The operator configuration that compilation builds for `table`.
pub open spec fn operator_settings(table: TableSettings, format: Format) -> OperatorSettings {
    OperatorSettings {
        connection: EmptyConfig::json(),
        table: table.json(),
        rate_limit: None,
        format: Some(format),
    }
}

/// The schema that the caller handed in, if any.
pub open spec fn given(schema: Option<&ConnectionSchema>) -> Option<ConnectionSchema> {
    match schema {
        Some(schema) => Some(*schema),
        None => None,
    }
}

/// What compiling `table` yields: the connection, or the reason why there is
/// none. Without a schema there is none, and neither when the schema leaves
/// the format open.
pub open spec fn compile(
    id: Option<i64>,
    name: Seq<char>,
    table: TableSettings,
    schema: Option<ConnectionSchema>,
) -> Result<ConnectionRecord, CompileFailure> {
    match schema {
        None => Err(CompileFailure::MissingSchema),
        Some(schema) => match schema.format {
            None => Err(CompileFailure::MissingFormat),
            Some(format) => Ok(
                ConnectionRecord {
                    id,
                    name,
                    connection_type: ConnectionType::Source,
                    schema,
                    operator: OPERATOR@,
                    config: operator_settings(table, format).json().rendered(),
                    description: description_of(table),
                },
            ),
        },
    }
}

/// The table settings that raw options stand for, if they name an endpoint.
pub open spec fn table_of(options: Map<Seq<char>, Seq<char>>) -> Option<TableSettings> {
    if options.contains_key("endpoint"@) {
        Some(
            TableSettings {
                endpoint: options["endpoint"@],
                subscription_message: if options.contains_key("subscription_message"@) {
                    Some(options["subscription_message"@])
                } else {
                    None
                },
            },
        )
    } else {
        None
    }
}

/// What compiling raw options yields.
pub open spec fn compile_options(
    name: Seq<char>,
    options: Map<Seq<char>, Seq<char>>,
    schema: Option<ConnectionSchema>,
) -> Result<ConnectionRecord, CompileFailure> {
    match table_of(options) {
        Some(table) => compile(None, name, table, schema),
        None => Err(CompileFailure::MissingOption("endpoint"@)),
    }
}

/// The options that compilation leaves: those it does not know. When the
/// endpoint is missing it stops before it takes anything.
pub open spec fn unconsumed(options: Map<Seq<char>, Seq<char>>) -> Map<Seq<char>, Seq<char>> {
    if options.contains_key("endpoint"@) {
        options.remove("endpoint"@).remove("subscription_message"@)
    } else {
        options
    }
}

/// The table of a compiled operator configuration, read back, is the table
/// that was compiled, and so are the connection-level settings; both are
/// found in the configuration's document under their names.
pub proof fn lemma_operator_config_round_trip(table: TableSettings, format: Format)
    ensures
        TableSettings::parsed(operator_settings(table, format).table) == Some(table),
        EmptyConfig::parsed(operator_settings(table, format).connection) == Some(EmptyConfig {  }),
        operator_settings(table, format).json().field("table"@) == Some(table.json()),
        operator_settings(table, format).json().field("connection"@) == Some(
            EmptyConfig::json(),
        ),
{
    lemma_table_round_trip(table);
    reveal_strlit("table");
    reveal_strlit("connection");
    assert("table"@.len() != "connection"@.len());
    reveal_with_fuel(first_named, 3);
}

impl WebsocketConnector {
    /// The name of the connector.
    pub fn name(&self) -> (name: &'static str)
        ensures
            name@ == "websocket"@,
    {
        "websocket"
    }

    /// The descriptor of the connector.
    pub fn metadata(&self) -> (descriptor: ConnectorDescriptor)
        ensures
            descriptor@ == websocket_descriptor(),
    {
        ConnectorDescriptor {
            id: String::from_str("websocket"),
            name: String::from_str("Websocket"),
            icon: String::from_str(ICON),
            description: String::from_str("Connect to a Websocket server"),
            enabled: true,
            source: true,
            sink: false,
            testing: true,
            hidden: false,
            custom_schemas: true,
            connection_config: None,
            table_config: String::from_str(TABLE_SCHEMA),
        }
    }

    /// Which way the data flows: a websocket table is always a source.
    pub fn table_type(&self, config: EmptyConfig, table: WebsocketTable) -> (kind: ConnectionType)
        ensures
            kind == ConnectionType::Source,
    {
        ConnectionType::Source
    }

    /// Begins a connectivity test of `table`: the session that comes back is
    /// about to connect, and its driver takes it from there.
    pub fn test(
        &self,
        name: &str,
        config: EmptyConfig,
        table: WebsocketTable,
        schema: Option<&ConnectionSchema>,
    ) -> (session: ConnectionTestSession)
        ensures
            session@ == Session::start(table@),
    {
        ConnectionTestSession::new(table)
    }

    /// Compiles settings into a connection.
    pub fn from_config(
        &self,
        id: Option<i64>,
        name: &str,
        config: EmptyConfig,
        table: WebsocketTable,
        schema: Option<&ConnectionSchema>,
    ) -> (result: Result<Connection, CompileError>)
        ensures
            compiled_view(result) == compile(id, name@, table@, given(schema)),
            schema is None ==> result matches Err(CompileError::MissingSchema),
            (schema matches Some(schema) && schema.format is None) ==> result matches Err(
                CompileError::MissingFormat,
            ),
            (schema matches Some(schema) && schema.format is Some) ==> result is Ok,
    {
        let description = String::from_str("WebsocketSource<").concat(
            table.endpoint.as_str(),
        ).concat(">");
        let schema = match schema {
            Some(schema) => *schema,
            None => {
                return Err(CompileError::MissingSchema);
            },
        };
        let format = match schema.format {
            Some(format) => format,
            None => {
                return Err(CompileError::MissingFormat);
            },
        };
        let config = OperatorConfig {
            connection: config.to_json(),
            table: table.to_json(),
            rate_limit: None,
            format: Some(format),
        };
        Ok(
            Connection {
                id,
                name: name.to_owned(),
                connection_type: ConnectionType::Source,
                schema,
                operator: String::from_str(OPERATOR),
                config: config.to_json().render(),
                description,
            },
        )
    }

    /// Compiles raw options into a connection, and takes the options that it
    /// knows out of `opts`: what is left there was not recognised.
    pub fn from_options(
        &self,
        name: &str,
        opts: &mut RawOptions,
        schema: Option<&ConnectionSchema>,
    ) -> (result: Result<Connection, CompileError>)
        ensures
            compiled_view(result) == compile_options(name@, old(opts)@, given(schema)),
            final(opts)@ == unconsumed(old(opts)@),
            !old(opts)@.contains_key("endpoint"@) ==> (result matches Err(
                CompileError::MissingOption(missing),
            ) && missing@ == "endpoint"@),
    {
        proof {
            reveal_strlit("endpoint");
            reveal_strlit("subscription_message");
            assert("endpoint"@.len() != "subscription_message"@.len());
        }
        let endpoint = match pull_opt("endpoint", opts) {
            Ok(endpoint) => endpoint,
            Err(error) => {
                assert(opts@ =~= old(opts)@);
                return Err(error);
            },
        };
        let subscription_message = match opts.remove("subscription_message") {
            Some(message) => Some(SubscriptionMessage(message)),
            None => None,
        };
        self.from_config(
            None,
            name,
            EmptyConfig {  },
            WebsocketTable { endpoint, subscription_message },
            schema,
        )
    }
}

} // verus!
