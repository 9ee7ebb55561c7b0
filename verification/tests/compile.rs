use websocket_connector::config::{
    CompileError, ConnectionSchema, ConnectionType, EmptyConfig, Format, OperatorConfig,
    RateLimit,
};
use websocket_connector::connector::{WebsocketConnector, ICON, OPERATOR, TABLE_SCHEMA};
use websocket_connector::json::JsonValue;
use websocket_connector::options::{pull_opt, RawOptions};
use websocket_connector::table::{SubscriptionMessage, WebsocketTable};

fn json_schema() -> ConnectionSchema {
    ConnectionSchema { format: Some(Format::Json) }
}

fn options(pairs: &[(&str, &str)]) -> RawOptions {
    let mut opts = RawOptions::new();
    for (name, text) in pairs {
        opts.insert(name.to_string(), text.to_string());
    }
    opts
}

#[test]
fn from_options_compiles_a_source() {
    let mut opts = options(&[("endpoint", "ws://host/feed")]);
    let schema = json_schema();
    let connection =
        WebsocketConnector {}.from_options("feed", &mut opts, Some(&schema)).unwrap();
    assert_eq!(connection.connection_type, ConnectionType::Source);
    assert_eq!(connection.description, "WebsocketSource<ws://host/feed>");
    assert_eq!(connection.id, None);
    assert_eq!(connection.name, "feed");
    assert_eq!(connection.schema, schema);
    assert_eq!(connection.operator, "connectors::websocket::WebsocketSourceFunc");
    assert_eq!(connection.operator, OPERATOR);
    assert_eq!(
        connection.config,
        "{\"connection\":{},\"table\":{\"endpoint\":\"ws://host/feed\"},\"rate_limit\":null,\"format\":\"json\"}"
    );
    assert!(opts.is_empty());
}

#[test]
fn from_options_without_endpoint_fails() {
    let mut opts = options(&[("subscription_message", "hello"), ("extra", "1")]);
    let schema = json_schema();
    let result = WebsocketConnector {}.from_options("feed", &mut opts, Some(&schema));
    match result {
        Err(CompileError::MissingOption(name)) => assert_eq!(name, "endpoint"),
        other => panic!("unexpected result {:?}", other),
    }
    assert_eq!(opts.len(), 2);
    assert!(opts.contains_key("subscription_message"));
    assert!(opts.contains_key("extra"));
}

#[test]
fn from_options_takes_what_it_knows_and_leaves_the_rest() {
    let mut opts = options(&[
        ("color", "blue"),
        ("endpoint", "wss://example.com/ws"),
        ("subscription_message", "{\"type\":\"subscribe\"}"),
        ("retries", "3"),
    ]);
    let schema = ConnectionSchema { format: Some(Format::RawString) };
    let connection =
        WebsocketConnector {}.from_options("prices", &mut opts, Some(&schema)).unwrap();
    assert_eq!(
        connection.config,
        "{\"connection\":{},\"table\":{\"endpoint\":\"wss://example.com/ws\",\"subscription_message\":\"{\\\"type\\\":\\\"subscribe\\\"}\"},\"rate_limit\":null,\"format\":\"raw_string\"}"
    );
    assert_eq!(opts.keys(), vec!["color".to_string(), "retries".to_string()]);
}

#[test]
fn from_options_consumes_its_keys_even_when_the_schema_is_missing() {
    let mut opts = options(&[("endpoint", "ws://h"), ("subscription_message", "s"), ("x", "y")]);
    let result = WebsocketConnector {}.from_options("feed", &mut opts, None);
    assert!(matches!(result, Err(CompileError::MissingSchema)));
    assert_eq!(opts.keys(), vec!["x".to_string()]);
}

#[test]
fn from_config_without_schema_fails() {
    let table = WebsocketTable { endpoint: "ws://h".to_string(), subscription_message: None };
    let result = WebsocketConnector {}.from_config(Some(7), "feed", EmptyConfig {}, table, None);
    assert!(matches!(result, Err(CompileError::MissingSchema)));
}

#[test]
fn from_config_without_format_fails() {
    let table = WebsocketTable { endpoint: "ws://h".to_string(), subscription_message: None };
    let schema = ConnectionSchema { format: None };
    let result =
        WebsocketConnector {}.from_config(Some(7), "feed", EmptyConfig {}, table, Some(&schema));
    assert!(matches!(result, Err(CompileError::MissingFormat)));
}

#[test]
fn from_config_keeps_id_and_name() {
    let table = WebsocketTable {
        endpoint: "ws://h".to_string(),
        subscription_message: Some(SubscriptionMessage("sub".to_string())),
    };
    let schema = ConnectionSchema { format: Some(Format::Avro) };
    let connection = WebsocketConnector {}
        .from_config(Some(-3), "prices", EmptyConfig {}, table, Some(&schema))
        .unwrap();
    assert_eq!(connection.id, Some(-3));
    assert_eq!(connection.name, "prices");
    assert_eq!(connection.schema.format, Some(Format::Avro));
    assert_eq!(connection.description, "WebsocketSource<ws://h>");
}

#[test]
fn compiled_config_reads_back_with_serde_json() {
    let table = WebsocketTable {
        endpoint: "ws://host/\"quoted\"\\path\n".to_string(),
        subscription_message: Some(SubscriptionMessage("tab\there \u{1} é".to_string())),
    };
    let schema = ConnectionSchema { format: Some(Format::Parquet) };
    let connection = WebsocketConnector {}
        .from_config(None, "feed", EmptyConfig {}, table, Some(&schema))
        .unwrap();
    let value: serde_json::Value = serde_json::from_str(&connection.config).unwrap();
    let object = value.as_object().unwrap();
    assert_eq!(object.len(), 4);
    assert_eq!(object["connection"], serde_json::Value::Object(serde_json::Map::new()));
    assert_eq!(object["table"]["endpoint"], "ws://host/\"quoted\"\\path\n");
    assert_eq!(object["table"]["subscription_message"], "tab\there \u{1} é");
    assert_eq!(object["table"].as_object().unwrap().len(), 2);
    assert!(object["rate_limit"].is_null());
    assert_eq!(object["format"], "parquet");
}

#[test]
fn compile_errors_read_as_sentences() {
    assert_eq!(
        CompileError::MissingOption("endpoint".to_string()).message(),
        "required option 'endpoint' not set"
    );
    assert_eq!(
        CompileError::MissingSchema.message(),
        "no schema defined for WebSocket connection"
    );
    assert_eq!(
        CompileError::MissingFormat.message(),
        "'format' must be set for WebSocket connection"
    );
}

#[test]
fn pull_opt_takes_the_option_out() {
    let mut opts = options(&[("a", "1"), ("b", "2")]);
    assert_eq!(pull_opt("a", &mut opts).unwrap(), "1");
    assert!(!opts.contains_key("a"));
    match pull_opt("a", &mut opts) {
        Err(CompileError::MissingOption(name)) => assert_eq!(name, "a"),
        other => panic!("unexpected result {:?}", other),
    }
    assert_eq!(opts.len(), 1);
}

#[test]
fn table_round_trips_through_its_document() {
    let tables = vec![
        WebsocketTable { endpoint: "ws://host/feed".to_string(), subscription_message: None },
        WebsocketTable {
            endpoint: "".to_string(),
            subscription_message: Some(SubscriptionMessage("".to_string())),
        },
        WebsocketTable {
            endpoint: "wss://x/\"y\"".to_string(),
            subscription_message: Some(SubscriptionMessage("{\"a\":1}".to_string())),
        },
    ];
    for table in tables.iter() {
        let config = OperatorConfig {
            connection: EmptyConfig {}.to_json(),
            table: table.to_json(),
            rate_limit: None,
            format: Some(Format::Json),
        };
        let back = WebsocketTable::from_json(&config.table).unwrap();
        assert_eq!(back.endpoint, table.endpoint);
        assert_eq!(
            back.subscription_message.map(|m| m.0),
            table.subscription_message.clone().map(|m| m.0)
        );
        assert_eq!(EmptyConfig::from_json(&config.connection), Some(EmptyConfig {}));
    }
}

#[test]
fn table_is_read_only_from_a_fitting_document() {
    let endpoint = ("endpoint".to_string(), JsonValue::String("ws://h".to_string()));
    let absent = JsonValue::Object(vec![(
        "subscription_message".to_string(),
        JsonValue::String("s".to_string()),
    )]);
    assert!(WebsocketTable::from_json(&absent).is_none());
    let number = JsonValue::Object(vec![("endpoint".to_string(), JsonValue::Number(1))]);
    assert!(WebsocketTable::from_json(&number).is_none());
    assert!(WebsocketTable::from_json(&JsonValue::Null).is_none());
    let null_message = JsonValue::Object(vec![
        ("endpoint".to_string(), JsonValue::String("ws://h".to_string())),
        ("subscription_message".to_string(), JsonValue::Null),
    ]);
    let table = WebsocketTable::from_json(&null_message).unwrap();
    assert!(table.subscription_message.is_none());
    let bad_message = JsonValue::Object(vec![
        ("endpoint".to_string(), JsonValue::String("ws://h".to_string())),
        ("subscription_message".to_string(), JsonValue::Bool(true)),
    ]);
    assert!(WebsocketTable::from_json(&bad_message).is_none());
    let extra = JsonValue::Object(vec![("other".to_string(), JsonValue::Number(3)), endpoint]);
    assert_eq!(WebsocketTable::from_json(&extra).unwrap().endpoint, "ws://h");
    assert!(EmptyConfig::from_json(&extra).is_some());
    assert!(EmptyConfig::from_json(&JsonValue::Bool(false)).is_none());
}

#[test]
fn operator_config_with_rate_limit_renders_it() {
    let config = OperatorConfig {
        connection: EmptyConfig {}.to_json(),
        table: WebsocketTable { endpoint: "ws://h".to_string(), subscription_message: None }
            .to_json(),
        rate_limit: Some(RateLimit { messages_per_second: 250 }),
        format: None,
    };
    assert_eq!(
        config.to_json().render(),
        "{\"connection\":{},\"table\":{\"endpoint\":\"ws://h\"},\"rate_limit\":{\"messages_per_second\":250},\"format\":null}"
    );
}

#[test]
fn format_names() {
    assert_eq!(Format::Json.as_str(), "json");
    assert_eq!(Format::Avro.as_str(), "avro");
    assert_eq!(Format::Parquet.as_str(), "parquet");
    assert_eq!(Format::RawString.as_str(), "raw_string");
}

#[test]
fn descriptor_of_the_connector() {
    let connector = WebsocketConnector {};
    assert_eq!(connector.name(), "websocket");
    let descriptor = connector.metadata();
    assert_eq!(descriptor.id, "websocket");
    assert_eq!(descriptor.name, "Websocket");
    assert_eq!(descriptor.description, "Connect to a Websocket server");
    assert_eq!(descriptor.icon, ICON);
    assert!(descriptor.enabled);
    assert!(descriptor.source);
    assert!(!descriptor.sink);
    assert!(descriptor.testing);
    assert!(!descriptor.hidden);
    assert!(descriptor.custom_schemas);
    assert_eq!(descriptor.connection_config, None);
    assert_eq!(descriptor.table_config, TABLE_SCHEMA);
    let table = WebsocketTable { endpoint: "ws://h".to_string(), subscription_message: None };
    assert_eq!(connector.table_type(EmptyConfig {}, table), ConnectionType::Source);
}

#[test]
fn table_schema_names_the_fields_of_the_table() {
    let schema: serde_json::Value = serde_json::from_str(TABLE_SCHEMA).unwrap();
    assert_eq!(schema["type"], "object");
    let required: Vec<&str> =
        schema["required"].as_array().unwrap().iter().map(|v| v.as_str().unwrap()).collect();
    assert_eq!(required, vec!["endpoint"]);
    let properties = schema["properties"].as_object().unwrap();
    let mut names: Vec<&str> = properties.keys().map(|k| k.as_str()).collect();
    names.sort();
    assert_eq!(names, vec!["endpoint", "subscription_message"]);
    assert_eq!(properties["endpoint"]["type"], "string");
    assert_eq!(properties["subscription_message"]["type"], "string");
}
