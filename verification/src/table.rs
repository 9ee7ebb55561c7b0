//! The per-table settings of a websocket source.

use vstd::prelude::*;
use vstd::string::*;
use crate::json::{first_named, lemma_member_views, Json, JsonValue};

verus! {

/// The text sent verbatim to the server once the socket is open.
#[derive(Debug)]
pub struct SubscriptionMessage(pub String);

impl View for SubscriptionMessage {
    type V = Seq<char>;

    open spec fn view(&self) -> Seq<char> {
        self.0@
    }
}

impl Clone for SubscriptionMessage {
    fn clone(&self) -> (copy: Self)
        ensures
            copy@ == self@,
    {
        SubscriptionMessage(self.0.clone())
    }
}

/// The settings of one websocket table: where to connect, and what to send
/// after connecting, if anything.
#[derive(Debug)]
pub struct WebsocketTable {
    pub endpoint: String,
    pub subscription_message: Option<SubscriptionMessage>,
}

/// The mathematical value of a [`WebsocketTable`].
pub struct TableSettings {
    pub endpoint: Seq<char>,
    pub subscription_message: Option<Seq<char>>,
}

impl View for WebsocketTable {
    type V = TableSettings;

    open spec fn view(&self) -> TableSettings {
        TableSettings {
            endpoint: self.endpoint@,
            subscription_message: match self.subscription_message {
                Some(message) => Some(message@),
                None => None,
            },
        }
    }
}

impl Clone for WebsocketTable {
    fn clone(&self) -> (copy: Self)
        ensures
            copy@ == self@,
    {
        let subscription_message = match &self.subscription_message {
            Some(message) => Some(message.clone()),
            None => None,
        };
        WebsocketTable { endpoint: self.endpoint.clone(), subscription_message }
    }
}

impl TableSettings {
    /// The document that stands for the settings: an object with the member
    /// `endpoint` and, when there is a subscription message, the member
    /// `subscription_message` after it.
    pub open spec fn json(self) -> Json {
        match self.subscription_message {
            Some(message) => Json::Object(
                seq![
                    ("endpoint"@, Json::String(self.endpoint)),
                    ("subscription_message"@, Json::String(message)),
                ],
            ),
            None => Json::Object(seq![("endpoint"@, Json::String(self.endpoint))]),
        }
    }

    /// The settings that a document stands for, if it stands for any: it
    /// must have a text under `endpoint`, and under `subscription_message`
    /// a text, `null` or nothing. Other members do not count.
    pub open spec fn parsed(doc: Json) -> Option<TableSettings> {
        match doc.field("endpoint"@) {
            Some(Json::String(endpoint)) => match doc.field("subscription_message"@) {
                Some(Json::String(message)) => Some(
                    TableSettings { endpoint, subscription_message: Some(message) },
                ),
                Some(Json::Null) | None => Some(
                    TableSettings { endpoint, subscription_message: None },
                ),
                _ => None,
            },
            _ => None,
        }
    }
}

/// Settings written as a document and read back are the same settings.
pub proof fn lemma_table_round_trip(table: TableSettings)
    ensures
        TableSettings::parsed(table.json()) == Some(table),
{
    reveal_strlit("endpoint");
    reveal_strlit("subscription_message");
    assert("endpoint"@.len() != "subscription_message"@.len());
    reveal_with_fuel(first_named, 3);
}

impl WebsocketTable {
    /// Writes the settings as a document.
    pub fn to_json(&self) -> (doc: JsonValue)
        ensures
            doc@ == self@.json(),
    {
        let mut members: Vec<(String, JsonValue)> = Vec::new();
        members.push((String::from_str("endpoint"), JsonValue::String(self.endpoint.clone())));
        match &self.subscription_message {
            Some(message) => {
                members.push(
                    (
                        String::from_str("subscription_message"),
                        JsonValue::String(message.0.clone()),
                    ),
                );
            },
            None => {},
        }
        let doc = JsonValue::Object(members);
        proof {
            lemma_member_views(doc->Object_0@, doc->Object_0@.len());
            assert(doc@->Object_0 =~= self@.json()->Object_0);
        }
        doc
    }

    /// Reads settings back from a document, if the document stands for any.
    pub fn from_json(doc: &JsonValue) -> (table: Option<WebsocketTable>)
        ensures
            match table {
                Some(table) => TableSettings::parsed(doc@) == Some(table@),
                None => TableSettings::parsed(doc@) is None,
            },
    {
        let endpoint = match doc.get("endpoint") {
            Some(JsonValue::String(endpoint)) => endpoint.clone(),
            _ => {
                return None;
            },
        };
        let subscription_message = match doc.get("subscription_message") {
            Some(JsonValue::String(message)) => Some(SubscriptionMessage(message.clone())),
            Some(JsonValue::Null) => None,
            None => None,
            _ => {
                return None;
            },
        };
        Some(WebsocketTable { endpoint, subscription_message })
    }
}

} // verus!
