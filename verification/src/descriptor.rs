//! What a connector says of itself.

use vstd::prelude::*;

verus! {

/// The descriptor of a connector type: who it is, how it is shown, what it
/// can do, and the JSON schemas of its settings.
#[derive(Debug)]
pub struct ConnectorDescriptor {
    pub id: String,
    pub name: String,
    pub icon: String,
    pub description: String,
    pub enabled: bool,
    pub source: bool,
    pub sink: bool,
    pub testing: bool,
    pub hidden: bool,
    pub custom_schemas: bool,
    /// The schema of the connection-level settings, where there are any.
    pub connection_config: Option<String>,
    /// The schema of the table settings.
    pub table_config: String,
}

/// The mathematical value of a [`ConnectorDescriptor`].
pub struct Descriptor {
    pub id: Seq<char>,
    pub name: Seq<char>,
    pub icon: Seq<char>,
    pub description: Seq<char>,
    pub enabled: bool,
    pub source: bool,
    pub sink: bool,
    pub testing: bool,
    pub hidden: bool,
    pub custom_schemas: bool,
    pub connection_config: Option<Seq<char>>,
    pub table_config: Seq<char>,
}

impl View for ConnectorDescriptor {
    type V = Descriptor;

    open spec fn view(&self) -> Descriptor {
        Descriptor {
            id: self.id@,
            name: self.name@,
            icon: self.icon@,
            description: self.description@,
            enabled: self.enabled,
            source: self.source,
            sink: self.sink,
            testing: self.testing,
            hidden: self.hidden,
            custom_schemas: self.custom_schemas,
            connection_config: match self.connection_config {
                Some(schema) => Some(schema@),
                None => None,
            },
            table_config: self.table_config@,
        }
    }
}

} // verus!
