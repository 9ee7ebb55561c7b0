//! The connector types that exist, found by id. The set is closed: it is
//! written down here and nothing adds to it at run time.

use vstd::prelude::*;
use crate::connector::{websocket_descriptor, WebsocketConnector};
use crate::descriptor::{ConnectorDescriptor, Descriptor};

verus! {

/// A connector type.
#[derive(Clone, Copy, Debug, PartialEq, Eq, Structural)]
pub enum ConnectorKind {
    Websocket,
}

impl ConnectorKind {
    /// What a connector of this type says of itself.
    pub open spec fn described(self) -> Descriptor {
        match self {
            ConnectorKind::Websocket => websocket_descriptor(),
        }
    }

    /// The id under which the type is registered: that of its descriptor.
    pub open spec fn id(self) -> Seq<char> {
        self.described().id
    }

    /// The descriptor of the connector type.
    pub fn descriptor(&self) -> (descriptor: ConnectorDescriptor)
        ensures
            descriptor@ == self.described(),
    {
        match self {
            ConnectorKind::Websocket => WebsocketConnector {  }.metadata(),
        }
    }
}

/// Every connector type, each once.
pub open spec fn all_kinds() -> Seq<ConnectorKind> {
    seq![ConnectorKind::Websocket]
}

/// The connector type registered under `id`, if there is one.
pub open spec fn kind_of(id: Seq<char>) -> Option<ConnectorKind> {
    if id == ConnectorKind::Websocket.id() {
        Some(ConnectorKind::Websocket)
    } else {
        None
    }
}

/// The registry holds every connector type, no two under the same id, and
/// finds each under its own id and nothing under any other.
pub proof fn lemma_registry_is_a_mapping(kind: ConnectorKind, id: Seq<char>)
    ensures
        all_kinds().contains(kind),
        kind_of(kind.id()) == Some(kind),
        kind_of(id) is Some ==> kind_of(id)->0.id() == id,
        forall|i: int, j: int|
            0 <= i < j < all_kinds().len() ==> all_kinds()[i].id() != all_kinds()[j].id(),
{
    assert(all_kinds()[0] == ConnectorKind::Websocket);
}

/// Every connector type, each once.
pub fn connectors() -> (kinds: Vec<ConnectorKind>)
    ensures
        kinds@ == all_kinds(),
{
    let mut kinds: Vec<ConnectorKind> = Vec::new();
    kinds.push(ConnectorKind::Websocket);
    assert(kinds@ =~= all_kinds());
    kinds
}

/// Finds the connector type registered under `id`.
pub fn connector_for(id: &str) -> (kind: Option<ConnectorKind>)
    ensures
        kind == kind_of(id@),
{
    let wanted = id.to_owned();
    let websocket = WebsocketConnector {  }.name().to_owned();
    if wanted == websocket {
        Some(ConnectorKind::Websocket)
    } else {
        None
    }
}

} // verus!
