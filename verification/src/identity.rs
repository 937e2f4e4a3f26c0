//! Who a session or a message belongs to.

use vstd::prelude::*;

use crate::addr::SocketAddr;

verus! {

/// Identity of a session.
#[derive(Debug)]
pub struct Id {
    /// Node that serves the session.
    pub node_id: u64,
    /// Listener on which the client connected.
    pub lid: u16,
    /// Address of the listener.
    pub local_addr: Option<SocketAddr>,
    /// Address of the client.
    pub remote_addr: Option<SocketAddr>,
    /// Client identifier.
    pub client_id: String,
    /// User name.
    pub username: Option<String>,
}

impl Clone for Id {
    fn clone(&self) -> (copy: Self)
        ensures
            copy == *self,
    {
        Id {
            node_id: self.node_id,
            lid: self.lid,
            local_addr: self.local_addr,
            remote_addr: self.remote_addr,
            client_id: self.client_id.clone(),
            username: match &self.username {
                Some(username) => Some(username.clone()),
                None => None,
            },
        }
    }
}

/// How a message came into the broker.
#[derive(Clone, Copy, Debug, PartialEq, Eq, Structural)]
pub enum SourceKind {
    /// Published by a client.
    Custom,
    /// Published by an administrator.
    Admin,
    /// Published by the broker.
    System,
    /// Will message of a client.
    LastWill,
    /// Taken over from another broker.
    Bridge,
}

/// Where a message comes from.
#[derive(Debug)]
pub struct MessageSource {
    /// How the message came into the broker.
    pub kind: SourceKind,
    /// Whom it belongs to.
    pub id: Id,
}

impl MessageSource {
    /// Returns the source of a message that a client published.
    pub fn from_custom(id: Id) -> (source: MessageSource)
        ensures
            source == (MessageSource { kind: SourceKind::Custom, id }),
    {
        MessageSource { kind: SourceKind::Custom, id }
    }

    /// Returns the source of a will message.
    pub fn from_lastwill(id: Id) -> (source: MessageSource)
        ensures
            source == (MessageSource { kind: SourceKind::LastWill, id }),
    {
        MessageSource { kind: SourceKind::LastWill, id }
    }
}

} // verus!
