//! Verified core of an MQTT-over-QUIC broker.

pub mod addr;
pub mod assoc;
pub mod builder;
pub mod default_session;
pub mod identity;
pub mod inbound;
pub mod lifecycle;
pub mod link;
pub mod listener;
pub mod memory_link;
pub mod nonzero;
pub mod offline;
pub mod outbound;
pub mod packet;
pub mod proxy;
pub mod publish;
pub mod queue;
pub mod quic;
pub mod quic_link;
pub mod quic_link_laws;
pub mod quic_session_store;
pub mod quic_session_store_laws;
pub mod reason;
pub mod route;
pub mod session;
pub mod session_laws;
pub mod session_link;
pub mod subscribe;
pub mod subscription_binding;
mod table;
mod text;
pub mod time;
pub mod topic;
pub mod v5;
