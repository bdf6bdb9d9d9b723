//! The core of a chat backend built on SurrealDB: the messages clients and
//! services exchange, how they are stored and read back, how record
//! identifiers are written, how a client's websocket session proceeds, and
//! the registry of connected users.

pub mod actions;
pub mod chats;
pub mod client;
pub mod events;
pub mod lookup;
pub mod notifications;
pub mod processing;
pub mod record;
pub mod registry;
pub mod serde;
pub mod session;
pub mod surreal;
pub mod transactions;
pub mod users;
