//! The protocol core of a cache client actor: the messages it accepts, the
//! backend command each one becomes, the connection lifecycle that decides
//! whether a command may be issued, and the reading of the backend's replies.
//!
//! Nothing here touches the network. The caller opens the connection, sends
//! the commands this library hands out and gives back what the backend said.

pub mod actor;
pub mod backend;
pub mod command;
pub mod error;
pub mod laws;
pub mod message;

pub use actor::{ConnectionState, RedisActor, RedisActorBuilder};
pub use error::Error;
pub use message::{Delete, DeleteStatus, Get, Lock, LockStatus, SetValue};
