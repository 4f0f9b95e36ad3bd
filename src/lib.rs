//! A pseudo-terminal session recorder: a line-oriented model of the child's
//! output, the wire protocol spoken to controllers, the decisions of the relay
//! loop and of each controller connection, and the session registry.

pub mod client;
pub mod connection;
pub mod protocol;
pub mod registry;
pub mod scrollback;
pub mod supervisor;
