//! Policy core of an operations agent daemon: configuration, the security
//! pipeline that rates each requested operation, the wire messages, the
//! decisions of the agents that carry operations out, and the daemon's
//! approval queue.

pub mod agents;
pub mod clock;
pub mod config;
pub mod daemon;
pub mod message;
pub mod security;
pub mod text;
