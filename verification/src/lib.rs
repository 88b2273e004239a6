//! A single-threaded echo reactor without its sockets: the state of each
//! connection, the table of live connections, and the rules by which
//! readiness notifications are routed. The caller owns the sockets and the
//! event loop; it hands in what happened and is told what to do next.

pub mod event;
pub mod connection;
pub mod table;
pub mod server;
pub mod invariants;
