//! The connection core of a small line-oriented TCP server: how one read
//! attempt on a socket is classified, what the per-connection handler decides
//! for each outcome, and what the acceptor decides for each connection attempt.
//!
//! The library performs no I/O. A driver owns the sockets, performs the action
//! that the library hands out and reports back what happened.

pub mod acceptor;
pub mod connection;
pub mod failure;
pub mod isolation;
pub mod outcome;
pub mod session;
pub mod wire;
