//! Core of a bidirectional echo endpoint pair over a multiplexed transport
//! session.
//!
//! One session carries many concurrent logical channels — bidirectional
//! streams, unidirectional streams, and datagrams — each with its own
//! lifecycle. The modules here hold the decision logic of both endpoints as
//! step functions: what to reply to a chunk, when a handler stops, how a
//! channel's failure stays contained to that channel, and how a session's
//! closure reaches exactly its own handlers. A driver performs the actual
//! reads, writes and waits, and feeds the outcomes back in as events.

pub mod acceptor;
pub mod bistream;
pub mod channel;
pub mod codec;
pub mod datagram;
pub mod dialer;
pub mod server;
pub mod unistream;
