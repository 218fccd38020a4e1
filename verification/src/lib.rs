//! Core of a state-synchronisation engine: named JSON-backed signals that a
//! server and its clients keep in step by exchanging RFC 6902 patches over a
//! single message transport per connection.
//!
//! Everything in this crate is sequential and deterministic. A caller that
//! shares a registry between tasks guards it with a lock of its own and hands
//! the events that the operations return to whatever fan-out it uses.

pub mod channel;
pub mod error;
pub mod json;
pub mod laws;
pub mod messages;
pub mod session;
pub mod signal;
pub mod store;
pub mod websocket;
pub mod ws_signals;
