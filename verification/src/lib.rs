//! Synchronization core of a real-time multiplayer lobby: wraparound-safe
//! sequence arithmetic over 16-bit counters, the client/server wire-protocol
//! catalog, the server's authoritative fixed-tick simulation, client-side
//! prediction and reconciliation, and dispatch fan-out of outgoing messages.
//!
//! Everything here works on plain values (integers, strings, vectors); the
//! surrounding program owns the socket, the poll thread and the channels, and
//! hands events in and packets out as those plain values.

pub mod client;
pub mod dispatch;
pub mod game;
pub mod labels;
pub mod movement;
pub mod player;
pub mod protocol;
pub mod seq_cmp;
pub mod server;
pub mod text;
