//! A client core for a line-oriented live-chess relay protocol.
//!
//! The library holds the decisions of the client: how a protocol line changes
//! the game state, how move tokens become a move record, when a log rotates,
//! and how a connection is supervised. Sockets, files and timers stay with the
//! caller, which performs the actions that these functions return.

pub mod backoff;
mod clock;
pub mod events;
pub mod frames;
pub mod game_state;
pub mod incoming;
pub mod keep_alive;
pub mod manager;
pub mod notation;
pub mod notices;
pub mod recorder;
pub mod rotating_log;
pub mod session;
pub mod stream;
pub mod subscriptions;
pub mod supervisor;
pub mod text;
