//! Play chess against an external engine process, one game per client session.
//!
//! The crate holds the rules of that service as plain, verified functions: the
//! difficulty table, the text of the engine protocol, the conversation with the
//! engine as a state machine, move resolution against the rules engine, and the
//! session table. The host program owns the subprocess, the pipes, the locks
//! and the clock; it performs the requests that the state machines hand out and
//! reports what came back.

pub mod board;
pub mod engine;
pub mod game;
pub mod position;
pub mod protocol;
pub mod resolver;
pub mod rules;
pub mod session;
pub mod settings;
