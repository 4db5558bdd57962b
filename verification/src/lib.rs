//! A per-player session orchestrator for a five-letter word guessing game.
//!
//! The orchestrator sits between players and a separate word service. It is
//! written as an explicit state machine: every entry point takes the
//! orchestrator state and one inbound message, and answers with the next
//! state and the effect the host has to carry out.

pub mod ids;
pub mod protocol;
pub mod session;
pub mod store;
pub mod game;
pub mod orchestrator;
pub mod laws;
