//! The voice-session core of a chat bot that joins voice channels, streams
//! remote audio into them and leaves again.
//!
//! The core performs no outside work. Every operation is a step from the
//! sessions and an event to the next sessions and a list of instructions
//! ([`effect::Effect`]) for the caller to carry out: the caller owns the
//! gateway, the voice connections and the decode pipelines, and reports back
//! what became of them.
//!
//! - [`registry`] owns the voice session of each group.
//! - [`resolver`] classifies what starting a decode pipeline gave.
//! - [`playback`] attaches streams to sessions and detaches them.
//! - [`dispatcher`] routes commands to these and ends each with one reply.
//! - [`outside`] says what a list of instructions leaves standing outside,
//!   and [`laws`] proves that the steps keep it in line with the sessions.
//! - [`schema`] and [`config`] hold what the process registers and reads at
//!   startup.

pub mod command;
pub mod config;
pub mod dispatcher;
pub mod effect;
pub mod error;
pub mod laws;
pub mod outside;
pub mod playback;
pub mod registry;
pub mod resolver;
pub mod schema;
pub mod session;
pub mod text;
