//! Decision core of a per-connection WebSocket event multiplexer.
//!
//! One connection of a collaborative session listens to three sources at
//! once: frames decoded from its client, messages fanned in from the other
//! participants of its room, and a liveness timer. This crate holds every
//! decision that the connection takes on them, as functions from a state
//! and an event to the next state and the effect to perform. Waiting on the
//! sources and performing the effects is left to the caller.
//!
//! - [`connection`]: the state of a connection, the step that it takes on
//!   an event, and its teardown.
//! - [`dispatch`]: what each frame of the client leads to.
//! - [`heartbeat`]: the liveness policy.
//! - [`multiplexer`]: the loop over a recorded run of events.
//! - [`laws`]: what holds of every run.
//! - [`event`], [`frame`], [`effect`], [`identity`], [`config`], [`text`]:
//!   the values that go in and out.

pub mod config;
pub mod connection;
pub mod dispatch;
pub mod effect;
pub mod event;
pub mod frame;
pub mod heartbeat;
pub mod identity;
pub mod laws;
pub mod multiplexer;
pub mod text;
