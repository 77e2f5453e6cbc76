//! Core of a live-streaming co-pilot: a typed broadcast event bus, the
//! command router that turns chat lines into remote-state operations, the
//! read-modify-write transform orchestrator for a remote visual-production
//! service, and the speech-request pipeline.
//!
//! Everything here is pure logic over plain values.  The surrounding
//! program performs the network round trips, the waits and the audio
//! playback, and feeds the results back into these functions.

pub mod bus;
pub mod handlers;
pub mod move_transition;
pub mod obs_routing;
pub mod runtime;
pub mod sound;
pub mod text;
pub mod uberduck;
pub mod types;
