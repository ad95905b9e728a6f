//! Verified core of a boot-time splash-animation player.
//!
//! The library holds the playback-orchestration logic: the clip descriptor
//! model, the repeat-aware sequencer, the playback driver and interrupt
//! coordinator state machines, and the one-byte control protocol. Process
//! plumbing (argument handling, sockets, the media engine) lives outside.

pub mod animation;
pub mod control;
pub mod coordinator;
pub mod driver;
pub mod error;
pub mod manifest;
pub mod message;
pub mod sequencer;
pub mod session;
