//! Error taxonomy of the library.

use vstd::prelude::*;

verus! {

/// Failures while loading and validating the animation descriptor. They
/// surface before any playback session starts; none of them is retried.
#[derive(Debug)]
pub enum ConfigError {
    /// An underlying read or filesystem failure while loading the descriptor.
    IoError,
    /// The descriptor document is malformed or violates the schema.
    ParseError,
    /// A declared clip asset is absent on disk; carries the resolved path.
    MissingAssetError(String),
    /// A clip with the forever mode stands before the last position, so the
    /// clips after it would never be played.
    WrongModeForeverPart,
}

/// Failures inside a playback session. Any of them ends the whole session;
/// the engine is stopped before the error is returned.
#[derive(Debug)]
pub enum PlaybackError {
    /// The sequence was empty when the session attempted to start.
    NoAnimationError,
    /// The media engine reported a failure; carries its detail text.
    EngineError(String),
    /// The media engine refused a state transition.
    EngineStateError,
}

} // verus!
