//! Capability answers for the media subsystem.
//!
//! A headless session has no hardware rendering context to lend to a media
//! player, so each query has a dedicated "unavailable" case and the window
//! only ever answers with it. Callers are thereby forced to handle absence
//! explicitly rather than receive a sentinel.

use vstd::prelude::*;

verus! {

/// The GL context a media player could share. No such context exists here.
#[derive(Clone, Copy, PartialEq, Eq, Structural, Debug)]
pub enum GlContext {
    /// No shareable GL context is available.
    Unknown,
}

/// The native display handle a media player could render to. None exists here.
#[derive(Clone, Copy, PartialEq, Eq, Structural, Debug)]
pub enum NativeDisplay {
    /// No native display is available.
    Unknown,
}

/// The GL API family in use. A headless window drives no GL API on behalf of
/// media playback.
#[derive(Clone, Copy, PartialEq, Eq, Structural, Debug)]
pub enum GlApi {
    /// No GL API is available.
    NoApi,
}

} // verus!
