//! A headless window: the surface-state and event-synthesis model behind an
//! off-screen rendering session.
//!
//! A windowing-driven compositor expects a window that reports its size,
//! synthesizes resize events, converts between logical and device pixels, and
//! answers capability queries. In a headless session there is no platform
//! window and no platform event loop, so this crate keeps that state itself
//! and synthesizes the minimal event stream the compositor needs. The opaque
//! GPU surface provider that allocates the actual pixel buffer is an external
//! collaborator: the window decides *when* the provider must resize and hands
//! that decision to its embedder, which performs the call.

pub mod geometry;
pub mod media;
pub mod window;
pub mod windowing;
