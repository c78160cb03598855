//! Events and compositor-facing state shared between the window and its
//! embedder.

use vstd::prelude::*;
use crate::geometry::{DeviceIntPoint, DeviceIntRect, DeviceIntSize, PixelDensity};

verus! {

/// An event synthesized for the compositor. A headless window produces no
/// input, focus or lifecycle events; the surface changing size is the one
/// occurrence it must report.
#[derive(Clone, Copy, PartialEq, Eq, Structural, Debug)]
pub enum WindowEvent {
    /// The rendering surface was asked to change size since the last poll.
    Resize,
}

/// Whether the compositor currently considers an animation to be running.
/// Any state may replace any other; the window merely stores it.
#[derive(Clone, Copy, PartialEq, Eq, Structural, Debug)]
pub enum AnimationState {
    Idle,
    Animating,
}

/// The geometry the compositor reads every frame. A headless session has no
/// window chrome, screen or multi-monitor layout, so every rectangle collapses
/// to the single known surface size.
#[derive(Clone, Copy, PartialEq, Eq, Debug)]
pub struct EmbedderCoordinates {
    /// The part of the framebuffer the page is rendered into.
    pub viewport: DeviceIntRect,
    /// The size of the framebuffer itself.
    pub framebuffer: DeviceIntSize,
    /// The size and position of the (notional) window.
    pub window: (DeviceIntSize, DeviceIntPoint),
    /// The size of the (notional) screen.
    pub screen: DeviceIntSize,
    /// The part of the screen available to the window.
    pub screen_avail: DeviceIntSize,
    /// The pixel-density factor in force.
    pub hidpi_factor: PixelDensity,
}

} // verus!
