//! Integer geometry and the pixel-density scale factor.
//!
//! All geometry is kept in whole pixels. The pixel-density factor (device
//! pixels per density-independent pixel) is kept in fixed point, as a whole
//! number of thousandths, so that coordinate conversion is exact integer
//! arithmetic; the embedder converts to and from its floating-point scale at
//! the boundary.

use vstd::prelude::*;

verus! {

/// A size in whole pixels. Either dimension may be zero or, for degenerate
/// resize requests, negative.
#[derive(Clone, Copy, PartialEq, Eq, Structural, Debug)]
pub struct DeviceIntSize {
    pub width: i32,
    pub height: i32,
}

/// A point in whole pixels.
#[derive(Clone, Copy, PartialEq, Eq, Structural, Debug)]
pub struct DeviceIntPoint {
    pub x: i32,
    pub y: i32,
}

/// An axis-aligned rectangle in whole pixels.
#[derive(Clone, Copy, PartialEq, Eq, Structural, Debug)]
pub struct DeviceIntRect {
    pub origin: DeviceIntPoint,
    pub size: DeviceIntSize,
}

/// Device pixels per density-independent pixel, in thousandths.
///
/// A factor of one device pixel per logical pixel is `1000` thousandths; a
/// high-density display reporting two device pixels per logical pixel is
/// `2000`. A density is only meaningful when positive.
#[derive(Clone, Copy, PartialEq, Eq, Structural, Debug)]
pub struct PixelDensity {
    pub thousandths: u32,
}

/// The number of thousandths that make up a scale factor of exactly one.
pub const DENSITY_ONE: u32 = 1000;

impl PixelDensity {
    /// A pixel density is well formed when it is positive: zero device pixels
    /// per logical pixel describes no display at all.
    pub open spec fn wf(self) -> bool {
        self.thousandths >= 1
    }
}

/// A rotation, as the four components of a unit quaternion. Only whole-valued
/// rotations arise here: a headless surface never acquires a spatial
/// transform, so the identity rotation is the sole value produced.
#[derive(Clone, Copy, PartialEq, Eq, Structural, Debug)]
pub struct Rotation3D {
    pub x: i32,
    pub y: i32,
    pub z: i32,
    pub w: i32,
}

impl Rotation3D {
    /// The rotation that leaves every vector in place.
    pub open spec fn spec_identity() -> Rotation3D {
        Rotation3D { x: 0, y: 0, z: 0, w: 1 }
    }
}

/// A translation in whole units.
#[derive(Clone, Copy, PartialEq, Eq, Structural, Debug)]
pub struct Vector3D {
    pub x: i32,
    pub y: i32,
    pub z: i32,
}

impl Vector3D {
    /// The translation that moves nothing.
    pub open spec fn spec_zero() -> Vector3D {
        Vector3D { x: 0, y: 0, z: 0 }
    }
}

} // verus!
