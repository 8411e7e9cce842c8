//! Plain-value model of what the presentation surface reports: pixel
//! formats, presentation modes, extents and capabilities.

use vstd::prelude::*;

verus! {

/// Pixel layout of a surface format. The renderer only distinguishes the
/// 8-bit BGRA layout it prefers, the common 8-bit RGBA layout, and the rest.
#[derive(Clone, Copy, PartialEq, Eq, Structural, Debug)]
pub enum PixelFormat {
    Bgra8,
    Rgba8,
    Other,
}

/// Color space a surface format is paired with.
#[derive(Clone, Copy, PartialEq, Eq, Structural, Debug)]
pub enum ColorSpace {
    SrgbNonlinear,
    Linear,
    Other,
}

/// One supported surface format: a pixel layout paired with a color space.
#[derive(Clone, Copy, PartialEq, Eq, Structural, Debug)]
pub struct SurfaceFormat {
    pub format: PixelFormat,
    pub color_space: ColorSpace,
}

/// Presentation mode of the image chain.
#[derive(Clone, Copy, PartialEq, Eq, Structural, Debug)]
pub enum PresentMode {
    /// No vsync: present immediately.
    Immediate,
    /// Low-latency triple buffering.
    Mailbox,
    /// Vsync queue; universally supported by the platform.
    Fifo,
}

/// A two-dimensional pixel extent.
#[derive(Clone, Copy, PartialEq, Eq, Structural, Debug)]
pub struct Extent2D {
    pub width: u32,
    pub height: u32,
}

/// Surface capabilities as last queried from the platform.
#[derive(Clone, Copy, Debug)]
pub struct SurfaceCaps {
    pub min_image_count: u32,
    /// Largest allowed image count; `0` conventionally means "unbounded".
    pub max_image_count: u32,
    /// `Some` when the surface dictates a fixed extent; `None` when the
    /// extent is chosen from the window size within the bounds below.
    pub current_extent: Option<Extent2D>,
    pub min_image_extent: Extent2D,
    pub max_image_extent: Extent2D,
}

/// Everything a swapchain rebuild needs from one query of the surface.
#[derive(Clone, Debug)]
pub struct SurfaceReport {
    pub caps: SurfaceCaps,
    pub formats: Vec<SurfaceFormat>,
    pub present_modes: Vec<PresentMode>,
}

} // verus!
