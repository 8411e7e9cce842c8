//! Swapchain manager: format, present-mode, extent and image-count
//! selection, and construction of the mutually consistent bundle of
//! swapchain-dependent objects.

use vstd::prelude::*;

use crate::device::SharingMode;
use crate::device::spec_sharing_mode;
use crate::device::choose_sharing_mode;
use crate::probe::QueueFamilyAssignment;
use crate::surface::ColorSpace;
use crate::surface::Extent2D;
use crate::surface::PixelFormat;
use crate::surface::PresentMode;
use crate::surface::SurfaceCaps;
use crate::surface::SurfaceFormat;
use crate::surface::SurfaceReport;

verus! {

/// The format the renderer prefers: 8-bit BGRA paired with the
/// sRGB-nonlinear color space.
pub open spec fn preferred_format() -> SurfaceFormat {
    SurfaceFormat { format: PixelFormat::Bgra8, color_space: ColorSpace::SrgbNonlinear }
}

pub open spec fn is_preferred(f: SurfaceFormat) -> bool {
    f.format is Bgra8 && f.color_space is SrgbNonlinear
}

/// Deterministic format selection: the preferred pair whenever the supported
/// set holds it, otherwise the first supported format.
pub open spec fn spec_choose_format(formats: Seq<SurfaceFormat>) -> SurfaceFormat
    recommends
        formats.len() > 0,
{
    if exists|i: int| 0 <= i < formats.len() && is_preferred(#[trigger] formats[i]) {
        preferred_format()
    } else {
        formats[0]
    }
}

fn format_is_preferred(f: &SurfaceFormat) -> (r: bool)
    ensures
        r == is_preferred(*f),
{
    f.format == PixelFormat::Bgra8 && f.color_space == ColorSpace::SrgbNonlinear
}

pub fn choose_format(formats: &Vec<SurfaceFormat>) -> (r: SurfaceFormat)
    requires
        formats@.len() > 0,
    ensures
        r == spec_choose_format(formats@),
        formats@.contains(r),
{
    let mut i: usize = 0;
    while i < formats.len()
        invariant
            i <= formats@.len(),
            forall|j: int| 0 <= j < i ==> !is_preferred(#[trigger] formats@[j]),
        decreases formats@.len() - i,
    {
        let f = formats[i];
        if format_is_preferred(&f) {
            return f;
        }
        i = i + 1;
    }
    formats[0]
}

/// Selection is a pure function of the supported set: equal inputs give
/// equal results, so re-running it (idempotently) changes nothing.
pub proof fn lemma_format_selection_deterministic(a: Seq<SurfaceFormat>, b: Seq<SurfaceFormat>)
    requires
        a == b,
    ensures
        spec_choose_format(a) == spec_choose_format(b),
{
}

/// The preferred BGRA/sRGB pair is chosen whenever it is present, no matter
/// where it stands in the supported set.
pub proof fn lemma_preferred_format_chosen(formats: Seq<SurfaceFormat>, i: int)
    requires
        0 <= i < formats.len(),
        is_preferred(formats[i]),
    ensures
        spec_choose_format(formats) == preferred_format(),
{
}

/// Strict preference ladder for presentation: mailbox, then immediate, then
/// the universally supported FIFO.
pub open spec fn spec_choose_present_mode(modes: Seq<PresentMode>) -> PresentMode {
    if modes.contains(PresentMode::Mailbox) {
        PresentMode::Mailbox
    } else if modes.contains(PresentMode::Immediate) {
        PresentMode::Immediate
    } else {
        PresentMode::Fifo
    }
}

pub fn choose_present_mode(modes: &Vec<PresentMode>) -> (r: PresentMode)
    ensures
        r == spec_choose_present_mode(modes@),
{
    let mut has_mailbox = false;
    let mut has_immediate = false;
    let mut i: usize = 0;
    while i < modes.len()
        invariant
            i <= modes@.len(),
            has_mailbox == (exists|j: int| 0 <= j < i && modes@[j] == PresentMode::Mailbox),
            has_immediate == (exists|j: int| 0 <= j < i && modes@[j] == PresentMode::Immediate),
        decreases modes@.len() - i,
    {
        let m = modes[i];
        if m == PresentMode::Mailbox {
            has_mailbox = true;
        }
        if m == PresentMode::Immediate {
            has_immediate = true;
        }
        i = i + 1;
    }
    if has_mailbox {
        PresentMode::Mailbox
    } else if has_immediate {
        PresentMode::Immediate
    } else {
        PresentMode::Fifo
    }
}

/// FIFO is returned exactly when neither mailbox nor immediate is supported.
pub proof fn lemma_present_mode_fifo_fallback(modes: Seq<PresentMode>)
    requires
        !modes.contains(PresentMode::Mailbox),
        !modes.contains(PresentMode::Immediate),
    ensures
        spec_choose_present_mode(modes) == PresentMode::Fifo,
{
}

/// The selection never leaves the supported set, provided the set holds the
/// universally supported FIFO fallback.
pub proof fn lemma_present_mode_member(modes: Seq<PresentMode>)
    requires
        modes.contains(PresentMode::Fifo),
    ensures
        modes.contains(spec_choose_present_mode(modes)),
{
}

pub open spec fn clamp_u32(x: u32, lo: u32, hi: u32) -> u32 {
    if x < lo {
        lo
    } else if x > hi {
        hi
    } else {
        x
    }
}

fn clamp_dim(x: u32, lo: u32, hi: u32) -> (r: u32)
    ensures
        r == clamp_u32(x, lo, hi),
{
    if x < lo {
        lo
    } else if x > hi {
        hi
    } else {
        x
    }
}

/// The extent the surface dictates when it reports one; otherwise the window
/// size clamped component-wise into the surface's extent bounds.
pub open spec fn spec_choose_extent(caps: SurfaceCaps, window: Extent2D) -> Extent2D {
    match caps.current_extent {
        Some(e) => e,
        None => Extent2D {
            width: clamp_u32(window.width, caps.min_image_extent.width, caps.max_image_extent.width),
            height: clamp_u32(
                window.height,
                caps.min_image_extent.height,
                caps.max_image_extent.height,
            ),
        },
    }
}

pub fn choose_extent(caps: &SurfaceCaps, window: Extent2D) -> (r: Extent2D)
    ensures
        r == spec_choose_extent(*caps, window),
{
    match caps.current_extent {
        Some(e) => e,
        None => Extent2D {
            width: clamp_dim(
                window.width,
                caps.min_image_extent.width,
                caps.max_image_extent.width,
            ),
            height: clamp_dim(
                window.height,
                caps.min_image_extent.height,
                caps.max_image_extent.height,
            ),
        },
    }
}

/// When the surface reports no fixed extent, the chosen extent lies
/// component-wise within the surface's bounds.
pub proof fn lemma_extent_clamped(caps: SurfaceCaps, window: Extent2D)
    requires
        caps.current_extent is None,
        caps.min_image_extent.width <= caps.max_image_extent.width,
        caps.min_image_extent.height <= caps.max_image_extent.height,
    ensures
        caps.min_image_extent.width <= spec_choose_extent(caps, window).width
            <= caps.max_image_extent.width,
        caps.min_image_extent.height <= spec_choose_extent(caps, window).height
            <= caps.max_image_extent.height,
{
}

/// One more image than the reported minimum, clamped down to the maximum
/// when that bound is finite (nonzero).
pub open spec fn spec_choose_image_count(caps: SurfaceCaps) -> u32
    recommends
        caps.min_image_count < u32::MAX,
{
    let desired = (caps.min_image_count + 1) as u32;
    if caps.max_image_count != 0 && desired > caps.max_image_count {
        caps.max_image_count
    } else {
        desired
    }
}

pub fn choose_image_count(caps: &SurfaceCaps) -> (r: u32)
    requires
        caps.min_image_count < u32::MAX,
    ensures
        r == spec_choose_image_count(*caps),
{
    let desired = caps.min_image_count + 1;
    if caps.max_image_count != 0 && desired > caps.max_image_count {
        caps.max_image_count
    } else {
        desired
    }
}

/// With capabilities the platform guarantees (a zero or not-smaller
/// maximum), the chosen count honors both reported bounds.
pub proof fn lemma_image_count_in_bounds(caps: SurfaceCaps)
    requires
        caps.min_image_count < u32::MAX,
        caps.max_image_count == 0 || caps.max_image_count >= caps.min_image_count,
    ensures
        spec_choose_image_count(caps) >= caps.min_image_count,
        caps.max_image_count != 0 ==> spec_choose_image_count(caps) <= caps.max_image_count,
{
}

/// Number of vertices of the single fixed draw.
pub const TRIANGLE_VERTEX_COUNT: u32 = 3;

/// The configuration a swapchain is created with.
#[derive(Clone, Copy, PartialEq, Eq, Structural, Debug)]
pub struct SwapchainConfig {
    pub format: SurfaceFormat,
    pub present_mode: PresentMode,
    pub extent: Extent2D,
    pub image_count: u32,
    pub sharing: SharingMode,
}

/// The render pass compatible with the chain: a single color attachment of
/// the chain's format (load = clear, store = store, one sample).
#[derive(Clone, Copy, PartialEq, Eq, Structural, Debug)]
pub struct RenderPassInfo {
    pub color_format: SurfaceFormat,
}

/// The pipeline bound to the render pass and extent: fixed vertex layout,
/// triangle list, one full-extent viewport with matching scissor.
#[derive(Clone, Copy, PartialEq, Eq, Structural, Debug)]
pub struct PipelineInfo {
    pub render_pass_format: SurfaceFormat,
    pub viewport_extent: Extent2D,
}

/// One framebuffer, wrapping one swapchain image.
#[derive(Clone, Copy, PartialEq, Eq, Structural, Debug)]
pub struct FramebufferInfo {
    pub format: SurfaceFormat,
    pub extent: Extent2D,
    pub image_index: usize,
}

/// One precompiled command buffer: begin the render pass on its framebuffer
/// with a fixed clear color, bind the pipeline and vertex buffer, draw the
/// fixed vertex count once, end the render pass.
#[derive(Clone, Copy, PartialEq, Eq, Structural, Debug)]
pub struct CommandBufferInfo {
    pub framebuffer_index: usize,
    pub vertex_count: u32,
}

/// The versioned bundle that is replaced atomically on recreation: the image
/// chain's configuration and the objects rebuilt with it.
#[derive(Clone, Debug)]
pub struct SwapchainState {
    pub config: SwapchainConfig,
    pub render_pass: RenderPassInfo,
    pub pipeline: PipelineInfo,
    pub framebuffers: Vec<FramebufferInfo>,
    pub command_buffers: Vec<CommandBufferInfo>,
}

impl SwapchainState {
    /// All six sub-objects are mutually consistent: the render pass and
    /// pipeline match the chain's format and extent, there is one
    /// framebuffer per image (each declaring the chain's format and extent),
    /// and one command buffer per framebuffer drawing the fixed vertex
    /// count.
    pub open spec fn well_formed(self) -> bool {
        &&& self.render_pass.color_format == self.config.format
        &&& self.pipeline.render_pass_format == self.config.format
        &&& self.pipeline.viewport_extent == self.config.extent
        &&& self.framebuffers@.len() == self.config.image_count
        &&& (forall|i: int| 0 <= i < self.framebuffers@.len() ==> {
            &&& (#[trigger] self.framebuffers@[i]).format == self.config.format
            &&& self.framebuffers@[i].extent == self.config.extent
            &&& self.framebuffers@[i].image_index == i
        })
        &&& self.command_buffers@.len() == self.framebuffers@.len()
        &&& (forall|i: int| 0 <= i < self.command_buffers@.len() ==> {
            &&& (#[trigger] self.command_buffers@[i]).framebuffer_index == i
            &&& self.command_buffers@[i].vertex_count == TRIANGLE_VERTEX_COUNT
        })
    }
}

/// `s` is exactly the bundle that creation yields on this surface report,
/// assignment and window size: every configuration field comes from its
/// selection rule and the six sub-objects are consistent with it.
pub open spec fn matches_surface(
    s: SwapchainState,
    report: SurfaceReport,
    assignment: QueueFamilyAssignment,
    window: Extent2D,
) -> bool {
    &&& s.config.format == spec_choose_format(report.formats@)
    &&& s.config.present_mode == spec_choose_present_mode(report.present_modes@)
    &&& s.config.extent == spec_choose_extent(report.caps, window)
    &&& s.config.image_count == spec_choose_image_count(report.caps)
    &&& s.config.sharing == spec_sharing_mode(assignment)
    &&& s.well_formed()
}

/// Steps 1 to 6 of creation: query results in, configuration out.
pub fn plan_swapchain(
    report: &SurfaceReport,
    assignment: &QueueFamilyAssignment,
    window: Extent2D,
) -> (c: SwapchainConfig)
    requires
        report.formats@.len() > 0,
        report.caps.min_image_count < u32::MAX,
        assignment.spec_complete(),
    ensures
        c.format == spec_choose_format(report.formats@),
        c.present_mode == spec_choose_present_mode(report.present_modes@),
        c.extent == spec_choose_extent(report.caps, window),
        c.image_count == spec_choose_image_count(report.caps),
        c.sharing == spec_sharing_mode(*assignment),
{
    SwapchainConfig {
        format: choose_format(&report.formats),
        present_mode: choose_present_mode(&report.present_modes),
        extent: choose_extent(&report.caps, window),
        image_count: choose_image_count(&report.caps),
        sharing: choose_sharing_mode(assignment),
    }
}

/// Create, or on invalidation recreate, the whole bundle. The optional prior
/// bundle is only a recycling hint handed to the platform; it never shapes
/// the result, which the surface report alone determines.
pub fn create_swapchain_state(
    report: &SurfaceReport,
    assignment: &QueueFamilyAssignment,
    window: Extent2D,
    recycle_hint: Option<&SwapchainState>,
) -> (s: SwapchainState)
    requires
        report.formats@.len() > 0,
        report.caps.min_image_count < u32::MAX,
        assignment.spec_complete(),
    ensures
        matches_surface(s, *report, *assignment, window),
{
    let _ = recycle_hint;
    let config = plan_swapchain(report, assignment, window);
    let render_pass = RenderPassInfo { color_format: config.format };
    let pipeline = PipelineInfo {
        render_pass_format: config.format,
        viewport_extent: config.extent,
    };
    let count = config.image_count as usize;
    let mut framebuffers: Vec<FramebufferInfo> = Vec::new();
    let mut i: usize = 0;
    while i < count
        invariant
            i <= count,
            framebuffers@.len() == i,
            forall|k: int| 0 <= k < i ==> {
                &&& (#[trigger] framebuffers@[k]).format == config.format
                &&& framebuffers@[k].extent == config.extent
                &&& framebuffers@[k].image_index == k
            },
        decreases count - i,
    {
        framebuffers.push(
            FramebufferInfo { format: config.format, extent: config.extent, image_index: i },
        );
        i = i + 1;
    }
    let mut command_buffers: Vec<CommandBufferInfo> = Vec::new();
    let mut j: usize = 0;
    while j < count
        invariant
            j <= count,
            command_buffers@.len() == j,
            forall|k: int| 0 <= k < j ==> {
                &&& (#[trigger] command_buffers@[k]).framebuffer_index == k
                &&& command_buffers@[k].vertex_count == TRIANGLE_VERTEX_COUNT
            },
        decreases count - j,
    {
        command_buffers.push(
            CommandBufferInfo { framebuffer_index: j, vertex_count: TRIANGLE_VERTEX_COUNT },
        );
        j = j + 1;
    }
    SwapchainState { config, render_pass, pipeline, framebuffers, command_buffers }
}

/// Creation is deterministic: any two bundles that match the same surface
/// report, assignment and window size agree on the configuration and on
/// every sub-object, whatever recycling hint each was created with.
pub proof fn lemma_matching_bundles_agree(
    s1: SwapchainState,
    s2: SwapchainState,
    report: SurfaceReport,
    assignment: QueueFamilyAssignment,
    window: Extent2D,
)
    requires
        matches_surface(s1, report, assignment, window),
        matches_surface(s2, report, assignment, window),
    ensures
        s1.config == s2.config,
        s1.render_pass == s2.render_pass,
        s1.pipeline == s2.pipeline,
        s1.framebuffers@ =~= s2.framebuffers@,
        s1.command_buffers@ =~= s2.command_buffers@,
{
    assert forall|i: int| 0 <= i < s1.framebuffers@.len() implies s1.framebuffers@[i]
        == s2.framebuffers@[i] by {
        assert(s1.framebuffers@[i].image_index == i);
        assert(s2.framebuffers@[i].image_index == i);
    }
    assert forall|i: int| 0 <= i < s1.command_buffers@.len() implies s1.command_buffers@[i]
        == s2.command_buffers@[i] by {
        assert(s1.command_buffers@[i].framebuffer_index == i);
        assert(s2.command_buffers@[i].framebuffer_index == i);
    }
}

/// In a consistent bundle, every framebuffer declares exactly the chain's
/// extent; recreation is checked against this.
pub proof fn lemma_framebuffers_match_extent(s: SwapchainState)
    requires
        s.well_formed(),
    ensures
        forall|i: int| 0 <= i < s.framebuffers@.len() ==> (#[trigger] s.framebuffers@[i]).extent
            == s.config.extent,
{
}

} // verus!
