//! Presentation surface (swapchain) configuration, rebuild policy, and
//! teardown ordering.
//!
//! These functions compute every decision the swapchain constructor makes —
//! surface format, present mode, extent clamping, image count, queue
//! sharing — from the support data the platform reports. The platform calls
//! that create the actual chain of images consume the resulting
//! [`SwapchainPlan`] in the application shell.

use crate::config::RenderConfig;
use crate::error::{VkError, VkResult};
use crate::queue::CompleteQueueFamilyIndices;
use vstd::prelude::*;

verus! {

/// A drawable size in pixels.
#[derive(Clone, Copy, Debug, PartialEq, Eq, Structural)]
pub struct Extent2D {
    pub width: u32,
    pub height: u32,
}

/// A surface pixel format paired with a color space, by their API codes.
#[derive(Clone, Copy, Debug, PartialEq, Eq, Structural)]
pub struct SurfaceFormat {
    pub format: u32,
    pub color_space: u32,
}

/// How presented images are queued for display.
#[derive(Clone, Copy, Debug, PartialEq, Eq, Structural)]
pub enum PresentMode {
    /// No queue; may tear.
    Immediate,
    /// Single-slot queue replaced by newer frames: low-latency triple
    /// buffering.
    Mailbox,
    /// First-in first-out, vsync-locked; the only mode every platform
    /// guarantees.
    Fifo,
    /// FIFO that tears when a frame is late.
    FifoRelaxed,
}

/// The surface limits the platform reports.
#[derive(Clone, Copy, Debug, PartialEq, Eq, Structural)]
pub struct SurfaceCapabilities {
    /// Fewest images a swapchain on this surface may have.
    pub min_image_count: u32,
    /// Most images a swapchain may have; zero means no declared maximum.
    pub max_image_count: u32,
    /// The extent the surface has now; a width of `u32::MAX` means the
    /// window manager lets the swapchain choose.
    pub current_extent: Extent2D,
    /// Smallest extent a swapchain on this surface may have.
    pub min_image_extent: Extent2D,
    /// Largest extent a swapchain on this surface may have.
    pub max_image_extent: Extent2D,
}

impl SurfaceCapabilities {
    /// The guarantees the platform's own contract gives for these fields.
    pub open spec fn wf(self) -> bool {
        &&& self.min_image_count >= 1
        &&& self.max_image_count > 0 ==> self.max_image_count >= self.min_image_count
        &&& self.min_image_extent.width <= self.max_image_extent.width
        &&& self.min_image_extent.height <= self.max_image_extent.height
    }
}

/// What the surface supports: its capabilities, the offered formats, and
/// the offered present modes.
#[derive(Clone, Debug)]
pub struct SwapchainSupportDetails {
    capabilities: SurfaceCapabilities,
    formats: Vec<SurfaceFormat>,
    present_modes: Vec<PresentMode>,
}

impl SwapchainSupportDetails {
    pub closed spec fn spec_capabilities(self) -> SurfaceCapabilities {
        self.capabilities
    }

    pub closed spec fn spec_formats(self) -> Seq<SurfaceFormat> {
        self.formats@
    }

    pub closed spec fn spec_present_modes(self) -> Seq<PresentMode> {
        self.present_modes@
    }

    /// Packages the support data queried from the platform.
    pub fn new(
        capabilities: SurfaceCapabilities,
        formats: Vec<SurfaceFormat>,
        present_modes: Vec<PresentMode>,
    ) -> (r: Self)
        ensures
            r.spec_capabilities() == capabilities,
            r.spec_formats() == formats@,
            r.spec_present_modes() == present_modes@,
    {
        SwapchainSupportDetails { capabilities, formats, present_modes }
    }

    /// A surface is adequate when it offers at least one format and at
    /// least one present mode.
    pub open spec fn spec_is_adequate(self) -> bool {
        self.spec_formats().len() > 0 && self.spec_present_modes().len() > 0
    }

    pub fn is_adequate(&self) -> (b: bool)
        ensures
            b == self.spec_is_adequate(),
    {
        self.formats.len() > 0 && self.present_modes.len() > 0
    }

    pub fn capabilities(&self) -> (r: &SurfaceCapabilities)
        ensures
            *r == self.spec_capabilities(),
    {
        &self.capabilities
    }

    pub fn formats(&self) -> (r: &Vec<SurfaceFormat>)
        ensures
            r@ == self.spec_formats(),
    {
        &self.formats
    }

    pub fn present_modes(&self) -> (r: &Vec<PresentMode>)
        ensures
            r@ == self.spec_present_modes(),
    {
        &self.present_modes
    }
}

/// The format the constructor picks: the preferred one when offered, else
/// the first the surface lists.
pub open spec fn spec_chosen_surface_format(
    formats: Seq<SurfaceFormat>,
    preferred: SurfaceFormat,
) -> SurfaceFormat
    recommends
        formats.len() > 0,
{
    if formats.contains(preferred) {
        preferred
    } else {
        formats[0]
    }
}

/// Picks the preferred surface format when the surface offers it, else the
/// first offered format.
pub fn choose_swap_surface_format(
    available_formats: &Vec<SurfaceFormat>,
    preferred: SurfaceFormat,
) -> (r: SurfaceFormat)
    requires
        available_formats@.len() > 0,
    ensures
        r == spec_chosen_surface_format(available_formats@, preferred),
{
    let len = available_formats.len();
    let mut i: usize = 0;
    while i < len
        invariant
            i <= len,
            len == available_formats@.len(),
            forall|j: int| 0 <= j < i ==> available_formats@[j] != preferred,
        decreases len - i,
    {
        if available_formats[i] == preferred {
            return preferred;
        }
        i = i + 1;
    }
    available_formats[0]
}

/// The present mode the constructor picks: the preferred one when offered,
/// else FIFO, which every platform guarantees.
pub open spec fn spec_chosen_present_mode(
    modes: Seq<PresentMode>,
    preferred: PresentMode,
) -> PresentMode {
    if modes.contains(preferred) {
        preferred
    } else {
        PresentMode::Fifo
    }
}

/// Picks the preferred present mode when the surface offers it, falling
/// back to the guaranteed-available FIFO mode.
pub fn choose_swap_present_mode(
    available_present_modes: &Vec<PresentMode>,
    preferred: PresentMode,
) -> (r: PresentMode)
    ensures
        r == spec_chosen_present_mode(available_present_modes@, preferred),
{
    let len = available_present_modes.len();
    let mut i: usize = 0;
    while i < len
        invariant
            i <= len,
            len == available_present_modes@.len(),
            forall|j: int| 0 <= j < i ==> available_present_modes@[j] != preferred,
        decreases len - i,
    {
        if available_present_modes[i] == preferred {
            return preferred;
        }
        i = i + 1;
    }
    PresentMode::Fifo
}

/// `x` clamped into `[lo, hi]`.
pub open spec fn spec_clamp_u32(x: u32, lo: u32, hi: u32) -> u32
    recommends
        lo <= hi,
{
    if x < lo {
        lo
    } else if x > hi {
        hi
    } else {
        x
    }
}

/// The extent the constructor uses: the surface's own extent when the
/// window manager fixes it, else the requested extent clamped to the
/// supported range.
pub open spec fn spec_chosen_extent(extent: Extent2D, capabilities: SurfaceCapabilities) -> Extent2D
    recommends
        capabilities.wf(),
{
    if capabilities.current_extent.width == u32::MAX {
        Extent2D {
            width: spec_clamp_u32(
                extent.width,
                capabilities.min_image_extent.width,
                capabilities.max_image_extent.width,
            ),
            height: spec_clamp_u32(
                extent.height,
                capabilities.min_image_extent.height,
                capabilities.max_image_extent.height,
            ),
        }
    } else {
        capabilities.current_extent
    }
}

fn clamp_u32(x: u32, lo: u32, hi: u32) -> (r: u32)
    requires
        lo <= hi,
    ensures
        r == spec_clamp_u32(x, lo, hi),
{
    if x < lo {
        lo
    } else if x > hi {
        hi
    } else {
        x
    }
}

/// Clamps the requested extent to the device-reported minimum and maximum,
/// unless the window manager already fixes the surface extent.
pub fn choose_swap_extent(extent: Extent2D, capabilities: &SurfaceCapabilities) -> (r: Extent2D)
    requires
        capabilities.wf(),
    ensures
        r == spec_chosen_extent(extent, *capabilities),
{
    if capabilities.current_extent.width == u32::MAX {
        Extent2D {
            width: clamp_u32(
                extent.width,
                capabilities.min_image_extent.width,
                capabilities.max_image_extent.width,
            ),
            height: clamp_u32(
                extent.height,
                capabilities.min_image_extent.height,
                capabilities.max_image_extent.height,
            ),
        }
    } else {
        capabilities.current_extent
    }
}

/// The image count the constructor requests: one more than the minimum for
/// headroom, capped by the declared maximum when there is one.
pub open spec fn spec_image_count(capabilities: SurfaceCapabilities) -> u32
    recommends
        capabilities.wf(),
        capabilities.min_image_count < u32::MAX,
{
    if capabilities.max_image_count > 0 {
        if capabilities.max_image_count < capabilities.min_image_count + 1 {
            capabilities.max_image_count
        } else {
            (capabilities.min_image_count + 1) as u32
        }
    } else {
        (capabilities.min_image_count + 1) as u32
    }
}

/// Computes the number of images to request from the platform.
pub fn swap_image_count(capabilities: &SurfaceCapabilities) -> (n: u32)
    requires
        capabilities.wf(),
        capabilities.min_image_count < u32::MAX,
    ensures
        n == spec_image_count(*capabilities),
        n >= capabilities.min_image_count,
        n >= 1,
{
    if capabilities.max_image_count > 0 {
        if capabilities.max_image_count < capabilities.min_image_count + 1 {
            capabilities.max_image_count
        } else {
            capabilities.min_image_count + 1
        }
    } else {
        capabilities.min_image_count + 1
    }
}

/// How the swapchain's images are shared between queue families.
#[derive(Clone, Copy, Debug, PartialEq, Eq, Structural)]
pub enum SharingMode {
    /// One queue family owns the images.
    Exclusive,
    /// The graphics and present families share them.
    Concurrent,
}

/// Selects exclusive ownership when one queue family both draws and
/// presents, and concurrent sharing between the two families otherwise.
pub fn select_sharing_mode(indices: CompleteQueueFamilyIndices) -> (r: (SharingMode, Vec<u32>))
    ensures
        indices.spec_graphics_family() == indices.spec_present_family() ==> r.0
            == SharingMode::Exclusive && r.1@ =~= Seq::<u32>::empty(),
        indices.spec_graphics_family() != indices.spec_present_family() ==> r.0
            == SharingMode::Concurrent && r.1@ =~= seq![
            indices.spec_graphics_family(),
            indices.spec_present_family(),
        ],
{
    let graphics = indices.graphics_family();
    let present = indices.present_family();
    if graphics == present {
        (SharingMode::Exclusive, Vec::new())
    } else {
        let mut families: Vec<u32> = Vec::new();
        families.push(graphics);
        families.push(present);
        (SharingMode::Concurrent, families)
    }
}

/// Everything the platform needs to construct the swapchain, decided from
/// the reported support data.
#[derive(Clone, Debug)]
pub struct SwapchainPlan {
    /// The chosen pixel format and color space.
    pub surface_format: SurfaceFormat,
    /// The chosen present mode.
    pub present_mode: PresentMode,
    /// The chosen extent.
    pub extent: Extent2D,
    /// How many images to request.
    pub image_count: u32,
    /// How the images are shared between queue families.
    pub sharing_mode: SharingMode,
    /// The families sharing the images; empty under exclusive ownership.
    pub queue_family_indices: Vec<u32>,
}

/// Decides every parameter of a swapchain from the surface's support data:
/// format, present mode, clamped extent, image count and sharing mode.
/// Fails exactly when the surface offers no format or no present mode.
pub fn plan_swapchain(
    window_extent: Extent2D,
    support: &SwapchainSupportDetails,
    indices: CompleteQueueFamilyIndices,
    config: &RenderConfig,
) -> (r: VkResult<SwapchainPlan>)
    requires
        support.spec_capabilities().wf(),
        support.spec_capabilities().min_image_count < u32::MAX,
    ensures
        r is Ok <==> support.spec_is_adequate(),
        !support.spec_is_adequate() ==> r == VkResult::<SwapchainPlan>::Err(
            VkError::InadequateSwapchainSupport,
        ),
        r matches Ok(plan) ==> {
            &&& plan.surface_format == spec_chosen_surface_format(
                support.spec_formats(),
                config.preferred_surface_format,
            )
            &&& plan.present_mode == spec_chosen_present_mode(
                support.spec_present_modes(),
                config.preferred_present_mode,
            )
            &&& plan.extent == spec_chosen_extent(window_extent, support.spec_capabilities())
            &&& plan.image_count == spec_image_count(support.spec_capabilities())
            &&& (indices.spec_graphics_family() == indices.spec_present_family()
                ==> plan.sharing_mode == SharingMode::Exclusive && plan.queue_family_indices@
                =~= Seq::<u32>::empty())
            &&& (indices.spec_graphics_family() != indices.spec_present_family()
                ==> plan.sharing_mode == SharingMode::Concurrent && plan.queue_family_indices@
                =~= seq![indices.spec_graphics_family(), indices.spec_present_family()])
        },
{
    if !support.is_adequate() {
        return Err(VkError::InadequateSwapchainSupport);
    }
    let surface_format = choose_swap_surface_format(
        support.formats(),
        config.preferred_surface_format,
    );
    let present_mode = choose_swap_present_mode(
        support.present_modes(),
        config.preferred_present_mode,
    );
    let extent = choose_swap_extent(window_extent, support.capabilities());
    let image_count = swap_image_count(support.capabilities());
    let (sharing_mode, queue_family_indices) = select_sharing_mode(indices);
    Ok(
        SwapchainPlan {
            surface_format,
            present_mode,
            extent,
            image_count,
            sharing_mode,
            queue_family_indices,
        },
    )
}

/// An extent on which a swapchain can be built: both dimensions are
/// non-zero. A minimized window reports a zero dimension.
pub open spec fn spec_extent_valid(e: Extent2D) -> bool {
    e.width > 0 && e.height > 0
}

pub fn extent_valid(e: Extent2D) -> (b: bool)
    ensures
        b == spec_extent_valid(e),
{
    e.width > 0 && e.height > 0
}

/// Scans the extents a window reported over time and returns the index of
/// the first on which a rebuild may construct: rebuilds retry while either
/// dimension is zero, and construct exactly at the first non-degenerate
/// extent. `None` means every reported extent was degenerate and the caller
/// must keep polling or escalate.
pub fn select_rebuild_extent(extents: &Vec<Extent2D>) -> (r: Option<usize>)
    ensures
        match r {
            Some(i) => i < extents@.len() && spec_extent_valid(extents@[i as int]) && forall|j: int|
                0 <= j < i ==> !spec_extent_valid(extents@[j]),
            None => forall|j: int| 0 <= j < extents@.len() ==> !spec_extent_valid(extents@[j]),
        },
{
    let len = extents.len();
    let mut i: usize = 0;
    while i < len
        invariant
            i <= len,
            len == extents@.len(),
            forall|j: int| 0 <= j < i ==> !spec_extent_valid(extents@[j]),
        decreases len - i,
    {
        if extent_valid(extents[i]) {
            return Some(i);
        }
        i = i + 1;
    }
    None
}

/// A rebuild constructs at `i` when `i` holds the first non-degenerate
/// extent of the sequence.
pub open spec fn spec_rebuild_constructs_at(extents: Seq<Extent2D>, i: int) -> bool {
    &&& 0 <= i < extents.len()
    &&& spec_extent_valid(extents[i])
    &&& forall|j: int| 0 <= j < i ==> !spec_extent_valid(extents[j])
}

/// Over any sequence of reported extents, at most one position satisfies
/// the rebuild policy: construction happens exactly once, at the first
/// non-degenerate extent.
pub proof fn lemma_rebuild_constructs_once(extents: Seq<Extent2D>, i: int, j: int)
    requires
        spec_rebuild_constructs_at(extents, i),
        spec_rebuild_constructs_at(extents, j),
    ensures
        i == j,
{
    if i < j {
        assert(!spec_extent_valid(extents[i]));
    }
    if j < i {
        assert(!spec_extent_valid(extents[j]));
    }
}

/// One step of tearing a presentation surface down.
#[derive(Clone, Copy, Debug, PartialEq, Eq, Structural)]
pub enum DestroyStep {
    /// Destroy the view of image `i`.
    ImageView(usize),
    /// Destroy the swapchain handle itself.
    SwapchainHandle,
    /// Destroy the framebuffer of image `i`.
    Framebuffer(usize),
    /// Destroy the shared render-target description.
    RenderTarget,
    /// Destroy slot `i`'s fence and two semaphores.
    SlotSync(usize),
}

/// The one destruction order the underlying API permits: every image view,
/// then the swapchain handle, then every framebuffer, then the render
/// target, then every slot's synchronization triple.
pub open spec fn spec_teardown_order(image_count: nat, frames_in_flight: nat) -> Seq<DestroyStep> {
    Seq::new(image_count, |i: int| DestroyStep::ImageView(i as usize)) + seq![
        DestroyStep::SwapchainHandle,
    ] + Seq::new(image_count, |i: int| DestroyStep::Framebuffer(i as usize)) + seq![
        DestroyStep::RenderTarget,
    ] + Seq::new(frames_in_flight, |i: int| DestroyStep::SlotSync(i as usize))
}

/// The bookkeeping of a live presentation surface: its chosen parameters,
/// how many images the platform actually produced (K), and how many frame
/// slots cycle over them (N). The invariant `N <= K` holds for the
/// surface's whole life, so every in-flight frame can occupy a distinct
/// image.
pub struct PresentationSurface {
    surface_format: SurfaceFormat,
    present_mode: PresentMode,
    extent: Extent2D,
    image_count: usize,
    frames_in_flight: usize,
}

impl PresentationSurface {
    pub closed spec fn spec_image_count(self) -> usize {
        self.image_count
    }

    pub closed spec fn spec_frames_in_flight(self) -> usize {
        self.frames_in_flight
    }

    pub closed spec fn spec_extent(self) -> Extent2D {
        self.extent
    }

    pub closed spec fn spec_surface_format(self) -> SurfaceFormat {
        self.surface_format
    }

    pub closed spec fn spec_present_mode(self) -> PresentMode {
        self.present_mode
    }

    /// Every frame slot can occupy a distinct image.
    pub open spec fn wf(self) -> bool {
        1 <= self.spec_frames_in_flight() <= self.spec_image_count()
    }

    /// Records a surface the platform constructed from `plan` with
    /// `actual_image_count` images. Fails closed exactly when the platform
    /// produced fewer images than the configured number of frame slots, so
    /// a well-formed surface always satisfies `N <= K`.
    pub fn new(plan: &SwapchainPlan, actual_image_count: usize, config: &RenderConfig) -> (r:
        VkResult<Self>)
        requires
            config.wf(),
        ensures
            r is Ok <==> actual_image_count >= config.max_frames_in_flight,
            r matches Ok(s) ==> {
                &&& s.wf()
                &&& s.spec_image_count() == actual_image_count
                &&& s.spec_frames_in_flight() == config.max_frames_in_flight
                &&& s.spec_extent() == plan.extent
                &&& s.spec_surface_format() == plan.surface_format
                &&& s.spec_present_mode() == plan.present_mode
            },
            r is Err ==> r == VkResult::<Self>::Err(VkError::InadequateSwapchainSupport),
    {
        if actual_image_count < config.max_frames_in_flight {
            return Err(VkError::InadequateSwapchainSupport);
        }
        Ok(
            PresentationSurface {
                surface_format: plan.surface_format,
                present_mode: plan.present_mode,
                extent: plan.extent,
                image_count: actual_image_count,
                frames_in_flight: config.max_frames_in_flight,
            },
        )
    }

    /// The extent the surface was built with.
    pub fn get_extent(&self) -> (e: Extent2D)
        ensures
            e == self.spec_extent(),
    {
        self.extent
    }

    /// Number of presentable images (K).
    pub fn image_count(&self) -> (k: usize)
        ensures
            k == self.spec_image_count(),
    {
        self.image_count
    }

    /// Number of frame slots (N).
    pub fn frames_in_flight(&self) -> (n: usize)
        ensures
            n == self.spec_frames_in_flight(),
    {
        self.frames_in_flight
    }

    /// The full teardown sequence for this surface, in the one order the
    /// underlying API permits. Destruction goes through this single method
    /// so the order cannot be got wrong field by field.
    pub fn teardown_plan(&self) -> (steps: Vec<DestroyStep>)
        requires
            self.wf(),
        ensures
            steps@ == spec_teardown_order(
                self.spec_image_count() as nat,
                self.spec_frames_in_flight() as nat,
            ),
    {
        let k = self.image_count;
        let n = self.frames_in_flight;
        let mut steps: Vec<DestroyStep> = Vec::new();
        let mut i: usize = 0;
        while i < k
            invariant
                i <= k,
                steps@ =~= Seq::new(i as nat, |j: int| DestroyStep::ImageView(j as usize)),
            decreases k - i,
        {
            steps.push(DestroyStep::ImageView(i));
            i = i + 1;
        }
        steps.push(DestroyStep::SwapchainHandle);
        let ghost prefix1 = steps@;
        let mut i: usize = 0;
        while i < k
            invariant
                i <= k,
                steps@ =~= prefix1 + Seq::new(i as nat, |j: int| DestroyStep::Framebuffer(
                    j as usize,
                )),
            decreases k - i,
        {
            steps.push(DestroyStep::Framebuffer(i));
            i = i + 1;
        }
        steps.push(DestroyStep::RenderTarget);
        let ghost prefix2 = steps@;
        let mut i: usize = 0;
        while i < n
            invariant
                i <= n,
                steps@ =~= prefix2 + Seq::new(i as nat, |j: int| DestroyStep::SlotSync(j as usize)),
            decreases n - i,
        {
            steps.push(DestroyStep::SlotSync(i));
            i = i + 1;
        }
        proof {
            assert(steps@ =~= spec_teardown_order(k as nat, n as nat));
        }
        steps
    }
}

} // verus!
