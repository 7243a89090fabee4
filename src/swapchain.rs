//! Swapchain parameters computed from what the surface reports, and the record
//! of the swapchain that is currently live.

use vstd::prelude::*;

verus! {

/// A width and height in pixels.
#[derive(Clone, Copy, Debug, PartialEq, Eq, Structural)]
pub struct Extent {
    pub width: u32,
    pub height: u32,
}

/// The width with which a surface says that its current extent is undefined
/// and the swapchain decides it.
pub const UNDEFINED_EXTENT_WIDTH: u32 = 0xFFFF_FFFF;

/// The identity bit of a surface transform mask.
pub const TRANSFORM_IDENTITY: u32 = 1;

/// How presented images are paced onto the display.
#[derive(Clone, Copy, Debug, PartialEq, Eq, Structural)]
pub enum PresentMode {
    Immediate,
    Mailbox,
    Fifo,
    FifoRelaxed,
    Other,
}

/// A pixel format and colour space pair, carried as the driver's raw values.
#[derive(Clone, Copy, Debug, PartialEq, Eq, Structural)]
pub struct SurfaceFormat {
    pub format: i32,
    pub color_space: i32,
}

/// What the surface reports when it is queried before a (re)creation.
/// `max_image_count` 0 means no upper bound; transforms are bit masks.
#[derive(Clone, Debug)]
pub struct SurfaceCapabilities {
    pub min_image_count: u32,
    pub max_image_count: u32,
    pub current_extent: Extent,
    pub supported_transforms: u32,
    pub current_transform: u32,
    pub present_modes: Vec<PresentMode>,
    pub formats: Vec<SurfaceFormat>,
}

/// The parameters a swapchain is created with. Usage (colour attachment),
/// sharing (exclusive) and composite alpha (opaque) never vary and are not
/// recorded here.
#[derive(Clone, Copy, Debug, PartialEq, Eq, Structural)]
pub struct SwapchainConfig {
    pub image_count: u32,
    pub format: SurfaceFormat,
    pub extent: Extent,
    pub pre_transform: u32,
    pub present_mode: PresentMode,
    pub array_layers: u32,
    pub clipped: bool,
}

#[derive(Clone, Copy, Debug, PartialEq, Eq, Structural)]
pub enum SwapchainError {
    /// The chosen extent has a zero side: skip this recreation and try again
    /// on a later event.
    WindowMinimized,
}

/// The upper bound on the image count: none when the surface reports 0, and
/// never below the minimum, since some drivers report a maximum under it.
pub open spec fn effective_max(min: u32, max: u32) -> Option<int> {
    if max == 0 {
        None
    } else if min > max {
        Some(min as int)
    } else {
        Some(max as int)
    }
}

/// One image more than the minimum, clamped to the effective maximum.
pub open spec fn image_count_for(min: u32, max: u32) -> int {
    let want = min as int + 1;
    match effective_max(min, max) {
        None => want,
        Some(hi) => if want > hi {
            hi
        } else {
            want
        },
    }
}

/// `image_count_for`, saturated at what the count's type can hold.
pub open spec fn image_count_u32(min: u32, max: u32) -> u32 {
    if image_count_for(min, max) > u32::MAX {
        u32::MAX
    } else {
        image_count_for(min, max) as u32
    }
}

pub open spec fn extent_for(current: Extent, desired: Extent) -> Extent {
    if current.width == UNDEFINED_EXTENT_WIDTH {
        desired
    } else {
        current
    }
}

pub open spec fn pre_transform_for(supported: u32, current: u32) -> u32 {
    if supported & TRANSFORM_IDENTITY != 0 {
        TRANSFORM_IDENTITY
    } else {
        current
    }
}

pub open spec fn present_mode_for(modes: Seq<PresentMode>) -> PresentMode {
    if modes.contains(PresentMode::Mailbox) {
        PresentMode::Mailbox
    } else {
        PresentMode::Fifo
    }
}

pub open spec fn config_for(caps: SurfaceCapabilities, desired: Extent) -> SwapchainConfig {
    SwapchainConfig {
        image_count: image_count_u32(caps.min_image_count, caps.max_image_count),
        format: caps.formats@[0],
        extent: extent_for(caps.current_extent, desired),
        pre_transform: pre_transform_for(caps.supported_transforms, caps.current_transform),
        present_mode: present_mode_for(caps.present_modes@),
        array_layers: 1,
        clipped: true,
    }
}

pub open spec fn is_zero_extent(e: Extent) -> bool {
    e.width == 0 || e.height == 0
}

/// The number of images to ask for: `min + 1`, clamped to the effective maximum.
pub fn choose_image_count(min_image_count: u32, max_image_count: u32) -> (r: u32)
    ensures
        r == image_count_u32(min_image_count, max_image_count),
{
    if min_image_count == u32::MAX || (max_image_count != 0 && max_image_count <= min_image_count) {
        min_image_count
    } else {
        min_image_count + 1
    }
}

/// The surface's current extent, or `desired` where the surface leaves it undefined.
pub fn choose_extent(current: Extent, desired: Extent) -> (r: Extent)
    ensures
        r == extent_for(current, desired),
{
    if current.width == UNDEFINED_EXTENT_WIDTH {
        desired
    } else {
        current
    }
}

/// Identity where the surface supports it, else the surface's current transform.
pub fn choose_pre_transform(supported: u32, current: u32) -> (r: u32)
    ensures
        r == pre_transform_for(supported, current),
{
    if supported & TRANSFORM_IDENTITY != 0 {
        TRANSFORM_IDENTITY
    } else {
        current
    }
}

/// Mailbox where the surface offers it, else FIFO, which every surface offers.
pub fn choose_present_mode(modes: &Vec<PresentMode>) -> (r: PresentMode)
    ensures
        r == present_mode_for(modes@),
{
    let mut i: usize = 0;
    while i < modes.len()
        invariant
            i <= modes@.len(),
            forall|j: int| 0 <= j < i ==> modes@[j] != PresentMode::Mailbox,
        decreases modes@.len() - i,
    {
        if modes[i] == PresentMode::Mailbox {
            assert(modes@[i as int] == PresentMode::Mailbox);
            return PresentMode::Mailbox;
        }
        i = i + 1;
    }
    PresentMode::Fifo
}

/// Computes the creation parameters from the surface's report; fails only on
/// a zero-sized extent.
pub fn choose_config(caps: &SurfaceCapabilities, desired: Extent) -> (r: Result<
    SwapchainConfig,
    SwapchainError,
>)
    requires
        caps.formats@.len() > 0,
    ensures
        r is Err <==> is_zero_extent(extent_for(caps.current_extent, desired)),
        r matches Ok(c) ==> c == config_for(*caps, desired),
        r matches Err(e) ==> e == SwapchainError::WindowMinimized,
{
    let extent = choose_extent(caps.current_extent, desired);
    if extent.width == 0 || extent.height == 0 {
        return Err(SwapchainError::WindowMinimized);
    }
    Ok(
        SwapchainConfig {
            image_count: choose_image_count(caps.min_image_count, caps.max_image_count),
            format: caps.formats[0],
            extent,
            pre_transform: choose_pre_transform(caps.supported_transforms, caps.current_transform),
            present_mode: choose_present_mode(&caps.present_modes),
            array_layers: 1,
            clipped: true,
        },
    )
}

/// What a recreation returns for a surface report and a desired size.
pub open spec fn recreate_outcome(caps: SurfaceCapabilities, desired: Extent) -> Result<
    SwapchainConfig,
    SwapchainError,
> {
    if is_zero_extent(extent_for(caps.current_extent, desired)) {
        Err(SwapchainError::WindowMinimized)
    } else {
        Ok(config_for(caps, desired))
    }
}

/// The live configuration after a recreation: the new one, or the previous one
/// where the recreation was skipped.
pub open spec fn after_recreate(
    prev: Option<SwapchainConfig>,
    caps: SurfaceCapabilities,
    desired: Extent,
) -> Option<SwapchainConfig> {
    match recreate_outcome(caps, desired) {
        Ok(c) => Some(c),
        Err(_) => prev,
    }
}

/// Records the configuration of the live swapchain, if any. The host holds
/// the swapchain object itself and replaces it wholesale on each recreation.
pub struct SwapchainManager {
    live: Option<SwapchainConfig>,
}

impl View for SwapchainManager {
    type V = Option<SwapchainConfig>;

    closed spec fn view(&self) -> Option<SwapchainConfig> {
        self.live
    }
}

impl SwapchainManager {
    pub fn new() -> (r: SwapchainManager)
        ensures
            r@ is None,
    {
        SwapchainManager { live: None }
    }

    /// The live swapchain's configuration; also the reuse hint for the next creation.
    pub fn current(&self) -> (r: Option<SwapchainConfig>)
        ensures
            r == self@,
    {
        self.live
    }

    /// Computes the configuration afresh from the surface's report and makes
    /// it the live one. A zero-sized extent skips the recreation and keeps the
    /// previous swapchain.
    pub fn recreate(&mut self, caps: &SurfaceCapabilities, desired: Extent) -> (r: Result<
        SwapchainConfig,
        SwapchainError,
    >)
        requires
            caps.formats@.len() > 0,
        ensures
            r == recreate_outcome(*caps, desired),
            final(self)@ == after_recreate(old(self)@, *caps, desired),
    {
        let r = choose_config(caps, desired);
        if let Ok(c) = r {
            self.live = Some(c);
        }
        r
    }

    /// Forgets the live swapchain once the host has destroyed it.
    pub fn destroy(&mut self)
        ensures
            final(self)@ is None,
    {
        self.live = None;
    }
}

/// Where the surface leaves its extent undefined, the configuration takes the
/// caller's desired size.
pub proof fn lemma_undefined_extent_takes_desired(caps: SurfaceCapabilities, desired: Extent)
    requires
        caps.current_extent.width == UNDEFINED_EXTENT_WIDTH,
        caps.formats@.len() > 0,
    ensures
        config_for(caps, desired).extent == desired,
        recreate_outcome(caps, desired) matches Ok(c) ==> c.extent == desired,
{
}

/// Where a bounded maximum lies under the minimum, the image count stays within
/// the larger of the two (it is the minimum), and the anomaly alone never makes
/// creation fail: only a zero-sized extent does.
pub proof fn lemma_inverted_bounds_tolerated(caps: SurfaceCapabilities, desired: Extent)
    requires
        caps.min_image_count > caps.max_image_count,
        caps.max_image_count != 0,
        caps.formats@.len() > 0,
    ensures
        config_for(caps, desired).image_count <= caps.min_image_count,
        config_for(caps, desired).image_count >= caps.max_image_count,
        config_for(caps, desired).image_count == caps.min_image_count,
        recreate_outcome(caps, desired) is Ok <==> !is_zero_extent(
            extent_for(caps.current_extent, desired),
        ),
{
}

/// Recreating twice in a row on an unchanged surface report leaves the same
/// configuration (format, extent, present mode and the rest) as recreating once,
/// whatever was live before.
pub proof fn lemma_recreate_idempotent(
    prev: Option<SwapchainConfig>,
    caps: SurfaceCapabilities,
    desired: Extent,
)
    requires
        caps.formats@.len() > 0,
    ensures
        after_recreate(after_recreate(prev, caps, desired), caps, desired) == after_recreate(
            prev,
            caps,
            desired,
        ),
        recreate_outcome(caps, desired) matches Ok(c) ==> after_recreate(
            after_recreate(prev, caps, desired),
            caps,
            desired,
        ) == Some(c),
{
}

} // verus!
