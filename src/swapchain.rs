//! Swapchain policies: surface format, present mode, extent, image count and
//! image sharing between queue families.

use crate::device::QueueFamilyIndices;
use vstd::prelude::*;

verus! {

/// Raw code of the 8-bit BGRA sRGB image format.
pub const FORMAT_B8G8R8A8_SRGB: i32 = 50;

/// Raw code of the non-linear sRGB color space.
pub const COLOR_SPACE_SRGB_NONLINEAR: i32 = 0;

/// Raw code of the low-latency triple-buffering present mode.
pub const PRESENT_MODE_MAILBOX: i32 = 1;

/// Raw code of the vsync present mode that every surface supports.
pub const PRESENT_MODE_FIFO: i32 = 2;

/// A surface reports this current width when the window size decides the extent.
pub const EXTENT_ANY: u32 = 0xFFFF_FFFF;

/// An image format together with its color space, as raw codes.
#[derive(Clone, Copy, PartialEq, Eq, Structural, Debug)]
pub struct SurfaceFormat {
    pub format: i32,
    pub color_space: i32,
}

/// A width and a height in pixels.
#[derive(Clone, Copy, PartialEq, Eq, Structural, Debug)]
pub struct Extent2D {
    pub width: u32,
    pub height: u32,
}

/// What a surface reports of the images it can present.
#[derive(Clone, Copy, PartialEq, Eq, Structural, Debug)]
pub struct SurfaceCapabilities {
    pub current_extent: Extent2D,
    pub min_image_extent: Extent2D,
    pub max_image_extent: Extent2D,
    pub min_image_count: u32,
    /// Zero when the surface sets no maximum.
    pub max_image_count: u32,
}

impl SurfaceCapabilities {
    /// The extent bounds are ordered, as the surface guarantees.
    pub open spec fn bounds_ordered(self) -> bool {
        &&& self.min_image_extent.width <= self.max_image_extent.width
        &&& self.min_image_extent.height <= self.max_image_extent.height
    }
}

/// Everything a surface reports for swapchain creation.
pub struct SwapChainSupportDetail {
    pub capabilities: SurfaceCapabilities,
    pub formats: Vec<SurfaceFormat>,
    pub present_modes: Vec<i32>,
}

pub open spec fn preferred_format() -> SurfaceFormat {
    SurfaceFormat { format: FORMAT_B8G8R8A8_SRGB, color_space: COLOR_SPACE_SRGB_NONLINEAR }
}

/// The preferred format when the surface supports it, else the first one.
pub open spec fn chosen_format(formats: Seq<SurfaceFormat>) -> SurfaceFormat {
    if formats.contains(preferred_format()) {
        preferred_format()
    } else {
        formats[0]
    }
}

/// The low-latency mode when the surface supports it, else vsync.
pub open spec fn chosen_present_mode(modes: Seq<i32>) -> i32 {
    if modes.contains(PRESENT_MODE_MAILBOX) {
        PRESENT_MODE_MAILBOX
    } else {
        PRESENT_MODE_FIFO
    }
}

pub open spec fn clamp_spec(x: u32, lo: u32, hi: u32) -> u32 {
    if x < lo {
        lo
    } else if x > hi {
        hi
    } else {
        x
    }
}

/// The surface's current extent unless it is the "any" marker, else the
/// window size clamped into the surface's bounds.
pub open spec fn chosen_extent(caps: SurfaceCapabilities, window_size: Extent2D) -> Extent2D {
    if caps.current_extent.width != EXTENT_ANY {
        caps.current_extent
    } else {
        Extent2D {
            width: clamp_spec(window_size.width, caps.min_image_extent.width, caps.max_image_extent.width),
            height: clamp_spec(window_size.height, caps.min_image_extent.height, caps.max_image_extent.height),
        }
    }
}

/// One image more than the minimum, but no more than a nonzero maximum.
pub open spec fn chosen_image_count(caps: SurfaceCapabilities) -> u32 {
    if caps.max_image_count > 0 && caps.min_image_count + 1 > caps.max_image_count {
        caps.max_image_count
    } else {
        (caps.min_image_count + 1) as u32
    }
}

/// Relies on `num::clamp`: the input when it lies in `[min, max]`, else the
/// bound it passed. It panics in debug builds when `min > max`.
#[verifier::external_body]
fn clamp_u32(input: u32, min: u32, max: u32) -> (r: u32)
    requires
        min <= max,
    ensures
        r == clamp_spec(input, min, max),
{
    num::clamp(input, min, max)
}

/// Picks the preferred (format, color space) pair if the surface offers it,
/// else the first format the surface lists.
pub fn choose_swapchain_format(available_formats: &Vec<SurfaceFormat>) -> (r: SurfaceFormat)
    requires
        available_formats@.len() > 0,
    ensures
        r == chosen_format(available_formats@),
{
    let mut i: usize = 0;
    while i < available_formats.len()
        invariant
            i <= available_formats@.len(),
            forall|k: int| 0 <= k < i ==> available_formats@[k] != preferred_format(),
        decreases available_formats@.len() - i,
    {
        let f = available_formats[i];
        if f.format == FORMAT_B8G8R8A8_SRGB && f.color_space == COLOR_SPACE_SRGB_NONLINEAR {
            assert(available_formats@.contains(preferred_format())) by {
                assert(available_formats@[i as int] == preferred_format());
            }
            return f;
        }
        i = i + 1;
    }
    available_formats[0]
}

/// Picks the low-latency present mode if the surface offers it, else vsync.
pub fn choose_swapchain_present_mode(available_present_modes: &Vec<i32>) -> (r: i32)
    ensures
        r == chosen_present_mode(available_present_modes@),
{
    let mut i: usize = 0;
    while i < available_present_modes.len()
        invariant
            i <= available_present_modes@.len(),
            forall|k: int| 0 <= k < i ==> available_present_modes@[k] != PRESENT_MODE_MAILBOX,
        decreases available_present_modes@.len() - i,
    {
        if available_present_modes[i] == PRESENT_MODE_MAILBOX {
            assert(available_present_modes@[i as int] == PRESENT_MODE_MAILBOX);
            return PRESENT_MODE_MAILBOX;
        }
        i = i + 1;
    }
    PRESENT_MODE_FIFO
}

/// Picks the swapchain extent from the surface's report and the window's
/// size in pixels.
pub fn choose_swapchain_extent(capabilities: &SurfaceCapabilities, window_size: Extent2D) -> (r: Extent2D)
    requires
        capabilities.current_extent.width == EXTENT_ANY ==> capabilities.bounds_ordered(),
    ensures
        r == chosen_extent(*capabilities, window_size),
{
    if capabilities.current_extent.width != EXTENT_ANY {
        capabilities.current_extent
    } else {
        Extent2D {
            width: clamp_u32(
                window_size.width,
                capabilities.min_image_extent.width,
                capabilities.max_image_extent.width,
            ),
            height: clamp_u32(
                window_size.height,
                capabilities.min_image_extent.height,
                capabilities.max_image_extent.height,
            ),
        }
    }
}

/// The number of swapchain images to ask for.
pub fn choose_image_count(capabilities: &SurfaceCapabilities) -> (r: u32)
    requires
        capabilities.min_image_count < u32::MAX,
    ensures
        r == chosen_image_count(*capabilities),
{
    let image_count = capabilities.min_image_count + 1;
    if capabilities.max_image_count > 0 && image_count > capabilities.max_image_count {
        capabilities.max_image_count
    } else {
        image_count
    }
}

/// The chosen image count is at least the surface's minimum and, where the
/// surface sets a maximum, at most that maximum.
pub proof fn lemma_image_count_within_bounds(caps: SurfaceCapabilities)
    requires
        caps.min_image_count < u32::MAX,
        caps.max_image_count == 0 || caps.min_image_count <= caps.max_image_count,
    ensures
        chosen_image_count(caps) >= caps.min_image_count,
        caps.max_image_count > 0 ==> chosen_image_count(caps) <= caps.max_image_count,
{
}

/// How the swapchain images are shared between the queue families.
#[derive(Clone, Copy, PartialEq, Eq, Structural, Debug)]
pub enum SharingMode {
    /// One family owns the images.
    Exclusive,
    /// The graphics and the present family use the images concurrently.
    Concurrent { graphics_family: u32, present_family: u32 },
}

pub open spec fn chosen_sharing(qf: QueueFamilyIndices) -> SharingMode {
    if qf.graphics_family != qf.present_family {
        SharingMode::Concurrent {
            graphics_family: qf.graphics_family.unwrap(),
            present_family: qf.present_family.unwrap(),
        }
    } else {
        SharingMode::Exclusive
    }
}

/// Concurrent sharing when graphics and presentation use distinct families.
pub fn choose_sharing_mode(queue_family: &QueueFamilyIndices) -> (r: SharingMode)
    requires
        queue_family.complete(),
    ensures
        r == chosen_sharing(*queue_family),
{
    let g = queue_family.graphics_family.unwrap();
    let p = queue_family.present_family.unwrap();
    if g != p {
        SharingMode::Concurrent { graphics_family: g, present_family: p }
    } else {
        SharingMode::Exclusive
    }
}

/// Everything that decides how a swapchain is created.
#[derive(Clone, Copy, PartialEq, Eq, Structural, Debug)]
pub struct SwapchainPlan {
    pub surface_format: SurfaceFormat,
    pub present_mode: i32,
    pub extent: Extent2D,
    pub image_count: u32,
    pub sharing: SharingMode,
}

/// Settles every choice of swapchain creation from what the surface reports,
/// the window size and the chosen queue families.
pub fn plan_swapchain(
    support: &SwapChainSupportDetail,
    window_size: Extent2D,
    queue_family: &QueueFamilyIndices,
) -> (r: SwapchainPlan)
    requires
        support.formats@.len() > 0,
        support.capabilities.current_extent.width == EXTENT_ANY ==> support.capabilities.bounds_ordered(),
        support.capabilities.min_image_count < u32::MAX,
        queue_family.complete(),
    ensures
        r.surface_format == chosen_format(support.formats@),
        r.present_mode == chosen_present_mode(support.present_modes@),
        r.extent == chosen_extent(support.capabilities, window_size),
        r.image_count == chosen_image_count(support.capabilities),
        r.sharing == chosen_sharing(*queue_family),
{
    SwapchainPlan {
        surface_format: choose_swapchain_format(&support.formats),
        present_mode: choose_swapchain_present_mode(&support.present_modes),
        extent: choose_swapchain_extent(&support.capabilities, window_size),
        image_count: choose_image_count(&support.capabilities),
        sharing: choose_sharing_mode(queue_family),
    }
}

} // verus!
