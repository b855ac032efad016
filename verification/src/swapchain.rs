//! Presentation decisions: the swapchain's format, present mode, extent and
//! image count, the frame-in-flight cursor, and how acquire and present
//! results are read.
use vstd::prelude::*;

verus! {

/// `VK_FORMAT_B8G8R8A8_SRGB`.
pub const FORMAT_B8G8R8A8_SRGB: i32 = 50;
/// `VK_COLOR_SPACE_SRGB_NONLINEAR_KHR`.
pub const COLOR_SPACE_SRGB_NONLINEAR: i32 = 0;
/// `VK_PRESENT_MODE_MAILBOX_KHR`.
pub const PRESENT_MODE_MAILBOX: i32 = 1;
/// `VK_PRESENT_MODE_FIFO_KHR`.
pub const PRESENT_MODE_FIFO: i32 = 2;
/// `VK_SUBOPTIMAL_KHR`.
pub const RESULT_SUBOPTIMAL: i32 = 1000001003;
/// `VK_ERROR_OUT_OF_DATE_KHR`.
pub const RESULT_ERROR_OUT_OF_DATE: i32 = -1000001004;

/// A surface format: its format and color space, by raw value.
#[derive(Debug, Clone, Copy, PartialEq, Eq, Structural)]
pub struct SurfaceFormat {
    pub format: i32,
    pub color_space: i32,
}

/// Whether a surface format is 8-bit BGRA sRGB with the non-linear sRGB color space.
pub open spec fn is_srgb_bgra(f: SurfaceFormat) -> bool {
    f.format == FORMAT_B8G8R8A8_SRGB && f.color_space == COLOR_SPACE_SRGB_NONLINEAR
}

/// The index of the surface format to use: the first 8-bit BGRA sRGB format,
/// else the first format offered.
pub fn choose_surface_format(formats: &Vec<SurfaceFormat>) -> (r: usize)
    requires
        formats@.len() > 0,
    ensures
        r < formats@.len(),
        is_srgb_bgra(formats@[r as int]) ==> forall|j: int| 0 <= j < r ==> !is_srgb_bgra(#[trigger] formats@[j]),
        !is_srgb_bgra(formats@[r as int]) ==> r == 0 && forall|j: int| 0 <= j < formats@.len() ==> !is_srgb_bgra(#[trigger] formats@[j]),
{
    let mut i: usize = 0;
    while i < formats.len()
        invariant
            i <= formats@.len(),
            forall|j: int| 0 <= j < i ==> !is_srgb_bgra(#[trigger] formats@[j]),
        decreases formats.len() - i,
    {
        let f = formats[i];
        if f.format == FORMAT_B8G8R8A8_SRGB && f.color_space == COLOR_SPACE_SRGB_NONLINEAR {
            return i;
        }
        i += 1;
    }
    0
}

/// The present mode to use: mailbox when offered, FIFO otherwise.
pub fn choose_present_mode(modes: &Vec<i32>) -> (r: i32)
    ensures
        r == (if modes@.contains(PRESENT_MODE_MAILBOX) { PRESENT_MODE_MAILBOX } else { PRESENT_MODE_FIFO }),
{
    let mut i: usize = 0;
    while i < modes.len()
        invariant
            i <= modes@.len(),
            forall|j: int| 0 <= j < i ==> #[trigger] modes@[j] != PRESENT_MODE_MAILBOX,
        decreases modes.len() - i,
    {
        if modes[i] == PRESENT_MODE_MAILBOX {
            return PRESENT_MODE_MAILBOX;
        }
        i += 1;
    }
    PRESENT_MODE_FIFO
}

/// A width and height.
#[derive(Debug, Clone, Copy, PartialEq, Eq, Structural)]
pub struct Extent2D {
    pub width: u32,
    pub height: u32,
}

/// `v` clamped to `lo..=hi`.
pub open spec fn clamp(v: u32, lo: u32, hi: u32) -> u32 {
    if v < lo { lo } else if v > hi { hi } else { v }
}

/// Whether the surface leaves the extent to the window (its current width is
/// the special value `u32::MAX`).
pub open spec fn extent_is_free(current: Extent2D) -> bool {
    current.width == u32::MAX
}

/// The swapchain extent: the surface's current extent when it fixes one, else
/// the window's size clamped to the surface's limits.
pub fn choose_extent(current: Extent2D, min: Extent2D, max: Extent2D, window: Extent2D) -> (r: Extent2D)
    requires
        extent_is_free(current) ==> min.width <= max.width && min.height <= max.height,
    ensures
        r == (if !extent_is_free(current) {
            current
        } else {
            Extent2D {
                width: clamp(window.width, min.width, max.width),
                height: clamp(window.height, min.height, max.height),
            }
        }),
{
    if current.width != u32::MAX {
        current
    } else {
        let width = if window.width < min.width { min.width } else if window.width > max.width { max.width } else { window.width };
        let height = if window.height < min.height { min.height } else if window.height > max.height { max.height } else { window.height };
        Extent2D { width, height }
    }
}

/// The number of swapchain images to ask for: one more than the minimum,
/// capped by the maximum when the surface sets one (a maximum of zero means none).
pub fn choose_image_count(min_image_count: u32, max_image_count: u32) -> (r: u32)
    requires
        min_image_count < u32::MAX,
    ensures
        r == (if max_image_count > 0 && min_image_count + 1 > max_image_count {
            max_image_count
        } else {
            (min_image_count + 1) as u32
        }),
{
    let mut image_count = min_image_count + 1;
    if max_image_count > 0 && image_count > max_image_count {
        image_count = max_image_count;
    }
    image_count
}

/// Which frame in flight is current.
#[derive(Debug, Clone, Copy, PartialEq, Eq, Structural)]
pub struct FrameCursor {
    pub current_frame: usize,
    pub max_frames_in_flight: usize,
}

impl FrameCursor {
    /// Whether the cursor points at a frame that exists.
    pub open spec fn wf(self) -> bool {
        self.current_frame < self.max_frames_in_flight
    }

    /// A cursor at the first of `max_frames_in_flight` frames.
    pub fn new(max_frames_in_flight: usize) -> (r: FrameCursor)
        ensures
            r.current_frame == 0,
            r.max_frames_in_flight == max_frames_in_flight,
    {
        FrameCursor { current_frame: 0, max_frames_in_flight }
    }

    /// Moves to the next frame after a present, wrapping around.
    pub fn advance(&mut self)
        requires
            old(self).max_frames_in_flight > 0,
            old(self).current_frame < usize::MAX,
        ensures
            final(self).max_frames_in_flight == old(self).max_frames_in_flight,
            final(self).current_frame == (old(self).current_frame + 1) % (old(self).max_frames_in_flight as int),
            final(self).wf(),
    {
        self.current_frame = (self.current_frame + 1) % self.max_frames_in_flight;
    }
}

/// How the result of acquiring a swapchain image is read: an out-of-date
/// swapchain is reported as image 0 with recreation needed; other errors pass on.
pub fn interpret_acquire(result: Result<(u32, bool), i32>) -> (r: Result<(u32, bool), i32>)
    ensures
        r == (match result {
            Ok(v) => Ok(v),
            Err(code) => if code == RESULT_ERROR_OUT_OF_DATE { Ok((0u32, true)) } else { Err(code) },
        }),
{
    match result {
        Ok(v) => Ok(v),
        Err(code) => {
            if code == RESULT_ERROR_OUT_OF_DATE {
                Ok((0, true))
            } else {
                Err(code)
            }
        }
    }
}

/// How the result of presenting is read: an out-of-date or suboptimal
/// swapchain is reported as needing recreation; other errors pass on.
pub fn interpret_present(result: Result<bool, i32>) -> (r: Result<bool, i32>)
    ensures
        r == (match result {
            Ok(s) => Ok(s),
            Err(code) => if code == RESULT_ERROR_OUT_OF_DATE || code == RESULT_SUBOPTIMAL {
                Ok(true)
            } else {
                Err(code)
            },
        }),
{
    match result {
        Ok(s) => Ok(s),
        Err(code) => {
            if code == RESULT_ERROR_OUT_OF_DATE || code == RESULT_SUBOPTIMAL {
                Ok(true)
            } else {
                Err(code)
            }
        }
    }
}

/// Whether a frame may be drawn after acquiring its image: not when the
/// swapchain must be recreated first.
pub fn check_acquired(recreate_swapchain: bool) -> (r: Result<(), String>)
    ensures
        recreate_swapchain ==> (r matches Err(m) && m@ == "[GpuRenderer] Swapchain is out of date, recreation required"@),
        !recreate_swapchain ==> r is Ok,
{
    if recreate_swapchain {
        Err(String::from_str("[GpuRenderer] Swapchain is out of date, recreation required"))
    } else {
        Ok(())
    }
}

/// Whether a presented frame ends the draw cleanly: a suboptimal swapchain is
/// reported so that the caller recreates it.
pub fn check_presented(suboptimal: bool) -> (r: Result<(), String>)
    ensures
        suboptimal ==> (r matches Err(m) && m@ == "[GpuRenderer] Swapchain is suboptimal, recreation recommended"@),
        !suboptimal ==> r is Ok,
{
    if suboptimal {
        Err(String::from_str("[GpuRenderer] Swapchain is suboptimal, recreation recommended"))
    } else {
        Ok(())
    }
}

/// The extent chosen for a surface that leaves it to the window lies within
/// the surface's limits.
pub proof fn lemma_free_extent_within_limits(current: Extent2D, min: Extent2D, max: Extent2D, window: Extent2D)
    requires
        extent_is_free(current),
        min.width <= max.width,
        min.height <= max.height,
    ensures
        ({
            let w = clamp(window.width, min.width, max.width);
            let h = clamp(window.height, min.height, max.height);
            &&& min.width <= w <= max.width
            &&& min.height <= h <= max.height
            &&& (min.width <= window.width <= max.width ==> w == window.width)
            &&& (min.height <= window.height <= max.height ==> h == window.height)
        }),
{
}

/// The image count never exceeds a maximum the surface sets, and is one more
/// than the minimum when that fits.
pub proof fn lemma_image_count_bounds(min_image_count: u32, max_image_count: u32)
    requires
        min_image_count < u32::MAX,
    ensures
        ({
            let r = if max_image_count > 0 && min_image_count + 1 > max_image_count {
                max_image_count
            } else {
                (min_image_count + 1) as u32
            };
            &&& (max_image_count > 0 ==> r <= max_image_count)
            &&& ((max_image_count == 0 || min_image_count < max_image_count) ==> r == min_image_count + 1)
        }),
{
}

} // verus!
