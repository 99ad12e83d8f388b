//! Swapchain configuration.
//!
//! Given the surface's reported capabilities, the window's physical size
//! and an ordered list of acceptable present modes, choose the present
//! mode, composite-alpha mode, pixel format, extent and image count the
//! swapchain is created with.  The driver gathers the capabilities from
//! the device and creates the actual swapchain from the chosen settings.

use vstd::prelude::*;

use crate::error::DeviceInitError;
use crate::graphics::PresentMode;

verus! {

/// The composite-alpha modes, in the fixed order the engine prefers them.
#[derive(Debug, Clone, Copy, PartialEq, Eq, Structural)]
pub enum CompositeAlpha {
    Opaque,
    Inherit,
    PreMultiplied,
    PostMultiplied,
}

/// A pixel format as the surface reports it: a backend format code plus
/// whether the format is an sRGB variant.  For the Vulkan backend the code
/// of RGBA8 sRGB is 43.
#[derive(Debug, Clone, Copy, PartialEq, Eq, Structural)]
pub struct SurfaceFormat {
    pub id: u32,
    pub srgb: bool,
}

/// The format code of RGBA8 sRGB, the hard-fallback format.
pub const RGBA8_SRGB_ID: u32 = 43;

/// The hard-fallback pixel format: RGBA8 sRGB.
pub open spec fn spec_rgba8_srgb() -> SurfaceFormat {
    SurfaceFormat { id: RGBA8_SRGB_ID, srgb: true }
}

/// A presentation extent in pixels.
#[derive(Debug, Clone, Copy, PartialEq, Eq, Structural)]
pub struct Extent2D {
    pub width: u32,
    pub height: u32,
}

/// What the engine needs to know of the surface and adapter to configure
/// the swapchain.
#[derive(Debug)]
pub struct SurfaceCaps {
    /// Whether some adapter exposes a graphics-capable queue family that
    /// can present to the surface.
    pub has_graphics_queue: bool,
    /// Smallest and largest image count the surface supports, inclusive.
    pub min_image_count: u32,
    pub max_image_count: u32,
    /// Smallest and largest extent the surface supports, inclusive.
    pub min_extent: Extent2D,
    pub max_extent: Extent2D,
    /// Whether swapchain images can be used as color attachments.
    pub supports_color_attachment: bool,
    /// The present modes the surface supports.
    pub present_modes: Vec<PresentMode>,
    /// The composite-alpha modes the surface supports.
    pub composite_alphas: Vec<CompositeAlpha>,
    /// The formats the surface prefers, if it reports any.
    pub formats: Option<Vec<SurfaceFormat>>,
}

impl SurfaceCaps {
    /// The capability ranges are non-empty and at least one image fits.
    pub open spec fn wf(self) -> bool {
        &&& 1 <= self.min_image_count <= self.max_image_count
        &&& self.min_extent.width <= self.max_extent.width
        &&& self.min_extent.height <= self.max_extent.height
    }
}

/// The settings a swapchain is created with.
#[derive(Debug, Clone, Copy, PartialEq, Eq, Structural)]
pub struct SwapchainSettings {
    pub present_mode: PresentMode,
    pub composite_alpha: CompositeAlpha,
    pub format: SurfaceFormat,
    pub extent: Extent2D,
    pub image_count: u32,
}

/// The first preferred present mode the surface supports.
pub open spec fn first_supported_mode(
    preferred: Seq<PresentMode>,
    supported: Seq<PresentMode>,
) -> Option<PresentMode>
    decreases preferred.len(),
{
    if preferred.len() == 0 {
        None
    } else if supported.contains(preferred[0]) {
        Some(preferred[0])
    } else {
        first_supported_mode(preferred.skip(1), supported)
    }
}

/// The first composite-alpha mode of the fixed preference order the
/// surface supports.
pub open spec fn spec_choose_alpha(supported: Seq<CompositeAlpha>) -> Option<CompositeAlpha> {
    if supported.contains(CompositeAlpha::Opaque) {
        Some(CompositeAlpha::Opaque)
    } else if supported.contains(CompositeAlpha::Inherit) {
        Some(CompositeAlpha::Inherit)
    } else if supported.contains(CompositeAlpha::PreMultiplied) {
        Some(CompositeAlpha::PreMultiplied)
    } else if supported.contains(CompositeAlpha::PostMultiplied) {
        Some(CompositeAlpha::PostMultiplied)
    } else {
        None
    }
}

/// The first sRGB variant among the reported formats.
pub open spec fn first_srgb(formats: Seq<SurfaceFormat>) -> Option<SurfaceFormat>
    decreases formats.len(),
{
    if formats.len() == 0 {
        None
    } else if formats[0].srgb {
        Some(formats[0])
    } else {
        first_srgb(formats.skip(1))
    }
}

/// The chosen pixel format: an sRGB variant if one is reported, else the
/// first reported format, else RGBA8 sRGB as a hard fallback.
pub open spec fn spec_choose_format(formats: Option<Seq<SurfaceFormat>>) -> SurfaceFormat {
    match formats {
        None => spec_rgba8_srgb(),
        Some(fs) => match first_srgb(fs) {
            Some(f) => f,
            None => if fs.len() > 0 {
                fs[0]
            } else {
                spec_rgba8_srgb()
            },
        },
    }
}

/// The sequence view of an optional format list.
pub open spec fn view_formats(formats: Option<Vec<SurfaceFormat>>) -> Option<Seq<SurfaceFormat>> {
    match formats {
        None => None,
        Some(v) => Some(v@),
    }
}

/// `x` clamped into `[lo, hi]`.
pub open spec fn spec_clamp(lo: int, hi: int, x: int) -> int {
    if x < lo {
        lo
    } else if x > hi {
        hi
    } else {
        x
    }
}

/// The image count the swapchain is created with: biased to 3 for
/// triple-buffering-class modes and 2 otherwise, clamped into the
/// capability range.
pub open spec fn spec_image_count(mode: PresentMode, min_count: int, max_count: int) -> int {
    spec_clamp(min_count, max_count, if mode == PresentMode::Mailbox { 3int } else { 2int })
}

/// Why no swapchain settings can be chosen, if any reason holds; the
/// checks happen in this order: adapter queue, present mode,
/// composite-alpha mode, color-attachment support.
pub open spec fn spec_settings_error(caps: SurfaceCaps, preferred: Seq<PresentMode>) -> Option<
    DeviceInitError,
> {
    if !caps.has_graphics_queue {
        Some(DeviceInitError::NoGraphicsQueue)
    } else if first_supported_mode(preferred, caps.present_modes@) is None {
        Some(DeviceInitError::NoSupportedPresentMode)
    } else if spec_choose_alpha(caps.composite_alphas@) is None {
        Some(DeviceInitError::NoCompositeAlpha)
    } else if !caps.supports_color_attachment {
        Some(DeviceInitError::ColorAttachmentUnsupported)
    } else {
        None
    }
}

/// The settings chosen for well-formed capabilities when nothing rules
/// them out.
pub open spec fn spec_chosen_settings(
    caps: SurfaceCaps,
    window: Extent2D,
    preferred: Seq<PresentMode>,
) -> SwapchainSettings
    recommends
        spec_settings_error(caps, preferred) is None,
{
    let mode = first_supported_mode(preferred, caps.present_modes@)->0;
    SwapchainSettings {
        present_mode: mode,
        composite_alpha: spec_choose_alpha(caps.composite_alphas@)->0,
        format: spec_choose_format(view_formats(caps.formats)),
        extent: Extent2D {
            width: spec_clamp(
                caps.min_extent.width as int,
                caps.max_extent.width as int,
                window.width as int,
            ) as u32,
            height: spec_clamp(
                caps.min_extent.height as int,
                caps.max_extent.height as int,
                window.height as int,
            ) as u32,
        },
        image_count: spec_image_count(
            mode,
            caps.min_image_count as int,
            caps.max_image_count as int,
        ) as u32,
    }
}

/// Whether `m` occurs in the supported list.
fn mode_supported(m: PresentMode, supported: &Vec<PresentMode>) -> (r: bool)
    ensures
        r == supported@.contains(m),
{
    let mut i: usize = 0;
    while i < supported.len()
        invariant
            i <= supported@.len(),
            forall|j: int| 0 <= j < i ==> supported@[j] != m,
        decreases supported@.len() - i,
    {
        if supported[i] == m {
            return true;
        }
        i += 1;
    }
    false
}

/// Whether `a` occurs in the supported list.
fn alpha_supported(a: CompositeAlpha, supported: &Vec<CompositeAlpha>) -> (r: bool)
    ensures
        r == supported@.contains(a),
{
    let mut i: usize = 0;
    while i < supported.len()
        invariant
            i <= supported@.len(),
            forall|j: int| 0 <= j < i ==> supported@[j] != a,
        decreases supported@.len() - i,
    {
        if supported[i] == a {
            return true;
        }
        i += 1;
    }
    false
}

/// The highest-priority requested present mode the surface supports.
pub fn choose_present_mode(
    preferred: &Vec<PresentMode>,
    supported: &Vec<PresentMode>,
) -> (r: Option<PresentMode>)
    ensures
        r == first_supported_mode(preferred@, supported@),
{
    proof {
        assert(preferred@.skip(0) =~= preferred@);
    }
    let mut i: usize = 0;
    while i < preferred.len()
        invariant
            i <= preferred@.len(),
            first_supported_mode(preferred@, supported@) == first_supported_mode(
                preferred@.skip(i as int),
                supported@,
            ),
        decreases preferred@.len() - i,
    {
        if mode_supported(preferred[i], supported) {
            proof {
                assert(preferred@.skip(i as int)[0] == preferred@[i as int]);
            }
            return Some(preferred[i]);
        }
        proof {
            assert(preferred@.skip(i as int).skip(1) =~= preferred@.skip(i as int + 1));
        }
        i += 1;
    }
    None
}

/// The first composite-alpha mode of the fixed preference order the
/// surface supports.
pub fn choose_composite_alpha(supported: &Vec<CompositeAlpha>) -> (r: Option<CompositeAlpha>)
    ensures
        r == spec_choose_alpha(supported@),
{
    if alpha_supported(CompositeAlpha::Opaque, supported) {
        Some(CompositeAlpha::Opaque)
    } else if alpha_supported(CompositeAlpha::Inherit, supported) {
        Some(CompositeAlpha::Inherit)
    } else if alpha_supported(CompositeAlpha::PreMultiplied, supported) {
        Some(CompositeAlpha::PreMultiplied)
    } else if alpha_supported(CompositeAlpha::PostMultiplied, supported) {
        Some(CompositeAlpha::PostMultiplied)
    } else {
        None
    }
}

/// The chosen pixel format: an sRGB variant if one is reported, else the
/// first reported format, else RGBA8 sRGB.
pub fn choose_format(formats: &Option<Vec<SurfaceFormat>>) -> (r: SurfaceFormat)
    ensures
        r == spec_choose_format(view_formats(*formats)),
{
    if formats.is_none() {
        return SurfaceFormat { id: RGBA8_SRGB_ID, srgb: true };
    }
    let fs: &Vec<SurfaceFormat> = formats.as_ref().unwrap();
    proof {
        assert(view_formats(*formats) == Some(fs@));
        assert(fs@.skip(0) =~= fs@);
    }
    let mut i: usize = 0;
    while i < fs.len()
        invariant
            i <= fs@.len(),
            first_srgb(fs@) == first_srgb(fs@.skip(i as int)),
            view_formats(*formats) == Some(fs@),
        decreases fs@.len() - i,
    {
        if fs[i].srgb {
            proof {
                assert(fs@.skip(i as int)[0] == fs@[i as int]);
                assert(first_srgb(fs@.skip(i as int)) == Some(fs@[i as int]));
            }
            return fs[i];
        }
        proof {
            assert(fs@.skip(i as int).skip(1) =~= fs@.skip(i as int + 1));
        }
        i += 1;
    }
    if fs.len() > 0 {
        fs[0]
    } else {
        SurfaceFormat { id: RGBA8_SRGB_ID, srgb: true }
    }
}

/// `x` clamped into `[lo, hi]`.
pub fn clamp_u32(lo: u32, hi: u32, x: u32) -> (r: u32)
    requires
        lo <= hi,
    ensures
        r == spec_clamp(lo as int, hi as int, x as int),
{
    if x < lo {
        lo
    } else if x > hi {
        hi
    } else {
        x
    }
}

/// The presentation extent: the window's physical size clamped into the
/// surface's capability range.
pub fn choose_extent(caps: &SurfaceCaps, window: Extent2D) -> (r: Extent2D)
    requires
        caps.wf(),
    ensures
        r.width == spec_clamp(
            caps.min_extent.width as int,
            caps.max_extent.width as int,
            window.width as int,
        ),
        r.height == spec_clamp(
            caps.min_extent.height as int,
            caps.max_extent.height as int,
            window.height as int,
        ),
{
    Extent2D {
        width: clamp_u32(caps.min_extent.width, caps.max_extent.width, window.width),
        height: clamp_u32(caps.min_extent.height, caps.max_extent.height, window.height),
    }
}

/// The image count for the chosen present mode, clamped into the
/// capability range.
pub fn choose_image_count(mode: PresentMode, min_count: u32, max_count: u32) -> (r: u32)
    requires
        min_count <= max_count,
    ensures
        r == spec_image_count(mode, min_count as int, max_count as int),
{
    let wanted: u32 = if mode == PresentMode::Mailbox {
        3
    } else {
        2
    };
    clamp_u32(min_count, max_count, wanted)
}

/// Choose every swapchain setting, or report the first reason none can be
/// chosen: no usable adapter queue, no requested present mode supported,
/// no usable composite-alpha mode, or no color-attachment support.
pub fn build_swapchain_settings(
    caps: &SurfaceCaps,
    window: Extent2D,
    preferred: &Vec<PresentMode>,
) -> (r: Result<SwapchainSettings, DeviceInitError>)
    requires
        caps.wf(),
    ensures
        r is Err <==> spec_settings_error(*caps, preferred@) is Some,
        r matches Err(e) ==> Some(e) == spec_settings_error(*caps, preferred@),
        r matches Ok(s) ==> s == spec_chosen_settings(*caps, window, preferred@) && 1
            <= s.image_count,
{
    if !caps.has_graphics_queue {
        return Err(DeviceInitError::NoGraphicsQueue);
    }
    let present_mode = match choose_present_mode(preferred, &caps.present_modes) {
        Some(m) => m,
        None => {
            return Err(DeviceInitError::NoSupportedPresentMode);
        },
    };
    let composite_alpha = match choose_composite_alpha(&caps.composite_alphas) {
        Some(a) => a,
        None => {
            return Err(DeviceInitError::NoCompositeAlpha);
        },
    };
    if !caps.supports_color_attachment {
        return Err(DeviceInitError::ColorAttachmentUnsupported);
    }
    let format = choose_format(&caps.formats);
    let extent = choose_extent(caps, window);
    let image_count = choose_image_count(present_mode, caps.min_image_count, caps.max_image_count);
    Ok(
        SwapchainSettings {
            present_mode,
            composite_alpha,
            format,
            extent,
            image_count,
        },
    )
}

} // verus!
