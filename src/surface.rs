//! Negotiation of the swapchain's extent, color format and present mode.

use vstd::prelude::*;
use crate::device::SetupError;

verus! {

/// The format code of 8-bit BGRA with sRGB encoding.
pub const FORMAT_B8G8R8A8_SRGB: i32 = 50;

/// The color-space code of non-linear sRGB.
pub const COLOR_SPACE_SRGB_NONLINEAR: i32 = 0;

/// The present-mode code of the low-latency, replace-the-queued-image mode.
pub const PRESENT_MODE_MAILBOX: i32 = 1;

/// The present-mode code of first-in first-out presentation, which every
/// surface supports.
pub const PRESENT_MODE_FIFO: i32 = 2;

/// A width and a height in pixels.
#[derive(Clone, Copy, PartialEq, Eq, Structural, Debug)]
pub struct Extent {
    pub width: u32,
    pub height: u32,
}

/// What a surface reports it can take.
#[derive(Clone, Copy, PartialEq, Eq, Structural, Debug)]
pub struct SurfaceCaps {
    pub min_image_count: u32,
    pub min_extent: Extent,
    pub max_extent: Extent,
}

impl SurfaceCaps {
    /// The reported bounds are ordered, as the graphics API guarantees.
    pub open spec fn wf(&self) -> bool {
        &&& self.min_extent.width <= self.max_extent.width
        &&& self.min_extent.height <= self.max_extent.height
    }
}

/// A color format together with its color space.
#[derive(Clone, Copy, PartialEq, Eq, Structural, Debug)]
pub struct SurfaceFormat {
    pub format: i32,
    pub color_space: i32,
}

/// The negotiated parameters of a swapchain.
#[derive(Clone, Copy, PartialEq, Eq, Structural, Debug)]
pub struct SurfaceConfig {
    pub format: SurfaceFormat,
    pub present_mode: i32,
    pub extent: Extent,
    pub min_image_count: u32,
}

/// `v` held within `[lo, hi]`.
pub open spec fn clamp_spec(v: u32, lo: u32, hi: u32) -> u32 {
    if v < lo {
        lo
    } else if v > hi {
        hi
    } else {
        v
    }
}

/// The window size held within the surface's reported bounds.
pub open spec fn clamped_extent(size: Extent, caps: SurfaceCaps) -> Extent {
    Extent {
        width: clamp_spec(size.width, caps.min_extent.width, caps.max_extent.width),
        height: clamp_spec(size.height, caps.min_extent.height, caps.max_extent.height),
    }
}

pub open spec fn is_preferred_format(f: SurfaceFormat) -> bool {
    f.format == FORMAT_B8G8R8A8_SRGB && f.color_space == COLOR_SPACE_SRGB_NONLINEAR
}

/// The preferred format if the surface offers it, else its first one.
pub open spec fn format_choice(formats: Seq<SurfaceFormat>) -> SurfaceFormat
    recommends
        formats.len() > 0,
{
    if exists|i: int| 0 <= i < formats.len() && is_preferred_format(#[trigger] formats[i]) {
        SurfaceFormat { format: FORMAT_B8G8R8A8_SRGB, color_space: COLOR_SPACE_SRGB_NONLINEAR }
    } else {
        formats[0]
    }
}

/// Mailbox if the surface offers it, else FIFO.
pub open spec fn present_mode_choice(modes: Seq<i32>) -> i32 {
    if modes.contains(PRESENT_MODE_MAILBOX) {
        PRESENT_MODE_MAILBOX
    } else {
        PRESENT_MODE_FIFO
    }
}

fn clamp_u32(v: u32, lo: u32, hi: u32) -> (r: u32)
    requires
        lo <= hi,
    ensures
        r == clamp_spec(v, lo, hi),
{
    if v < lo {
        lo
    } else if v > hi {
        hi
    } else {
        v
    }
}

/// The window size clamped to the surface's minimum and maximum extents.
pub fn clamp_extent(size: Extent, caps: &SurfaceCaps) -> (r: Extent)
    requires
        caps.wf(),
    ensures
        r == clamped_extent(size, *caps),
{
    Extent {
        width: clamp_u32(size.width, caps.min_extent.width, caps.max_extent.width),
        height: clamp_u32(size.height, caps.min_extent.height, caps.max_extent.height),
    }
}

/// 8-bit BGRA with non-linear sRGB if offered, else the first format
/// reported; an error when none is.
pub fn choose_format(formats: &Vec<SurfaceFormat>) -> (r: Result<SurfaceFormat, SetupError>)
    ensures
        formats@.len() == 0 ==> r == Err::<SurfaceFormat, SetupError>(SetupError::NoSurfaceFormat),
        formats@.len() > 0 ==> r == Ok::<SurfaceFormat, SetupError>(format_choice(formats@)),
{
    if formats.len() == 0 {
        return Err(SetupError::NoSurfaceFormat);
    }
    let mut i: usize = 0;
    while i < formats.len()
        invariant
            i <= formats@.len(),
            forall|j: int| 0 <= j < i ==> !is_preferred_format(#[trigger] formats@[j]),
        decreases formats@.len() - i,
    {
        let f = formats[i];
        if f.format == FORMAT_B8G8R8A8_SRGB && f.color_space == COLOR_SPACE_SRGB_NONLINEAR {
            assert(is_preferred_format(formats@[i as int]));
            return Ok(f);
        }
        i = i + 1;
    }
    Ok(formats[0])
}

/// The mailbox mode if offered, else FIFO.
pub fn choose_present_mode(modes: &Vec<i32>) -> (r: i32)
    ensures
        r == present_mode_choice(modes@),
{
    let mut i: usize = 0;
    while i < modes.len()
        invariant
            i <= modes@.len(),
            forall|j: int| 0 <= j < i ==> modes@[j] != PRESENT_MODE_MAILBOX,
        decreases modes@.len() - i,
    {
        if modes[i] == PRESENT_MODE_MAILBOX {
            assert(modes@[i as int] == PRESENT_MODE_MAILBOX);
            return PRESENT_MODE_MAILBOX;
        }
        i = i + 1;
    }
    PRESENT_MODE_FIFO
}

/// Negotiates the swapchain for a window of the given size: clamped extent,
/// preferred or first format, mailbox or FIFO, and the surface's minimum
/// image count.
pub fn negotiate(
    caps: &SurfaceCaps,
    formats: &Vec<SurfaceFormat>,
    modes: &Vec<i32>,
    size: Extent,
) -> (r: Result<SurfaceConfig, SetupError>)
    requires
        caps.wf(),
    ensures
        formats@.len() == 0 ==> r == Err::<SurfaceConfig, SetupError>(SetupError::NoSurfaceFormat),
        formats@.len() > 0 ==> r == Ok::<SurfaceConfig, SetupError>(
            SurfaceConfig {
                format: format_choice(formats@),
                present_mode: present_mode_choice(modes@),
                extent: clamped_extent(size, *caps),
                min_image_count: caps.min_image_count,
            },
        ),
{
    let format = match choose_format(formats) {
        Ok(f) => f,
        Err(e) => {
            return Err(e);
        },
    };
    Ok(
        SurfaceConfig {
            format,
            present_mode: choose_present_mode(modes),
            extent: clamp_extent(size, caps),
            min_image_count: caps.min_image_count,
        },
    )
}

} // verus!
