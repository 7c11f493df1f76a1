//! What the swapchain is made with, given what the surface can do.

use crate::overlay::Extent;
use vstd::prelude::*;
use vstd::string::*;

verus! {

/// A surface format by its numbers.
#[derive(Debug, Clone, Copy, PartialEq, Eq, Structural)]
pub struct SurfaceFormat {
    pub format: u32,
    pub color_space: u32,
}

/// Eight bits each of blue, green, red and alpha, unsigned normalized.
pub const FORMAT_B8G8R8A8_UNORM: u32 = 44;

/// The usual nonlinear color space.
pub const COLOR_SPACE_SRGB_NONLINEAR: u32 = 0;

pub const ALPHA_OPAQUE: u32 = 1;

pub const ALPHA_PRE_MULTIPLIED: u32 = 2;

pub const ALPHA_POST_MULTIPLIED: u32 = 4;

pub const ALPHA_INHERIT: u32 = 8;

/// What the surface can do. No current extent means that the swapchain
/// decides; no highest count means that there is none.
#[derive(Debug, Clone, Copy, PartialEq, Eq, Structural)]
pub struct SurfaceCaps {
    pub min_image_count: u32,
    pub max_image_count: u32,
    pub current_extent: Extent,
    pub min_extent: Extent,
    pub max_extent: Extent,
    pub composite_alpha: u32,
}

/// What the swapchain is made with.
#[derive(Debug, Clone, Copy, PartialEq, Eq, Structural)]
pub struct SwapchainPlan {
    pub format: SurfaceFormat,
    pub extent: Extent,
    pub image_count: u32,
    pub alpha: u32,
}

/// The format that is wanted.
pub open spec fn wanted_format() -> SurfaceFormat {
    SurfaceFormat {
        format: FORMAT_B8G8R8A8_UNORM,
        color_space: COLOR_SPACE_SRGB_NONLINEAR,
    }
}

fn choose_format(formats: &[SurfaceFormat]) -> (r: Option<SurfaceFormat>)
    ensures
        match r {
            Some(f) => f == if formats@.contains(wanted_format()) {
                wanted_format()
            } else {
                formats@[0]
            } && formats@.len() > 0,
            None => formats@.len() == 0,
        },
{
    let mut i: usize = 0;
    while i < formats.len()
        invariant
            i <= formats.len(),
            forall|j: int| 0 <= j < i ==> #[trigger] formats@[j] != wanted_format(),
        decreases formats.len() - i,
    {
        let f = formats[i];
        if f.format == FORMAT_B8G8R8A8_UNORM && f.color_space == COLOR_SPACE_SRGB_NONLINEAR {
            assert(formats@[i as int] == wanted_format());
            return Some(f);
        }
        i += 1;
    }
    if formats.len() > 0 {
        Some(formats[0])
    } else {
        None
    }
}

pub open spec fn between(v: u32, low: u32, high: u32) -> u32 {
    if v < low {
        low
    } else if v > high {
        high
    } else {
        v
    }
}

fn clamp_u32(v: u32, low: u32, high: u32) -> (r: u32)
    requires
        low <= high,
    ensures
        r == between(v, low, high),
{
    if v < low {
        low
    } else if v > high {
        high
    } else {
        v
    }
}

/// The extent: the surface's own where it has one, else the requested one as
/// far as the surface allows.
pub open spec fn extent_for(caps: SurfaceCaps, requested: Extent) -> Extent {
    if caps.current_extent.width != u32::MAX {
        caps.current_extent
    } else {
        Extent {
            width: between(requested.width, caps.min_extent.width, caps.max_extent.width),
            height: between(requested.height, caps.min_extent.height, caps.max_extent.height),
        }
    }
}

/// At least two images, and no more than the surface allows.
pub open spec fn image_count_for(caps: SurfaceCaps) -> u32 {
    let wanted = if caps.min_image_count < 2 {
        2u32
    } else {
        caps.min_image_count
    };
    if caps.max_image_count > 0 && caps.max_image_count < wanted {
        caps.max_image_count
    } else {
        wanted
    }
}

/// The first of pre-multiplied, post-multiplied and inherited alpha that the
/// surface supports, or else opaque.
pub open spec fn alpha_for(supported: u32) -> u32 {
    if supported & ALPHA_PRE_MULTIPLIED == ALPHA_PRE_MULTIPLIED {
        ALPHA_PRE_MULTIPLIED
    } else if supported & ALPHA_POST_MULTIPLIED == ALPHA_POST_MULTIPLIED {
        ALPHA_POST_MULTIPLIED
    } else if supported & ALPHA_INHERIT == ALPHA_INHERIT {
        ALPHA_INHERIT
    } else {
        ALPHA_OPAQUE
    }
}

/// Decides what the swapchain is made with.
pub fn plan_swapchain(caps: &SurfaceCaps, formats: &[SurfaceFormat], requested: Extent) -> (r:
    Result<SwapchainPlan, String>)
    requires
        caps.min_extent.width <= caps.max_extent.width,
        caps.min_extent.height <= caps.max_extent.height,
    ensures
        match r {
            Ok(plan) => {
                &&& formats@.len() > 0
                &&& plan.format == if formats@.contains(wanted_format()) {
                    wanted_format()
                } else {
                    formats@[0]
                }
                &&& plan.extent == extent_for(*caps, requested)
                &&& plan.image_count == image_count_for(*caps)
                &&& plan.alpha == alpha_for(caps.composite_alpha)
            },
            Err(message) => formats@.len() == 0 && message@ == "surface has no formats"@,
        },
{
    let format = match choose_format(formats) {
        Some(format) => format,
        None => {
            return Err("surface has no formats".to_string());
        },
    };
    let extent = if caps.current_extent.width != u32::MAX {
        caps.current_extent
    } else {
        Extent {
            width: clamp_u32(requested.width, caps.min_extent.width, caps.max_extent.width),
            height: clamp_u32(requested.height, caps.min_extent.height, caps.max_extent.height),
        }
    };
    let mut image_count: u32 = if caps.min_image_count < 2 {
        2
    } else {
        caps.min_image_count
    };
    if caps.max_image_count > 0 && caps.max_image_count < image_count {
        image_count = caps.max_image_count;
    }
    let supported: u32 = caps.composite_alpha;
    let alpha: u32 = if supported & ALPHA_PRE_MULTIPLIED == ALPHA_PRE_MULTIPLIED {
        ALPHA_PRE_MULTIPLIED
    } else if supported & ALPHA_POST_MULTIPLIED == ALPHA_POST_MULTIPLIED {
        ALPHA_POST_MULTIPLIED
    } else if supported & ALPHA_INHERIT == ALPHA_INHERIT {
        ALPHA_INHERIT
    } else {
        ALPHA_OPAQUE
    };
    Ok(SwapchainPlan { format, extent, image_count, alpha })
}

/// The number of images is one that the surface allows, provided that its own
/// limits agree.
pub proof fn law_image_count_is_allowed(caps: SurfaceCaps)
    requires
        caps.max_image_count == 0 || caps.min_image_count <= caps.max_image_count,
    ensures
        caps.min_image_count <= image_count_for(caps),
        caps.max_image_count > 0 ==> image_count_for(caps) <= caps.max_image_count,
{
}

/// A swapchain has the blue-first 8-bit format in the usual color space where
/// the surface offers it and the first offered one otherwise; the extent of the
/// surface where it has its own, and else the requested one, each side kept
/// within what is allowed; two images or as many more as the surface needs,
/// but no more than it allows; and the first of the pre-multiplied,
/// post-multiplied and inherited alpha that is supported, or an opaque one.
pub proof fn law_swapchains_suit_the_surface(
    caps: &SurfaceCaps,
    formats: &[SurfaceFormat],
    requested: Extent,
    r: Result<SwapchainPlan, String>,
    j: int,
)
    requires
        call_ensures(plan_swapchain, (caps, formats, requested), r),
        caps.min_extent.width <= caps.max_extent.width,
        caps.min_extent.height <= caps.max_extent.height,
    ensures
        r is Ok <==> formats@.len() > 0,
        r matches Ok(plan) ==> {
            &&& 0 <= j < formats@.len() && formats@[j].format == 44 && formats@[j].color_space == 0
                ==> plan.format.format == 44 && plan.format.color_space == 0
            &&& plan.format == formats@[0] || plan.format.format == 44
                && plan.format.color_space == 0 && formats@.contains(plan.format)
            &&& caps.current_extent.width != 0xffff_ffff ==> plan.extent == caps.current_extent
            &&& caps.current_extent.width == 0xffff_ffff ==> {
                &&& caps.min_extent.width <= plan.extent.width <= caps.max_extent.width
                &&& caps.min_extent.height <= plan.extent.height <= caps.max_extent.height
                &&& caps.min_extent.width <= requested.width <= caps.max_extent.width
                    ==> plan.extent.width == requested.width
                &&& caps.min_extent.height <= requested.height <= caps.max_extent.height
                    ==> plan.extent.height == requested.height
                &&& requested.width < caps.min_extent.width ==> plan.extent.width
                    == caps.min_extent.width
                &&& requested.width > caps.max_extent.width ==> plan.extent.width
                    == caps.max_extent.width
                &&& requested.height < caps.min_extent.height ==> plan.extent.height
                    == caps.min_extent.height
                &&& requested.height > caps.max_extent.height ==> plan.extent.height
                    == caps.max_extent.height
            }
            &&& caps.max_image_count == 0 || caps.max_image_count >= 2 && caps.max_image_count
                >= caps.min_image_count ==> plan.image_count == if caps.min_image_count <= 2 {
                2
            } else {
                caps.min_image_count
            }
            &&& 0 < caps.max_image_count && (caps.max_image_count < 2 || caps.max_image_count
                < caps.min_image_count) ==> plan.image_count == caps.max_image_count
            &&& caps.composite_alpha & 2 == 2 ==> plan.alpha == 2
            &&& caps.composite_alpha & 2 != 2 && caps.composite_alpha & 4 == 4 ==> plan.alpha == 4
            &&& caps.composite_alpha & 2 != 2 && caps.composite_alpha & 4 != 4
                && caps.composite_alpha & 8 == 8 ==> plan.alpha == 8
            &&& caps.composite_alpha & 2 != 2 && caps.composite_alpha & 4 != 4
                && caps.composite_alpha & 8 != 8 ==> plan.alpha == 1
        },
{
    if 0 <= j < formats@.len() && formats@[j].format == 44 && formats@[j].color_space == 0 {
        assert(formats@[j] == wanted_format());
        assert(formats@.contains(wanted_format()));
    }
}

} // verus!
