//! Surface dimensions: the extent a presentable surface is configured with.
//!
//! A surface of zero width or height cannot be configured, so every requested
//! dimension is raised to `MIN_DIMENSION` before it reaches the surface.

use vstd::prelude::*;

verus! {

/// The smallest width or height a surface can be configured with.
pub const MIN_DIMENSION: u32 = 1;

/// A requested dimension, raised to `MIN_DIMENSION` where it is smaller.
pub open spec fn clamped(requested: u32) -> u32 {
    if requested < MIN_DIMENSION {
        MIN_DIMENSION
    } else {
        requested
    }
}

/// Raises `requested` to `MIN_DIMENSION` where it is smaller.
pub fn clamp_dimension(requested: u32) -> (dimension: u32)
    ensures
        dimension == clamped(requested),
{
    if requested < MIN_DIMENSION {
        MIN_DIMENSION
    } else {
        requested
    }
}

/// A texture format that a surface offers.
///
/// The number is a name only: the embedding assigns it, and nothing here
/// looks inside it.
#[derive(Clone, Copy, Debug, PartialEq, Eq, Structural)]
pub struct SurfaceFormat {
    pub id: u32,
}

/// The format preferred among those a surface offers: the first one, with no
/// ranking; none where the surface offers none.
pub open spec fn preferred(formats: Seq<SurfaceFormat>) -> Option<SurfaceFormat> {
    if formats.len() > 0 {
        Some(formats[0])
    } else {
        None
    }
}

/// Picks the preferred format among those a surface offers.
pub fn choose_format(formats: &[SurfaceFormat]) -> (choice: Option<SurfaceFormat>)
    ensures
        choice == preferred(formats@),
{
    if formats.len() > 0 {
        Some(formats[0])
    } else {
        None
    }
}

/// Width and height of a surface, in pixels.
#[derive(Clone, Copy, Debug, PartialEq, Eq, Structural)]
pub struct Extent {
    pub width: u32,
    pub height: u32,
}

impl Extent {
    /// An extent that a surface accepts: neither side is zero.
    pub open spec fn valid(self) -> bool {
        self.width >= MIN_DIMENSION && self.height >= MIN_DIMENSION
    }

    /// The extent configured for a requested width and height.
    pub open spec fn of_request(width: u32, height: u32) -> Extent {
        Extent { width: clamped(width), height: clamped(height) }
    }

    /// The extent to configure for a requested width and height: each side
    /// clamped on its own.
    pub fn clamped(width: u32, height: u32) -> (extent: Extent)
        ensures
            extent == Extent::of_request(width, height),
            extent.valid(),
    {
        Extent { width: clamp_dimension(width), height: clamp_dimension(height) }
    }
}

/// Clamping yields the larger of the request and one, and so never zero.
pub proof fn lemma_clamped_is_max(requested: u32)
    ensures
        clamped(requested) >= 1,
        clamped(requested) >= requested,
        clamped(requested) == 1 || clamped(requested) == requested,
{
}

/// A dimension that is already acceptable is kept, so clamping twice is
/// clamping once.
pub proof fn lemma_clamped_idempotent(requested: u32)
    ensures
        requested >= 1 ==> clamped(requested) == requested,
        clamped(clamped(requested)) == clamped(requested),
{
}

/// Every requested size, zero included, gives an extent a surface accepts.
pub proof fn lemma_request_gives_valid_extent(width: u32, height: u32)
    ensures
        Extent::of_request(width, height).valid(),
        Extent::of_request(width, height).width == if width == 0 { 1 } else { width },
        Extent::of_request(width, height).height == if height == 0 { 1 } else { height },
{
}

} // verus!
