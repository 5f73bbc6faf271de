use vstd::prelude::*;

verus! {

/// Width and height of a drawable area, in pixels.
#[derive(Clone, Copy, Debug, PartialEq, Eq, Structural)]
pub struct Extent {
    pub width: u32,
    pub height: u32,
}

impl Extent {
    /// An extent with a zero side cannot be presented.
    pub open spec fn degenerate(self) -> bool {
        self.width == 0 || self.height == 0
    }

    pub fn new(width: u32, height: u32) -> (r: Extent)
        ensures
            r.width == width,
            r.height == height,
    {
        Extent { width, height }
    }

    pub fn is_degenerate(&self) -> (r: bool)
        ensures
            r == self.degenerate(),
    {
        self.width == 0 || self.height == 0
    }
}

/// What the surface reports it can present: the range of image counts, the
/// range of extents, and the color format chosen for it.
#[derive(Clone, Copy, Debug, PartialEq, Eq, Structural)]
pub struct SurfaceCaps {
    pub min_image_count: u32,
    /// `None` when the surface sets no upper bound.
    pub max_image_count: Option<u32>,
    pub min_extent: Extent,
    pub max_extent: Extent,
    pub format: u32,
}

impl SurfaceCaps {
    /// The extent lies within the surface's supported range on both axes.
    pub open spec fn supports(self, e: Extent) -> bool {
        &&& self.min_extent.width <= e.width <= self.max_extent.width
        &&& self.min_extent.height <= e.height <= self.max_extent.height
    }

    /// The requested image count, clamped into the supported range.
    pub open spec fn clamp_count(self, requested: u32) -> u32 {
        if requested < self.min_image_count {
            self.min_image_count
        } else {
            match self.max_image_count {
                Some(m) => if requested > m { m } else { requested },
                None => requested,
            }
        }
    }

    pub fn effective_image_count(&self, requested: u32) -> (r: u32)
        ensures
            r == self.clamp_count(requested),
    {
        if requested < self.min_image_count {
            self.min_image_count
        } else {
            match self.max_image_count {
                Some(m) => if requested > m { m } else { requested },
                None => requested,
            }
        }
    }

    pub fn supports_extent(&self, e: Extent) -> (r: bool)
        ensures
            r == self.supports(e),
    {
        self.min_extent.width <= e.width && e.width <= self.max_extent.width
            && self.min_extent.height <= e.height && e.height <= self.max_extent.height
    }
}

/// Why a ring could not be built.
#[derive(Clone, Copy, Debug, PartialEq, Eq, Structural)]
pub enum RingError {
    /// The extent has a zero side or lies outside what the surface supports.
    UnsupportedDimensions,
}

/// The ring of presentable images: how many, their common extent and
/// format, and a generation that every rebuild advances. All images of a
/// ring share its extent and format; a rebuild replaces the ring whole.
#[derive(Clone, Copy, Debug, PartialEq, Eq, Structural)]
pub struct SwapRing {
    pub extent: Extent,
    pub format: u32,
    pub image_count: u32,
    pub requested_count: u32,
    pub generation: u64,
}

impl SwapRing {
    /// The ring that `create` builds from these inputs, when it succeeds.
    pub open spec fn built(caps: SurfaceCaps, requested: u32, extent: Extent, generation: u64) -> SwapRing {
        SwapRing {
            extent,
            format: caps.format,
            image_count: caps.clamp_count(requested),
            requested_count: requested,
            generation,
        }
    }

    /// Whether a ring of this extent can be built on a surface with `caps`.
    pub open spec fn buildable(caps: SurfaceCaps, extent: Extent) -> bool {
        !extent.degenerate() && caps.supports(extent)
    }

    /// Builds the first ring: the requested count is clamped into the
    /// surface's range; a degenerate or unsupported extent is refused.
    pub fn create(caps: &SurfaceCaps, requested: u32, extent: Extent) -> (r: Result<SwapRing, RingError>)
        ensures
            SwapRing::buildable(*caps, extent) ==> r == Ok::<SwapRing, RingError>(SwapRing::built(*caps, requested, extent, 0)),
            !SwapRing::buildable(*caps, extent) ==> r == Err::<SwapRing, RingError>(RingError::UnsupportedDimensions),
    {
        SwapRing::build(caps, requested, extent, 0)
    }

    fn build(caps: &SurfaceCaps, requested: u32, extent: Extent, generation: u64) -> (r: Result<SwapRing, RingError>)
        ensures
            SwapRing::buildable(*caps, extent) ==> r == Ok::<SwapRing, RingError>(SwapRing::built(*caps, requested, extent, generation)),
            !SwapRing::buildable(*caps, extent) ==> r == Err::<SwapRing, RingError>(RingError::UnsupportedDimensions),
    {
        if extent.is_degenerate() || !caps.supports_extent(extent) {
            Err(RingError::UnsupportedDimensions)
        } else {
            Ok(SwapRing {
                extent,
                format: caps.format,
                image_count: caps.effective_image_count(requested),
                requested_count: requested,
                generation,
            })
        }
    }

    /// The generation that a rebuild of this ring takes.
    pub open spec fn next_generation(self) -> u64 {
        if self.generation == u64::MAX { 0 } else { (self.generation + 1) as u64 }
    }

    /// Rebuilds the ring whole at a new extent, with the count first
    /// requested, clamped anew, and the next generation.
    pub fn recreate(&self, caps: &SurfaceCaps, extent: Extent) -> (r: Result<SwapRing, RingError>)
        ensures
            SwapRing::buildable(*caps, extent) ==> r == Ok::<SwapRing, RingError>(
                SwapRing::built(*caps, self.requested_count, extent, self.next_generation()),
            ),
            !SwapRing::buildable(*caps, extent) ==> r == Err::<SwapRing, RingError>(RingError::UnsupportedDimensions),
    {
        let generation: u64 = if self.generation == u64::MAX { 0 } else { self.generation + 1 };
        SwapRing::build(caps, self.requested_count, extent, generation)
    }
}

} // verus!
