//! Window and surface sizes in physical pixels.

use vstd::prelude::*;

verus! {

/// The smallest dimension a presentable surface may have.
pub const MIN_DIMENSION: u32 = 1;

/// A dimension raised to the smallest one a surface accepts.
pub open spec fn at_least_one(value: u32) -> u32 {
    if value == 0 {
        1
    } else {
        value
    }
}

/// Raises a zero dimension to one pixel and leaves every other value alone.
pub fn clamp_dimension(value: u32) -> (clamped: u32)
    ensures
        clamped == at_least_one(value),
        clamped >= 1,
        clamped >= value,
{
    if value < MIN_DIMENSION {
        MIN_DIMENSION
    } else {
        value
    }
}

/// A width and a height in physical pixels.
#[derive(Clone, Copy, Debug, PartialEq, Eq, Structural)]
pub struct Size {
    pub width: u32,
    pub height: u32,
}

impl Size {
    /// True when neither dimension is zero, so that a surface can be
    /// configured with this size.
    pub open spec fn is_presentable(self) -> bool {
        self.width >= 1 && self.height >= 1
    }

    /// This size with each dimension raised to at least one pixel.
    pub open spec fn clamped_spec(self) -> Size {
        Size { width: at_least_one(self.width), height: at_least_one(self.height) }
    }

    pub fn new(width: u32, height: u32) -> (size: Size)
        ensures
            size.width == width,
            size.height == height,
    {
        Size { width, height }
    }

    /// Clamps both dimensions to at least one pixel.
    pub fn clamped(self) -> (size: Size)
        ensures
            size == self.clamped_spec(),
            size.is_presentable(),
    {
        Size { width: clamp_dimension(self.width), height: clamp_dimension(self.height) }
    }

    /// Tells whether a surface can be configured with this size as it is.
    pub fn presentable(self) -> (yes: bool)
        ensures
            yes == self.is_presentable(),
    {
        self.width >= 1 && self.height >= 1
    }
}

/// Where the authoritative size of a freshly opened window comes from.
#[derive(Clone, Copy, Debug, PartialEq, Eq, Structural)]
pub enum SizeSource {
    /// The size the window reports for itself is taken as it is.
    Reported,
    /// The size is derived anew from the platform's live metrics, because the
    /// window's own report may lag behind its backing store on first paint.
    LiveMetrics,
}

/// What the platform knows about the geometry of a window.
#[derive(Clone, Copy, Debug, PartialEq, Eq)]
pub struct WindowMetrics {
    /// The inner size the window reports.
    pub reported: Size,
    /// The backing size derived from the live metrics, where the platform
    /// has them.
    pub live: Option<Size>,
}

impl WindowMetrics {
    /// The size that a surface for this window starts with: the live size
    /// where the source asks for it and the platform has it, else the
    /// reported size; clamped in both cases.
    pub open spec fn authoritative_spec(self, source: SizeSource) -> Size {
        match (source, self.live) {
            (SizeSource::LiveMetrics, Some(live)) => live.clamped_spec(),
            _ => self.reported.clamped_spec(),
        }
    }

    /// Derives the size that the first surface configuration uses.
    pub fn authoritative(&self, source: SizeSource) -> (size: Size)
        ensures
            size == self.authoritative_spec(source),
            size.is_presentable(),
    {
        match source {
            SizeSource::LiveMetrics => match self.live {
                Some(live) => live.clamped(),
                None => self.reported.clamped(),
            },
            SizeSource::Reported => self.reported.clamped(),
        }
    }
}

} // verus!
