//! Window sizes: physical pixel extents and the host's cached size.

use vstd::prelude::*;

verus! {

/// The initial logical width of the window.
pub const DEFAULT_WIDTH: u32 = 1280;

/// The initial logical height of the window.
pub const DEFAULT_HEIGHT: u32 = 720;

/// An extent in physical pixels.
#[derive(Clone, Copy, Debug, PartialEq, Eq, Structural)]
pub struct PhysicalSize {
    pub width: u32,
    pub height: u32,
}

impl PhysicalSize {
    /// A surface can only be configured with an extent of non-zero area.
    pub open spec fn has_area(self) -> bool {
        self.width > 0 && self.height > 0
    }

    pub fn new(width: u32, height: u32) -> (r: PhysicalSize)
        ensures
            r.width == width,
            r.height == height,
    {
        PhysicalSize { width, height }
    }

    /// Whether the extent is a valid surface extent; a minimized window
    /// reports a zero dimension and is not.
    pub fn is_drawable(&self) -> (r: bool)
        ensures
            r == self.has_area(),
    {
        self.width > 0 && self.height > 0
    }
}

/// The size the host caches for its window: the logical size it asks for
/// before the window exists, the physical size the platform reports after.
#[derive(Clone, Copy, Debug, PartialEq, Eq, Structural)]
pub enum SizeState {
    Logical { width: u32, height: u32 },
    Physical { width: u32, height: u32 },
}

impl SizeState {
    /// The extent in pixels at a scale factor of one, where a logical unit
    /// is one pixel.
    pub open spec fn extent(self) -> PhysicalSize {
        match self {
            SizeState::Logical { width, height } => PhysicalSize { width, height },
            SizeState::Physical { width, height } => PhysicalSize { width, height },
        }
    }

    /// The size a new host starts with: 1280 by 720 logical units.
    pub fn initial() -> (r: SizeState)
        ensures
            r == (SizeState::Logical { width: 1280, height: 720 }),
    {
        SizeState::Logical { width: DEFAULT_WIDTH, height: DEFAULT_HEIGHT }
    }

    pub fn from_physical(size: PhysicalSize) -> (r: SizeState)
        ensures
            r == (SizeState::Physical { width: size.width, height: size.height }),
            r.extent() == size,
    {
        SizeState::Physical { width: size.width, height: size.height }
    }

    /// The physical extent at a scale factor of one.
    pub fn to_physical(&self) -> (r: PhysicalSize)
        ensures
            r == self.extent(),
    {
        match *self {
            SizeState::Logical { width, height } => PhysicalSize { width, height },
            SizeState::Physical { width, height } => PhysicalSize { width, height },
        }
    }
}

} // verus!
