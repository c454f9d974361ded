//! Sizes in device pixels.

use vstd::prelude::*;

verus! {

/// A length measured in physical pixels of the output device.
#[derive(Clone, Copy, Debug, PartialEq, Eq, Hash, Structural)]
pub struct DevicePixels(pub i32);

impl DevicePixels {
    /// The number of pixels, as a mathematical integer.
    pub open spec fn value(self) -> int {
        self.0 as int
    }

    /// Whether this length is exactly zero pixels.
    pub fn is_zero(&self) -> (zero: bool)
        ensures
            zero == (self.value() == 0),
    {
        self.0 == 0
    }
}

/// A width and a height in device pixels.
#[derive(Clone, Copy, Debug, PartialEq, Eq, Hash, Structural)]
pub struct Size {
    pub width: DevicePixels,
    pub height: DevicePixels,
}

impl Size {
    /// A size covers no pixels as soon as one of its sides is zero.
    pub open spec fn covers_nothing(self) -> bool {
        self.width.value() == 0 || self.height.value() == 0
    }

    /// The number of pixels of a raster of this size.
    pub open spec fn area(self) -> int {
        self.width.value() * self.height.value()
    }

    /// Whether the size covers no pixels.
    pub fn is_zero(&self) -> (zero: bool)
        ensures
            zero == self.covers_nothing(),
    {
        self.width.is_zero() || self.height.is_zero()
    }
}

} // verus!
