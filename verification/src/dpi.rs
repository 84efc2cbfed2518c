//! Window sizes, points and rectangles in physical pixels.

use vstd::prelude::*;

verus! {

/// The unit of measurements in pixels before any DPI scaling is applied.
pub struct ScreenSpace;

/// The size of a window's client area.
#[derive(Clone, Copy, Debug, Default, PartialEq, Eq, Structural)]
pub struct WindowSize {
    pub width: i32,
    pub height: i32,
}

impl WindowSize {
    /// The largest size.
    pub fn max() -> (r: WindowSize)
        ensures
            r == (WindowSize { width: i32::MAX, height: i32::MAX }),
    {
        WindowSize { width: i32::MAX, height: i32::MAX }
    }

    /// The rectangle of this size at the origin.
    pub fn into_rect(self) -> (r: WindowRect)
        ensures
            r == (WindowRect { x: 0, y: 0, width: self.width, height: self.height }),
    {
        WindowRect { x: 0, y: 0, width: self.width, height: self.height }
    }
}

/// A point in a window's client area.
#[derive(Clone, Copy, Debug, Default, PartialEq, Eq, Structural)]
pub struct WindowPoint {
    pub x: i32,
    pub y: i32,
}

/// A rectangle in a window's client area.
#[derive(Clone, Copy, Debug, Default, PartialEq, Eq, Structural)]
pub struct WindowRect {
    pub x: i32,
    pub y: i32,
    pub width: i32,
    pub height: i32,
}

/// A rectangle of an image, in unsigned 16-bit pixel coordinates.
#[derive(Clone, Copy, Debug, Default, PartialEq, Eq, Structural)]
pub struct ImageRect {
    pub x: u16,
    pub y: u16,
    pub width: u16,
    pub height: u16,
}

impl WindowRect {
    /// Whether every coordinate of the rectangle fits in a `u16`.
    pub open spec fn fits_image(&self) -> bool {
        &&& 0 <= self.x <= u16::MAX
        &&& 0 <= self.y <= u16::MAX
        &&& 0 <= self.width <= u16::MAX
        &&& 0 <= self.height <= u16::MAX
    }

    /// The same rectangle as an image rectangle.
    pub fn to_image_rect(self) -> (r: ImageRect)
        requires
            self.fits_image(),
        ensures
            r.x == self.x,
            r.y == self.y,
            r.width == self.width,
            r.height == self.height,
    {
        ImageRect {
            x: self.x as u16,
            y: self.y as u16,
            width: self.width as u16,
            height: self.height as u16,
        }
    }
}

} // verus!
