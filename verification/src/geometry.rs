//! Page geometry in fixed-point units.
//!
//! Every coordinate is an integer number of thousandths of a PDF point.
//! Inputs are `i32`, which covers pages of more than two million points on
//! a side; values computed from them are `i64`, so no sum or difference of
//! a few inputs can overflow.

use vstd::prelude::*;

verus! {

/// Fixed-point units in one PDF point.
pub const UNITS_PER_POINT: i32 = 1000;

#[derive(Debug, Clone, Copy, PartialEq, Eq, Structural)]
pub struct Point {
    pub x: i32,
    pub y: i32,
}

#[derive(Debug, Clone, Copy, PartialEq, Eq, Structural)]
pub struct Quad {
    pub p1: Point,
    pub p2: Point,
    pub p3: Point,
    pub p4: Point,
}

/// A rectangle in page space, whose origin is the bottom-left corner of the
/// page and whose y axis points up.
#[derive(Debug, Clone, Copy, PartialEq, Eq, Structural)]
pub struct PdfRect {
    pub left: i32,
    pub top: i32,
    pub right: i32,
    pub bottom: i32,
}

impl PdfRect {
    pub open spec fn spec_width(self) -> int {
        self.right - self.left
    }

    pub open spec fn spec_height(self) -> int {
        self.top - self.bottom
    }

    /// The distance of the rectangle's top edge from the top of a page of
    /// the given height: its y coordinate with the axis pointing down.
    pub open spec fn spec_flipped_top(self, page_height: int) -> int {
        page_height - self.top
    }

    /// The rectangle that stands for bounds that could not be computed.
    pub open spec fn spec_zero() -> PdfRect {
        PdfRect { left: 0, top: 0, right: 0, bottom: 0 }
    }

    pub fn zero() -> (r: PdfRect)
        ensures
            r == PdfRect::spec_zero(),
    {
        PdfRect { left: 0, top: 0, right: 0, bottom: 0 }
    }

    pub fn width(&self) -> (w: i64)
        ensures
            w == self.spec_width(),
    {
        self.right as i64 - self.left as i64
    }

    pub fn height(&self) -> (h: i64)
        ensures
            h == self.spec_height(),
    {
        self.top as i64 - self.bottom as i64
    }

    pub fn flipped_top(&self, page_height: i32) -> (y: i64)
        ensures
            y == self.spec_flipped_top(page_height as int),
    {
        page_height as i64 - self.top as i64
    }
}

} // verus!
