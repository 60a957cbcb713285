//! The style snapshot shared by all tools: colour, stroke size, fill flag
//! and annotation size factor.  Styles are copied into tools on change,
//! never shared.

use vstd::prelude::*;

use crate::rat::{Rat, SpecRat};

verus! {

/// An RGBA colour with 8-bit channels.
#[derive(Clone, Copy, Debug, PartialEq, Eq, Structural)]
pub struct Color {
    pub r: u8,
    pub g: u8,
    pub b: u8,
    pub a: u8,
}

impl Color {
    pub fn new(r: u8, g: u8, b: u8, a: u8) -> (c: Color)
        ensures
            c == (Color { r, g, b, a }),
    {
        Color { r, g, b, a }
    }
}

/// An immutable style snapshot.
#[derive(Clone, Copy, Debug)]
pub struct Style {
    pub color: Color,
    pub stroke_size: u32,
    pub fill: bool,
    pub annotation_size_factor: Rat,
}

impl Style {
    pub open spec fn wf(self) -> bool {
        self.annotation_size_factor.wf()
    }

    /// The starting style: an opaque primary colour, a thin stroke, no
    /// fill, and a size factor of one.
    pub fn initial() -> (s: Style)
        ensures
            s.wf(),
            s.color == (Color { r: 255, g: 0, b: 0, a: 255 }),
            s.stroke_size == 2,
            !s.fill,
            s.annotation_size_factor.srat() == SpecRat::from_int(1),
    {
        Style {
            color: Color { r: 255, g: 0, b: 0, a: 255 },
            stroke_size: 2,
            fill: false,
            annotation_size_factor: Rat::one(),
        }
    }
}

} // verus!
