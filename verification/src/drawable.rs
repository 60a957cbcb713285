//! Committed annotations.  A drawable is an immutable description of one
//! annotation: its shape kind, its geometry in image coordinates, and the
//! style snapshot it was drawn with.  Drawables are produced by tools,
//! owned by the history once committed, and never mutated.

use vstd::prelude::*;

use crate::math::Vec2D;
use crate::style::Style;

verus! {

#[derive(Clone, Debug)]
pub enum Drawable {
    /// An axis-aligned rectangle from `start` spanning `extent`.
    Rect { start: Vec2D, extent: Vec2D, style: Style },
    /// An ellipse inscribed in the rectangle from `start` spanning `extent`.
    Ellipse { start: Vec2D, extent: Vec2D, style: Style },
    /// A straight line from `start` spanning `delta`.
    Line { start: Vec2D, delta: Vec2D, style: Style },
    /// A straight arrow from `start` spanning `delta`.
    Arrow { start: Vec2D, delta: Vec2D, style: Style },
    /// A translucent highlight over the rectangle from `start` spanning
    /// `extent`.
    Highlight { start: Vec2D, extent: Vec2D, style: Style },
    /// A censored (pixelated) region over the rectangle from `start`
    /// spanning `extent`.
    Blur { start: Vec2D, extent: Vec2D, style: Style },
    /// A freehand mark through `points`.
    Freehand { points: Vec<Vec2D>, style: Style },
    /// A text annotation anchored at `pos`.
    Text { pos: Vec2D, text: Vec<char>, style: Style },
}

/// Ghost view of a committed drawable, with sequences for the collections.
pub enum SpecDrawable {
    Rect { start: Vec2D, extent: Vec2D, style: Style },
    Ellipse { start: Vec2D, extent: Vec2D, style: Style },
    Line { start: Vec2D, delta: Vec2D, style: Style },
    Arrow { start: Vec2D, delta: Vec2D, style: Style },
    Highlight { start: Vec2D, extent: Vec2D, style: Style },
    Blur { start: Vec2D, extent: Vec2D, style: Style },
    Freehand { points: Seq<Vec2D>, style: Style },
    Text { pos: Vec2D, text: Seq<char>, style: Style },
}

impl SpecDrawable {
    /// All geometry and the style snapshot are well-formed.
    pub open spec fn swf(self) -> bool {
        match self {
            SpecDrawable::Rect { start, extent, style } => start.wf() && extent.wf() && style.wf(),
            SpecDrawable::Ellipse { start, extent, style } => start.wf() && extent.wf()
                && style.wf(),
            SpecDrawable::Line { start, delta, style } => start.wf() && delta.wf() && style.wf(),
            SpecDrawable::Arrow { start, delta, style } => start.wf() && delta.wf() && style.wf(),
            SpecDrawable::Highlight { start, extent, style } => start.wf() && extent.wf()
                && style.wf(),
            SpecDrawable::Blur { start, extent, style } => start.wf() && extent.wf() && style.wf(),
            SpecDrawable::Freehand { points, style } => style.wf() && forall|i: int|
                0 <= i < points.len() ==> #[trigger] points[i].wf(),
            SpecDrawable::Text { pos, text, style } => pos.wf() && style.wf(),
        }
    }
}

impl Drawable {
    /// The ghost view of this drawable.
    pub open spec fn dview(self) -> SpecDrawable {
        match self {
            Drawable::Rect { start, extent, style } => SpecDrawable::Rect { start, extent, style },
            Drawable::Ellipse { start, extent, style } => SpecDrawable::Ellipse {
                start,
                extent,
                style,
            },
            Drawable::Line { start, delta, style } => SpecDrawable::Line { start, delta, style },
            Drawable::Arrow { start, delta, style } => SpecDrawable::Arrow { start, delta, style },
            Drawable::Highlight { start, extent, style } => SpecDrawable::Highlight {
                start,
                extent,
                style,
            },
            Drawable::Blur { start, extent, style } => SpecDrawable::Blur { start, extent, style },
            Drawable::Freehand { points, style } => SpecDrawable::Freehand {
                points: points@,
                style,
            },
            Drawable::Text { pos, text, style } => SpecDrawable::Text { pos, text: text@, style },
        }
    }

    /// All geometry and the style snapshot are well-formed.
    pub open spec fn wf(self) -> bool {
        match self {
            Drawable::Rect { start, extent, style } => start.wf() && extent.wf() && style.wf(),
            Drawable::Ellipse { start, extent, style } => start.wf() && extent.wf() && style.wf(),
            Drawable::Line { start, delta, style } => start.wf() && delta.wf() && style.wf(),
            Drawable::Arrow { start, delta, style } => start.wf() && delta.wf() && style.wf(),
            Drawable::Highlight { start, extent, style } => start.wf() && extent.wf()
                && style.wf(),
            Drawable::Blur { start, extent, style } => start.wf() && extent.wf() && style.wf(),
            Drawable::Freehand { points, style } => style.wf() && forall|i: int|
                0 <= i < points@.len() ==> (#[trigger] points@[i]).wf(),
            Drawable::Text { pos, text, style } => pos.wf() && style.wf(),
        }
    }
}

} // verus!
