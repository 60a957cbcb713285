//! The render pipeline: composite the base image, the visible committed
//! drawables in order, and the active tool's live preview, into an owned
//! raster image.  Rendering is requested through a FIFO queue and performed
//! off the interactive path; results are delivered in submission order.
//!
//! Rasterisation works on exact integer pixel tests: every shape's geometry
//! is floored to pixel coordinates (clamped to a working window comfortably
//! larger than any image), and each pixel of the image is tested against the
//! shape's coverage predicate.  Text annotations are composited from a
//! built-in 8x8 bitmap font, one cell per character from the floored
//! anchor; characters outside that font's table render blank.

use vstd::prelude::*;

use font8x8::UnicodeFonts;

use crate::config::Action;
use crate::drawable::Drawable;
use crate::history::History;
use crate::math::Vec2D;
use crate::rat::{Rat, SpecRat};
use crate::style::{Color, Style};
use crate::drawable::SpecDrawable;

verus! {

/// An owned RGBA raster image: `width * height` pixels, four bytes each,
/// row-major, no padding.
#[derive(Debug)]
pub struct Image {
    pub width: u32,
    pub height: u32,
    pub data: Vec<u8>,
}

impl Image {
    /// Well-formed: both dimensions are positive, at most 32767, and the
    /// buffer holds exactly four bytes per pixel.
    pub open spec fn wf(self) -> bool {
        1 <= self.width <= 0x7fff && 1 <= self.height <= 0x7fff && self.data@.len()
            == self.width * self.height * 4
    }

    /// A solid image of one colour.
    pub fn solid(width: u32, height: u32, color: Color) -> (img: Image)
        requires
            1 <= width <= 0x7fff,
            1 <= height <= 0x7fff,
        ensures
            img.wf(),
            img.width == width,
            img.height == height,
            forall|i: int|
                0 <= i < img.data@.len() ==> #[trigger] img.data@[i] == spec_channel(
                    color,
                    i % 4,
                ),
    {
        proof {
            lemma_mul_bound(width as int, height as int, 0x7fff, 0x7fff);
        }
        let total: usize = (width as usize) * (height as usize) * 4;
        let mut data: Vec<u8> = Vec::new();
        let mut i: usize = 0;
        while i < total
            invariant
                0 <= i <= total,
                data@.len() == i,
                forall|j: int|
                    0 <= j < i ==> #[trigger] data@[j] == spec_channel(color, j % 4),
            decreases total - i,
        {
            let ch: usize = i % 4;
            let v: u8 = if ch == 0 {
                color.r
            } else if ch == 1 {
                color.g
            } else if ch == 2 {
                color.b
            } else {
                color.a
            };
            data.push(v);
            i = i + 1;
        }
        Image { width, height, data }
    }
}

/// One channel of a colour: 0 red, 1 green, 2 blue, 3 alpha.
pub open spec fn spec_channel(c: Color, ch: int) -> u8 {
    if ch == 0 {
        c.r
    } else if ch == 1 {
        c.g
    } else if ch == 2 {
        c.b
    } else {
        c.a
    }
}

/// Clamp an integer into `[lo, hi]`.
pub open spec fn clampi(v: int, lo: int, hi: int) -> int {
    if v < lo {
        lo
    } else if v > hi {
        hi
    } else {
        v
    }
}

pub open spec fn imin(a: int, b: int) -> int {
    if a <= b {
        a
    } else {
        b
    }
}

pub open spec fn imax(a: int, b: int) -> int {
    if a >= b {
        a
    } else {
        b
    }
}

/// The floor of a rational, clamped into the working window.
pub open spec fn cfloor(r: SpecRat) -> int {
    clampi(r.n / r.d, -131072, 131072)
}

/// The floor of an exact sum of two rationals, clamped into the working
/// window.
pub open spec fn cfloor_sum(a: SpecRat, b: SpecRat) -> int {
    cfloor(a.plus(b))
}

/// `|a * b| <= ma * mb` when `|a| <= ma` and `|b| <= mb`.
proof fn lemma_mul_bound(a: int, b: int, ma: int, mb: int)
    by (nonlinear_arith)
    requires
        -ma <= a <= ma,
        -mb <= b <= mb,
        0 <= ma,
        0 <= mb,
    ensures
        -(ma * mb) <= a * b <= ma * mb,
{
}

/// Division by a positive integer keeps the quotient between zero and the
/// dividend.
proof fn lemma_div_bounds(n: int, d: int)
    by (nonlinear_arith)
    requires
        d >= 1,
    ensures
        n >= 0 ==> 0 <= n / d <= n,
        n < 0 ==> n <= n / d <= 0,
{
}

/// Exact division of an `i64` by a small positive constant.
fn idiv(n: i64, d: i64) -> (r: i64)
    requires
        d >= 1,
    ensures
        r == n as int / d as int,
{
    proof {
        lemma_div_bounds(n as int, d as int);
    }
    match n.checked_div_euclid(d) {
        Some(q) => q,
        None => 0,
    }
}

/// The clamped floor of a rational, executably.
fn cfloor_rat(r: Rat) -> (v: i64)
    requires
        r.wf(),
    ensures
        v == cfloor(r.srat()),
        -131072 <= v <= 131072,
{
    let f = r.floor();
    if f < -131072 {
        -131072
    } else if f > 131072 {
        131072
    } else {
        f
    }
}

/// The clamped floor of the exact sum of two rationals, executably.
fn cfloor_rat_sum(a: Rat, b: Rat) -> (v: i64)
    requires
        a.wf(),
        b.wf(),
    ensures
        v == cfloor_sum(a.srat(), b.srat()),
        -131072 <= v <= 131072,
{
    proof {
        lemma_mul_pos_den(a.num as int, b.den as int);
        lemma_mul_pos_den(b.num as int, a.den as int);
        lemma_mul_pos_den(a.den as int, b.den as int);
        lemma_pos_product(a.den as int, b.den as int);
    }
    let n: i128 = (a.num as i128) * (b.den as i128) + (b.num as i128) * (a.den as i128);
    let d: i128 = (a.den as i128) * (b.den as i128);
    proof {
        lemma_div_bounds(n as int, d as int);
    }
    let q: i128 = match n.checked_div_euclid(d) {
        Some(q) => q,
        None => 0,
    };
    if q < -131072 {
        -131072
    } else if q > 131072 {
        131072
    } else {
        q as i64
    }
}

/// The product of an `i64` and a positive `i64` stays inside half the
/// `i128` range, so two such products can be added in `i128`.
proof fn lemma_mul_pos_den(n: int, d: int)
    by (nonlinear_arith)
    requires
        -0x8000_0000_0000_0000 <= n <= 0x7fff_ffff_ffff_ffff,
        1 <= d <= 0x7fff_ffff_ffff_ffff,
    ensures
        -0x8000_0000_0000_0000 * 0x7fff_ffff_ffff_ffff <= n * d
            <= 0x7fff_ffff_ffff_ffff * 0x7fff_ffff_ffff_ffff,
{
}

/// The product of two positive integers is positive.
proof fn lemma_pos_product(a: int, b: int)
    by (nonlinear_arith)
    requires
        a >= 1,
        b >= 1,
    ensures
        a * b >= 1,
{
}

// ---------------------------------------------------------------------------
// Coverage predicates: which pixels each shape touches.
// ---------------------------------------------------------------------------

/// The stroke width a style draws with, kept within the working window.
pub open spec fn stroke_of(style: Style) -> int {
    clampi(style.stroke_size as int, 1, 1024)
}

/// The half-stroke radius used for lines, arrows and freehand marks.
pub open spec fn radius_of(style: Style) -> int {
    (stroke_of(style) + 1) / 2
}

/// Executable mirror of `stroke_of`.
fn stroke_exec(style: &Style) -> (s: i64)
    ensures
        s == stroke_of(*style),
        1 <= s <= 1024,
{
    if style.stroke_size < 1 {
        1
    } else if style.stroke_size > 1024 {
        1024
    } else {
        style.stroke_size as i64
    }
}

/// Executable mirror of `radius_of`.
fn radius_exec(style: &Style) -> (r: i64)
    ensures
        r == radius_of(*style),
        1 <= r <= 1024,
{
    let s = stroke_exec(style);
    (s + 1) / 2
}

/// A rectangle border of the given stroke, or the filled rectangle.
pub open spec fn rect_covers(
    x0: int,
    y0: int,
    x1: int,
    y1: int,
    s: int,
    fill: bool,
    x: int,
    y: int,
) -> bool {
    let inside = x0 <= x <= x1 && y0 <= y <= y1;
    if fill {
        inside
    } else {
        inside && !(x0 + s <= x <= x1 - s && y0 + s <= y <= y1 - s)
    }
}

/// Whether the pixel centre lies in the ellipse inscribed in the rectangle
/// `[x0, x1] x [y0, y1]`, by the doubled-coordinate test.
pub open spec fn in_ellipse(x0: int, y0: int, x1: int, y1: int, x: int, y: int) -> bool {
    let w = x1 - x0 + 1;
    let h = y1 - y0 + 1;
    let dx = 2 * (x - x0) + 1 - w;
    let dy = 2 * (y - y0) + 1 - h;
    dx * dx * h * h + dy * dy * w * w <= w * w * h * h
}

/// An ellipse ring of the given stroke, or the filled ellipse.
pub open spec fn ellipse_covers(
    x0: int,
    y0: int,
    x1: int,
    y1: int,
    s: int,
    fill: bool,
    x: int,
    y: int,
) -> bool {
    let outer = in_ellipse(x0, y0, x1, y1, x, y);
    if fill {
        outer
    } else {
        let inner_exists = x0 + s <= x1 - s && y0 + s <= y1 - s;
        outer && !(inner_exists && in_ellipse(x0 + s, y0 + s, x1 - s, y1 - s, x, y))
    }
}

/// Whether the pixel lies within `rr` of the segment from `(ax, ay)` to
/// `(bx, by)`: the squared point-segment distance test, cleared of
/// denominators.
pub open spec fn seg_covers(ax: int, ay: int, bx: int, by: int, rr: int, x: int, y: int) -> bool {
    let dx = bx - ax;
    let dy = by - ay;
    let len2 = dx * dx + dy * dy;
    if len2 == 0 {
        (x - ax) * (x - ax) + (y - ay) * (y - ay) <= rr * rr
    } else {
        let dot = (x - ax) * dx + (y - ay) * dy;
        let t = clampi(dot, 0, len2);
        let ex = (x - ax) * len2 - dx * t;
        let ey = (y - ay) * len2 - dy * t;
        ex * ex + ey * ey <= rr * rr * len2 * len2
    }
}

/// An arrow: the shaft plus two barbs whose length and spread are
/// proportional to the shaft.
pub open spec fn arrow_covers(ax: int, ay: int, bx: int, by: int, rr: int, x: int, y: int)
    -> bool {
    let dx = bx - ax;
    let dy = by - ay;
    let cx = bx - dx / 4;
    let cy = by - dy / 4;
    seg_covers(ax, ay, bx, by, rr, x, y) || seg_covers(bx, by, cx - dy / 8, cy + dx / 8, rr, x, y)
        || seg_covers(bx, by, cx + dy / 8, cy - dx / 8, rr, x, y)
}

/// The 8x8 bitmap of a character in the built-in font, as eight rows whose
/// bit `k` is the pixel at column `k`: a function of the character alone.
pub uninterp spec fn glyph_of(ch: char) -> Seq<u8>;

/// Relies on font8x8's `BASIC_FONTS` table (`UnicodeFonts::get`): the 8x8
/// bitmap rows of the character, blank for characters outside the table.
#[verifier::external_body]
fn glyph_rows(ch: char) -> (r: [u8; 8])
    ensures
        r@ == glyph_of(ch),
{
    match font8x8::BASIC_FONTS.get(ch) {
        Some(g) => g,
        None => [0u8; 8],
    }
}

/// A text annotation covers the set bits of its characters' glyph cells,
/// laid out left to right in 8x8 cells from the floored anchor.
pub open spec fn text_covers(pos: Vec2D, text: Seq<char>, x: int, y: int) -> bool {
    let x0 = cfloor(pos.x.srat());
    let y0 = cfloor(pos.y.srat());
    0 <= y - y0 < 8 && x >= x0 && (x - x0) / 8 < text.len() && ((glyph_of(text[(x - x0) / 8])[y
        - y0] >> (((x - x0) % 8) as u8)) & 1 == 1)
}

/// The floored pixel position of a point.
pub open spec fn pt_x(p: Vec2D) -> int {
    cfloor(p.x.srat())
}

pub open spec fn pt_y(p: Vec2D) -> int {
    cfloor(p.y.srat())
}

/// A freehand mark: the union of the segments between consecutive points
/// (a single point is a dot).
pub open spec fn freehand_covers(points: Seq<Vec2D>, rr: int, x: int, y: int) -> bool {
    if points.len() == 0 {
        false
    } else if points.len() == 1 {
        seg_covers(pt_x(points[0]), pt_y(points[0]), pt_x(points[0]), pt_y(points[0]), rr, x, y)
    } else {
        exists|j: int|
            0 <= j < points.len() - 1 && #[trigger] seg_covers(
                pt_x(points[j]),
                pt_y(points[j]),
                pt_x(points[j + 1]),
                pt_y(points[j + 1]),
                rr,
                x,
                y,
            )
    }
}

/// The pixel rectangle of a start/extent pair: floored corners, ordered.
pub open spec fn geom_x0(start: Vec2D, extent: Vec2D) -> int {
    imin(cfloor(start.x.srat()), cfloor_sum(start.x.srat(), extent.x.srat()))
}

pub open spec fn geom_x1(start: Vec2D, extent: Vec2D) -> int {
    imax(cfloor(start.x.srat()), cfloor_sum(start.x.srat(), extent.x.srat()))
}

pub open spec fn geom_y0(start: Vec2D, extent: Vec2D) -> int {
    imin(cfloor(start.y.srat()), cfloor_sum(start.y.srat(), extent.y.srat()))
}

pub open spec fn geom_y1(start: Vec2D, extent: Vec2D) -> int {
    imax(cfloor(start.y.srat()), cfloor_sum(start.y.srat(), extent.y.srat()))
}

/// The censored region of a blur drawable, clamped to the image.
pub open spec fn blur_x0(start: Vec2D, extent: Vec2D) -> int {
    imax(geom_x0(start, extent), 0)
}

pub open spec fn blur_y0(start: Vec2D, extent: Vec2D) -> int {
    imax(geom_y0(start, extent), 0)
}

pub open spec fn blur_x1(start: Vec2D, extent: Vec2D, w: int) -> int {
    imin(geom_x1(start, extent), w - 1)
}

pub open spec fn blur_y1(start: Vec2D, extent: Vec2D, h: int) -> int {
    imin(geom_y1(start, extent), h - 1)
}

/// The anchor pixel a censored pixel copies from: the top-left corner of
/// its 8x8 block within the region.
pub open spec fn blur_anchor_x(start: Vec2D, extent: Vec2D, x: int) -> int {
    blur_x0(start, extent) + ((x - blur_x0(start, extent)) / 8) * 8
}

pub open spec fn blur_anchor_y(start: Vec2D, extent: Vec2D, y: int) -> int {
    blur_y0(start, extent) + ((y - blur_y0(start, extent)) / 8) * 8
}

/// Which pixels a drawable touches.
pub open spec fn covers(d: SpecDrawable, w: int, h: int, x: int, y: int) -> bool {
    match d {
        SpecDrawable::Rect { start, extent, style } => rect_covers(
            geom_x0(start, extent),
            geom_y0(start, extent),
            geom_x1(start, extent),
            geom_y1(start, extent),
            stroke_of(style),
            style.fill,
            x,
            y,
        ),
        SpecDrawable::Ellipse { start, extent, style } => ellipse_covers(
            geom_x0(start, extent),
            geom_y0(start, extent),
            geom_x1(start, extent),
            geom_y1(start, extent),
            stroke_of(style),
            style.fill,
            x,
            y,
        ),
        SpecDrawable::Line { start, delta, style } => seg_covers(
            pt_x(start),
            pt_y(start),
            cfloor_sum(start.x.srat(), delta.x.srat()),
            cfloor_sum(start.y.srat(), delta.y.srat()),
            radius_of(style),
            x,
            y,
        ),
        SpecDrawable::Arrow { start, delta, style } => arrow_covers(
            pt_x(start),
            pt_y(start),
            cfloor_sum(start.x.srat(), delta.x.srat()),
            cfloor_sum(start.y.srat(), delta.y.srat()),
            radius_of(style),
            x,
            y,
        ),
        SpecDrawable::Highlight { start, extent, style } => geom_x0(start, extent) <= x <= geom_x1(
            start,
            extent,
        ) && geom_y0(start, extent) <= y <= geom_y1(start, extent),
        SpecDrawable::Blur { start, extent, style } => blur_x0(start, extent) <= x <= blur_x1(
            start,
            extent,
            w,
        ) && blur_y0(start, extent) <= y <= blur_y1(start, extent, h),
        SpecDrawable::Freehand { points, style } => freehand_covers(points, radius_of(style), x, y),
        SpecDrawable::Text { pos, text, style } => text_covers(pos, text, x, y),
    }
}

/// The colour a drawable paints with.
pub open spec fn drawable_color(d: SpecDrawable) -> Color {
    match d {
        SpecDrawable::Rect { style, .. } => style.color,
        SpecDrawable::Ellipse { style, .. } => style.color,
        SpecDrawable::Line { style, .. } => style.color,
        SpecDrawable::Arrow { style, .. } => style.color,
        SpecDrawable::Highlight { style, .. } => style.color,
        SpecDrawable::Blur { style, .. } => style.color,
        SpecDrawable::Freehand { style, .. } => style.color,
        SpecDrawable::Text { style, .. } => style.color,
    }
}

/// The opacity a drawable blends with: a highlight always stays
/// translucent, at half its colour's alpha.
pub open spec fn drawable_alpha(d: SpecDrawable) -> int {
    match d {
        SpecDrawable::Highlight { style, .. } => style.color.a as int / 2,
        _ => drawable_color(d).a as int,
    }
}

// ---------------------------------------------------------------------------
// Executable mirrors of the coverage predicates.
// ---------------------------------------------------------------------------

/// Executable rectangle test.
fn rect_hit(x0: i64, y0: i64, x1: i64, y1: i64, s: i64, fill: bool, x: i64, y: i64) -> (r: bool)
    requires
        -131072 <= x0 <= 131072,
        -131072 <= y0 <= 131072,
        -131072 <= x1 <= 131072,
        -131072 <= y1 <= 131072,
        1 <= s <= 1024,
    ensures
        r == rect_covers(
            x0 as int,
            y0 as int,
            x1 as int,
            y1 as int,
            s as int,
            fill,
            x as int,
            y as int,
        ),
{
    let inside = x0 <= x && x <= x1 && y0 <= y && y <= y1;
    if fill {
        inside
    } else {
        inside && !(x0 + s <= x && x <= x1 - s && y0 + s <= y && y <= y1 - s)
    }
}

/// Executable ellipse-interior test.
fn in_ellipse_hit(x0: i64, y0: i64, x1: i64, y1: i64, x: i64, y: i64) -> (r: bool)
    requires
        -262144 <= x0 <= 262144,
        -262144 <= y0 <= 262144,
        -262144 <= x1 <= 262144,
        -262144 <= y1 <= 262144,
        -262144 <= x <= 262144,
        -262144 <= y <= 262144,
    ensures
        r == in_ellipse(x0 as int, y0 as int, x1 as int, y1 as int, x as int, y as int),
{
    let w: i128 = (x1 as i128) - (x0 as i128) + 1;
    let h: i128 = (y1 as i128) - (y0 as i128) + 1;
    let dx: i128 = 2 * ((x as i128) - (x0 as i128)) + 1 - w;
    let dy: i128 = 2 * ((y as i128) - (y0 as i128)) + 1 - h;
    proof {
        lemma_mul_bound(dx as int, dx as int, 0x400000, 0x400000);
        lemma_mul_bound(dy as int, dy as int, 0x400000, 0x400000);
        lemma_mul_bound(w as int, w as int, 0x400000, 0x400000);
        lemma_mul_bound(h as int, h as int, 0x400000, 0x400000);
        lemma_mul_bound((dx * dx) as int, h as int, 0x100000000000, 0x400000);
        lemma_mul_bound((dx * dx * h) as int, h as int, 0x40000000000000000, 0x400000);
        lemma_mul_bound((dy * dy) as int, w as int, 0x100000000000, 0x400000);
        lemma_mul_bound((dy * dy * w) as int, w as int, 0x40000000000000000, 0x400000);
        lemma_mul_bound((w * w) as int, h as int, 0x100000000000, 0x400000);
        lemma_mul_bound((w * w * h) as int, h as int, 0x40000000000000000, 0x400000);
    }
    dx * dx * h * h + dy * dy * w * w <= w * w * h * h
}

/// Executable ellipse ring test.
fn ellipse_hit(x0: i64, y0: i64, x1: i64, y1: i64, s: i64, fill: bool, x: i64, y: i64) -> (r:
    bool)
    requires
        -131072 <= x0 <= 131072,
        -131072 <= y0 <= 131072,
        -131072 <= x1 <= 131072,
        -131072 <= y1 <= 131072,
        1 <= s <= 1024,
        -131072 <= x <= 131072,
        -131072 <= y <= 131072,
    ensures
        r == ellipse_covers(
            x0 as int,
            y0 as int,
            x1 as int,
            y1 as int,
            s as int,
            fill,
            x as int,
            y as int,
        ),
{
    let outer = in_ellipse_hit(x0, y0, x1, y1, x, y);
    if fill {
        outer
    } else {
        let inner_exists = x0 + s <= x1 - s && y0 + s <= y1 - s;
        if inner_exists {
            outer && !in_ellipse_hit(x0 + s, y0 + s, x1 - s, y1 - s, x, y)
        } else {
            outer
        }
    }
}

/// Executable point-to-segment distance test.
fn seg_hit(ax: i64, ay: i64, bx: i64, by: i64, rr: i64, x: i64, y: i64) -> (r: bool)
    requires
        -262144 <= ax <= 262144,
        -262144 <= ay <= 262144,
        -262144 <= bx <= 262144,
        -262144 <= by <= 262144,
        0 <= rr <= 1024,
        -262144 <= x <= 262144,
        -262144 <= y <= 262144,
    ensures
        r == seg_covers(ax as int, ay as int, bx as int, by as int, rr as int, x as int, y as int),
{
    let dx: i128 = (bx as i128) - (ax as i128);
    let dy: i128 = (by as i128) - (ay as i128);
    let px: i128 = (x as i128) - (ax as i128);
    let py: i128 = (y as i128) - (ay as i128);
    proof {
        lemma_mul_bound(dx as int, dx as int, 0x80000, 0x80000);
        lemma_mul_bound(dy as int, dy as int, 0x80000, 0x80000);
        lemma_mul_bound(px as int, px as int, 0x80000, 0x80000);
        lemma_mul_bound(py as int, py as int, 0x80000, 0x80000);
        lemma_mul_bound(px as int, dx as int, 0x80000, 0x80000);
        lemma_mul_bound(py as int, dy as int, 0x80000, 0x80000);
        lemma_mul_bound(rr as int, rr as int, 1024, 1024);
    }
    let len2: i128 = dx * dx + dy * dy;
    if len2 == 0 {
        px * px + py * py <= (rr as i128) * (rr as i128)
    } else {
        let dot: i128 = px * dx + py * dy;
        let t: i128 = if dot < 0 {
            0
        } else if dot > len2 {
            len2
        } else {
            dot
        };
        proof {
            lemma_mul_bound(px as int, len2 as int, 0x80000, 0x8000000000);
            lemma_mul_bound(py as int, len2 as int, 0x80000, 0x8000000000);
            lemma_mul_bound(dx as int, t as int, 0x80000, 0x8000000000);
            lemma_mul_bound(dy as int, t as int, 0x80000, 0x8000000000);
        }
        let ex: i128 = px * len2 - dx * t;
        let ey: i128 = py * len2 - dy * t;
        proof {
            lemma_mul_bound(ex as int, ex as int, 0x800000000000000, 0x800000000000000);
            lemma_mul_bound(ey as int, ey as int, 0x800000000000000, 0x800000000000000);
            lemma_mul_bound((rr * rr) as int, len2 as int, 0x100000, 0x8000000000);
            lemma_mul_bound((rr * rr * len2) as int, len2 as int, 0x80000000000000000,
                0x8000000000);
        }
        ex * ex + ey * ey <= (rr as i128) * (rr as i128) * len2 * len2
    }
}

/// Executable arrow test: the shaft and its two barbs.
fn arrow_hit(ax: i64, ay: i64, bx: i64, by: i64, rr: i64, x: i64, y: i64) -> (r: bool)
    requires
        -131072 <= ax <= 131072,
        -131072 <= ay <= 131072,
        -131072 <= bx <= 131072,
        -131072 <= by <= 131072,
        0 <= rr <= 1024,
        -131072 <= x <= 131072,
        -131072 <= y <= 131072,
    ensures
        r == arrow_covers(
            ax as int,
            ay as int,
            bx as int,
            by as int,
            rr as int,
            x as int,
            y as int,
        ),
{
    let dx: i64 = bx - ax;
    let dy: i64 = by - ay;
    let cx: i64 = bx - idiv(dx, 4);
    let cy: i64 = by - idiv(dy, 4);
    proof {
        lemma_div_bounds(dx as int, 4);
        lemma_div_bounds(dy as int, 4);
        lemma_div_bounds(dx as int, 8);
        lemma_div_bounds(dy as int, 8);
    }
    let b1x: i64 = cx - idiv(dy, 8);
    let b1y: i64 = cy + idiv(dx, 8);
    let b2x: i64 = cx + idiv(dy, 8);
    let b2y: i64 = cy - idiv(dx, 8);
    seg_hit(ax, ay, bx, by, rr, x, y) || seg_hit(bx, by, b1x, b1y, rr, x, y) || seg_hit(
        bx,
        by,
        b2x,
        b2y,
        rr,
        x,
        y,
    )
}

/// Executable freehand test: any segment between consecutive points.
fn freehand_hit(points: &Vec<Vec2D>, rr: i64, x: i64, y: i64) -> (r: bool)
    requires
        forall|i: int| 0 <= i < points@.len() ==> #[trigger] points@[i].wf(),
        0 <= rr <= 1024,
        -131072 <= x <= 131072,
        -131072 <= y <= 131072,
    ensures
        r == freehand_covers(points@, rr as int, x as int, y as int),
{
    let n = points.len();
    if n == 0 {
        false
    } else if n == 1 {
        let p = points[0];
        proof {
            assert(points@[0].wf());
        }
        let px = cfloor_rat(p.x);
        let py = cfloor_rat(p.y);
        seg_hit(px, py, px, py, rr, x, y)
    } else {
        let mut j: usize = 0;
        while j < n - 1
            invariant
                points@.len() == n,
                n >= 2,
                0 <= j <= n - 1,
                0 <= rr <= 1024,
                -131072 <= x <= 131072,
                -131072 <= y <= 131072,
                forall|i: int| 0 <= i < points@.len() ==> #[trigger] points@[i].wf(),
                forall|i: int|
                    0 <= i < j ==> !seg_covers(
                        pt_x(points@[i]),
                        pt_y(points@[i]),
                        #[trigger] pt_x(points@[i + 1]),
                        pt_y(points@[i + 1]),
                        rr as int,
                        x as int,
                        y as int,
                    ),
            decreases n - j,
        {
            let a = points[j];
            let b = points[j + 1];
            proof {
                assert(points@[j as int].wf());
                assert(points@[j as int + 1].wf());
            }
            if seg_hit(
                cfloor_rat(a.x),
                cfloor_rat(a.y),
                cfloor_rat(b.x),
                cfloor_rat(b.y),
                rr,
                x,
                y,
            ) {
                proof {
                    assert(seg_covers(
                        pt_x(points@[j as int]),
                        pt_y(points@[j as int]),
                        pt_x(points@[j as int + 1]),
                        pt_y(points@[j as int + 1]),
                        rr as int,
                        x as int,
                        y as int,
                    ));
                }
                return true;
            }
            j = j + 1;
        }
        false
    }
}

/// Executable mirror of `covers`: whether the drawable touches the pixel.
fn pixel_covered(d: &Drawable, w: u32, h: u32, x: i64, y: i64) -> (r: bool)
    requires
        d.wf(),
        1 <= w <= 0x7fff,
        1 <= h <= 0x7fff,
        0 <= x <= 0x7fff,
        0 <= y <= 0x7fff,
    ensures
        r == covers(d.dview(), w as int, h as int, x as int, y as int),
{
    match d {
        Drawable::Rect { start, extent, style } => {
            let ax = cfloor_rat(start.x);
            let bx = cfloor_rat_sum(start.x, extent.x);
            let ay = cfloor_rat(start.y);
            let by = cfloor_rat_sum(start.y, extent.y);
            let x0 = if ax <= bx { ax } else { bx };
            let x1 = if ax >= bx { ax } else { bx };
            let y0 = if ay <= by { ay } else { by };
            let y1 = if ay >= by { ay } else { by };
            rect_hit(x0, y0, x1, y1, stroke_exec(style), style.fill, x, y)
        },
        Drawable::Ellipse { start, extent, style } => {
            let ax = cfloor_rat(start.x);
            let bx = cfloor_rat_sum(start.x, extent.x);
            let ay = cfloor_rat(start.y);
            let by = cfloor_rat_sum(start.y, extent.y);
            let x0 = if ax <= bx { ax } else { bx };
            let x1 = if ax >= bx { ax } else { bx };
            let y0 = if ay <= by { ay } else { by };
            let y1 = if ay >= by { ay } else { by };
            ellipse_hit(x0, y0, x1, y1, stroke_exec(style), style.fill, x, y)
        },
        Drawable::Line { start, delta, style } => seg_hit(
            cfloor_rat(start.x),
            cfloor_rat(start.y),
            cfloor_rat_sum(start.x, delta.x),
            cfloor_rat_sum(start.y, delta.y),
            radius_exec(style),
            x,
            y,
        ),
        Drawable::Arrow { start, delta, style } => arrow_hit(
            cfloor_rat(start.x),
            cfloor_rat(start.y),
            cfloor_rat_sum(start.x, delta.x),
            cfloor_rat_sum(start.y, delta.y),
            radius_exec(style),
            x,
            y,
        ),
        Drawable::Highlight { start, extent, style } => {
            let ax = cfloor_rat(start.x);
            let bx = cfloor_rat_sum(start.x, extent.x);
            let ay = cfloor_rat(start.y);
            let by = cfloor_rat_sum(start.y, extent.y);
            let x0 = if ax <= bx { ax } else { bx };
            let x1 = if ax >= bx { ax } else { bx };
            let y0 = if ay <= by { ay } else { by };
            let y1 = if ay >= by { ay } else { by };
            x0 <= x && x <= x1 && y0 <= y && y <= y1
        },
        Drawable::Blur { start, extent, style } => {
            let ax = cfloor_rat(start.x);
            let bx = cfloor_rat_sum(start.x, extent.x);
            let ay = cfloor_rat(start.y);
            let by = cfloor_rat_sum(start.y, extent.y);
            let x0 = if ax <= bx { ax } else { bx };
            let x1 = if ax >= bx { ax } else { bx };
            let y0 = if ay <= by { ay } else { by };
            let y1 = if ay >= by { ay } else { by };
            let rx0 = if x0 >= 0 { x0 } else { 0 };
            let ry0 = if y0 >= 0 { y0 } else { 0 };
            let rx1 = if x1 <= (w as i64) - 1 { x1 } else { (w as i64) - 1 };
            let ry1 = if y1 <= (h as i64) - 1 { y1 } else { (h as i64) - 1 };
            rx0 <= x && x <= rx1 && ry0 <= y && y <= ry1
        },
        Drawable::Freehand { points, style } => freehand_hit(points, radius_exec(style), x, y),
        Drawable::Text { pos, text, style } => {
            let x0 = cfloor_rat(pos.x);
            let y0 = cfloor_rat(pos.y);
            if y < y0 || y >= y0 + 8 || x < x0 {
                false
            } else {
                let dxu: u64 = (x - x0) as u64;
                let block: u64 = dxu / 8;
                if block < text.len() as u64 {
                    let ch = text[block as usize];
                    let g = glyph_rows(ch);
                    let row: usize = (y - y0) as usize;
                    let col: u8 = (dxu % 8) as u8;
                    (g[row] >> col) & 1 == 1
                } else {
                    false
                }
            }
        },
    }
}

/// Source-over blending of one channel, in integer arithmetic.
pub open spec fn blend(c: int, a: int, dst: int) -> int {
    (c * a + dst * (255 - a)) / 255
}

/// The blend result stays an 8-bit channel value.
proof fn lemma_blend_bounds(c: int, a: int, dst: int)
    by (nonlinear_arith)
    requires
        0 <= c <= 255,
        0 <= a <= 255,
        0 <= dst <= 255,
    ensures
        0 <= blend(c, a, dst) <= 255,
{
}

/// Executable blending of one channel.
fn blend_exec(c: u8, a: u8, dst: u8) -> (r: u8)
    ensures
        r as int == blend(c as int, a as int, dst as int),
{
    proof {
        lemma_blend_bounds(c as int, a as int, dst as int);
    }
    (((c as u32) * (a as u32) + (dst as u32) * (255 - (a as u32))) / 255) as u8
}

/// Executable mirror of `drawable_color`.
fn drawable_color_exec(d: &Drawable) -> (c: Color)
    ensures
        c == drawable_color(d.dview()),
{
    match d {
        Drawable::Rect { style, .. } => style.color,
        Drawable::Ellipse { style, .. } => style.color,
        Drawable::Line { style, .. } => style.color,
        Drawable::Arrow { style, .. } => style.color,
        Drawable::Highlight { style, .. } => style.color,
        Drawable::Blur { style, .. } => style.color,
        Drawable::Freehand { style, .. } => style.color,
        Drawable::Text { style, .. } => style.color,
    }
}

/// Executable mirror of `drawable_alpha`.
fn drawable_alpha_exec(d: &Drawable) -> (a: u8)
    ensures
        a as int == drawable_alpha(d.dview()),
{
    match d {
        Drawable::Highlight { style, .. } => style.color.a / 2,
        _ => drawable_color_exec(d).a,
    }
}

// ---------------------------------------------------------------------------
// Painting one drawable, pixel-exactly.
// ---------------------------------------------------------------------------

/// The value of byte `i` after painting drawable `d` over `img`: untouched
/// on the alpha channel and outside the drawable's coverage; a censored
/// pixel copies its block anchor; every other covered pixel blends the
/// drawable's colour over the existing value.
pub open spec fn draw_px(img: Seq<u8>, w: int, h: int, d: SpecDrawable, i: int) -> u8 {
    let p = i / 4;
    let ch = i % 4;
    let x = p % w;
    let y = p / w;
    if ch == 3 || !covers(d, w, h, x, y) {
        img[i]
    } else {
        match d {
            SpecDrawable::Blur { start, extent, .. } => img[4 * (blur_anchor_y(start, extent, y)
                * w + blur_anchor_x(start, extent, x)) + ch],
            _ => blend(
                spec_channel(drawable_color(d), ch) as int,
                drawable_alpha(d),
                img[i] as int,
            ) as u8,
        }
    }
}

/// The whole image after painting drawable `d`.
pub open spec fn draw_spec(img: Seq<u8>, w: int, h: int, d: SpecDrawable) -> Seq<u8> {
    Seq::new(img.len(), |i: int| draw_px(img, w, h, d, i))
}

/// An exact copy of a byte vector.
pub fn clone_bytes(v: &Vec<u8>) -> (r: Vec<u8>)
    ensures
        r@ == v@,
{
    let mut r: Vec<u8> = Vec::new();
    let mut i: usize = 0;
    while i < v.len()
        invariant
            0 <= i <= v@.len(),
            r@ =~= v@.take(i as int),
        decreases v@.len() - i,
    {
        r.push(v[i]);
        i = i + 1;
    }
    proof {
        assert(r@ =~= v@);
    }
    r
}

/// Decoding a row-major byte index back into pixel coordinates.
proof fn lemma_pixel_decode(x: int, y: int, w: int, ch: int)
    by (nonlinear_arith)
    requires
        0 <= x < w,
        0 <= y,
        0 <= ch < 4,
    ensures
        (4 * (y * w + x) + ch) / 4 == y * w + x,
        (4 * (y * w + x) + ch) % 4 == ch,
        (y * w + x) % w == x,
        (y * w + x) / w == y,
{
}

/// Row-major byte indices stay inside the buffer.
proof fn lemma_pixel_bound(x: int, y: int, w: int, h: int)
    by (nonlinear_arith)
    requires
        0 <= x < w,
        0 <= y < h,
    ensures
        0 <= 4 * (y * w + x),
        4 * (y * w + x) + 3 < 4 * (w * h),
        y * w + x < w * h,
{
}

/// A block anchor lies between the region start and the pixel.
proof fn lemma_block_anchor(n: int)
    by (nonlinear_arith)
    requires
        n >= 0,
    ensures
        0 <= (n / 8) * 8 <= n,
{
}

/// Paint one drawable over the image, in place.
#[verifier::rlimit(100)]
pub fn draw_drawable(img: &mut Image, d: &Drawable)
    requires
        old(img).wf(),
        d.wf(),
    ensures
        final(img).wf(),
        final(img).width == old(img).width,
        final(img).height == old(img).height,
        final(img).data@ == draw_spec(
            old(img).data@,
            old(img).width as int,
            old(img).height as int,
            d.dview(),
        ),
{
    let w = img.width;
    let h = img.height;
    let src = clone_bytes(&img.data);
    let ghost target = draw_spec(src@, w as int, h as int, d.dview());
    proof {
        assert(target.len() == src@.len());
    }
    let color = drawable_color_exec(d);
    let alpha = drawable_alpha_exec(d);
    let mut y: u32 = 0;
    while y < h
        invariant
            old(img).wf(),
            d.wf(),
            0 <= y <= h,
            w == old(img).width,
            h == old(img).height,
            img.width == w,
            img.height == h,
            src@ == old(img).data@,
            target == draw_spec(src@, w as int, h as int, d.dview()),
            color == drawable_color(d.dview()),
            alpha as int == drawable_alpha(d.dview()),
            img.data@.len() == src@.len(),
            forall|i: int|
                0 <= i < img.data@.len() ==> img.data@[i] == (if i < 4 * ((y as int) * (
                w as int)) {
                    target[i]
                } else {
                    src@[i]
                }),
        decreases h - y,
    {
        let mut x: u32 = 0;
        while x < w
            invariant
                old(img).wf(),
                d.wf(),
                0 <= y < h,
                0 <= x <= w,
                w == old(img).width,
                h == old(img).height,
                img.width == w,
                img.height == h,
                src@ == old(img).data@,
                target == draw_spec(src@, w as int, h as int, d.dview()),
                color == drawable_color(d.dview()),
                alpha as int == drawable_alpha(d.dview()),
                img.data@.len() == src@.len(),
                forall|i: int|
                    0 <= i < img.data@.len() ==> img.data@[i] == (if i < 4 * ((y as int) * (
                    w as int) + (x as int)) {
                        target[i]
                    } else {
                        src@[i]
                    }),
            decreases w - x,
        {
            proof {
                lemma_pixel_bound(x as int, y as int, w as int, h as int);
                lemma_mul_bound(w as int, h as int, 0x7fff, 0x7fff);
                lemma_mul_bound(y as int, w as int, 0x7fff, 0x7fff);
            }
            let covered = pixel_covered(d, w, h, x as i64, y as i64);
            let base: usize = 4 * ((y as usize) * (w as usize) + (x as usize));
            if covered {
                let (v0, v1, v2): (u8, u8, u8) = match d {
                    Drawable::Blur { start, extent, .. } => {
                        let ax0 = cfloor_rat(start.x);
                        let bx0 = cfloor_rat_sum(start.x, extent.x);
                        let ay0 = cfloor_rat(start.y);
                        let by0 = cfloor_rat_sum(start.y, extent.y);
                        let gx0 = if ax0 <= bx0 { ax0 } else { bx0 };
                        let gy0 = if ay0 <= by0 { ay0 } else { by0 };
                        let rx0 = if gx0 >= 0 { gx0 } else { 0 };
                        let ry0 = if gy0 >= 0 { gy0 } else { 0 };
                        proof {
                            lemma_block_anchor((x as int) - (rx0 as int));
                            lemma_block_anchor((y as int) - (ry0 as int));
                        }
                        let anx: i64 = rx0 + idiv((x as i64) - rx0, 8) * 8;
                        let any: i64 = ry0 + idiv((y as i64) - ry0, 8) * 8;
                        proof {
                            lemma_pixel_bound(anx as int, any as int, w as int, h as int);
                        }
                        let sidx: usize = 4 * ((any as usize) * (w as usize) + (anx as usize));
                        (src[sidx], src[sidx + 1], src[sidx + 2])
                    },
                    _ => (
                        blend_exec(color.r, alpha, src[base]),
                        blend_exec(color.g, alpha, src[base + 1]),
                        blend_exec(color.b, alpha, src[base + 2]),
                    ),
                };
                img.data[base] = v0;
                img.data[base + 1] = v1;
                img.data[base + 2] = v2;
            }
            proof {
                lemma_pixel_decode(x as int, y as int, w as int, 0);
                lemma_pixel_decode(x as int, y as int, w as int, 1);
                lemma_pixel_decode(x as int, y as int, w as int, 2);
                lemma_pixel_decode(x as int, y as int, w as int, 3);
                assert forall|i: int| 0 <= i < img.data@.len() implies img.data@[i] == (if i < 4
                    * ((y as int) * (w as int) + (x as int) + 1) {
                    target[i]
                } else {
                    src@[i]
                }) by {
                    let b = 4 * ((y as int) * (w as int) + (x as int));
                    if b <= i < b + 4 {
                        assert(target[i] == draw_px(src@, w as int, h as int, d.dview(), i));
                    }
                }
            }
            x = x + 1;
        }
        proof {
            assert(((y as int) + 1) * (w as int) == (y as int) * (w as int) + (w as int))
                by (nonlinear_arith);
        }
        y = y + 1;
    }
    proof {
        assert(4 * ((h as int) * (w as int)) == (w as int) * (h as int) * 4)
            by (nonlinear_arith);
        assert(img.data@ =~= target);
    }
}

// ---------------------------------------------------------------------------
// Compositing a whole scene.
// ---------------------------------------------------------------------------

/// Painting a sequence of drawables, first to last.
pub open spec fn draw_all(img: Seq<u8>, w: int, h: int, ds: Seq<SpecDrawable>) -> Seq<u8>
    decreases ds.len(),
{
    if ds.len() == 0 {
        img
    } else {
        draw_all(draw_spec(img, w, h, ds[0]), w, h, ds.drop_first())
    }
}

/// The composited scene: the base image, then every visible committed
/// drawable in order, then the live preview.
pub open spec fn render_spec(
    base: Seq<u8>,
    w: int,
    h: int,
    ds: Seq<SpecDrawable>,
    preview: Option<SpecDrawable>,
) -> Seq<u8> {
    match preview {
        Some(p) => draw_spec(draw_all(base, w, h, ds), w, h, p),
        None => draw_all(base, w, h, ds),
    }
}

/// Painting one more drawable extends a left fold.
proof fn lemma_draw_all_snoc(img: Seq<u8>, w: int, h: int, ds: Seq<SpecDrawable>, k: int)
    requires
        0 <= k < ds.len(),
    ensures
        draw_all(img, w, h, ds.take(k + 1)) == draw_spec(
            draw_all(img, w, h, ds.take(k)),
            w,
            h,
            ds[k],
        ),
    decreases k,
{
    if k == 0 {
        assert(ds.take(1).len() == 1);
        assert(ds.take(1)[0] == ds[0]);
        assert(ds.take(1).drop_first() =~= Seq::<SpecDrawable>::empty());
        assert(draw_all(img, w, h, ds.take(1)) == draw_all(
            draw_spec(img, w, h, ds[0]),
            w,
            h,
            Seq::<SpecDrawable>::empty(),
        ));
        assert(draw_all(draw_spec(img, w, h, ds[0]), w, h, Seq::<SpecDrawable>::empty())
            == draw_spec(img, w, h, ds[0]));
        assert(ds.take(0) =~= Seq::<SpecDrawable>::empty());
        assert(draw_all(img, w, h, ds.take(0)) == img);
    } else {
        let img1 = draw_spec(img, w, h, ds[0]);
        let dds = ds.drop_first();
        assert(ds.take(k + 1).len() == k + 1);
        assert(ds.take(k + 1)[0] == ds[0]);
        assert(ds.take(k + 1).drop_first() =~= dds.take(k));
        assert(draw_all(img, w, h, ds.take(k + 1)) == draw_all(img1, w, h, dds.take(k)));
        lemma_draw_all_snoc(img1, w, h, dds, k - 1);
        assert(dds[k - 1] == ds[k]);
        assert(ds.take(k).len() == k);
        assert(ds.take(k)[0] == ds[0]);
        assert(ds.take(k).drop_first() =~= dds.take(k - 1));
        assert(draw_all(img, w, h, ds.take(k)) == draw_all(img1, w, h, dds.take(k - 1)));
    }
}

/// Composite the scene: the base image, the history's visible drawables in
/// order, then the live preview.
pub fn render(base: &Image, history: &History, preview: Option<&Drawable>) -> (out: Image)
    requires
        base.wf(),
        history.wf(),
        preview is Some ==> preview->0.wf(),
    ensures
        out.wf(),
        out.width == base.width,
        out.height == base.height,
        out.data@ == render_spec(
            base.data@,
            base.width as int,
            base.height as int,
            history.visible(),
            match preview {
                Some(p) => Some(p.dview()),
                None => None,
            },
        ),
{
    let w = base.width;
    let h = base.height;
    let mut out = Image { width: w, height: h, data: clone_bytes(&base.data) };
    let ghost ds = history.visible();
    proof {
        assert(ds.take(0) =~= Seq::<SpecDrawable>::empty());
    }
    let n = history.visible_len();
    let mut k: usize = 0;
    while k < n
        invariant
            base.wf(),
            history.wf(),
            ds == history.visible(),
            n == history.visible().len(),
            0 <= k <= n,
            w == base.width,
            h == base.height,
            out.wf(),
            out.width == w,
            out.height == h,
            out.data@ == draw_all(base.data@, w as int, h as int, ds.take(k as int)),
        decreases n - k,
    {
        let d = history.visible_at(k);
        draw_drawable(&mut out, d);
        proof {
            lemma_draw_all_snoc(base.data@, w as int, h as int, ds, k as int);
        }
        k = k + 1;
    }
    proof {
        assert(ds.take(n as int) =~= ds);
    }
    match preview {
        Some(p) => {
            draw_drawable(&mut out, p);
        },
        None => {},
    }
    out
}

// ---------------------------------------------------------------------------
// The render request queue: strictly first in, first out.
// ---------------------------------------------------------------------------

/// A render request: the post-render actions it carries.  The compositor
/// reads the board's current state when the request is taken up.
#[derive(Clone, Debug)]
pub struct RenderRequest {
    pub actions: Vec<Action>,
}

/// The FIFO queue of outstanding render requests.
pub struct RenderQueue {
    pub pending: Vec<RenderRequest>,
}

/// What one delivery does: the earliest pending request leaves the queue.
pub open spec fn pop_model(s: Seq<RenderRequest>) -> (Option<RenderRequest>, Seq<RenderRequest>) {
    if s.len() > 0 {
        (Some(s[0]), s.drop_first())
    } else {
        (None, s)
    }
}

impl RenderQueue {
    pub fn new() -> (q: RenderQueue)
        ensures
            q.pending@ =~= Seq::<RenderRequest>::empty(),
    {
        RenderQueue { pending: Vec::new() }
    }

    /// Submit a render request; it joins the back of the queue.
    pub fn submit(&mut self, req: RenderRequest)
        ensures
            final(self).pending@ == old(self).pending@.push(req),
    {
        self.pending.push(req);
    }

    /// Deliver the next request: the earliest submitted one still pending.
    pub fn pop_front(&mut self) -> (r: Option<RenderRequest>)
        ensures
            (r, final(self).pending@) == pop_model(old(self).pending@),
    {
        if self.pending.len() > 0 {
            let req = self.pending.remove(0);
            proof {
                assert(self.pending@ =~= old(self).pending@.drop_first());
            }
            Some(req)
        } else {
            None
        }
    }

    pub fn is_empty(&self) -> (r: bool)
        ensures
            r == (self.pending@.len() == 0),
    {
        self.pending.len() == 0
    }
}

/// Deliveries come in submission order: after `k` deliveries the next one
/// is exactly the `k+1`-st submitted request, so a request never overtakes
/// an earlier one.  In particular, of two requests submitted in order, the
/// first is delivered strictly before the second.
pub proof fn lemma_fifo_order(s: Seq<RenderRequest>, k: int)
    requires
        0 <= k < s.len(),
    ensures
        pop_model(s.skip(k)).0 == Some(s[k]),
        pop_model(s.skip(k)).1 =~= s.skip(k + 1),
{
    assert(s.skip(k).len() == s.len() - k);
    assert(s.skip(k)[0] == s[k]);
    assert(s.skip(k).drop_first() =~= s.skip(k + 1));
}

} // verus!
