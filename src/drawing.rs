//! Drawables: per-kind painting and hit-testing over a box.
//!
//! Painting is described as a list of `DrawOp` commands that the host
//! replays on its 2-D drawing surface.

use vstd::prelude::*;
use crate::colors::{BackgroundColor, Color};
use crate::geometry::{BBox, Point, COORD_LIMIT, BBOX_LIMIT};

verus! {

/// Dash length of selection outlines, in pixels.
pub const SELECTION_DASH: u32 = 5;

/// One command for the drawing surface.
#[derive(Clone, Copy, Debug, PartialEq, Eq, Structural)]
pub enum DrawOp {
    /// Paint the whole surface white.
    Clear,
    /// Start a new path.
    BeginPath,
    /// Add the rectangle to the path.
    Rect(BBox),
    /// Add the ellipse inscribed in the box to the path.
    Ellipse(BBox),
    /// Fill the path with the fill style.
    Fill,
    /// Stroke the path with the stroke style.
    Stroke,
    /// Stroke the outline of a rectangle, outside of any path.
    StrokeRect(BBox),
    /// Set the fill style to a color.
    FillColor(BackgroundColor),
    /// Set the stroke style to a color.
    StrokeColor(Color),
    /// Set the stroke style to the blue of selection outlines.
    SelectionStroke,
    /// Set the line width, in tenths of a pixel.
    LineWidth(u32),
    /// Dash strokes with the given dash length, in pixels.
    LineDash(u32),
}

/// The kinds of shapes.
#[derive(Clone, Copy, Debug, PartialEq, Eq, Structural)]
pub enum ShapeType {
    Rectangle,
    Ellipse,
    Selection,
}

impl ShapeType {
    pub open spec fn spec_name(self) -> Seq<char> {
        match self {
            ShapeType::Rectangle => "Rectangle"@,
            ShapeType::Ellipse => "Ellipse"@,
            ShapeType::Selection => "Selection"@,
        }
    }

    /// The kind named `s`; unknown names give the default kind.
    pub open spec fn parse(s: Seq<char>) -> ShapeType {
        if s == "Ellipse"@ {
            ShapeType::Ellipse
        } else if s == "Selection"@ {
            ShapeType::Selection
        } else {
            ShapeType::Rectangle
        }
    }

    /// The name under which the kind is stored.
    pub fn name(&self) -> (r: &'static str)
        ensures
            r@ == self.spec_name(),
    {
        match self {
            ShapeType::Rectangle => "Rectangle",
            ShapeType::Ellipse => "Ellipse",
            ShapeType::Selection => "Selection",
        }
    }

    pub fn from_name(name: &str) -> (r: ShapeType)
        ensures
            r == ShapeType::parse(name@),
    {
        let n = name.to_owned();
        if n == "Ellipse".to_owned() {
            ShapeType::Ellipse
        } else if n == "Selection".to_owned() {
            ShapeType::Selection
        } else {
            ShapeType::Rectangle
        }
    }
}

impl Default for ShapeType {
    fn default() -> (r: ShapeType)
        ensures
            r == ShapeType::Rectangle,
    {
        ShapeType::Rectangle
    }
}

/// Whether `p` lies in the ellipse inscribed in `b`, with both radii grown
/// by `m`: `(dx/(rx+m))² + (dy/(ry+m))² <= 1`, where `(dx, dy)` is the offset
/// of `p` from the center and `rx`, `ry` are half the width and height.
/// Non-positive grown radii hit nothing. Doubling every length keeps the
/// test in whole numbers.
pub open spec fn ellipse_hit(b: BBox, p: Point, m: int) -> bool {
    let w = b.width + 2 * m;
    let h = b.height + 2 * m;
    let dx = 2 * p.x - 2 * b.left - b.width;
    let dy = 2 * p.y - 2 * b.top - b.height;
    w > 0 && h > 0 && dx * dx * (h * h) + dy * dy * (w * w) <= w * w * (h * h)
}

/// Margins that hit tests accept.
pub open spec fn margin_ok(m: int) -> bool {
    -COORD_LIMIT <= m <= COORD_LIMIT
}

/// Outside the box grown by the margin, the ellipse test fails too.
proof fn lemma_far_point_misses(b: BBox, p: Point, m: int)
    requires
        b.wf(),
        !b.near(p, m),
    ensures
        !ellipse_hit(b, p, m),
{
    let w = b.width + 2 * m;
    let h = b.height + 2 * m;
    let dx = 2 * p.x - 2 * b.left - b.width;
    let dy = 2 * p.y - 2 * b.top - b.height;
    if w > 0 && h > 0 {
        let a = dx * dx;
        let c = dy * dy;
        assert(a >= 0 && c >= 0) by (nonlinear_arith)
            requires
                a == dx * dx,
                c == dy * dy,
        ;
        assert(h * h > 0 && w * w > 0) by (nonlinear_arith)
            requires
                w > 0,
                h > 0,
        ;
        if dx > w || dx < -w {
            assert(a > w * w) by (nonlinear_arith)
                requires
                    a == dx * dx,
                    dx > w || dx < -w,
                    w > 0,
            ;
            assert(a * (h * h) > w * w * (h * h)) by (nonlinear_arith)
                requires
                    a > w * w,
                    h * h > 0,
            ;
            assert(c * (w * w) >= 0) by (nonlinear_arith)
                requires
                    c >= 0,
                    w * w > 0,
            ;
        } else {
            assert(dy > h || dy < -h);
            assert(c > h * h) by (nonlinear_arith)
                requires
                    c == dy * dy,
                    dy > h || dy < -h,
                    h > 0,
            ;
            assert(c * (w * w) > w * w * (h * h)) by (nonlinear_arith)
                requires
                    c > h * h,
                    w * w > 0,
            ;
            assert(a * (h * h) >= 0) by (nonlinear_arith)
                requires
                    a >= 0,
                    h * h > 0,
            ;
        }
    }
}

/// A drawable rectangle.
#[derive(Clone, Copy, Debug, PartialEq, Eq, Structural)]
pub struct Rectangle {
    pub bbox: BBox,
}

impl Rectangle {
    pub fn new(bbox: &BBox) -> (r: Rectangle)
        ensures
            r.bbox == *bbox,
    {
        Rectangle { bbox: *bbox }
    }

    pub fn bbox(&self) -> (r: BBox)
        ensures
            r == self.bbox,
    {
        self.bbox
    }

    /// Adds the rectangle's path; stroke and fill are left to the caller.
    pub fn draw(&self, ops: &mut Vec<DrawOp>)
        ensures
            final(ops)@ == old(ops)@ + seq![DrawOp::BeginPath, DrawOp::Rect(self.bbox)],
    {
        ops.push(DrawOp::BeginPath);
        ops.push(DrawOp::Rect(self.bbox));
    }

    /// Hit test: the point lies within the box grown by `margin`.
    pub fn contains(&self, point: &Point, margin: i64) -> (r: bool)
        ensures
            r == self.bbox.near(*point, margin as int),
    {
        self.bbox.contains(point, margin)
    }
}

/// A drawable ellipse, inscribed in its box.
#[derive(Clone, Copy, Debug, PartialEq, Eq, Structural)]
pub struct Ellipse {
    pub bbox: BBox,
}

impl Ellipse {
    pub fn new(bbox: &BBox) -> (r: Ellipse)
        ensures
            r.bbox == *bbox,
    {
        Ellipse { bbox: *bbox }
    }

    pub fn bbox(&self) -> (r: BBox)
        ensures
            r == self.bbox,
    {
        self.bbox
    }

    /// Adds the ellipse's path; stroke and fill are left to the caller.
    pub fn draw(&self, ops: &mut Vec<DrawOp>)
        ensures
            final(ops)@ == old(ops)@ + seq![DrawOp::BeginPath, DrawOp::Ellipse(self.bbox)],
    {
        ops.push(DrawOp::BeginPath);
        ops.push(DrawOp::Ellipse(self.bbox));
    }

    /// Hit test by the normalized distance to the center.
    pub fn contains(&self, point: &Point, margin: i64) -> (r: bool)
        requires
            self.bbox.wf(),
            margin_ok(margin as int),
        ensures
            r == ellipse_hit(self.bbox, *point, margin as int),
    {
        let b = self.bbox;
        if !b.contains(point, margin) {
            proof {
                lemma_far_point_misses(b, *point, margin as int);
            }
            return false;
        }
        let m = margin as i128;
        let w: i128 = b.width as i128 + 2 * m;
        let h: i128 = b.height as i128 + 2 * m;
        if w <= 0 || h <= 0 {
            return false;
        }
        let dx: i128 = 2 * (point.x as i128) - 2 * (b.left as i128) - b.width as i128;
        let dy: i128 = 2 * (point.y as i128) - 2 * (b.top as i128) - b.height as i128;
        let ghost lim: int = 2684354560;
        assert(w <= lim && h <= lim);
        assert(-w <= dx <= w && -h <= dy <= h);
        assert(dx * dx <= lim * lim && 0 <= dx * dx) by (nonlinear_arith)
            requires
                -w <= dx <= w,
                0 < w <= lim,
        ;
        assert(dy * dy <= lim * lim && 0 <= dy * dy) by (nonlinear_arith)
            requires
                -h <= dy <= h,
                0 < h <= lim,
        ;
        assert(w * w <= lim * lim && 0 <= w * w) by (nonlinear_arith)
            requires
                0 < w <= lim,
        ;
        assert(h * h <= lim * lim && 0 <= h * h) by (nonlinear_arith)
            requires
                0 < h <= lim,
        ;
        let dx2: i128 = dx * dx;
        let dy2: i128 = dy * dy;
        let w2: i128 = w * w;
        let h2: i128 = h * h;
        assert(dx2 * h2 <= (lim * lim) * (lim * lim) && 0 <= dx2 * h2) by (nonlinear_arith)
            requires
                0 <= dx2 <= lim * lim,
                0 <= h2 <= lim * lim,
        ;
        assert(dy2 * w2 <= (lim * lim) * (lim * lim) && 0 <= dy2 * w2) by (nonlinear_arith)
            requires
                0 <= dy2 <= lim * lim,
                0 <= w2 <= lim * lim,
        ;
        assert(w2 * h2 <= (lim * lim) * (lim * lim)) by (nonlinear_arith)
            requires
                0 <= w2 <= lim * lim,
                0 <= h2 <= lim * lim,
        ;
        dx2 * h2 + dy2 * w2 <= w2 * h2
    }
}

/// A dashed blue outline marking selected shapes or a rubber band.
#[derive(Clone, Copy, Debug, PartialEq, Eq, Structural)]
pub struct Selection(pub Rectangle);

impl Selection {
    pub fn new(bbox: &BBox) -> (r: Selection)
        ensures
            r.0.bbox == *bbox,
    {
        Selection(Rectangle::new(bbox))
    }

    pub fn bbox(&self) -> (r: BBox)
        ensures
            r == self.0.bbox,
    {
        self.0.bbox()
    }

    /// Strokes the outline with its own style: blue, dashed.
    pub fn draw(&self, ops: &mut Vec<DrawOp>)
        ensures
            final(ops)@ == old(ops)@ + seq![
                DrawOp::SelectionStroke,
                DrawOp::LineDash(SELECTION_DASH),
                DrawOp::StrokeRect(self.0.bbox),
            ],
    {
        ops.push(DrawOp::SelectionStroke);
        ops.push(DrawOp::LineDash(SELECTION_DASH));
        ops.push(DrawOp::StrokeRect(self.0.bbox));
    }

    /// Hit test: the point lies within the box grown by `margin`.
    pub fn contains(&self, point: &Point, margin: i64) -> (r: bool)
        ensures
            r == self.0.bbox.near(*point, margin as int),
    {
        self.0.contains(point, margin)
    }
}

/// A drawable of any kind.
#[derive(Clone, Copy, Debug, PartialEq, Eq, Structural)]
pub enum Drawable {
    Rectangle(Rectangle),
    Ellipse(Ellipse),
    Selection(Selection),
}

impl Drawable {
    pub open spec fn kind(self) -> ShapeType {
        match self {
            Drawable::Rectangle(_) => ShapeType::Rectangle,
            Drawable::Ellipse(_) => ShapeType::Ellipse,
            Drawable::Selection(_) => ShapeType::Selection,
        }
    }

    pub open spec fn spec_bbox(self) -> BBox {
        match self {
            Drawable::Rectangle(r) => r.bbox,
            Drawable::Ellipse(e) => e.bbox,
            Drawable::Selection(s) => s.0.bbox,
        }
    }

    /// The commands that `draw` appends.
    pub open spec fn ops(self) -> Seq<DrawOp> {
        match self {
            Drawable::Rectangle(r) => seq![DrawOp::BeginPath, DrawOp::Rect(r.bbox)],
            Drawable::Ellipse(e) => seq![DrawOp::BeginPath, DrawOp::Ellipse(e.bbox)],
            Drawable::Selection(s) => seq![
                DrawOp::SelectionStroke,
                DrawOp::LineDash(SELECTION_DASH),
                DrawOp::StrokeRect(s.0.bbox),
            ],
        }
    }

    /// The commands that `outline` appends: the drawing, stroked where it
    /// only built a path.
    pub open spec fn outline_ops(self) -> Seq<DrawOp> {
        match self {
            Drawable::Selection(_) => self.ops(),
            _ => self.ops().push(DrawOp::Stroke),
        }
    }

    /// Hit-test result of the drawable on a point.
    pub open spec fn hit(self, p: Point, m: int) -> bool {
        match self {
            Drawable::Ellipse(e) => ellipse_hit(e.bbox, p, m),
            _ => self.spec_bbox().near(p, m),
        }
    }

    pub fn bbox(&self) -> (r: BBox)
        ensures
            r == self.spec_bbox(),
    {
        match self {
            Drawable::Rectangle(r) => r.bbox(),
            Drawable::Ellipse(e) => e.bbox(),
            Drawable::Selection(s) => s.bbox(),
        }
    }

    pub fn draw(&self, ops: &mut Vec<DrawOp>)
        ensures
            final(ops)@ == old(ops)@ + self.ops(),
    {
        match self {
            Drawable::Rectangle(r) => r.draw(ops),
            Drawable::Ellipse(e) => e.draw(ops),
            Drawable::Selection(s) => s.draw(ops),
        }
    }

    /// Draws the drawable and strokes its path, for drawables that are shown
    /// without a shape's decoration.
    pub fn outline(&self, ops: &mut Vec<DrawOp>)
        ensures
            final(ops)@ == old(ops)@ + self.outline_ops(),
    {
        self.draw(ops);
        match self {
            Drawable::Selection(_) => {},
            _ => ops.push(DrawOp::Stroke),
        }
    }

    /// Whether the drawable's box lies within `bbox`.
    pub fn isin(&self, bbox: &BBox) -> (r: bool)
        requires
            self.spec_bbox().wf(),
            bbox.wf(),
        ensures
            r == self.spec_bbox().inside(*bbox),
    {
        self.bbox().in_(bbox)
    }

    /// Hit test of `point` with the given margin.
    pub fn contains(&self, point: &Point, margin: i64) -> (r: bool)
        requires
            self.spec_bbox().wf(),
            margin_ok(margin as int),
        ensures
            r == self.hit(*point, margin as int),
    {
        match self {
            Drawable::Rectangle(r) => r.contains(point, margin),
            Drawable::Ellipse(e) => e.contains(point, margin),
            Drawable::Selection(s) => s.contains(point, margin),
        }
    }
}

impl ShapeType {
    /// The drawable of this kind over `b`.
    pub open spec fn drawable_over(self, b: BBox) -> Drawable {
        match self {
            ShapeType::Rectangle => Drawable::Rectangle(Rectangle { bbox: b }),
            ShapeType::Ellipse => Drawable::Ellipse(Ellipse { bbox: b }),
            ShapeType::Selection => Drawable::Selection(Selection(Rectangle { bbox: b })),
        }
    }

    /// A drawable of this kind over `bbox`.
    pub fn get_drawable(&self, bbox: &BBox) -> (r: Drawable)
        ensures
            r == self.drawable_over(*bbox),
            r.kind() == *self,
            r.spec_bbox() == *bbox,
    {
        match self {
            ShapeType::Ellipse => Drawable::Ellipse(Ellipse::new(bbox)),
            ShapeType::Selection => Drawable::Selection(Selection::new(bbox)),
            ShapeType::Rectangle => Drawable::Rectangle(Rectangle::new(bbox)),
        }
    }
}

} // verus!
