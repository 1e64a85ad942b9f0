//! Points and axis-aligned boxes in canvas pixel space.

use vstd::prelude::*;

verus! {

/// Largest magnitude of a point coordinate that the core accepts.
pub const COORD_LIMIT: i64 = 268435456;

/// Largest magnitude of a box edge; leaves room for padding around boxes
/// built from valid points.
pub const BBOX_LIMIT: i64 = 1073741824;

/// A position on the canvas, in pixels.
#[derive(Clone, Copy, Debug, PartialEq, Eq, Structural)]
pub struct Point {
    pub x: i64,
    pub y: i64,
}

impl Point {
    /// Both coordinates lie within `COORD_LIMIT`.
    pub open spec fn valid(self) -> bool {
        -COORD_LIMIT <= self.x <= COORD_LIMIT && -COORD_LIMIT <= self.y <= COORD_LIMIT
    }

    pub fn new(x: i64, y: i64) -> (r: Point)
        ensures
            r.x == x,
            r.y == y,
    {
        Point { x, y }
    }

    /// Whether both coordinates lie within `COORD_LIMIT`.
    pub fn is_valid(&self) -> (r: bool)
        ensures
            r == self.valid(),
    {
        -COORD_LIMIT <= self.x && self.x <= COORD_LIMIT && -COORD_LIMIT <= self.y && self.y
            <= COORD_LIMIT
    }
}

pub open spec fn min_int(a: int, b: int) -> int {
    if a <= b {
        a
    } else {
        b
    }
}

pub open spec fn max_int(a: int, b: int) -> int {
    if a <= b {
        b
    } else {
        a
    }
}

pub open spec fn abs_diff(a: int, b: int) -> int {
    if a <= b {
        b - a
    } else {
        a - b
    }
}

pub open spec fn edge_in_range(v: int) -> bool {
    -BBOX_LIMIT <= v <= BBOX_LIMIT
}

/// An axis-aligned rectangle given by its top-left corner and its size.
#[derive(Clone, Copy, Debug, PartialEq, Eq, Structural)]
pub struct BBox {
    pub left: i64,
    pub top: i64,
    pub width: i64,
    pub height: i64,
}

impl BBox {
    pub open spec fn right_edge(self) -> int {
        self.left + self.width
    }

    pub open spec fn bottom_edge(self) -> int {
        self.top + self.height
    }

    /// Non-negative size, and every edge within `BBOX_LIMIT`.
    pub open spec fn wf(self) -> bool {
        &&& self.width >= 0
        &&& self.height >= 0
        &&& edge_in_range(self.left as int)
        &&& edge_in_range(self.top as int)
        &&& edge_in_range(self.right_edge())
        &&& edge_in_range(self.bottom_edge())
    }

    /// The box spanned by two corners.
    pub open spec fn corner_box(a: Point, b: Point) -> BBox {
        BBox {
            left: min_int(a.x as int, b.x as int) as i64,
            top: min_int(a.y as int, b.y as int) as i64,
            width: abs_diff(a.x as int, b.x as int) as i64,
            height: abs_diff(a.y as int, b.y as int) as i64,
        }
    }

    /// `self` lies within `other`.
    pub open spec fn inside(self, other: BBox) -> bool {
        &&& other.left <= self.left
        &&& other.top <= self.top
        &&& self.right_edge() <= other.right_edge()
        &&& self.bottom_edge() <= other.bottom_edge()
    }

    /// `p` lies within `self` grown by `margin` on each side.
    pub open spec fn near(self, p: Point, margin: int) -> bool {
        &&& self.top <= p.y + margin
        &&& p.y - margin <= self.bottom_edge()
        &&& self.left <= p.x + margin
        &&& p.x - margin <= self.right_edge()
    }

    /// `self` grown by `p` on every side.
    pub open spec fn padded(self, p: int) -> BBox {
        BBox {
            left: (self.left - p) as i64,
            top: (self.top - p) as i64,
            width: (self.width + 2 * p) as i64,
            height: (self.height + 2 * p) as i64,
        }
    }

    /// Growing `self` by `p` keeps every edge within `BBOX_LIMIT`.
    pub open spec fn can_pad(self, p: int) -> bool {
        &&& edge_in_range(self.left - p)
        &&& edge_in_range(self.top - p)
        &&& edge_in_range(self.right_edge() + p)
        &&& edge_in_range(self.bottom_edge() + p)
    }

    /// The smallest box holding both `self` and `other`.
    pub open spec fn union(self, other: BBox) -> BBox {
        let l = min_int(self.left as int, other.left as int);
        let t = min_int(self.top as int, other.top as int);
        BBox {
            left: l as i64,
            top: t as i64,
            width: (max_int(self.right_edge(), other.right_edge()) - l) as i64,
            height: (max_int(self.bottom_edge(), other.bottom_edge()) - t) as i64,
        }
    }

    /// The normalized rectangle spanning the two corners `a` and `b`.
    pub fn from_corner(a: &Point, b: &Point) -> (r: BBox)
        requires
            a.valid(),
            b.valid(),
        ensures
            r == BBox::corner_box(*a, *b),
            r.wf(),
    {
        let left = if a.x <= b.x {
            a.x
        } else {
            b.x
        };
        let top = if a.y <= b.y {
            a.y
        } else {
            b.y
        };
        let width = if a.x <= b.x {
            b.x - a.x
        } else {
            a.x - b.x
        };
        let height = if a.y <= b.y {
            b.y - a.y
        } else {
            a.y - b.y
        };
        BBox { left, top, width, height }
    }

    pub fn right(&self) -> (r: i64)
        requires
            self.wf(),
        ensures
            r == self.right_edge(),
    {
        self.left + self.width
    }

    pub fn bottom(&self) -> (r: i64)
        requires
            self.wf(),
        ensures
            r == self.bottom_edge(),
    {
        self.top + self.height
    }

    /// Whether `self` lies within `bbox`.
    pub fn in_(&self, bbox: &BBox) -> (r: bool)
        requires
            self.wf(),
            bbox.wf(),
        ensures
            r == self.inside(*bbox),
    {
        self.left >= bbox.left && self.top >= bbox.top && self.right() <= bbox.right()
            && self.bottom() <= bbox.bottom()
    }

    /// Whether `point` lies within this box grown by `margin` on each side.
    pub fn contains(&self, point: &Point, margin: i64) -> (r: bool)
        ensures
            r == self.near(*point, margin as int),
    {
        let m = margin as i128;
        let x = point.x as i128;
        let y = point.y as i128;
        let right = self.left as i128 + self.width as i128;
        let bottom = self.top as i128 + self.height as i128;
        self.top as i128 <= y + m && y - m <= bottom && self.left as i128 <= x + m && x - m
            <= right
    }

    /// Grows the box by `padding` on every side.
    pub fn add_padding(&mut self, padding: i64)
        requires
            old(self).wf(),
            padding >= 0,
            old(self).can_pad(padding as int),
        ensures
            *final(self) == old(self).padded(padding as int),
            final(self).wf(),
    {
        self.left = self.left - padding;
        self.top = self.top - padding;
        self.width = self.width + padding + padding;
        self.height = self.height + padding + padding;
    }

    /// Replaces the box by the union of itself and `bbox`.
    pub fn add_bbox(&mut self, bbox: &BBox)
        requires
            old(self).wf(),
            bbox.wf(),
        ensures
            *final(self) == old(self).union(*bbox),
            final(self).wf(),
    {
        let left = if self.left <= bbox.left {
            self.left
        } else {
            bbox.left
        };
        let top = if self.top <= bbox.top {
            self.top
        } else {
            bbox.top
        };
        let right = if self.right() >= bbox.right() {
            self.right()
        } else {
            bbox.right()
        };
        let bottom = if self.bottom() >= bbox.bottom() {
            self.bottom()
        } else {
            bbox.bottom()
        };
        self.width = right - left;
        self.height = bottom - top;
        self.left = left;
        self.top = top;
    }
}

/// The box spanned by two corners does not depend on their order, and its
/// size is never negative.
pub proof fn lemma_from_corner_symmetric(a: Point, b: Point)
    requires
        a.valid(),
        b.valid(),
    ensures
        BBox::corner_box(a, b) == BBox::corner_box(b, a),
        BBox::corner_box(a, b).width >= 0,
        BBox::corner_box(a, b).height >= 0,
{
}

/// Every box lies within itself.
pub proof fn lemma_inside_reflexive(b: BBox)
    ensures
        b.inside(b),
{
}

/// Adding a box that already lies within `a` leaves `a` unchanged.
pub proof fn lemma_union_idempotent(a: BBox, b: BBox)
    requires
        a.wf(),
        b.wf(),
        b.inside(a),
    ensures
        a.union(b) == a,
{
}

/// The union holds both of its arguments, and growing an argument grows
/// the union.
pub proof fn lemma_union_monotonic(a: BBox, b: BBox, c: BBox)
    requires
        a.wf(),
        b.wf(),
        c.wf(),
        b.inside(c),
    ensures
        a.inside(a.union(b)),
        b.inside(a.union(b)),
        a.union(b).wf(),
        a.union(b).inside(a.union(c)),
{
}

} // verus!
