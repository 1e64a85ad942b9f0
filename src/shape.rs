//! Persistent shape records.

use vstd::prelude::*;
use crate::colors::{BackgroundColor, Color};
use crate::drawing::{margin_ok, Drawable, ShapeType};
use crate::geometry::{BBox, Point};
use crate::ids::Id;
use crate::version::Version;

verus! {

/// Padding between a selected shape and its selection outline, in pixels.
pub const PADDING: i64 = 5;

/// A shape of the scene. Its id never changes; every edit of its color or
/// fill moves its version forward.
#[derive(Clone, Debug)]
pub struct Shape {
    pub bbox: BBox,
    pub name: ShapeType,
    pub id: Id,
    pub version: Version,
    pub color: Color,
    pub bg_color: Option<BackgroundColor>,
}

/// A box that a shape may have: well formed, with room for the selection
/// padding around it.
pub open spec fn shape_box_ok(b: BBox) -> bool {
    b.wf() && b.can_pad(PADDING as int)
}

impl Shape {
    pub open spec fn wf(&self) -> bool {
        shape_box_ok(self.bbox)
    }

    /// The drawable that the shape's kind builds over its box.
    pub open spec fn drawable(&self) -> Drawable {
        self.name.drawable_over(self.bbox)
    }

    /// A new shape with a fresh id and version zero.
    pub fn new(
        bbox: &BBox,
        drawable: ShapeType,
        color: Color,
        bg_color: Option<BackgroundColor>,
    ) -> (r: Shape)
        ensures
            r.bbox == *bbox,
            r.name == drawable,
            r.id@.len() == 36,
            r.version.version == 0,
            r.color == color,
            r.bg_color == bg_color,
    {
        Shape {
            bbox: *bbox,
            name: drawable,
            id: Id::default(),
            version: Version::default(),
            color,
            bg_color,
        }
    }

    /// A copy of the shape, id and version included.
    pub fn copy(&self) -> (r: Shape)
        ensures
            r == *self,
    {
        Shape {
            bbox: self.bbox,
            name: self.name,
            id: self.id.copy(),
            version: self.version,
            color: self.color,
            bg_color: self.bg_color,
        }
    }

    /// Sets the stroke color and moves the version forward.
    pub fn set_color(&mut self, color: Color)
        ensures
            *final(self) == (Shape { color, version: old(self).version.next(), ..*old(self) }),
    {
        self.color = color;
        self.version.increment();
    }

    /// Sets the fill and moves the version forward.
    pub fn set_bg_color(&mut self, bg_color: Option<BackgroundColor>)
        ensures
            *final(self) == (Shape { bg_color, version: old(self).version.next(), ..*old(self) }),
    {
        self.bg_color = bg_color;
        self.version.increment();
    }

    pub fn get_id(&self) -> (r: &Id)
        ensures
            *r == self.id,
    {
        &self.id
    }

    pub fn get_version(&self) -> (r: &Version)
        ensures
            *r == self.version,
    {
        &self.version
    }

    pub fn bbox(&self) -> (r: BBox)
        ensures
            r == self.bbox,
    {
        self.bbox
    }

    pub fn get_drawable(&self) -> (r: Drawable)
        ensures
            r == self.drawable(),
    {
        self.name.get_drawable(&self.bbox)
    }

    /// Whether the shape lies within `bbox`.
    pub fn isin(&self, bbox: &BBox) -> (r: bool)
        requires
            self.wf(),
            bbox.wf(),
        ensures
            r == self.bbox.inside(*bbox),
    {
        self.get_drawable().isin(bbox)
    }

    /// Hit test of `point` with the given margin, by the shape's kind.
    pub fn contains(&self, point: &Point, margin: i64) -> (r: bool)
        requires
            self.wf(),
            margin_ok(margin as int),
        ensures
            r == self.drawable().hit(*point, margin as int),
    {
        self.get_drawable().contains(point, margin)
    }
}

impl PartialEq for Shape {
    fn eq(&self, other: &Shape) -> (r: bool) {
        self.id == other.id && self.version == other.version
    }
}

impl vstd::std_specs::cmp::PartialEqSpecImpl for Shape {
    open spec fn obeys_eq_spec() -> bool {
        true
    }

    open spec fn eq_spec(&self, other: &Shape) -> bool {
        self.id@ == other.id@ && self.version == other.version
    }
}

impl Eq for Shape {
}

/// An edit applied to every selected shape.
#[derive(Clone, Copy, Debug, PartialEq, Eq, Structural)]
pub enum ShapeEdit {
    SetColor(Color),
    SetBgColor(Option<BackgroundColor>),
}

impl ShapeEdit {
    /// The shape after the edit.
    pub open spec fn applied(self, s: Shape) -> Shape {
        match self {
            ShapeEdit::SetColor(c) => Shape { color: c, version: s.version.next(), ..s },
            ShapeEdit::SetBgColor(b) => Shape { bg_color: b, version: s.version.next(), ..s },
        }
    }

    pub fn apply(&self, shape: &mut Shape)
        ensures
            *final(shape) == self.applied(*old(shape)),
    {
        match self {
            ShapeEdit::SetColor(c) => shape.set_color(*c),
            ShapeEdit::SetBgColor(b) => shape.set_bg_color(*b),
        }
    }
}

} // verus!
