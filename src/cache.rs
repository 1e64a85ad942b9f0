//! Drawables cached per shape, keyed by id and checked by version.

use vstd::prelude::*;
use crate::drawing::{DrawOp, Drawable};
use crate::shape::Shape;
use crate::version::Version;

verus! {

/// Line width of shape strokes, in tenths of a pixel.
pub const SHAPE_LINE_WIDTH: u32 = 15;

/// A cached drawable and the shape version that it was built from.
#[derive(Clone, Copy, Debug, PartialEq, Eq, Structural)]
pub struct CacheEntry {
    pub version: Version,
    pub drawable: Drawable,
}

/// A map from shape id to the drawable built for it, held in a
/// `hashbrown::HashMap` keyed by the id's text.
#[verifier::external_body]
pub struct ShapeCache {
    map: hashbrown::HashMap<String, CacheEntry>,
}

/// What the cache holds.
pub uninterp spec fn cache_entries(c: ShapeCache) -> Map<Seq<char>, CacheEntry>;

/// The cache after drawing `s`: unchanged when it holds an entry for the
/// shape's id at the shape's version, else with a fresh entry for it.
pub open spec fn cached_after(m: Map<Seq<char>, CacheEntry>, s: Shape) -> Map<Seq<char>, CacheEntry> {
    if m.contains_key(s.id@) && m[s.id@].version == s.version {
        m
    } else {
        m.insert(s.id@, CacheEntry { version: s.version, drawable: s.drawable() })
    }
}

/// The drawable used to draw `s` from a cache holding `m`.
pub open spec fn drawable_from(m: Map<Seq<char>, CacheEntry>, s: Shape) -> Drawable {
    cached_after(m, s)[s.id@].drawable
}

/// The commands that paint shape `s` through drawable `d`: an optional fill
/// in the shape's fill color, then a stroke in its color.
pub open spec fn paint_ops(d: Drawable, s: Shape) -> Seq<DrawOp> {
    let fill = match s.bg_color {
        Some(c) => seq![DrawOp::FillColor(c)] + d.ops() + seq![DrawOp::Fill],
        None => Seq::empty(),
    };
    fill + seq![DrawOp::StrokeColor(s.color), DrawOp::LineWidth(SHAPE_LINE_WIDTH)] + d.ops()
        + seq![DrawOp::Stroke]
}

impl ShapeCache {
    /// Relies on hashbrown::HashMap::new: a new map is empty.
    #[verifier::external_body]
    pub fn new() -> (r: ShapeCache)
        ensures
            cache_entries(r).dom() == Set::<Seq<char>>::empty(),
    {
        ShapeCache { map: hashbrown::HashMap::new() }
    }

    /// Relies on hashbrown::HashMap::get: the value stored under the key,
    /// if any.
    #[verifier::external_body]
    fn lookup(&self, key: &str) -> (r: Option<CacheEntry>)
        ensures
            r == (if cache_entries(*self).contains_key(key@) {
                Some(cache_entries(*self)[key@])
            } else {
                None
            }),
    {
        self.map.get(key).copied()
    }

    /// Relies on hashbrown::HashMap::insert: afterwards the key maps to the
    /// value and every other key keeps its value.
    #[verifier::external_body]
    fn store(&mut self, key: String, entry: CacheEntry)
        ensures
            cache_entries(*final(self)) == cache_entries(*old(self)).insert(key@, entry),
    {
        self.map.insert(key, entry);
    }

    /// The cached entry for a shape id, if any.
    pub fn get(&self, id: &str) -> (r: Option<CacheEntry>)
        ensures
            r == (if cache_entries(*self).contains_key(id@) {
                Some(cache_entries(*self)[id@])
            } else {
                None
            }),
    {
        self.lookup(id)
    }

    /// Paints `shape`, reusing the cached drawable when it was built at the
    /// shape's current version and rebuilding it otherwise.
    pub fn draw_from_cache(&mut self, shape: &Shape, ops: &mut Vec<DrawOp>)
        ensures
            cache_entries(*final(self)) == cached_after(cache_entries(*old(self)), *shape),
            final(ops)@ == old(ops)@ + paint_ops(
                drawable_from(cache_entries(*old(self)), *shape),
                *shape,
            ),
    {
        let drawable = match self.lookup(shape.id.as_str()) {
            Some(entry) if entry.version == shape.version => entry.drawable,
            _ => {
                let d = shape.get_drawable();
                self.store(shape.id.0.clone(), CacheEntry { version: shape.version, drawable: d });
                d
            },
        };
        if let Some(color) = shape.bg_color {
            ops.push(DrawOp::FillColor(color));
            drawable.draw(ops);
            ops.push(DrawOp::Fill);
        }
        ops.push(DrawOp::StrokeColor(shape.color));
        ops.push(DrawOp::LineWidth(SHAPE_LINE_WIDTH));
        drawable.draw(ops);
        ops.push(DrawOp::Stroke);
    }
}

/// After a shape is drawn, the cache holds an entry for its id at its
/// version.
pub proof fn lemma_drawn_shape_is_current(m: Map<Seq<char>, CacheEntry>, s: Shape)
    ensures
        cached_after(m, s).contains_key(s.id@),
        cached_after(m, s)[s.id@].version == s.version,
{
}

} // verus!
