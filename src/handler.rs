//! The event controller: owns the active tool, the recognizer state, the
//! preview drawable and the shape cache, and renders the scene.

use vstd::prelude::*;
use crate::cache::{cache_entries, cached_after, drawable_from, paint_ops, CacheEntry, ShapeCache};
use crate::drawing::{DrawOp, Drawable, Selection, ShapeType};
use crate::events::{next_event, recognize, CanvasEvent, PointerKind};
use crate::geometry::{BBox, Point};
use crate::shape::{Shape, PADDING};
use crate::store::{contains_id, id_views, AppState, Shapes};
use crate::tools::{tool_step, Tool};

verus! {

/// The cache and the commands after painting `s` in order from a cache
/// holding `m`.
pub open spec fn shapes_pass(m: Map<Seq<char>, CacheEntry>, s: Seq<Shape>) -> (Map<Seq<char>, CacheEntry>, Seq<DrawOp>)
    decreases s.len(),
{
    if s.len() == 0 {
        (m, Seq::empty())
    } else {
        let (m1, ops1) = shapes_pass(m, s.drop_last());
        (cached_after(m1, s.last()), ops1 + paint_ops(drawable_from(m1, s.last()), s.last()))
    }
}

/// The padded boxes of the selected shapes, in z-order.
pub open spec fn selection_boxes(s: Seq<Shape>, sel: Seq<Seq<char>>) -> Seq<BBox>
    decreases s.len(),
{
    if s.len() == 0 {
        Seq::empty()
    } else {
        let r = selection_boxes(s.drop_last(), sel);
        if sel.contains(s.last().id@) {
            r.push(s.last().bbox.padded(PADDING as int))
        } else {
            r
        }
    }
}

/// The commands that outline each box as a selection.
pub open spec fn selection_ops(boxes: Seq<BBox>) -> Seq<DrawOp>
    decreases boxes.len(),
{
    if boxes.len() == 0 {
        Seq::empty()
    } else {
        selection_ops(boxes.drop_last()) + ShapeType::Selection.drawable_over(boxes.last()).ops()
    }
}

/// The union of a non-empty list of boxes.
pub open spec fn union_all(boxes: Seq<BBox>) -> BBox
    decreases boxes.len(),
{
    if boxes.len() <= 1 {
        boxes[0]
    } else {
        union_all(boxes.drop_last()).union(boxes.last())
    }
}

/// The group frame around all selected shapes, if any is selected.
pub open spec fn frame_ops(boxes: Seq<BBox>) -> Seq<DrawOp> {
    if boxes.len() == 0 {
        Seq::empty()
    } else {
        ShapeType::Selection.drawable_over(union_all(boxes)).ops()
    }
}

pub open spec fn preview_ops(p: Option<Drawable>) -> Seq<DrawOp> {
    match p {
        Some(d) => d.outline_ops(),
        None => Seq::empty(),
    }
}

/// The commands of one redraw: clear, the shapes in z-order, the outline of
/// each selected shape, the group frame, and the preview on top.
pub open spec fn render_ops(m: Map<Seq<char>, CacheEntry>, shapes: Shapes, preview: Option<Drawable>) -> Seq<DrawOp> {
    let boxes = selection_boxes(shapes.shapes@, id_views(shapes.selected_shapes@));
    seq![DrawOp::Clear] + shapes_pass(m, shapes.shapes@).1 + selection_ops(boxes) + frame_ops(boxes)
        + preview_ops(preview)
}

/// Distinct shapes of the list have distinct ids.
pub open spec fn ids_distinct(s: Seq<Shape>) -> bool {
    forall|i: int, j: int| 0 <= i < s.len() && 0 <= j < s.len() && i != j ==> s[i].id@ != s[j].id@
}

/// After a redraw, the cache holds every shape of the scene at its current
/// version, when no two shapes share an id.
pub proof fn lemma_redraw_caches_current(m: Map<Seq<char>, CacheEntry>, s: Seq<Shape>)
    requires
        ids_distinct(s),
    ensures
        forall|i: int|
            0 <= i < s.len() ==> shapes_pass(m, s).0.contains_key(#[trigger] s[i].id@)
                && shapes_pass(m, s).0[s[i].id@].version == s[i].version,
    decreases s.len(),
{
    if s.len() > 0 {
        let p = s.drop_last();
        assert(ids_distinct(p));
        lemma_redraw_caches_current(m, p);
        let m1 = shapes_pass(m, p).0;
        assert forall|i: int| 0 <= i < s.len() implies shapes_pass(m, s).0.contains_key(#[trigger] s[i].id@)
            && shapes_pass(m, s).0[s[i].id@].version == s[i].version by {
            if i < s.len() - 1 {
                assert(p[i] == s[i]);
                assert(s[i].id@ != s.last().id@);
            }
        }
    }
}

/// The event controller of the canvas.
pub struct EventHandler {
    pub tool: Tool,
    pub event: Option<CanvasEvent>,
    pub shape: Option<Drawable>,
    pub shape_cache: ShapeCache,
}

impl EventHandler {
    /// The last event is valid.
    pub open spec fn wf(&self) -> bool {
        self.event.is_some() ==> self.event->0.valid()
    }

    pub fn new() -> (r: EventHandler)
        ensures
            r.wf(),
            r.tool == Tool::Select,
            r.event.is_none(),
            r.shape.is_none(),
            cache_entries(r.shape_cache).dom() == Set::<Seq<char>>::empty(),
    {
        EventHandler { tool: Tool::Select, event: None, shape: None, shape_cache: ShapeCache::new() }
    }

    /// Switches to `tool`: the outgoing tool sees `DeselectTool`, the new
    /// one `SelectTool`. Nothing happens when `tool` is already active.
    pub fn set_tool(&mut self, app: &mut AppState, tool: Tool)
        requires
            old(app).wf(),
        ensures
            final(app).wf(),
            final(self).tool == tool,
            final(self).event == old(self).event,
            old(self).tool == tool ==> *final(app) == *old(app) && final(self).shape == old(self).shape,
            old(self).tool != tool ==> exists|mid: AppState, p: Option<Drawable>, c1: bool, c2: bool|
                #[trigger] tool_step(old(self).tool, CanvasEvent::DeselectTool, *old(app), mid, old(self).shape, p, c1)
                    && #[trigger] tool_step(tool, CanvasEvent::SelectTool, mid, *final(app), p, final(self).shape, c2),
    {
        if self.tool != tool {
            let ghost a0 = *app;
            let ghost p0 = self.shape;
            let c1 = self.tool.handle_event(&CanvasEvent::DeselectTool, &mut self.shape, app);
            let ghost mid = *app;
            let ghost p1 = self.shape;
            self.tool = tool;
            let c2 = self.tool.handle_event(&CanvasEvent::SelectTool, &mut self.shape, app);
            assert(tool_step(tool, CanvasEvent::SelectTool, mid, *app, p1, self.shape, c2));
        }
    }

    /// Hands a key press to the active tool. Returns whether it changed
    /// anything. The gesture state is left as it was, so a drag goes on
    /// across key presses.
    pub fn handle_keyboard_event(&mut self, app: &mut AppState, key: String) -> (changed: bool)
        requires
            old(app).wf(),
            old(self).wf(),
        ensures
            final(app).wf(),
            final(self).wf(),
            final(self).tool == old(self).tool,
            final(self).event == old(self).event,
            tool_step(old(self).tool, CanvasEvent::KeyPress(key), *old(app), *final(app), old(self).shape, final(self).shape, changed),
    {
        let event = CanvasEvent::KeyPress(key);
        self.tool.handle_event(&event, &mut self.shape, app)
    }

    /// Lifts a pointer event at `position` into a canvas event and hands it
    /// to the active tool. Returns whether the tool changed anything.
    pub fn handle_ptr_event(&mut self, app: &mut AppState, kind: PointerKind, position: Point) -> (changed: bool)
        requires
            old(app).wf(),
            old(self).wf(),
            position.valid(),
        ensures
            final(app).wf(),
            final(self).wf(),
            final(self).tool == old(self).tool,
            final(self).event == next_event(old(self).event, kind, position),
            match next_event(old(self).event, kind, position) {
                Some(e) => tool_step(old(self).tool, e, *old(app), *final(app), old(self).shape, final(self).shape, changed),
                None => !changed && *final(app) == *old(app) && final(self).shape == old(self).shape,
            },
    {
        let canvas_event = recognize(&self.event, kind, position);
        let changed = match &canvas_event {
            Some(e) => self.tool.handle_event(e, &mut self.shape, app),
            None => false,
        };
        self.event = canvas_event;
        changed
    }

    /// The commands that redraw `shapes` and the preview, refreshing the
    /// cache on the way.
    pub fn refresh_canvas(&mut self, shapes: &Shapes) -> (ops: Vec<DrawOp>)
        requires
            shapes.wf(),
        ensures
            ops@ == render_ops(cache_entries(old(self).shape_cache), *shapes, old(self).shape),
            cache_entries(final(self).shape_cache) == shapes_pass(cache_entries(old(self).shape_cache), shapes.shapes@).0,
            final(self).tool == old(self).tool,
            final(self).event == old(self).event,
            final(self).shape == old(self).shape,
    {
        let ghost m0 = cache_entries(self.shape_cache);
        let ghost all = shapes.shapes@;
        let ghost sel = id_views(shapes.selected_shapes@);
        let mut ops: Vec<DrawOp> = Vec::new();
        ops.push(DrawOp::Clear);
        let mut boxes: Vec<BBox> = Vec::new();
        let mut i: usize = 0;
        while i < shapes.shapes.len()
            invariant
                i <= all.len(),
                all == shapes.shapes@,
                sel == id_views(shapes.selected_shapes@),
                shapes.wf(),
                cache_entries(self.shape_cache) == shapes_pass(m0, all.take(i as int)).0,
                ops@ == seq![DrawOp::Clear] + shapes_pass(m0, all.take(i as int)).1,
                boxes@ == selection_boxes(all.take(i as int), sel),
                forall|k: int| 0 <= k < boxes@.len() ==> (#[trigger] boxes@[k]).wf(),
                self.tool == old(self).tool,
                self.event == old(self).event,
                self.shape == old(self).shape,
            decreases all.len() - i,
        {
            let shape = &shapes.shapes[i];
            proof {
                assert(all.take(i + 1).drop_last() == all.take(i as int));
                assert(all.take(i + 1).last() == all[i as int]);
                assert(all[i as int].wf());
            }
            self.shape_cache.draw_from_cache(shape, &mut ops);
            if contains_id(&shapes.selected_shapes, &shape.id) {
                let mut padded = shape.bbox();
                padded.add_padding(PADDING);
                boxes.push(padded);
            }
            proof {
                assert(ops@ == seq![DrawOp::Clear] + shapes_pass(m0, all.take(i + 1)).1);
            }
            i = i + 1;
        }
        assert(all.take(all.len() as int) == all);
        let ghost base = ops@;
        let mut j: usize = 0;
        while j < boxes.len()
            invariant
                j <= boxes@.len(),
                ops@ == base + selection_ops(boxes@.take(j as int)),
            decreases boxes@.len() - j,
        {
            proof {
                assert(boxes@.take(j + 1).drop_last() == boxes@.take(j as int));
            }
            Selection::new(&boxes[j]).draw(&mut ops);
            proof {
                assert(ops@ == base + selection_ops(boxes@.take(j + 1)));
            }
            j = j + 1;
        }
        assert(boxes@.take(boxes@.len() as int) == boxes@);
        let ghost base2 = ops@;
        if boxes.len() > 0 {
            let mut group = boxes[0];
            let mut k: usize = 1;
            proof {
                assert(boxes@.take(1).len() == 1);
            }
            while k < boxes.len()
                invariant
                    1 <= k <= boxes@.len(),
                    forall|q: int| 0 <= q < boxes@.len() ==> (#[trigger] boxes@[q]).wf(),
                    group == union_all(boxes@.take(k as int)),
                    group.wf(),
                decreases boxes@.len() - k,
            {
                proof {
                    assert(boxes@.take(k + 1).drop_last() == boxes@.take(k as int));
                    assert(boxes@[k as int].wf());
                }
                group.add_bbox(&boxes[k]);
                k = k + 1;
            }
            Selection::new(&group).draw(&mut ops);
        }
        match &self.shape {
            Some(d) => d.outline(&mut ops),
            None => {},
        }
        proof {
            let boxes_v = selection_boxes(all, sel);
            assert(ops@ =~= seq![DrawOp::Clear] + shapes_pass(m0, all).1 + selection_ops(boxes_v) + frame_ops(boxes_v)
                + preview_ops(old(self).shape));
        }
        ops
    }
}

} // verus!
