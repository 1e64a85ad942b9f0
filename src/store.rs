//! The scene store: shapes, selection, current tool, colors and cursor,
//! with a version that moves forward on every mutation.

use vstd::prelude::*;
use crate::colors::{BackgroundColor, Color};
use crate::ids::Id;
use crate::geometry::BBOX_LIMIT;
use crate::shape::{Shape, ShapeEdit, PADDING};
use crate::tools::Tool;
use crate::version::Version;

verus! {

/// The texts of a list of ids.
pub open spec fn id_views(ids: Seq<Id>) -> Seq<Seq<char>> {
    ids.map_values(|i: Id| i@)
}

/// Some shape of `shapes` has the id `k`.
pub open spec fn has_shape(shapes: Seq<Shape>, k: Seq<char>) -> bool {
    exists|j: int| 0 <= j < shapes.len() && (#[trigger] shapes[j]).id@ == k
}

/// Keeps the shapes whose id is not listed in `ids`.
pub open spec fn shape_kept(ids: Seq<Seq<char>>) -> spec_fn(Shape) -> bool {
    |s: Shape| !ids.contains(s.id@)
}

/// Keeps the ids that are not listed in `ids`.
pub open spec fn id_kept(ids: Seq<Seq<char>>) -> spec_fn(Id) -> bool {
    |i: Id| !ids.contains(i@)
}

/// The shape `s` after `edit` when its id is selected.
pub open spec fn edited(selected: Seq<Seq<char>>, edit: ShapeEdit, s: Shape) -> Shape {
    if selected.contains(s.id@) {
        edit.applied(s)
    } else {
        s
    }
}

/// Whether `id` is listed in `ids`.
pub fn contains_id(ids: &Vec<Id>, id: &Id) -> (r: bool)
    ensures
        r == id_views(ids@).contains(id@),
{
    let mut i: usize = 0;
    while i < ids.len()
        invariant
            i <= ids.len(),
            forall|j: int| 0 <= j < i ==> ids@[j]@ != id@,
        decreases ids.len() - i,
    {
        if ids[i] == *id {
            assert(id_views(ids@)[i as int] == id@);
            return true;
        }
        i = i + 1;
    }
    assert forall|j: int| 0 <= j < id_views(ids@).len() implies id_views(ids@)[j] != id@ by {}
    false
}

/// The shapes in z-order (first drawn first), the ids of the selected
/// shapes, and the scene version.
#[derive(Clone, Debug)]
pub struct Shapes {
    pub shapes: Vec<Shape>,
    pub selected_shapes: Vec<Id>,
    pub version: Version,
}

impl Shapes {
    /// Every selected id belongs to a shape of the scene, and every shape
    /// is well formed.
    pub open spec fn wf(&self) -> bool {
        &&& forall|i: int|
            0 <= i < self.selected_shapes@.len() ==> has_shape(
                self.shapes@,
                (#[trigger] self.selected_shapes@[i])@,
            )
        &&& forall|j: int| 0 <= j < self.shapes@.len() ==> (#[trigger] self.shapes@[j]).wf()
    }

    /// Whether the scene is well formed; state loaded from storage is
    /// checked with this before use.
    pub fn check(&self) -> (r: bool)
        ensures
            r == self.wf(),
    {
        let mut j: usize = 0;
        while j < self.shapes.len()
            invariant
                j <= self.shapes@.len(),
                forall|q: int| 0 <= q < j ==> (#[trigger] self.shapes@[q]).wf(),
            decreases self.shapes@.len() - j,
        {
            let b = self.shapes[j].bbox;
            let ok = b.width >= 0 && b.height >= 0 && -BBOX_LIMIT + PADDING <= b.left
                && b.left <= BBOX_LIMIT && -BBOX_LIMIT + PADDING <= b.top && b.top <= BBOX_LIMIT
                && b.width <= BBOX_LIMIT - PADDING - b.left && b.height <= BBOX_LIMIT - PADDING
                - b.top;
            if !ok {
                assert(!self.shapes@[j as int].wf());
                return false;
            }
            j = j + 1;
        }
        let mut i: usize = 0;
        while i < self.selected_shapes.len()
            invariant
                i <= self.selected_shapes@.len(),
                forall|q: int| 0 <= q < self.shapes@.len() ==> (#[trigger] self.shapes@[q]).wf(),
                forall|q: int|
                    0 <= q < i ==> has_shape(self.shapes@, (#[trigger] self.selected_shapes@[q])@),
            decreases self.selected_shapes@.len() - i,
        {
            let id = &self.selected_shapes[i];
            let mut found = false;
            let mut k: usize = 0;
            while k < self.shapes.len()
                invariant
                    k <= self.shapes@.len(),
                    found ==> has_shape(self.shapes@, id@),
                    !found ==> forall|q: int| 0 <= q < k ==> (#[trigger] self.shapes@[q]).id@ != id@,
                decreases self.shapes@.len() - k,
            {
                if self.shapes[k].id == *id {
                    found = true;
                }
                k = k + 1;
            }
            if !found {
                return false;
            }
            i = i + 1;
        }
        true
    }

    /// An empty scene at version zero.
    pub fn new() -> (r: Shapes)
        ensures
            r.shapes@.len() == 0,
            r.selected_shapes@.len() == 0,
            r.version.version == 0,
            r.wf(),
    {
        Shapes { shapes: Vec::new(), selected_shapes: Vec::new(), version: Version::default() }
    }
}

/// The current tool.
#[derive(Clone, Copy, Debug, PartialEq, Eq, Structural)]
pub struct Tools {
    pub tool: Tool,
}

/// The whole scene state.
#[derive(Clone, Debug)]
pub struct AppState {
    pub shapes: Shapes,
    pub tools: Tools,
    pub pointer: String,
    pub color: Color,
    pub bg_color: Option<BackgroundColor>,
}

impl AppState {
    pub open spec fn wf(&self) -> bool {
        self.shapes.wf()
    }

    /// The same state, with another version.
    pub open spec fn with_version(self, v: Version) -> AppState {
        AppState { shapes: Shapes { version: v, ..self.shapes }, ..self }
    }

    /// An empty scene: select tool, black stroke, no fill, default cursor.
    pub fn new() -> (r: AppState)
        ensures
            r.wf(),
            r.shapes.shapes@.len() == 0,
            r.shapes.selected_shapes@.len() == 0,
            r.shapes.version.version == 0,
            r.tools.tool == Tool::Select,
            r.color == Color::Black,
            r.bg_color.is_none(),
            r.pointer@ == "default"@,
    {
        AppState {
            shapes: Shapes::new(),
            tools: Tools { tool: Tool::Select },
            pointer: "default".to_owned(),
            color: Color::Black,
            bg_color: None,
        }
    }

    pub fn version(&self) -> (r: Version)
        ensures
            r == self.shapes.version,
    {
        self.shapes.version
    }

    pub fn get_pointer(&self) -> (r: &str)
        ensures
            r@ == self.pointer@,
    {
        self.pointer.as_str()
    }

    /// Sets the cursor hint.
    pub fn set_pointer(&mut self, pointer: &str)
        ensures
            final(self).pointer@ == pointer@,
            final(self).shapes == (Shapes { version: old(self).shapes.version.next(), ..old(self).shapes }),
            final(self).tools == old(self).tools,
            final(self).color == old(self).color,
            final(self).bg_color == old(self).bg_color,
    {
        self.pointer = pointer.to_owned();
        self.shapes.version.increment();
    }

    pub fn get_tool(&self) -> (r: Tool)
        ensures
            r == self.tools.tool,
    {
        self.tools.tool
    }

    /// Sets the current tool.
    pub fn set_tool(&mut self, tool: Tool)
        ensures
            *final(self) == (AppState { tools: Tools { tool }, ..old(self).with_version(old(self).shapes.version.next()) }),
    {
        self.tools.tool = tool;
        self.shapes.version.increment();
    }

    pub fn get_color(&self) -> (r: Color)
        ensures
            r == self.color,
    {
        self.color
    }

    /// Sets the stroke color for new shapes.
    pub fn set_color(&mut self, color: Color)
        ensures
            *final(self) == (AppState { color, ..old(self).with_version(old(self).shapes.version.next()) }),
    {
        self.color = color;
        self.shapes.version.increment();
    }

    pub fn get_bg_color(&self) -> (r: Option<BackgroundColor>)
        ensures
            r == self.bg_color,
    {
        self.bg_color
    }

    /// Sets the fill color for new shapes.
    pub fn set_bg_color(&mut self, bg_color: Option<BackgroundColor>)
        ensures
            *final(self) == (AppState { bg_color, ..old(self).with_version(old(self).shapes.version.next()) }),
    {
        self.bg_color = bg_color;
        self.shapes.version.increment();
    }

    pub fn get_shapes(&self) -> (r: &Shapes)
        ensures
            *r == self.shapes,
    {
        &self.shapes
    }

    pub fn get_selected(&self) -> (r: &[Id])
        ensures
            r@ == self.shapes.selected_shapes@,
    {
        self.shapes.selected_shapes.as_slice()
    }

    /// Replaces the selection by `new_shapes`, whose ids all belong to
    /// shapes of the scene.
    pub fn replace_selected(&mut self, new_shapes: Vec<Id>)
        requires
            old(self).wf(),
            forall|i: int|
                0 <= i < new_shapes@.len() ==> has_shape(
                    old(self).shapes.shapes@,
                    (#[trigger] new_shapes@[i])@,
                ),
        ensures
            final(self).wf(),
            final(self).shapes.selected_shapes@ == new_shapes@,
            final(self).shapes.shapes@ == old(self).shapes.shapes@,
            final(self).shapes.version == old(self).shapes.version.next(),
            final(self).tools == old(self).tools,
            final(self).pointer == old(self).pointer,
            final(self).color == old(self).color,
            final(self).bg_color == old(self).bg_color,
    {
        self.shapes.selected_shapes = new_shapes;
        self.shapes.version.increment();
    }

    /// Removes every shape whose id is listed in `shapes`, and those ids
    /// from the selection.
    pub fn remove_shapes(&mut self, shapes: Vec<Id>)
        requires
            old(self).wf(),
        ensures
            final(self).wf(),
            final(self).shapes.shapes@ == old(self).shapes.shapes@.filter(
                shape_kept(id_views(shapes@)),
            ),
            final(self).shapes.selected_shapes@ == old(self).shapes.selected_shapes@.filter(
                id_kept(id_views(shapes@)),
            ),
            final(self).shapes.version == old(self).shapes.version.next(),
            final(self).tools == old(self).tools,
            final(self).pointer == old(self).pointer,
            final(self).color == old(self).color,
            final(self).bg_color == old(self).bg_color,
    {
        let ghost ids = id_views(shapes@);
        let ghost old_shapes = self.shapes.shapes@;
        let ghost old_selected = self.shapes.selected_shapes@;
        let mut kept: Vec<Shape> = Vec::new();
        let mut i: usize = 0;
        while i < self.shapes.shapes.len()
            invariant
                i <= self.shapes.shapes@.len(),
                self.shapes.shapes@ == old_shapes,
                ids == id_views(shapes@),
                kept@ == old_shapes.take(i as int).filter(shape_kept(ids)),
            decreases self.shapes.shapes@.len() - i,
        {
            let s = &self.shapes.shapes[i];
            proof {
                reveal(Seq::filter);
                assert(old_shapes.take(i + 1).drop_last() == old_shapes.take(i as int));
            }
            if !contains_id(&shapes, &s.id) {
                kept.push(s.copy());
            }
            i = i + 1;
        }
        assert(old_shapes.take(old_shapes.len() as int) == old_shapes);
        let mut sel: Vec<Id> = Vec::new();
        let mut k: usize = 0;
        while k < self.shapes.selected_shapes.len()
            invariant
                k <= self.shapes.selected_shapes@.len(),
                self.shapes.selected_shapes@ == old_selected,
                ids == id_views(shapes@),
                sel@ == old_selected.take(k as int).filter(id_kept(ids)),
            decreases self.shapes.selected_shapes@.len() - k,
        {
            let id = &self.shapes.selected_shapes[k];
            proof {
                reveal(Seq::filter);
                assert(old_selected.take(k + 1).drop_last() == old_selected.take(k as int));
            }
            if !contains_id(&shapes, id) {
                sel.push(id.copy());
            }
            k = k + 1;
        }
        assert(old_selected.take(old_selected.len() as int) == old_selected);
        self.shapes.shapes = kept;
        self.shapes.selected_shapes = sel;
        self.shapes.version.increment();
        proof {
            let ns = self.shapes.shapes@;
            let nsel = self.shapes.selected_shapes@;
            assert forall|i: int| 0 <= i < nsel.len() implies has_shape(ns, (#[trigger] nsel[i])@) by {
                let x = nsel[i];
                assert(nsel.contains(x));
                old_selected.lemma_filter_contains_rev(id_kept(ids), x);
                old_selected.lemma_filter_pred(id_kept(ids), i);
                let j = choose|j: int| 0 <= j < old_selected.len() && old_selected[j] == x;
                assert(has_shape(old_shapes, old_selected[j]@));
                let q = choose|q: int| 0 <= q < old_shapes.len() && (#[trigger] old_shapes[q]).id@ == x@;
                old_shapes.lemma_filter_contains(shape_kept(ids), q);
                assert(ns.contains(old_shapes[q]));
                let r = choose|r: int| 0 <= r < ns.len() && ns[r] == old_shapes[q];
                assert(ns[r].id@ == x@);
            }
            assert forall|j: int| 0 <= j < ns.len() implies (#[trigger] ns[j]).wf() by {
                assert(ns.contains(ns[j]));
                old_shapes.lemma_filter_contains_rev(shape_kept(ids), ns[j]);
                let q = choose|q: int| 0 <= q < old_shapes.len() && old_shapes[q] == ns[j];
                assert(old_shapes[q].wf());
            }
        }
    }

    /// Appends a shape on top of the scene.
    pub fn add_shape(&mut self, shape: Shape)
        requires
            old(self).wf(),
            shape.wf(),
        ensures
            final(self).wf(),
            final(self).shapes.shapes@ == old(self).shapes.shapes@.push(shape),
            final(self).shapes.selected_shapes@ == old(self).shapes.selected_shapes@,
            final(self).shapes.version == old(self).shapes.version.next(),
            final(self).tools == old(self).tools,
            final(self).pointer == old(self).pointer,
            final(self).color == old(self).color,
            final(self).bg_color == old(self).bg_color,
    {
        let ghost old_shapes = self.shapes.shapes@;
        self.shapes.shapes.push(shape);
        self.shapes.version.increment();
        proof {
            let ns = self.shapes.shapes@;
            let sel = self.shapes.selected_shapes@;
            assert forall|i: int| 0 <= i < sel.len() implies has_shape(ns, (#[trigger] sel[i])@) by {
                let q = choose|q: int| 0 <= q < old_shapes.len() && (#[trigger] old_shapes[q]).id@ == sel[i]@;
                assert(ns[q] == old_shapes[q]);
            }
        }
    }

    /// Moves the version forward with no other change, to ask for a redraw.
    pub fn set_redraw(&mut self)
        ensures
            *final(self) == old(self).with_version(old(self).shapes.version.next()),
    {
        self.shapes.version.increment();
    }

    /// Applies `edit` to every selected shape.
    pub fn modify_selected(&mut self, edit: ShapeEdit)
        requires
            old(self).wf(),
        ensures
            final(self).wf(),
            final(self).shapes.shapes@.len() == old(self).shapes.shapes@.len(),
            forall|j: int|
                0 <= j < old(self).shapes.shapes@.len() ==> #[trigger] final(self).shapes.shapes@[j]
                    == edited(id_views(old(self).shapes.selected_shapes@), edit, old(self).shapes.shapes@[j]),
            final(self).shapes.selected_shapes@ == old(self).shapes.selected_shapes@,
            final(self).shapes.version == old(self).shapes.version.next(),
            final(self).tools == old(self).tools,
            final(self).pointer == old(self).pointer,
            final(self).color == old(self).color,
            final(self).bg_color == old(self).bg_color,
    {
        let ghost old_shapes = self.shapes.shapes@;
        let ghost sel = id_views(self.shapes.selected_shapes@);
        let mut i: usize = 0;
        while i < self.shapes.shapes.len()
            invariant
                i <= self.shapes.shapes@.len(),
                self.shapes.shapes@.len() == old_shapes.len(),
                sel == id_views(self.shapes.selected_shapes@),
                self.shapes.selected_shapes@ == old(self).shapes.selected_shapes@,
                self.shapes.version == old(self).shapes.version,
                self.tools == old(self).tools,
                self.pointer == old(self).pointer,
                self.color == old(self).color,
                self.bg_color == old(self).bg_color,
                forall|j: int| 0 <= j < i ==> #[trigger] self.shapes.shapes@[j] == edited(sel, edit, old_shapes[j]),
                forall|j: int| i <= j < old_shapes.len() ==> #[trigger] self.shapes.shapes@[j] == old_shapes[j],
            decreases old_shapes.len() - i,
        {
            if contains_id(&self.shapes.selected_shapes, &self.shapes.shapes[i].id) {
                let mut s = self.shapes.shapes[i].copy();
                edit.apply(&mut s);
                self.shapes.shapes.set(i, s);
            }
            i = i + 1;
        }
        self.shapes.version.increment();
        proof {
            let ns = self.shapes.shapes@;
            let osel = self.shapes.selected_shapes@;
            assert forall|i: int| 0 <= i < osel.len() implies has_shape(ns, (#[trigger] osel[i])@) by {
                let q = choose|q: int| 0 <= q < old_shapes.len() && (#[trigger] old_shapes[q]).id@ == osel[i]@;
                assert(ns[q] == edited(sel, edit, old_shapes[q]));
            }
            assert forall|j: int| 0 <= j < ns.len() implies (#[trigger] ns[j]).wf() by {
                assert(ns[j] == edited(sel, edit, old_shapes[j]));
            }
        }
    }
}

} // verus!
