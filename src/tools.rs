//! The tools and their reaction to canvas events.

use vstd::prelude::*;
use crate::drawing::{margin_ok, Drawable, Ellipse, Rectangle, Selection, ShapeType};
use crate::events::CanvasEvent;
use crate::geometry::{BBox, Point};
use crate::ids::Id;
use crate::shape::{shape_box_ok, Shape};
use crate::store::{has_shape, id_kept, id_views, shape_kept, AppState, Shapes};

verus! {

/// The shapes whose box lies within `b`.
pub open spec fn inside_pred(b: BBox) -> spec_fn(Shape) -> bool {
    |s: Shape| s.bbox.inside(b)
}

/// The shapes that the eraser hits at `p`.
pub open spec fn hit_pred(p: Point) -> spec_fn(Shape) -> bool {
    |s: Shape| s.drawable().hit(p, Erase::MARGIN as int)
}

/// The ids of a list of shapes.
pub open spec fn ids_of(shapes: Seq<Shape>) -> Seq<Seq<char>> {
    shapes.map_values(|s: Shape| s.id@)
}

/// Tool, cursor and colors are the same in both states.
pub open spec fn settings_kept(a0: AppState, a1: AppState) -> bool {
    &&& a1.tools == a0.tools
    &&& a1.pointer == a0.pointer
    &&& a1.color == a0.color
    &&& a1.bg_color == a0.bg_color
}

/// The state and preview are left as they were, and the event is inert.
pub open spec fn inert(a0: AppState, a1: AppState, p0: Option<Drawable>, p1: Option<Drawable>, changed: bool) -> bool {
    !changed && a1 == a0 && p1 == p0
}

/// A box spanned by two valid points can be the box of a shape.
pub proof fn lemma_corner_box_fits(a: Point, b: Point)
    requires
        a.valid(),
        b.valid(),
    ensures
        shape_box_ok(BBox::corner_box(a, b)),
{
}

/// A copy of a list of ids.
fn copy_ids(ids: &[Id]) -> (r: Vec<Id>)
    ensures
        r@ == ids@,
{
    let mut r: Vec<Id> = Vec::new();
    let mut i: usize = 0;
    while i < ids.len()
        invariant
            i <= ids@.len(),
            r@ == ids@.take(i as int),
        decreases ids@.len() - i,
    {
        r.push(ids[i].copy());
        assert(ids@.take(i + 1) == ids@.take(i as int).push(ids@[i as int]));
        i = i + 1;
    }
    assert(ids@.take(ids@.len() as int) == ids@);
    r
}

/// The selection tool: rubber-band selection and deletion.
#[derive(Clone, Copy, Debug, PartialEq, Eq, Structural)]
pub struct Select;

/// What the selection tool does with `e`.
pub open spec fn select_step(
    e: CanvasEvent,
    a0: AppState,
    a1: AppState,
    p0: Option<Drawable>,
    p1: Option<Drawable>,
    changed: bool,
) -> bool {
    match e {
        CanvasEvent::PointerEventStart(_) => {
            &&& changed
            &&& p1.is_none()
            &&& a1.shapes.shapes@ == a0.shapes.shapes@
            &&& a1.shapes.selected_shapes@.len() == 0
            &&& a1.shapes.version == a0.shapes.version.next()
            &&& settings_kept(a0, a1)
        },
        CanvasEvent::DragMove(s, t) => {
            let b = BBox::corner_box(s, t);
            &&& changed
            &&& p1 == Some(ShapeType::Selection.drawable_over(b))
            &&& a1.shapes.shapes@ == a0.shapes.shapes@
            &&& id_views(a1.shapes.selected_shapes@) == ids_of(a0.shapes.shapes@.filter(inside_pred(b)))
            &&& a1.shapes.version == a0.shapes.version.next()
            &&& settings_kept(a0, a1)
        },
        CanvasEvent::DragEnd(s, t) => {
            let b = BBox::corner_box(s, t);
            &&& changed
            &&& p1.is_none()
            &&& a1.shapes.shapes@ == a0.shapes.shapes@
            &&& id_views(a1.shapes.selected_shapes@) == ids_of(a0.shapes.shapes@.filter(inside_pred(b)))
            &&& a1.shapes.version == a0.shapes.version.next()
            &&& settings_kept(a0, a1)
        },
        CanvasEvent::DeselectTool => {
            &&& changed
            &&& p1.is_none()
            &&& a1.shapes.shapes@ == a0.shapes.shapes@
            &&& a1.shapes.selected_shapes@.len() == 0
            &&& a1.shapes.version == a0.shapes.version.next().next()
            &&& a1.pointer@ == "default"@
            &&& a1.tools == a0.tools
            &&& a1.color == a0.color
            &&& a1.bg_color == a0.bg_color
        },
        CanvasEvent::KeyPress(k) => if k@ == "Delete"@ && a0.shapes.selected_shapes@.len() > 0 {
            &&& changed
            &&& p1 == p0
            &&& a1.shapes.shapes@ == a0.shapes.shapes@.filter(
                shape_kept(id_views(a0.shapes.selected_shapes@)),
            )
            &&& a1.shapes.selected_shapes@.len() == 0
            &&& a1.shapes.version == a0.shapes.version.next().next()
            &&& settings_kept(a0, a1)
        } else {
            inert(a0, a1, p0, p1, changed)
        },
        _ => inert(a0, a1, p0, p1, changed),
    }
}

impl Select {
    /// The ids of the shapes that lie within `selection`, in z-order.
    fn get_selected(selection: &BBox, shapes: &Shapes) -> (r: Vec<Id>)
        requires
            shapes.wf(),
            selection.wf(),
        ensures
            id_views(r@) == ids_of(shapes.shapes@.filter(inside_pred(*selection))),
            forall|k: int| 0 <= k < r@.len() ==> has_shape(shapes.shapes@, (#[trigger] r@[k])@),
    {
        let ghost all = shapes.shapes@;
        let mut r: Vec<Id> = Vec::new();
        let mut i: usize = 0;
        while i < shapes.shapes.len()
            invariant
                i <= all.len(),
                all == shapes.shapes@,
                shapes.wf(),
                selection.wf(),
                id_views(r@) == ids_of(all.take(i as int).filter(inside_pred(*selection))),
                forall|k: int| 0 <= k < r@.len() ==> has_shape(all, (#[trigger] r@[k])@),
            decreases all.len() - i,
        {
            let shape = &shapes.shapes[i];
            proof {
                reveal(Seq::filter);
                assert(all.take(i + 1).drop_last() == all.take(i as int));
                assert(all[i as int].wf());
            }
            if shape.isin(selection) {
                let ghost before = r@;
                let id = shape.id.copy();
                r.push(id);
                proof {
                    let f = all.take(i as int).filter(inside_pred(*selection));
                    assert(id_views(r@) =~= id_views(before).push(all[i as int].id@));
                    assert(ids_of(f.push(all[i as int])) =~= ids_of(f).push(all[i as int].id@));
                    assert forall|k: int| 0 <= k < r@.len() implies has_shape(all, (#[trigger] r@[k])@) by {
                        if k == before.len() {
                            assert(all[i as int].id@ == r@[k]@);
                        } else {
                            assert(r@[k] == before[k]);
                        }
                    }
                }
            }
            i = i + 1;
        }
        assert(all.take(all.len() as int) == all);
        r
    }

    pub fn button_icon(&self) -> (r: &'static str)
        ensures
            r@ == "ti-marquee-2"@,
    {
        "ti-marquee-2"
    }

    pub fn button_title(&self) -> (r: &'static str)
        ensures
            r@ == "Selection tool."@,
    {
        "Selection tool."
    }

    pub fn handle_event(
        &self,
        event: &CanvasEvent,
        tool_shape: &mut Option<Drawable>,
        app_state: &mut AppState,
    ) -> (changed: bool)
        requires
            old(app_state).wf(),
            event.valid(),
        ensures
            final(app_state).wf(),
            select_step(*event, *old(app_state), *final(app_state), *old(tool_shape), *final(tool_shape), changed),
    {
        match event {
            CanvasEvent::PointerEventStart(_) => {
                app_state.replace_selected(Vec::new());
                *tool_shape = None;
                true
            },
            CanvasEvent::DragMove(start, end) => {
                let selection = BBox::from_corner(start, end);
                let ids = Self::get_selected(&selection, &app_state.shapes);
                app_state.replace_selected(ids);
                *tool_shape = Some(ShapeType::Selection.get_drawable(&selection));
                true
            },
            CanvasEvent::DragEnd(start, end) => {
                let selection = BBox::from_corner(start, end);
                let ids = Self::get_selected(&selection, &app_state.shapes);
                app_state.replace_selected(ids);
                *tool_shape = None;
                true
            },
            CanvasEvent::DeselectTool => {
                *tool_shape = None;
                app_state.replace_selected(Vec::new());
                app_state.set_pointer("default");
                true
            },
            CanvasEvent::KeyPress(key) => {
                if *key == "Delete".to_owned() && app_state.shapes.selected_shapes.len() > 0 {
                    let selected_id = copy_ids(app_state.get_selected());
                    app_state.replace_selected(Vec::new());
                    app_state.remove_shapes(selected_id);
                    proof {
                        reveal(Seq::filter);
                    }
                    true
                } else {
                    false
                }
            },
            _ => false,
        }
    }
}

/// The eraser: removes the shapes under a click or at the end of a drag.
#[derive(Clone, Copy, Debug, PartialEq, Eq, Structural)]
pub struct Erase;

/// What the eraser does with `e`.
pub open spec fn erase_step(
    e: CanvasEvent,
    a0: AppState,
    a1: AppState,
    p0: Option<Drawable>,
    p1: Option<Drawable>,
    changed: bool,
) -> bool {
    match e {
        CanvasEvent::Click(p) => erase_at(p, a0, a1, p0, p1, changed),
        CanvasEvent::DragEnd(_, p) => erase_at(p, a0, a1, p0, p1, changed),
        _ => inert(a0, a1, p0, p1, changed),
    }
}

/// Erasing at `p` removes every shape hit there, and changes nothing when
/// none is.
pub open spec fn erase_at(
    p: Point,
    a0: AppState,
    a1: AppState,
    p0: Option<Drawable>,
    p1: Option<Drawable>,
    changed: bool,
) -> bool {
    let hit = ids_of(a0.shapes.shapes@.filter(hit_pred(p)));
    if hit.len() > 0 {
        &&& changed
        &&& p1 == p0
        &&& a1.shapes.shapes@ == a0.shapes.shapes@.filter(shape_kept(hit))
        &&& a1.shapes.selected_shapes@ == a0.shapes.selected_shapes@.filter(id_kept(hit))
        &&& a1.shapes.version == a0.shapes.version.next()
        &&& settings_kept(a0, a1)
    } else {
        inert(a0, a1, p0, p1, changed)
    }
}

impl Erase {
    /// How far from a shape a point still hits it, in pixels.
    pub const MARGIN: i64 = 10;

    /// The ids of the shapes hit at `point`, in z-order.
    fn get_selected(point: &Point, shapes: &Shapes) -> (r: Vec<Id>)
        requires
            shapes.wf(),
        ensures
            id_views(r@) == ids_of(shapes.shapes@.filter(hit_pred(*point))),
    {
        let ghost all = shapes.shapes@;
        let mut r: Vec<Id> = Vec::new();
        let mut i: usize = 0;
        while i < shapes.shapes.len()
            invariant
                i <= all.len(),
                all == shapes.shapes@,
                shapes.wf(),
                id_views(r@) == ids_of(all.take(i as int).filter(hit_pred(*point))),
            decreases all.len() - i,
        {
            let shape = &shapes.shapes[i];
            proof {
                reveal(Seq::filter);
                assert(all.take(i + 1).drop_last() == all.take(i as int));
                assert(all[i as int].wf());
            }
            if shape.contains(point, Self::MARGIN) {
                let ghost before = r@;
                r.push(shape.id.copy());
                proof {
                    let f = all.take(i as int).filter(hit_pred(*point));
                    assert(id_views(r@) =~= id_views(before).push(all[i as int].id@));
                    assert(ids_of(f.push(all[i as int])) =~= ids_of(f).push(all[i as int].id@));
                }
            }
            i = i + 1;
        }
        assert(all.take(all.len() as int) == all);
        r
    }

    pub fn button_icon(&self) -> (r: &'static str)
        ensures
            r@ == "ti-eraser"@,
    {
        "ti-eraser"
    }

    pub fn button_title(&self) -> (r: &'static str)
        ensures
            r@ == "Eraser Tool."@,
    {
        "Eraser Tool."
    }

    pub fn handle_event(
        &self,
        event: &CanvasEvent,
        tool_shape: &mut Option<Drawable>,
        app_state: &mut AppState,
    ) -> (changed: bool)
        requires
            old(app_state).wf(),
        ensures
            final(app_state).wf(),
            erase_step(*event, *old(app_state), *final(app_state), *old(tool_shape), *final(tool_shape), changed),
    {
        match event {
            CanvasEvent::DragEnd(_, point) | CanvasEvent::Click(point) => {
                let shapes = Self::get_selected(point, &app_state.shapes);
                if shapes.len() > 0 {
                    app_state.remove_shapes(shapes);
                    true
                } else {
                    false
                }
            },
            _ => false,
        }
    }
}

/// Toolbar icon of the drawing tool for shapes of kind `k`.
pub open spec fn shape_icon(k: ShapeType) -> Seq<char> {
    match k {
        ShapeType::Ellipse => "ti-circle"@,
        _ => "ti-square"@,
    }
}

/// Toolbar title of the drawing tool for shapes of kind `k`.
pub open spec fn shape_title(k: ShapeType) -> Seq<char> {
    match k {
        ShapeType::Ellipse => "Ellipse drawing tool."@,
        _ => "Rectangle drawing tool."@,
    }
}

/// The kind, icon and title of a shape that a drawing tool makes.
pub trait ShapeToolDetails {
    spec fn kind() -> ShapeType;

    fn shape_type() -> (r: ShapeType)
        ensures
            r == Self::kind(),
    ;

    fn button_icon(&self) -> (r: &'static str)
        ensures
            r@ == shape_icon(Self::kind()),
    ;

    fn button_title(&self) -> (r: &'static str)
        ensures
            r@ == shape_title(Self::kind()),
    ;
}

impl ShapeToolDetails for Rectangle {
    open spec fn kind() -> ShapeType {
        ShapeType::Rectangle
    }

    fn shape_type() -> ShapeType {
        ShapeType::Rectangle
    }

    fn button_icon(&self) -> &'static str {
        "ti-square"
    }

    fn button_title(&self) -> &'static str {
        "Rectangle drawing tool."
    }
}

impl ShapeToolDetails for Ellipse {
    open spec fn kind() -> ShapeType {
        ShapeType::Ellipse
    }

    fn shape_type() -> ShapeType {
        ShapeType::Ellipse
    }

    fn button_icon(&self) -> &'static str {
        "ti-circle"
    }

    fn button_title(&self) -> &'static str {
        "Ellipse drawing tool."
    }
}

/// A box of no size at the origin.
fn empty_box() -> (r: BBox)
    ensures
        r.wf(),
{
    BBox { left: 0, top: 0, width: 0, height: 0 }
}

/// A drawing tool: drags out a shape of its kind, then hands over to the
/// selection tool with the new shape selected.
#[derive(Clone, Copy, Debug, PartialEq, Eq, Structural)]
pub struct ShapeTool {
    pub shape_type: ShapeType,
}

/// What a drawing tool for shapes of kind `kind` does with `e`.
pub open spec fn shape_step(
    kind: ShapeType,
    e: CanvasEvent,
    a0: AppState,
    a1: AppState,
    p0: Option<Drawable>,
    p1: Option<Drawable>,
    changed: bool,
) -> bool {
    match e {
        CanvasEvent::SelectTool => {
            &&& changed
            &&& p1 == p0
            &&& a1.pointer@ == "crosshair"@
            &&& a1.shapes == (Shapes { version: a0.shapes.version.next(), ..a0.shapes })
            &&& a1.tools == a0.tools
            &&& a1.color == a0.color
            &&& a1.bg_color == a0.bg_color
        },
        CanvasEvent::DeselectTool => {
            &&& changed
            &&& p1.is_none()
            &&& a1.pointer@ == "default"@
            &&& a1.shapes == (Shapes { version: a0.shapes.version.next(), ..a0.shapes })
            &&& a1.tools == a0.tools
            &&& a1.color == a0.color
            &&& a1.bg_color == a0.bg_color
        },
        CanvasEvent::DragMove(s, t) => {
            &&& changed
            &&& p1 == Some(kind.drawable_over(BBox::corner_box(s, t)))
            &&& a1 == a0.with_version(a0.shapes.version.next())
        },
        CanvasEvent::DragEnd(s, t) => {
            let n = a1.shapes.shapes@.last();
            &&& changed
            &&& p1.is_none()
            &&& a1.shapes.shapes@.len() == a0.shapes.shapes@.len() + 1
            &&& a1.shapes.shapes@.drop_last() == a0.shapes.shapes@
            &&& n.bbox == BBox::corner_box(s, t)
            &&& n.name == kind
            &&& n.color == a0.color
            &&& n.bg_color == a0.bg_color
            &&& n.version.version == 0
            &&& id_views(a1.shapes.selected_shapes@) == seq![n.id@]
            &&& a1.shapes.version == a0.shapes.version.next().next().next()
            &&& a1.tools.tool == Tool::Select
            &&& a1.pointer == a0.pointer
            &&& a1.color == a0.color
            &&& a1.bg_color == a0.bg_color
        },
        _ => inert(a0, a1, p0, p1, changed),
    }
}

impl ShapeTool {
    pub fn new(shape_type: ShapeType) -> (r: ShapeTool)
        ensures
            r.shape_type == shape_type,
    {
        ShapeTool { shape_type }
    }

    pub fn handle_event(
        &self,
        event: &CanvasEvent,
        tool_shape: &mut Option<Drawable>,
        app_state: &mut AppState,
    ) -> (changed: bool)
        requires
            old(app_state).wf(),
            event.valid(),
        ensures
            final(app_state).wf(),
            shape_step(self.shape_type, *event, *old(app_state), *final(app_state), *old(tool_shape), *final(tool_shape), changed),
    {
        match event {
            CanvasEvent::SelectTool => {
                app_state.set_pointer("crosshair");
                true
            },
            CanvasEvent::DeselectTool => {
                *tool_shape = None;
                app_state.set_pointer("default");
                true
            },
            CanvasEvent::DragMove(start, end) => {
                *tool_shape = Some(self.shape_type.get_drawable(&BBox::from_corner(start, end)));
                app_state.set_redraw();
                true
            },
            CanvasEvent::DragEnd(start, end) => {
                let bbox = BBox::from_corner(start, end);
                proof {
                    lemma_corner_box_fits(*start, *end);
                }
                let shape = Shape::new(&bbox, self.shape_type, app_state.color, app_state.bg_color);
                let id = shape.id.copy();
                let ghost before = app_state.shapes.shapes@;
                app_state.add_shape(shape);
                let mut ids: Vec<Id> = Vec::new();
                ids.push(id);
                proof {
                    let all = app_state.shapes.shapes@;
                    assert(all[all.len() - 1].id@ == ids@[0]@);
                    assert(all.drop_last() =~= before);
                    assert(id_views(ids@) =~= seq![all.last().id@]);
                }
                app_state.replace_selected(ids);
                *tool_shape = None;
                app_state.set_tool(Tool::Select);
                true
            },
            _ => false,
        }
    }
}

/// The tools of the toolbar.
#[derive(Clone, Copy, Debug, PartialEq, Eq, Structural)]
pub enum Tool {
    Select,
    Erase,
    RectangleShape,
    EllipseShape,
}

/// What `tool` does with `e`.
pub open spec fn tool_step(
    tool: Tool,
    e: CanvasEvent,
    a0: AppState,
    a1: AppState,
    p0: Option<Drawable>,
    p1: Option<Drawable>,
    changed: bool,
) -> bool {
    match tool {
        Tool::Select => select_step(e, a0, a1, p0, p1, changed),
        Tool::Erase => erase_step(e, a0, a1, p0, p1, changed),
        Tool::RectangleShape => shape_step(ShapeType::Rectangle, e, a0, a1, p0, p1, changed),
        Tool::EllipseShape => shape_step(ShapeType::Ellipse, e, a0, a1, p0, p1, changed),
    }
}

impl Tool {
    pub open spec fn spec_name(self) -> Seq<char> {
        match self {
            Tool::Select => "Select"@,
            Tool::Erase => "Erase"@,
            Tool::RectangleShape => "RectangleShape"@,
            Tool::EllipseShape => "EllipseShape"@,
        }
    }

    /// The tool named `s`, or the default tool for any other text.
    pub open spec fn parse(s: Seq<char>) -> Tool {
        if s == "Erase"@ {
            Tool::Erase
        } else if s == "RectangleShape"@ {
            Tool::RectangleShape
        } else if s == "EllipseShape"@ {
            Tool::EllipseShape
        } else {
            Tool::Select
        }
    }

    /// The tools in toolbar order.
    pub fn all() -> (r: Vec<Tool>)
        ensures
            r@ == seq![Tool::Select, Tool::Erase, Tool::RectangleShape, Tool::EllipseShape],
    {
        let mut r: Vec<Tool> = Vec::new();
        r.push(Tool::Select);
        r.push(Tool::Erase);
        r.push(Tool::RectangleShape);
        r.push(Tool::EllipseShape);
        proof {
            assert(r@ =~= seq![Tool::Select, Tool::Erase, Tool::RectangleShape, Tool::EllipseShape]);
        }
        r
    }

    /// The name under which the tool is stored.
    pub fn name(&self) -> (r: &'static str)
        ensures
            r@ == self.spec_name(),
    {
        match self {
            Tool::Select => "Select",
            Tool::Erase => "Erase",
            Tool::RectangleShape => "RectangleShape",
            Tool::EllipseShape => "EllipseShape",
        }
    }

    /// The tool stored under `name`; unknown names give the default tool.
    pub fn from_name(name: &str) -> (r: Tool)
        ensures
            r == Tool::parse(name@),
    {
        let n = name.to_owned();
        if n == "Erase".to_owned() {
            Tool::Erase
        } else if n == "RectangleShape".to_owned() {
            Tool::RectangleShape
        } else if n == "EllipseShape".to_owned() {
            Tool::EllipseShape
        } else {
            Tool::Select
        }
    }

    pub fn button_icon(&self) -> (r: &'static str)
        ensures
            r@ == (match *self {
                Tool::Select => "ti-marquee-2"@,
                Tool::Erase => "ti-eraser"@,
                Tool::RectangleShape => "ti-square"@,
                Tool::EllipseShape => "ti-circle"@,
            }),
    {
        match self {
            Tool::Select => Select.button_icon(),
            Tool::Erase => Erase.button_icon(),
            Tool::RectangleShape => Rectangle::new(&empty_box()).button_icon(),
            Tool::EllipseShape => Ellipse::new(&empty_box()).button_icon(),
        }
    }

    pub fn button_title(&self) -> (r: &'static str)
        ensures
            r@ == (match *self {
                Tool::Select => "Selection tool."@,
                Tool::Erase => "Eraser Tool."@,
                Tool::RectangleShape => "Rectangle drawing tool."@,
                Tool::EllipseShape => "Ellipse drawing tool."@,
            }),
    {
        match self {
            Tool::Select => Select.button_title(),
            Tool::Erase => Erase.button_title(),
            Tool::RectangleShape => Rectangle::new(&empty_box()).button_title(),
            Tool::EllipseShape => Ellipse::new(&empty_box()).button_title(),
        }
    }

    /// Hands `event` to the tool. Returns whether the event changed
    /// anything, in which case the caller prevents the platform default.
    pub fn handle_event(
        &self,
        event: &CanvasEvent,
        tool_shape: &mut Option<Drawable>,
        app_state: &mut AppState,
    ) -> (changed: bool)
        requires
            old(app_state).wf(),
            event.valid(),
        ensures
            final(app_state).wf(),
            tool_step(*self, *event, *old(app_state), *final(app_state), *old(tool_shape), *final(tool_shape), changed),
    {
        match self {
            Tool::Select => Select.handle_event(event, tool_shape, app_state),
            Tool::Erase => Erase.handle_event(event, tool_shape, app_state),
            Tool::RectangleShape => ShapeTool::new(<Rectangle as ShapeToolDetails>::shape_type()).handle_event(
                event,
                tool_shape,
                app_state,
            ),
            Tool::EllipseShape => ShapeTool::new(<Ellipse as ShapeToolDetails>::shape_type()).handle_event(
                event,
                tool_shape,
                app_state,
            ),
        }
    }
}

impl Default for Tool {
    fn default() -> (r: Tool)
        ensures
            r == Tool::Select,
    {
        Tool::Select
    }
}

/// Reading back the stored name of a tool gives the same tool.
pub proof fn lemma_tool_name_round_trip(t: Tool)
    ensures
        Tool::parse(t.spec_name()) == t,
{
    reveal_strlit("Select");
    reveal_strlit("Erase");
    reveal_strlit("RectangleShape");
    reveal_strlit("EllipseShape");
    assert("Select"@.len() == 6);
    assert("Erase"@.len() == 5);
    assert("RectangleShape"@.len() == 14);
    assert("EllipseShape"@.len() == 12);
}

} // verus!
