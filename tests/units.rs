use rusty_canvas::colors::{BackgroundColor, Color};
use rusty_canvas::drawing::{DrawOp, Drawable, Ellipse, Rectangle, Selection, ShapeType};
use rusty_canvas::events::{recognize, CanvasEvent, Capture, PointerKind};
use rusty_canvas::geometry::{BBox, Point};
use rusty_canvas::ids::Id;
use rusty_canvas::shape::Shape;
use rusty_canvas::store::{contains_id, AppState};
use rusty_canvas::tools::{Erase, Select, ShapeToolDetails, Tool};
use rusty_canvas::version::Version;

fn bbox(left: i64, top: i64, width: i64, height: i64) -> BBox {
    BBox { left, top, width, height }
}

#[test]
fn from_corner_normalizes_and_is_symmetric() {
    let a = Point::new(50, 40);
    let b = Point::new(10, 10);
    assert_eq!(BBox::from_corner(&a, &b), bbox(10, 10, 40, 30));
    assert_eq!(BBox::from_corner(&b, &a), bbox(10, 10, 40, 30));
    let c = Point::new(-5, 20);
    let d = Point::new(20, -5);
    assert_eq!(BBox::from_corner(&c, &d), bbox(-5, -5, 25, 25));
    assert_eq!(BBox::from_corner(&a, &a), bbox(50, 40, 0, 0));
}

#[test]
fn bbox_containment() {
    let outer = bbox(0, 0, 100, 100);
    let inner = bbox(10, 10, 20, 20);
    assert!(outer.in_(&outer));
    assert!(inner.in_(&outer));
    assert!(!outer.in_(&inner));
    assert!(!bbox(90, 90, 20, 5).in_(&outer));
    assert_eq!(outer.right(), 100);
    assert_eq!(inner.bottom(), 30);
}

#[test]
fn bbox_contains_point_with_margin() {
    let b = bbox(0, 0, 20, 20);
    assert!(b.contains(&Point::new(25, 25), 10));
    assert!(b.contains(&Point::new(30, 30), 10));
    assert!(!b.contains(&Point::new(31, 30), 10));
    assert!(!b.contains(&Point::new(25, 25), 0));
    assert!(b.contains(&Point::new(-10, 5), 10));
    assert!(b.contains(&Point::new(i64::MAX, 5), i64::MAX));
}

#[test]
fn bbox_padding_and_union() {
    let mut b = bbox(10, 10, 5, 5);
    b.add_padding(5);
    assert_eq!(b, bbox(5, 5, 15, 15));
    let mut u = bbox(0, 0, 10, 10);
    u.add_bbox(&bbox(20, -5, 5, 5));
    assert_eq!(u, bbox(0, -5, 25, 15));
    let before = u;
    u.add_bbox(&bbox(1, 1, 2, 2));
    assert_eq!(u, before);
}

#[test]
fn version_increments_and_wraps() {
    let mut v = Version::default();
    assert_eq!(v.value(), 0);
    v.increment();
    assert_eq!(v.value(), 1);
    let mut top = Version { version: usize::MAX };
    top.increment();
    assert_eq!(top.value(), 0);
}

#[test]
fn fresh_ids_are_uuids_and_differ() {
    let a = Id::default();
    let b = Id::default();
    assert_eq!(a.as_str().len(), 36);
    assert_eq!(a.as_str().matches('-').count(), 4);
    assert!(a != b);
    let c = Id::new("abc".to_string());
    assert_eq!(c.as_str(), "abc");
    assert!(c.copy() == c);
}

#[test]
fn color_names() {
    assert_eq!(Color::default(), Color::Black);
    assert_eq!(Color::DarkBlue.css_name(), "DarkBlue");
    assert_eq!(Color::Green.css_name(), "Green");
    assert_eq!(BackgroundColor::Magenta.css_name(), "Magenta");
    assert_eq!(BackgroundColor::Yellow.css_name(), "Yellow");
}

#[test]
fn tool_names_round_trip() {
    for t in Tool::all() {
        assert_eq!(Tool::from_name(t.name()), t);
    }
    assert_eq!(Tool::from_name("Lasso"), Tool::Select);
    assert_eq!(Tool::from_name(""), Tool::Select);
    assert_eq!(Tool::default(), Tool::Select);
    assert_eq!(Tool::RectangleShape.button_icon(), "ti-square");
    assert_eq!(Tool::EllipseShape.button_title(), "Ellipse drawing tool.");
    assert_eq!(Select.button_icon(), "ti-marquee-2");
    assert_eq!(Erase.button_title(), "Eraser Tool.");
    assert_eq!(Erase::MARGIN, 10);
}

#[test]
fn pointer_kinds() {
    assert_eq!(PointerKind::from_type("pointerdown"), Some(PointerKind::Down));
    assert_eq!(PointerKind::from_type("pointerup"), Some(PointerKind::Up));
    assert_eq!(PointerKind::from_type("pointermove"), Some(PointerKind::Move));
    assert_eq!(PointerKind::from_type("pointercancel"), None);
    assert_eq!(PointerKind::Down.capture(), Capture::Acquire);
    assert_eq!(PointerKind::Up.capture(), Capture::Release);
    assert_eq!(PointerKind::Move.capture(), Capture::Keep);
}

#[test]
fn gesture_transitions() {
    let p = Point::new(1, 2);
    let q = Point::new(7, 9);
    assert!(matches!(recognize(&None, PointerKind::Down, p), Some(CanvasEvent::PointerEventStart(x)) if x == p));
    assert!(matches!(recognize(&None, PointerKind::Move, p), Some(CanvasEvent::Hover(x)) if x == p));
    assert!(recognize(&None, PointerKind::Up, p).is_none());
    let start = Some(CanvasEvent::PointerEventStart(p));
    assert!(matches!(recognize(&start, PointerKind::Move, q), Some(CanvasEvent::DragMove(s, e)) if s == p && e == q));
    assert!(matches!(recognize(&start, PointerKind::Up, q), Some(CanvasEvent::Click(x)) if x == q));
    let drag = Some(CanvasEvent::DragMove(p, q));
    let r = Point::new(3, 3);
    assert!(matches!(recognize(&drag, PointerKind::Move, r), Some(CanvasEvent::DragMove(s, e)) if s == p && e == r));
    assert!(matches!(recognize(&drag, PointerKind::Up, r), Some(CanvasEvent::DragEnd(s, e)) if s == p && e == r));
    let key = Some(CanvasEvent::KeyPress("a".to_string()));
    assert!(recognize(&key, PointerKind::Up, r).is_none());
    assert!(matches!(recognize(&key, PointerKind::Move, r), Some(CanvasEvent::Hover(_))));
}

#[test]
fn drawables_draw_and_hit() {
    let b = bbox(0, 0, 10, 10);
    let mut ops = Vec::new();
    Selection::new(&b).draw(&mut ops);
    assert_eq!(ops, vec![DrawOp::SelectionStroke, DrawOp::LineDash(5), DrawOp::StrokeRect(b)]);
    let r = Drawable::Rectangle(Rectangle::new(&b));
    assert!(r.contains(&Point::new(15, 15), 5));
    assert!(!r.contains(&Point::new(16, 15), 5));
    assert!(r.isin(&bbox(-1, -1, 12, 12)));
    let e = ShapeType::Ellipse.get_drawable(&b);
    assert!(!e.contains(&Point::new(0, 0), 0));
    assert!(e.contains(&Point::new(0, 0), 3));
    assert!(!ShapeType::Ellipse.get_drawable(&bbox(0, 0, 0, 10)).contains(&Point::new(0, 5), 0));
    assert_eq!(ShapeType::default(), ShapeType::Rectangle);
}

#[test]
fn shape_edits_bump_version() {
    let mut s = Shape::new(&bbox(0, 0, 4, 4), ShapeType::Rectangle, Color::Black, None);
    let before = s.clone();
    assert!(s == before);
    s.set_bg_color(Some(BackgroundColor::Blue));
    assert_eq!(s.bg_color, Some(BackgroundColor::Blue));
    assert_eq!(s.get_version().value(), 1);
    assert!(s != before);
    s.set_color(Color::Orange);
    assert_eq!(s.color, Color::Orange);
    assert_eq!(s.get_version().value(), 2);
}

#[test]
fn store_mutators_bump_version() {
    let mut app = AppState::new();
    assert_eq!(app.get_tool(), Tool::Select);
    assert_eq!(app.get_pointer(), "default");
    assert_eq!(app.get_color(), Color::Black);
    assert_eq!(app.get_bg_color(), None);
    app.set_color(Color::Red);
    app.set_bg_color(Some(BackgroundColor::Cyan));
    app.set_tool(Tool::Erase);
    app.set_pointer("crosshair");
    app.set_redraw();
    assert_eq!(app.version().value(), 5);
    let s = Shape::new(&bbox(0, 0, 4, 4), ShapeType::Rectangle, Color::Black, None);
    let id = s.get_id().clone();
    app.add_shape(s);
    app.replace_selected(vec![id.clone()]);
    assert!(contains_id(&app.get_shapes().selected_shapes, &id));
    app.remove_shapes(vec![id.clone()]);
    assert_eq!(app.get_shapes().shapes.len(), 0);
    assert_eq!(app.get_selected().len(), 0);
    assert_eq!(app.version().value(), 8);
}

#[test]
fn shape_tool_details() {
    let b = bbox(0, 0, 0, 0);
    assert_eq!(<Rectangle as ShapeToolDetails>::shape_type(), ShapeType::Rectangle);
    assert_eq!(<Ellipse as ShapeToolDetails>::shape_type(), ShapeType::Ellipse);
    assert_eq!(ShapeToolDetails::button_icon(&Ellipse::new(&b)), "ti-circle");
    assert_eq!(ShapeToolDetails::button_title(&Rectangle::new(&b)), "Rectangle drawing tool.");
    let s = Shape::new(&bbox(0, 0, 4, 4), ShapeType::Ellipse, Color::Black, None);
    assert_eq!(s.get_id().as_str().len(), 36);
}
