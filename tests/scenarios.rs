use rusty_canvas::cache::ShapeCache;
use rusty_canvas::colors::{BackgroundColor, Color};
use rusty_canvas::drawing::{DrawOp, Drawable, Ellipse, ShapeType};
use rusty_canvas::events::PointerKind;
use rusty_canvas::geometry::{BBox, Point};
use rusty_canvas::handler::EventHandler;
use rusty_canvas::shape::{Shape, ShapeEdit};
use rusty_canvas::store::AppState;
use rusty_canvas::tools::Tool;

fn bbox(left: i64, top: i64, width: i64, height: i64) -> BBox {
    BBox { left, top, width, height }
}

fn rect_shape(b: BBox) -> Shape {
    Shape::new(&b, ShapeType::Rectangle, Color::Black, None)
}

fn press(h: &mut EventHandler, app: &mut AppState, kind: PointerKind, x: i64, y: i64) -> bool {
    h.handle_ptr_event(app, kind, Point::new(x, y))
}

#[test]
fn rectangle_draw_and_auto_reselect() {
    let mut app = AppState::new();
    app.set_color(Color::Green);
    app.set_bg_color(None);
    app.set_tool(Tool::RectangleShape);
    let mut h = EventHandler::new();
    h.set_tool(&mut app, Tool::RectangleShape);
    assert_eq!(app.get_pointer(), "crosshair");
    assert!(press(&mut h, &mut app, PointerKind::Down, 10, 10) == false);
    assert!(press(&mut h, &mut app, PointerKind::Move, 50, 40));
    assert!(h.shape.is_some());
    assert!(press(&mut h, &mut app, PointerKind::Up, 50, 40));
    let shapes = &app.get_shapes().shapes;
    assert_eq!(shapes.len(), 1);
    let s = &shapes[0];
    assert_eq!(s.name, ShapeType::Rectangle);
    assert_eq!(s.bbox, bbox(10, 10, 40, 30));
    assert_eq!(s.color, Color::Green);
    assert_eq!(s.bg_color, None);
    assert_eq!(app.get_selected().len(), 1);
    assert!(app.get_selected()[0] == s.id);
    assert_eq!(app.get_tool(), Tool::Select);
    assert!(h.shape.is_none());
}

#[test]
fn ellipse_hit_test_inside_bbox_outside_ellipse() {
    let e = Ellipse::new(&bbox(0, 0, 100, 100));
    assert!(!e.contains(&Point::new(5, 5), 0));
    assert!(e.contains(&Point::new(50, 50), 0));
    assert!(e.contains(&Point::new(50, 0), 0));
    let d = Drawable::Ellipse(e);
    assert!(!d.contains(&Point::new(5, 5), 0));
    let s = Shape::new(&bbox(0, 0, 100, 100), ShapeType::Ellipse, Color::Black, None);
    assert!(!s.contains(&Point::new(5, 5), 0));
}

#[test]
fn rubber_band_select() {
    let mut app = AppState::new();
    let a = rect_shape(bbox(0, 0, 10, 10));
    let b = rect_shape(bbox(100, 100, 10, 10));
    let a_id = a.get_id().clone();
    app.add_shape(a);
    app.add_shape(b);
    let v0 = app.version().value();
    let mut h = EventHandler::new();
    assert!(press(&mut h, &mut app, PointerKind::Down, -5, -5));
    assert!(press(&mut h, &mut app, PointerKind::Move, 20, 20));
    assert!(h.shape.is_some());
    assert!(press(&mut h, &mut app, PointerKind::Up, 20, 20));
    assert_eq!(app.get_selected().len(), 1);
    assert!(app.get_selected()[0] == a_id);
    assert!(h.shape.is_none());
    assert!(app.version().value() >= v0 + 2);
}

#[test]
fn erase_by_click() {
    let mut app = AppState::new();
    app.add_shape(rect_shape(bbox(0, 0, 20, 20)));
    app.set_tool(Tool::Erase);
    let mut h = EventHandler::new();
    h.set_tool(&mut app, Tool::Erase);
    assert!(!press(&mut h, &mut app, PointerKind::Down, 25, 25));
    assert!(press(&mut h, &mut app, PointerKind::Up, 25, 25));
    assert_eq!(app.get_shapes().shapes.len(), 0);
    let v = app.version();
    assert!(!press(&mut h, &mut app, PointerKind::Down, 40, 40));
    assert!(!press(&mut h, &mut app, PointerKind::Up, 40, 40));
    assert!(app.version() == v);
}

#[test]
fn recolor_selected() {
    let mut app = AppState::new();
    let a = rect_shape(bbox(0, 0, 10, 10));
    let a_id = a.get_id().clone();
    app.add_shape(a);
    app.replace_selected(vec![a_id.clone()]);
    let mut h = EventHandler::new();
    h.refresh_canvas(app.get_shapes());
    let cached = h.shape_cache.get(a_id.as_str()).unwrap();
    let shape_v = app.get_shapes().shapes[0].version.value();
    assert_eq!(cached.version.value(), shape_v);
    let scene_v = app.version().value();
    app.modify_selected(ShapeEdit::SetColor(Color::Red));
    let s = &app.get_shapes().shapes[0];
    assert_eq!(s.color, Color::Red);
    assert_eq!(s.version.value(), shape_v + 1);
    assert_eq!(app.version().value(), scene_v + 1);
    h.refresh_canvas(app.get_shapes());
    let cached = h.shape_cache.get(a_id.as_str()).unwrap();
    assert_eq!(cached.version.value(), shape_v + 1);
}

#[test]
fn delete_key() {
    let mut app = AppState::new();
    let a = rect_shape(bbox(0, 0, 10, 10));
    let b = rect_shape(bbox(50, 50, 10, 10));
    let a_id = a.get_id().clone();
    let b_id = b.get_id().clone();
    app.add_shape(a);
    app.add_shape(b);
    app.replace_selected(vec![a_id]);
    let v = app.version().value();
    let mut h = EventHandler::new();
    assert!(h.handle_keyboard_event(&mut app, "Delete".to_string()));
    let shapes = &app.get_shapes().shapes;
    assert_eq!(shapes.len(), 1);
    assert!(shapes[0].id == b_id);
    assert_eq!(app.get_selected().len(), 0);
    assert!(app.version().value() > v);
}

#[test]
fn other_keys_are_inert() {
    let mut app = AppState::new();
    let a = rect_shape(bbox(0, 0, 10, 10));
    let a_id = a.get_id().clone();
    app.add_shape(a);
    app.replace_selected(vec![a_id]);
    let v = app.version();
    let mut h = EventHandler::new();
    assert!(!h.handle_keyboard_event(&mut app, "Escape".to_string()));
    assert!(app.version() == v);
    assert_eq!(app.get_shapes().shapes.len(), 1);
}

#[test]
fn cache_holds_current_versions_after_redraw() {
    let mut app = AppState::new();
    let a = rect_shape(bbox(0, 0, 10, 10));
    let b = Shape::new(&bbox(20, 20, 10, 10), ShapeType::Ellipse, Color::Red, Some(BackgroundColor::Cyan));
    let ids = [a.get_id().clone(), b.get_id().clone()];
    app.add_shape(a);
    app.add_shape(b);
    let mut h = EventHandler::new();
    h.refresh_canvas(app.get_shapes());
    for (i, id) in ids.iter().enumerate() {
        let e = h.shape_cache.get(id.as_str()).unwrap();
        assert!(e.version == app.get_shapes().shapes[i].version);
    }
    let empty = ShapeCache::new();
    assert!(empty.get(ids[0].as_str()).is_none());
}

#[test]
fn redraw_commands() {
    let mut app = AppState::new();
    let a = Shape::new(&bbox(0, 0, 10, 10), ShapeType::Rectangle, Color::Red, Some(BackgroundColor::Yellow));
    let a_id = a.get_id().clone();
    app.add_shape(a);
    app.replace_selected(vec![a_id]);
    let mut h = EventHandler::new();
    let ops = h.refresh_canvas(app.get_shapes());
    let b = bbox(0, 0, 10, 10);
    let padded = bbox(-5, -5, 20, 20);
    let expected = vec![
        DrawOp::Clear,
        DrawOp::FillColor(BackgroundColor::Yellow),
        DrawOp::BeginPath,
        DrawOp::Rect(b),
        DrawOp::Fill,
        DrawOp::StrokeColor(Color::Red),
        DrawOp::LineWidth(15),
        DrawOp::BeginPath,
        DrawOp::Rect(b),
        DrawOp::Stroke,
        DrawOp::SelectionStroke,
        DrawOp::LineDash(5),
        DrawOp::StrokeRect(padded),
        DrawOp::SelectionStroke,
        DrawOp::LineDash(5),
        DrawOp::StrokeRect(padded),
    ];
    assert_eq!(ops, expected);
}

#[test]
fn group_frame_spans_all_selected() {
    let mut app = AppState::new();
    let a = rect_shape(bbox(0, 0, 10, 10));
    let b = rect_shape(bbox(100, 50, 10, 10));
    let ids = vec![a.get_id().clone(), b.get_id().clone()];
    app.add_shape(a);
    app.add_shape(b);
    app.replace_selected(ids);
    let mut h = EventHandler::new();
    let ops = h.refresh_canvas(app.get_shapes());
    assert_eq!(ops.last(), Some(&DrawOp::StrokeRect(bbox(-5, -5, 120, 70))));
}

#[test]
fn preview_drawn_last() {
    let mut app = AppState::new();
    app.set_tool(Tool::EllipseShape);
    let mut h = EventHandler::new();
    h.set_tool(&mut app, Tool::EllipseShape);
    press(&mut h, &mut app, PointerKind::Down, 0, 0);
    press(&mut h, &mut app, PointerKind::Move, 30, 20);
    let ops = h.refresh_canvas(app.get_shapes());
    let n = ops.len();
    assert_eq!(
        &ops[n - 3..],
        &[DrawOp::BeginPath, DrawOp::Ellipse(bbox(0, 0, 30, 20)), DrawOp::Stroke]
    );
}

#[test]
fn tool_switch_mid_drag_discards_preview() {
    let mut app = AppState::new();
    app.set_tool(Tool::RectangleShape);
    let mut h = EventHandler::new();
    h.set_tool(&mut app, Tool::RectangleShape);
    press(&mut h, &mut app, PointerKind::Down, 0, 0);
    press(&mut h, &mut app, PointerKind::Move, 30, 20);
    assert!(h.shape.is_some());
    h.set_tool(&mut app, Tool::Select);
    assert!(h.shape.is_none());
    assert_eq!(app.get_pointer(), "default");
}
