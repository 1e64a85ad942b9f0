//! Canvas events and the gesture recognizer that lifts pointer events into
//! them.

use vstd::prelude::*;
use crate::geometry::Point;

verus! {

/// A semantic event on the canvas.
#[derive(Clone, Debug)]
pub enum CanvasEvent {
    PointerEventStart(Point),
    Hover(Point),
    /// Start and current position of a drag.
    DragMove(Point, Point),
    /// Start and end position of a drag.
    DragEnd(Point, Point),
    Click(Point),
    KeyPress(String),
    DeselectTool,
    SelectTool,
}

impl CanvasEvent {
    /// Every point of the event is valid.
    pub open spec fn valid(&self) -> bool {
        match self {
            CanvasEvent::PointerEventStart(p) => p.valid(),
            CanvasEvent::Hover(p) => p.valid(),
            CanvasEvent::DragMove(s, e) => s.valid() && e.valid(),
            CanvasEvent::DragEnd(s, e) => s.valid() && e.valid(),
            CanvasEvent::Click(p) => p.valid(),
            _ => true,
        }
    }
}

/// The pointer events that the recognizer reads.
#[derive(Clone, Copy, Debug, PartialEq, Eq, Structural)]
pub enum PointerKind {
    Down,
    Up,
    Move,
}

/// What to do with pointer capture after a pointer event.
#[derive(Clone, Copy, Debug, PartialEq, Eq, Structural)]
pub enum Capture {
    Keep,
    Acquire,
    Release,
}

impl PointerKind {
    pub open spec fn parse(t: Seq<char>) -> Option<PointerKind> {
        if t == "pointerdown"@ {
            Some(PointerKind::Down)
        } else if t == "pointerup"@ {
            Some(PointerKind::Up)
        } else if t == "pointermove"@ {
            Some(PointerKind::Move)
        } else {
            None
        }
    }

    /// The kind of a DOM pointer event type; other types are not read.
    pub fn from_type(t: &str) -> (r: Option<PointerKind>)
        ensures
            r == PointerKind::parse(t@),
    {
        let t = t.to_owned();
        if t == "pointerdown".to_owned() {
            Some(PointerKind::Down)
        } else if t == "pointerup".to_owned() {
            Some(PointerKind::Up)
        } else if t == "pointermove".to_owned() {
            Some(PointerKind::Move)
        } else {
            None
        }
    }

    /// Pointer capture is taken on press and given back on release.
    pub fn capture(&self) -> (r: Capture)
        ensures
            r == (match *self {
                PointerKind::Down => Capture::Acquire,
                PointerKind::Up => Capture::Release,
                PointerKind::Move => Capture::Keep,
            }),
    {
        match self {
            PointerKind::Down => Capture::Acquire,
            PointerKind::Up => Capture::Release,
            PointerKind::Move => Capture::Keep,
        }
    }
}

/// The canvas event that a pointer event at `p` yields after `last`.
pub open spec fn next_event(last: Option<CanvasEvent>, kind: PointerKind, p: Point) -> Option<
    CanvasEvent,
> {
    match kind {
        PointerKind::Down => Some(CanvasEvent::PointerEventStart(p)),
        PointerKind::Move => match last {
            Some(CanvasEvent::PointerEventStart(s)) => Some(CanvasEvent::DragMove(s, p)),
            Some(CanvasEvent::DragMove(s, _)) => Some(CanvasEvent::DragMove(s, p)),
            _ => Some(CanvasEvent::Hover(p)),
        },
        PointerKind::Up => match last {
            Some(CanvasEvent::PointerEventStart(_)) => Some(CanvasEvent::Click(p)),
            Some(CanvasEvent::DragMove(s, _)) => Some(CanvasEvent::DragEnd(s, p)),
            _ => None,
        },
    }
}

/// Lifts a pointer event at `position` into a canvas event, given the last
/// event emitted.
pub fn recognize(last: &Option<CanvasEvent>, kind: PointerKind, position: Point) -> (r: Option<
    CanvasEvent,
>)
    ensures
        r == next_event(*last, kind, position),
        last.is_some() && last->0.valid() && position.valid() && r.is_some() ==> r->0.valid(),
{
    match kind {
        PointerKind::Down => Some(CanvasEvent::PointerEventStart(position)),
        PointerKind::Move => match last {
            Some(CanvasEvent::PointerEventStart(s)) => Some(CanvasEvent::DragMove(*s, position)),
            Some(CanvasEvent::DragMove(s, _)) => Some(CanvasEvent::DragMove(*s, position)),
            _ => Some(CanvasEvent::Hover(position)),
        },
        PointerKind::Up => match last {
            Some(CanvasEvent::PointerEventStart(_)) => Some(CanvasEvent::Click(position)),
            Some(CanvasEvent::DragMove(s, _)) => Some(CanvasEvent::DragEnd(*s, position)),
            _ => None,
        },
    }
}

} // verus!
