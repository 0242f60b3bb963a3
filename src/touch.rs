use vstd::prelude::*;

verus! {

/// The kind of contact that the touch controller reports.
#[derive(Debug, Copy, Clone, PartialEq, Eq, Structural)]
pub enum TouchEvent {
    Press,
    Release,
    Move,
}

/// One classified touch: where, and what kind.
#[derive(Debug, Copy, Clone, PartialEq, Eq, Structural)]
pub struct TouchPoint {
    pub x: u16,
    pub y: u16,
    pub event: TouchEvent,
}

/// The event flag of a touch report as the controller encodes it.
#[derive(Debug, Copy, Clone, PartialEq, Eq, Structural)]
pub enum RawTouchKind {
    Press,
    Release,
    Contact,
    Invalid,
}

/// The first touch point of a controller report.
#[derive(Debug, Copy, Clone, PartialEq, Eq, Structural)]
pub struct RawTouch {
    pub kind: RawTouchKind,
    pub x: u16,
    pub y: u16,
}

impl TouchPoint {
    /// The "button 1" rectangle of the launcher.
    pub open spec fn in_button1(self) -> bool {
        self.x < 100 && self.y < 100
    }

    /// The "button 2" rectangle of the launcher.
    pub open spec fn in_button2(self) -> bool {
        self.x > 140 && self.y < 100
    }

    /// The "back" band at the bottom of the screen.
    pub open spec fn in_back(self) -> bool {
        self.y > 200
    }

    pub fn on_button1(&self) -> (r: bool)
        ensures
            r == self.in_button1(),
    {
        self.x < 100 && self.y < 100
    }

    pub fn on_button2(&self) -> (r: bool)
        ensures
            r == self.in_button2(),
    {
        self.x > 140 && self.y < 100
    }

    pub fn on_back(&self) -> (r: bool)
        ensures
            r == self.in_back(),
    {
        self.y > 200
    }
}

/// Turns the first point of a controller report into a touch event: a report
/// without a point, or with a point flagged invalid, is no event.
pub fn touch_point_from(p1: Option<RawTouch>) -> (r: Option<TouchPoint>)
    ensures
        match p1 {
            None => r is None,
            Some(raw) => match raw.kind {
                RawTouchKind::Invalid => r is None,
                RawTouchKind::Press => r == Some(TouchPoint { x: raw.x, y: raw.y, event: TouchEvent::Press }),
                RawTouchKind::Release => r == Some(
                    TouchPoint { x: raw.x, y: raw.y, event: TouchEvent::Release },
                ),
                RawTouchKind::Contact => r == Some(TouchPoint { x: raw.x, y: raw.y, event: TouchEvent::Move }),
            },
        },
{
    match p1 {
        None => None,
        Some(raw) => {
            let event = match raw.kind {
                RawTouchKind::Press => TouchEvent::Press,
                RawTouchKind::Release => TouchEvent::Release,
                RawTouchKind::Contact => TouchEvent::Move,
                RawTouchKind::Invalid => return None,
            };
            Some(TouchPoint { x: raw.x, y: raw.y, event })
        },
    }
}

} // verus!
