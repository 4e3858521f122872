//! Mouse state: last position, button flags, whether the pointer is inside
//! the client area, and a bounded queue of mouse events.

use vstd::prelude::*;

use crate::keyboard::{enqueue, trim_buffer, MAX_BUFFER_SIZE};
use crate::message::Points;

verus! {

/// What happened to the mouse.
#[derive(Debug, Clone, Copy, PartialEq, Eq, Structural)]
pub enum MouseEventKind {
    Move,
    Enter,
    Leave,
    LeftPress,
    LeftRelease,
    RightPress,
    RightRelease,
    WheelPress,
    WheelRelease,
    /// A wheel rotation with its raw signed delta.
    Wheel(i16),
}

/// A mouse event with the pointer position it was recorded at.
#[derive(Debug, Clone, Copy, PartialEq, Eq, Structural)]
pub struct MouseEvent {
    pub kind: MouseEventKind,
    pub x: i16,
    pub y: i16,
}

/// Mouse state fed by window messages and read once per frame.
#[derive(Debug, Clone)]
pub struct Mouse {
    pub x: i16,
    pub y: i16,
    /// The most recent mouse events, oldest first.
    pub event_queue: Vec<MouseEvent>,
    pub left_pressed: bool,
    pub right_pressed: bool,
    pub is_in_window: bool,
    pub wheel_pressed: bool,
    /// Reserved for summing partial wheel notches; wheel deltas are
    /// forwarded raw and leave it untouched.
    pub wheel_delta_carry: i32,
}

impl Mouse {
    /// A valid mouse: its queue within capacity.
    pub open spec fn wf(&self) -> bool {
        self.event_queue@.len() <= MAX_BUFFER_SIZE
    }

    /// The event of `kind` at the current position.
    pub open spec fn event_here(&self, kind: MouseEventKind) -> MouseEvent {
        MouseEvent { kind, x: self.x, y: self.y }
    }

    /// `after` is `self` with the flags given and `event` queued; position
    /// and carry as given too.
    pub open spec fn becomes(
        &self,
        after: &Mouse,
        x: i16,
        y: i16,
        left: bool,
        right: bool,
        wheel: bool,
        inside: bool,
        event: MouseEvent,
    ) -> bool {
        &&& after.x == x
        &&& after.y == y
        &&& after.left_pressed == left
        &&& after.right_pressed == right
        &&& after.wheel_pressed == wheel
        &&& after.is_in_window == inside
        &&& after.wheel_delta_carry == self.wheel_delta_carry
        &&& after.event_queue@ == enqueue(self.event_queue@, event)
    }

    /// Origin position, no button held, outside the window, nothing queued.
    pub open spec fn is_cleared(&self) -> bool {
        &&& self.x == 0
        &&& self.y == 0
        &&& self.event_queue@.len() == 0
        &&& !self.left_pressed
        &&& !self.right_pressed
        &&& !self.is_in_window
        &&& !self.wheel_pressed
        &&& self.wheel_delta_carry == 0
    }

    /// A mouse in the cleared state.
    pub fn new() -> (r: Mouse)
        ensures
            r.wf(),
            r.is_cleared(),
    {
        Mouse {
            x: 0,
            y: 0,
            event_queue: Vec::new(),
            left_pressed: false,
            right_pressed: false,
            is_in_window: false,
            wheel_pressed: false,
            wheel_delta_carry: 0,
        }
    }

    /// Returns the mouse to the cleared state.
    pub fn reset(&mut self)
        ensures
            final(self).wf(),
            final(self).is_cleared(),
    {
        *self = Mouse::new();
    }

    /// The last recorded pointer position.
    pub fn get_pos(&self) -> (r: Points)
        ensures
            r == (Points { x: self.x, y: self.y }),
    {
        Points { x: self.x, y: self.y }
    }

    /// Removes and returns the oldest queued mouse event.
    pub fn read(&mut self) -> (r: Option<MouseEvent>)
        requires
            old(self).wf(),
        ensures
            final(self).wf(),
            old(self).event_queue@.len() == 0 ==> r is None && *final(self) == *old(self),
            old(self).event_queue@.len() > 0 ==> {
                &&& r == Some(old(self).event_queue@[0])
                &&& final(self).event_queue@ == old(self).event_queue@.drop_first()
                &&& (Mouse { event_queue: old(self).event_queue, ..*final(self) }) == *old(self)
            },
    {
        if self.event_queue.len() == 0 {
            return None;
        }
        Some(self.event_queue.remove(0))
    }

    fn push_event(&mut self, kind: MouseEventKind)
        requires
            old(self).wf(),
        ensures
            final(self).wf(),
            final(self).event_queue@ == enqueue(old(self).event_queue@, old(self).event_here(kind)),
            (Mouse { event_queue: old(self).event_queue, ..*final(self) }) == *old(self),
    {
        let event = MouseEvent { kind, x: self.x, y: self.y };
        self.event_queue.push(event);
        trim_buffer(&mut self.event_queue);
    }

    /// Records the pointer at `points`.
    pub fn on_mouse_move(&mut self, points: Points)
        requires
            old(self).wf(),
        ensures
            final(self).wf(),
            old(self).becomes(
                &*final(self),
                points.x,
                points.y,
                old(self).left_pressed,
                old(self).right_pressed,
                old(self).wheel_pressed,
                old(self).is_in_window,
                MouseEvent { kind: MouseEventKind::Move, x: points.x, y: points.y },
            ),
    {
        self.x = points.x;
        self.y = points.y;
        self.push_event(MouseEventKind::Move);
    }

    /// Records that the pointer entered the client area.
    pub fn on_mouse_enter(&mut self)
        requires
            old(self).wf(),
        ensures
            final(self).wf(),
            old(self).becomes(
                &*final(self),
                old(self).x,
                old(self).y,
                old(self).left_pressed,
                old(self).right_pressed,
                old(self).wheel_pressed,
                true,
                old(self).event_here(MouseEventKind::Enter),
            ),
    {
        self.is_in_window = true;
        self.push_event(MouseEventKind::Enter);
    }

    /// Records that the pointer left the client area.
    pub fn on_mouse_leave(&mut self)
        requires
            old(self).wf(),
        ensures
            final(self).wf(),
            old(self).becomes(
                &*final(self),
                old(self).x,
                old(self).y,
                old(self).left_pressed,
                old(self).right_pressed,
                old(self).wheel_pressed,
                false,
                old(self).event_here(MouseEventKind::Leave),
            ),
    {
        self.is_in_window = false;
        self.push_event(MouseEventKind::Leave);
    }

    /// Records the left button going down.
    pub fn on_left_press(&mut self)
        requires
            old(self).wf(),
        ensures
            final(self).wf(),
            old(self).becomes(
                &*final(self),
                old(self).x,
                old(self).y,
                true,
                old(self).right_pressed,
                old(self).wheel_pressed,
                old(self).is_in_window,
                old(self).event_here(MouseEventKind::LeftPress),
            ),
    {
        self.left_pressed = true;
        self.push_event(MouseEventKind::LeftPress);
    }

    /// Records the left button going up.
    pub fn on_left_release(&mut self)
        requires
            old(self).wf(),
        ensures
            final(self).wf(),
            old(self).becomes(
                &*final(self),
                old(self).x,
                old(self).y,
                false,
                old(self).right_pressed,
                old(self).wheel_pressed,
                old(self).is_in_window,
                old(self).event_here(MouseEventKind::LeftRelease),
            ),
    {
        self.left_pressed = false;
        self.push_event(MouseEventKind::LeftRelease);
    }

    /// Records the right button going down.
    pub fn on_right_press(&mut self)
        requires
            old(self).wf(),
        ensures
            final(self).wf(),
            old(self).becomes(
                &*final(self),
                old(self).x,
                old(self).y,
                old(self).left_pressed,
                true,
                old(self).wheel_pressed,
                old(self).is_in_window,
                old(self).event_here(MouseEventKind::RightPress),
            ),
    {
        self.right_pressed = true;
        self.push_event(MouseEventKind::RightPress);
    }

    /// Records the right button going up.
    pub fn on_right_release(&mut self)
        requires
            old(self).wf(),
        ensures
            final(self).wf(),
            old(self).becomes(
                &*final(self),
                old(self).x,
                old(self).y,
                old(self).left_pressed,
                false,
                old(self).wheel_pressed,
                old(self).is_in_window,
                old(self).event_here(MouseEventKind::RightRelease),
            ),
    {
        self.right_pressed = false;
        self.push_event(MouseEventKind::RightRelease);
    }

    /// Records the wheel (middle) button going down.
    pub fn on_wheel_press(&mut self)
        requires
            old(self).wf(),
        ensures
            final(self).wf(),
            old(self).becomes(
                &*final(self),
                old(self).x,
                old(self).y,
                old(self).left_pressed,
                old(self).right_pressed,
                true,
                old(self).is_in_window,
                old(self).event_here(MouseEventKind::WheelPress),
            ),
    {
        self.wheel_pressed = true;
        self.push_event(MouseEventKind::WheelPress);
    }

    /// Records the wheel (middle) button going up.
    pub fn on_wheel_release(&mut self)
        requires
            old(self).wf(),
        ensures
            final(self).wf(),
            old(self).becomes(
                &*final(self),
                old(self).x,
                old(self).y,
                old(self).left_pressed,
                old(self).right_pressed,
                false,
                old(self).is_in_window,
                old(self).event_here(MouseEventKind::WheelRelease),
            ),
    {
        self.wheel_pressed = false;
        self.push_event(MouseEventKind::WheelRelease);
    }

    /// Records a wheel rotation of `delta` at (`x`, `y`), forwarding the raw
    /// delta.
    pub fn on_wheel_delta(&mut self, x: i16, y: i16, delta: i16)
        requires
            old(self).wf(),
        ensures
            final(self).wf(),
            old(self).becomes(
                &*final(self),
                x,
                y,
                old(self).left_pressed,
                old(self).right_pressed,
                old(self).wheel_pressed,
                old(self).is_in_window,
                MouseEvent { kind: MouseEventKind::Wheel(delta), x, y },
            ),
    {
        self.x = x;
        self.y = y;
        self.push_event(MouseEventKind::Wheel(delta));
    }
}

} // verus!
