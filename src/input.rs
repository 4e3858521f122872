//! The input state of one window and the dispatch of decoded window
//! messages onto it.

use vstd::prelude::*;

use crate::keyboard::{enqueue, InvalidKeyCode, KeyEvent, KeyState, Keyboard, KEY_COUNT};
use crate::message::{decode, decoded, Points, WindowMessage};
use crate::mouse::{Mouse, MouseEvent, MouseEventKind};

verus! {

/// What the platform side must do after a message was dispatched.
#[derive(Debug, Clone, Copy, PartialEq, Eq, Structural)]
pub enum Reaction {
    /// Nothing more; the message is answered with zero.
    Handled,
    /// Destroy the window.
    DestroyWindow,
    /// Post a quit request with this exit code.
    PostQuit(i32),
    /// Capture the pointer for this window.
    CaptureMouse,
    /// Release the pointer capture.
    ReleaseMouse,
    /// Forward the message to the platform's default handler.
    Default,
}

/// Whether `p` lies in the client rectangle `[0, max_x] x [0, max_y]`.
pub open spec fn in_bounds(p: Points, max_x: i16, max_y: i16) -> bool {
    0 <= p.x <= max_x && 0 <= p.y <= max_y
}

/// Keyboard and mouse state of a window, with the client-area bounds that
/// pointer moves are checked against.
#[derive(Debug, Clone)]
pub struct Input {
    pub keyboard: Keyboard,
    pub mouse: Mouse,
    pub max_x: i16,
    pub max_y: i16,
}

/// `after` is `before` moved to `p` with a move event queued and, if
/// `entered`, then marked inside the window with an enter event queued.
pub open spec fn mouse_moved(before: Mouse, after: Mouse, p: Points, entered: bool) -> bool {
    let moved = MouseEvent { kind: MouseEventKind::Move, x: p.x, y: p.y };
    let queued = enqueue(before.event_queue@, moved);
    &&& after.x == p.x
    &&& after.y == p.y
    &&& after.left_pressed == before.left_pressed
    &&& after.right_pressed == before.right_pressed
    &&& after.wheel_pressed == before.wheel_pressed
    &&& after.wheel_delta_carry == before.wheel_delta_carry
    &&& entered ==> after.is_in_window && after.event_queue@ == enqueue(
        queued,
        MouseEvent { kind: MouseEventKind::Enter, x: p.x, y: p.y },
    )
    &&& !entered ==> after.is_in_window == before.is_in_window && after.event_queue@ == queued
}

impl Input {
    /// Valid keyboard and mouse.
    pub open spec fn wf(&self) -> bool {
        self.keyboard.wf() && self.mouse.wf()
    }

    /// The effect of dispatching `m` on `self`, giving `after` and reaction `r`.
    pub open spec fn dispatched(
        &self,
        after: &Input,
        m: WindowMessage,
        r: Result<Reaction, InvalidKeyCode>,
    ) -> bool {
        &&& after.max_x == self.max_x
        &&& after.max_y == self.max_y
        &&& match m {
            WindowMessage::FocusLost => {
                &&& r == Ok::<Reaction, InvalidKeyCode>(Reaction::Handled)
                &&& after.keyboard.is_cleared()
                &&& after.keyboard.auto_repeat_enabled == self.keyboard.auto_repeat_enabled
                &&& after.mouse.is_cleared()
            },
            WindowMessage::Close => {
                r == Ok::<Reaction, InvalidKeyCode>(Reaction::DestroyWindow) && *after == *self
            },
            WindowMessage::Destroy => {
                r == Ok::<Reaction, InvalidKeyCode>(Reaction::PostQuit(0)) && *after == *self
            },
            WindowMessage::Char(code) => {
                &&& r == Ok::<Reaction, InvalidKeyCode>(Reaction::Handled)
                &&& after.mouse == self.mouse
                &&& code <= u32::MAX ==> self.keyboard.typed(&after.keyboard, code as u32)
                &&& code > u32::MAX ==> after.keyboard == self.keyboard
            },
            WindowMessage::KeyDown { code, repeat } => {
                &&& after.mouse == self.mouse
                &&& code < KEY_COUNT ==> {
                    &&& r == Ok::<Reaction, InvalidKeyCode>(Reaction::Handled)
                    &&& self.keyboard.keys_recorded(
                        &after.keyboard,
                        KeyEvent { key_state: KeyState::Press, key_code: code as u32 },
                    )
                    &&& after.keyboard.auto_repeat_enabled == (
                    self.keyboard.auto_repeat_enabled || repeat)
                }
                &&& code >= KEY_COUNT ==> {
                    &&& r == Err::<Reaction, InvalidKeyCode>(InvalidKeyCode { code: code as u64 })
                    &&& after.keyboard == self.keyboard
                }
            },
            WindowMessage::KeyUp { code } => {
                &&& after.mouse == self.mouse
                &&& code < KEY_COUNT ==> {
                    &&& r == Ok::<Reaction, InvalidKeyCode>(Reaction::Handled)
                    &&& self.keyboard.keys_recorded(
                        &after.keyboard,
                        KeyEvent { key_state: KeyState::Release, key_code: code as u32 },
                    )
                    &&& !after.keyboard.auto_repeat_enabled
                }
                &&& code >= KEY_COUNT ==> {
                    &&& r == Err::<Reaction, InvalidKeyCode>(InvalidKeyCode { code: code as u64 })
                    &&& after.keyboard == self.keyboard
                }
            },
            WindowMessage::MouseMove { point, buttons_held } => {
                &&& after.keyboard == self.keyboard
                &&& in_bounds(point, self.max_x, self.max_y) ==> {
                    &&& mouse_moved(self.mouse, after.mouse, point, !self.mouse.is_in_window)
                    &&& r == Ok::<Reaction, InvalidKeyCode>(
                        if self.mouse.is_in_window {
                            Reaction::Handled
                        } else {
                            Reaction::CaptureMouse
                        },
                    )
                }
                &&& !in_bounds(point, self.max_x, self.max_y) && buttons_held ==> {
                    &&& mouse_moved(self.mouse, after.mouse, point, false)
                    &&& r == Ok::<Reaction, InvalidKeyCode>(Reaction::Handled)
                }
                &&& !in_bounds(point, self.max_x, self.max_y) && !buttons_held ==> {
                    &&& self.mouse.becomes(
                        &after.mouse,
                        self.mouse.x,
                        self.mouse.y,
                        self.mouse.left_pressed,
                        self.mouse.right_pressed,
                        self.mouse.wheel_pressed,
                        false,
                        self.mouse.event_here(MouseEventKind::Leave),
                    )
                    &&& r == Ok::<Reaction, InvalidKeyCode>(Reaction::ReleaseMouse)
                }
            },
            WindowMessage::LeftDown => self.button_changed(after, r, true, false, true),
            WindowMessage::LeftUp => self.button_changed(after, r, true, false, false),
            WindowMessage::RightDown => self.button_changed(after, r, false, true, true),
            WindowMessage::RightUp => self.button_changed(after, r, false, true, false),
            WindowMessage::MiddleDown => self.button_changed(after, r, false, false, true),
            WindowMessage::MiddleUp => self.button_changed(after, r, false, false, false),
            WindowMessage::Wheel { point, delta } => {
                &&& r == Ok::<Reaction, InvalidKeyCode>(Reaction::Handled)
                &&& after.keyboard == self.keyboard
                &&& self.mouse.becomes(
                    &after.mouse,
                    point.x,
                    point.y,
                    self.mouse.left_pressed,
                    self.mouse.right_pressed,
                    self.mouse.wheel_pressed,
                    self.mouse.is_in_window,
                    MouseEvent { kind: MouseEventKind::Wheel(delta), x: point.x, y: point.y },
                )
            },
            WindowMessage::Quit(_) | WindowMessage::Other => {
                r == Ok::<Reaction, InvalidKeyCode>(Reaction::Default) && *after == *self
            },
        }
    }

    /// A button message: the left button if `left`, the right if `right`,
    /// else the wheel button, set to `down`, with its event queued.
    pub open spec fn button_changed(
        &self,
        after: &Input,
        r: Result<Reaction, InvalidKeyCode>,
        left: bool,
        right: bool,
        down: bool,
    ) -> bool {
        let m = self.mouse;
        let kind = if left {
            if down {
                MouseEventKind::LeftPress
            } else {
                MouseEventKind::LeftRelease
            }
        } else if right {
            if down {
                MouseEventKind::RightPress
            } else {
                MouseEventKind::RightRelease
            }
        } else if down {
            MouseEventKind::WheelPress
        } else {
            MouseEventKind::WheelRelease
        };
        &&& r == Ok::<Reaction, InvalidKeyCode>(Reaction::Handled)
        &&& after.keyboard == self.keyboard
        &&& m.becomes(
            &after.mouse,
            m.x,
            m.y,
            if left {
                down
            } else {
                m.left_pressed
            },
            if right {
                down
            } else {
                m.right_pressed
            },
            if !left && !right {
                down
            } else {
                m.wheel_pressed
            },
            m.is_in_window,
            m.event_here(kind),
        )
    }

    /// Fresh input state for a client area of `width` by `height` pixels.
    pub fn new(width: i16, height: i16) -> (r: Input)
        ensures
            r.wf(),
            r.keyboard.is_cleared(),
            !r.keyboard.auto_repeat_enabled,
            r.mouse.is_cleared(),
            r.max_x == width,
            r.max_y == height,
    {
        Input { keyboard: Keyboard::new(), mouse: Mouse::new(), max_x: width, max_y: height }
    }

    /// Applies decoded message `m` to the input state and says what the
    /// platform side must do; a key code outside `0..=255` is refused.
    pub fn dispatch(&mut self, m: WindowMessage) -> (r: Result<Reaction, InvalidKeyCode>)
        requires
            old(self).wf(),
        ensures
            final(self).wf(),
            old(self).dispatched(&*final(self), m, r),
    {
        match m {
            WindowMessage::FocusLost => {
                self.keyboard.reset();
                self.mouse.reset();
                Ok(Reaction::Handled)
            },
            WindowMessage::Close => Ok(Reaction::DestroyWindow),
            WindowMessage::Destroy => Ok(Reaction::PostQuit(0)),
            WindowMessage::Char(code) => {
                if code <= u32::MAX as usize {
                    self.keyboard.on_char(code as u32);
                }
                Ok(Reaction::Handled)
            },
            WindowMessage::KeyDown { code, repeat } => {
                if code >= KEY_COUNT {
                    return Err(InvalidKeyCode { code: code as u64 });
                }
                if repeat {
                    self.keyboard.enable_auto_repeat();
                }
                match self.keyboard.on_key_press(code as u32) {
                    Ok(()) => Ok(Reaction::Handled),
                    Err(e) => Err(e),
                }
            },
            WindowMessage::KeyUp { code } => {
                if code >= KEY_COUNT {
                    return Err(InvalidKeyCode { code: code as u64 });
                }
                self.keyboard.disable_auto_repeat();
                match self.keyboard.on_key_release(code as u32) {
                    Ok(()) => Ok(Reaction::Handled),
                    Err(e) => Err(e),
                }
            },
            WindowMessage::MouseMove { point, buttons_held } => {
                if 0 <= point.x && point.x <= self.max_x && 0 <= point.y && point.y <= self.max_y {
                    self.mouse.on_mouse_move(point);
                    if !self.mouse.is_in_window {
                        self.mouse.on_mouse_enter();
                        Ok(Reaction::CaptureMouse)
                    } else {
                        Ok(Reaction::Handled)
                    }
                } else if buttons_held {
                    self.mouse.on_mouse_move(point);
                    Ok(Reaction::Handled)
                } else {
                    self.mouse.on_mouse_leave();
                    Ok(Reaction::ReleaseMouse)
                }
            },
            WindowMessage::LeftDown => {
                self.mouse.on_left_press();
                Ok(Reaction::Handled)
            },
            WindowMessage::LeftUp => {
                self.mouse.on_left_release();
                Ok(Reaction::Handled)
            },
            WindowMessage::RightDown => {
                self.mouse.on_right_press();
                Ok(Reaction::Handled)
            },
            WindowMessage::RightUp => {
                self.mouse.on_right_release();
                Ok(Reaction::Handled)
            },
            WindowMessage::MiddleDown => {
                self.mouse.on_wheel_press();
                Ok(Reaction::Handled)
            },
            WindowMessage::MiddleUp => {
                self.mouse.on_wheel_release();
                Ok(Reaction::Handled)
            },
            WindowMessage::Wheel { point, delta } => {
                self.mouse.on_wheel_delta(point.x, point.y, delta);
                Ok(Reaction::Handled)
            },
            WindowMessage::Quit(_) | WindowMessage::Other => Ok(Reaction::Default),
        }
    }

    /// Decodes message `msg` with its parameters and dispatches it.
    pub fn handle_message(&mut self, msg: u32, wparam: usize, lparam: isize) -> (r: Result<
        Reaction,
        InvalidKeyCode,
    >)
        requires
            old(self).wf(),
        ensures
            final(self).wf(),
            exists|m: WindowMessage|
                decoded(msg, wparam, lparam, m) && old(self).dispatched(&*final(self), m, r),
    {
        let m = decode(msg, wparam, lparam);
        let r = self.dispatch(m);
        assert(decoded(msg, wparam, lparam, m) && old(self).dispatched(&*self, m, r));
        r
    }
}

} // verus!
