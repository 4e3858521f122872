//! Per-frame decisions of the frame driver: collecting typed text and
//! frame-rate statistics. Clock reads, drawing and presenting happen around
//! them.

use vstd::prelude::*;

use crate::keyboard::Keyboard;

verus! {

/// Virtual-key code of the Return key.
pub const VK_RETURN: u16 = 13;

/// Relies on `String::push`: appends one character.
#[verifier::external_body]
fn push_char(s: &mut String, c: char)
    ensures
        final(s)@ == old(s)@.push(c),
{
    s.push(c);
}

/// One frame of text entry: the oldest typed character, if any, is appended
/// to `input_buffer`; then a pending Return press is consumed and, if there
/// was one, the line typed so far is handed back and the buffer emptied.
pub fn take_typed_line(keyboard: &mut Keyboard, input_buffer: &mut String) -> (r: Option<String>)
    requires
        old(keyboard).wf(),
    ensures
        final(keyboard).wf(),
        ({
            let typed = if old(keyboard).char_queue@.len() > 0 {
                old(input_buffer)@.push(old(keyboard).char_queue@[0])
            } else {
                old(input_buffer)@
            };
            &&& final(keyboard).char_queue@ == if old(keyboard).char_queue@.len() > 0 {
                old(keyboard).char_queue@.drop_first()
            } else {
                old(keyboard).char_queue@
            }
            &&& final(keyboard).key_queue@ == old(keyboard).key_queue@
            &&& final(keyboard).key_states@ == old(keyboard).key_states@.update(
                VK_RETURN as int,
                false,
            )
            &&& final(keyboard).auto_repeat_enabled == old(keyboard).auto_repeat_enabled
            &&& old(keyboard).is_pressed(VK_RETURN as int) ==> (r matches Some(line) && line@ == typed
                && final(input_buffer)@.len() == 0)
            &&& !old(keyboard).is_pressed(VK_RETURN as int) ==> r is None && final(input_buffer)@
                == typed
        }),
{
    if let Some(ch) = keyboard.read_char() {
        push_char(input_buffer, ch);
    }
    match keyboard.key_is_pressed_pop(VK_RETURN) {
        Ok(true) => {
            let line = input_buffer.clone();
            *input_buffer = String::new();
            Some(line)
        },
        _ => None,
    }
}

/// Frame-rate statistics over the frames recorded so far.
#[derive(Debug, Clone, Copy, PartialEq, Eq, Structural)]
pub struct Fps {
    pub high: u128,
    pub low: u128,
    pub total: u128,
    pub frames: u128,
}

/// Whole frames per second of a frame that took `frame_micros` microseconds.
pub open spec fn frames_per_second(frame_micros: u128) -> u128 {
    (1_000_000int / frame_micros as int) as u128
}

impl Fps {
    /// No frame recorded yet.
    pub fn new() -> (r: Fps)
        ensures
            r == (Fps { high: 0, low: u128::MAX, total: 0, frames: 0 }),
    {
        Fps { high: 0, low: u128::MAX, total: 0, frames: 0 }
    }

    /// Records a frame that took `frame_micros` microseconds. The sum and
    /// count saturate at their maximum.
    pub fn calc_fps(&mut self, frame_micros: u128)
        requires
            frame_micros > 0,
        ensures
            ({
                let cur = frames_per_second(frame_micros);
                &&& final(self).high == if old(self).high < cur {
                    cur
                } else {
                    old(self).high
                }
                &&& final(self).low == if old(self).low > cur {
                    cur
                } else {
                    old(self).low
                }
                &&& final(self).total == if old(self).total <= u128::MAX - cur {
                    (old(self).total + cur) as u128
                } else {
                    u128::MAX
                }
                &&& final(self).frames == if old(self).frames < u128::MAX {
                    (old(self).frames + 1) as u128
                } else {
                    u128::MAX
                }
            }),
    {
        let cur = 1_000_000 / frame_micros;
        if self.high < cur {
            self.high = cur;
        }
        if self.low > cur {
            self.low = cur;
        }
        self.total = if self.total <= u128::MAX - cur {
            self.total + cur
        } else {
            u128::MAX
        };
        self.frames = if self.frames < u128::MAX {
            self.frames + 1
        } else {
            u128::MAX
        };
    }

    /// The mean frame rate, once a frame has been recorded.
    pub fn average(&self) -> (r: Option<u128>)
        ensures
            self.frames == 0 ==> r is None,
            self.frames > 0 ==> r == Some((self.total / self.frames) as u128),
    {
        if self.frames == 0 {
            None
        } else {
            Some(self.total / self.frames)
        }
    }
}

} // verus!
