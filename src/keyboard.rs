//! Keyboard state: a pressed flag per virtual-key code and two bounded FIFO
//! queues (key events and typed characters) that drop their oldest entries.

use vstd::prelude::*;

use vstd::utf8::char_u32_cast;

use crate::text::{char_of, is_char_code};

verus! {

/// Capacity of every input queue; older entries are dropped beyond it.
pub const MAX_BUFFER_SIZE: usize = 16;

/// Number of virtual-key codes tracked (codes `0..=255`).
pub const KEY_COUNT: usize = 256;

/// The last `MAX_BUFFER_SIZE` elements of `s`, in arrival order.
pub open spec fn newest<T>(s: Seq<T>) -> Seq<T> {
    if s.len() > MAX_BUFFER_SIZE {
        s.subrange(s.len() - MAX_BUFFER_SIZE, s.len() as int)
    } else {
        s
    }
}

/// Whether a key went down or up.
#[derive(Debug, Clone, Copy, PartialEq, Eq, Structural)]
pub enum KeyState {
    Press,
    Release,
}

/// One key transition, as queued by the keyboard.
#[derive(Debug, Clone, Copy, PartialEq, Eq, Structural)]
pub struct KeyEvent {
    pub key_state: KeyState,
    pub key_code: u32,
}

/// A key code outside `0..=255` was handed to the keyboard.
#[derive(Debug, Clone, Copy, PartialEq, Eq, Structural)]
pub struct InvalidKeyCode {
    pub code: u64,
}

/// Drops the oldest elements of `buffer` until at most `MAX_BUFFER_SIZE` remain.
pub fn trim_buffer<T>(buffer: &mut Vec<T>)
    ensures
        final(buffer)@ == newest(old(buffer)@),
{
    while buffer.len() > MAX_BUFFER_SIZE
        invariant
            old(buffer)@.len() <= MAX_BUFFER_SIZE ==> buffer@ == old(buffer)@,
            old(buffer)@.len() > MAX_BUFFER_SIZE ==> buffer@.len() >= MAX_BUFFER_SIZE,
            buffer@.len() <= old(buffer)@.len(),
            buffer@ == old(buffer)@.subrange(
                old(buffer)@.len() - buffer@.len(),
                old(buffer)@.len() as int,
            ),
        decreases buffer.len(),
    {
        buffer.remove(0);
    }
}

/// Keyboard state fed by window messages and read once per frame.
#[derive(Debug, Clone)]
pub struct Keyboard {
    /// `key_states[c]` is true while key `c` is held down.
    pub key_states: Vec<bool>,
    /// The most recent key transitions, oldest first.
    pub key_queue: Vec<KeyEvent>,
    /// The most recent typed characters, oldest first.
    pub char_queue: Vec<char>,
    /// Set while the platform reports key-down messages as repeats.
    pub auto_repeat_enabled: bool,
}

/// The pressed flags after `event`: its key is set on a press, cleared on a release.
pub open spec fn apply_key_event(states: Seq<bool>, event: KeyEvent) -> Seq<bool> {
    states.update(event.key_code as int, event.key_state == KeyState::Press)
}

/// The key queue after `event` has been appended and the queue trimmed.
pub open spec fn enqueue<T>(queue: Seq<T>, item: T) -> Seq<T> {
    newest(queue.push(item))
}

impl Keyboard {
    /// A valid keyboard: one flag per key code, queues within their capacity.
    pub open spec fn wf(&self) -> bool {
        &&& self.key_states@.len() == KEY_COUNT
        &&& self.key_queue@.len() <= MAX_BUFFER_SIZE
        &&& self.char_queue@.len() <= MAX_BUFFER_SIZE
    }

    /// Whether key `code` is held down.
    pub open spec fn is_pressed(&self, code: int) -> bool {
        self.key_states@[code]
    }

    /// All keys up, both queues empty.
    pub open spec fn is_cleared(&self) -> bool {
        &&& self.key_states@ == Seq::new(KEY_COUNT as nat, |i: int| false)
        &&& self.key_queue@.len() == 0
        &&& self.char_queue@.len() == 0
    }

    /// The state change of a pop-read of `code`: its flag is cleared, nothing else moves.
    pub open spec fn popped(&self, after: &Keyboard, code: int) -> bool {
        &&& after.key_states@ == self.key_states@.update(code, false)
        &&& after.key_queue@ == self.key_queue@
        &&& after.char_queue@ == self.char_queue@
        &&& after.auto_repeat_enabled == self.auto_repeat_enabled
    }

    /// The key state change of `event`: its flag follows the event and the
    /// event is queued; the character queue stays.
    pub open spec fn keys_recorded(&self, after: &Keyboard, event: KeyEvent) -> bool {
        &&& after.key_states@ == apply_key_event(self.key_states@, event)
        &&& after.key_queue@ == enqueue(self.key_queue@, event)
        &&& after.char_queue@ == self.char_queue@
    }

    /// The state change of key `event`, with auto-repeat left as it was.
    pub open spec fn recorded(&self, after: &Keyboard, event: KeyEvent) -> bool {
        &&& self.keys_recorded(after, event)
        &&& after.auto_repeat_enabled == self.auto_repeat_enabled
    }

    /// The state change of character code `code`: a Unicode scalar value is
    /// queued as its character, any other code is dropped.
    pub open spec fn typed(&self, after: &Keyboard, code: u32) -> bool {
        &&& after.key_states@ == self.key_states@
        &&& after.key_queue@ == self.key_queue@
        &&& after.auto_repeat_enabled == self.auto_repeat_enabled
        &&& !is_char_code(code) ==> after.char_queue@ == self.char_queue@
        &&& is_char_code(code) ==> after.char_queue@ == enqueue(self.char_queue@, code as char)
    }

    fn all_released() -> (r: Vec<bool>)
        ensures
            r@ == Seq::new(KEY_COUNT as nat, |i: int| false),
    {
        let mut states: Vec<bool> = Vec::new();
        let mut i: usize = 0;
        while i < KEY_COUNT
            invariant
                i <= KEY_COUNT,
                states@ == Seq::new(i as nat, |j: int| false),
            decreases KEY_COUNT - i,
        {
            states.push(false);
            i = i + 1;
        }
        states
    }

    /// A keyboard with every key up, empty queues and auto-repeat off.
    pub fn new() -> (r: Keyboard)
        ensures
            r.wf(),
            r.is_cleared(),
            !r.auto_repeat_enabled,
    {
        Keyboard {
            key_states: Self::all_released(),
            key_queue: Vec::new(),
            char_queue: Vec::new(),
            auto_repeat_enabled: false,
        }
    }

    /// Releases every key and empties both queues.
    pub fn reset(&mut self)
        ensures
            final(self).wf(),
            final(self).is_cleared(),
            final(self).auto_repeat_enabled == old(self).auto_repeat_enabled,
    {
        self.key_states = Self::all_released();
        self.key_queue = Vec::new();
        self.char_queue = Vec::new();
    }

    /// Reads whether `target_key` is down and then releases it, so that a
    /// press is observed once.
    pub fn key_is_pressed_pop(&mut self, target_key: u16) -> (r: Result<bool, InvalidKeyCode>)
        requires
            old(self).wf(),
        ensures
            final(self).wf(),
            (target_key as usize) < KEY_COUNT ==> {
                &&& r == Ok::<bool, InvalidKeyCode>(old(self).is_pressed(target_key as int))
                &&& old(self).popped(&*final(self), target_key as int)
            },
            (target_key as usize) >= KEY_COUNT ==> {
                &&& r == Err::<bool, InvalidKeyCode>(InvalidKeyCode { code: target_key as u64 })
                &&& *final(self) == *old(self)
            },
    {
        let code = target_key as usize;
        if code >= KEY_COUNT {
            return Err(InvalidKeyCode { code: target_key as u64 });
        }
        let state = self.key_states[code];
        self.key_states.set(code, false);
        Ok(state)
    }

    /// Reads whether `target_key` is down without changing anything.
    pub fn key_is_pressed(&self, target_key: u16) -> (r: Result<bool, InvalidKeyCode>)
        requires
            self.wf(),
        ensures
            (target_key as usize) < KEY_COUNT ==> r == Ok::<bool, InvalidKeyCode>(
                self.is_pressed(target_key as int),
            ),
            (target_key as usize) >= KEY_COUNT ==> r == Err::<bool, InvalidKeyCode>(
                InvalidKeyCode { code: target_key as u64 },
            ),
    {
        let code = target_key as usize;
        if code >= KEY_COUNT {
            return Err(InvalidKeyCode { code: target_key as u64 });
        }
        Ok(self.key_states[code])
    }

    /// Removes and returns the oldest queued key event.
    pub fn read_key(&mut self) -> (r: Option<KeyEvent>)
        requires
            old(self).wf(),
        ensures
            final(self).wf(),
            final(self).key_states@ == old(self).key_states@,
            final(self).char_queue@ == old(self).char_queue@,
            final(self).auto_repeat_enabled == old(self).auto_repeat_enabled,
            old(self).key_queue@.len() == 0 ==> r is None && final(self).key_queue@.len() == 0,
            old(self).key_queue@.len() > 0 ==> {
                &&& r == Some(old(self).key_queue@[0])
                &&& final(self).key_queue@ == old(self).key_queue@.drop_first()
            },
    {
        if self.key_queue.len() == 0 {
            return None;
        }
        Some(self.key_queue.remove(0))
    }

    /// Removes and returns the oldest queued character.
    pub fn read_char(&mut self) -> (r: Option<char>)
        requires
            old(self).wf(),
        ensures
            final(self).wf(),
            final(self).key_states@ == old(self).key_states@,
            final(self).key_queue@ == old(self).key_queue@,
            final(self).auto_repeat_enabled == old(self).auto_repeat_enabled,
            old(self).char_queue@.len() == 0 ==> r is None && final(self).char_queue@.len() == 0,
            old(self).char_queue@.len() > 0 ==> {
                &&& r == Some(old(self).char_queue@[0])
                &&& final(self).char_queue@ == old(self).char_queue@.drop_first()
            },
    {
        if self.char_queue.len() == 0 {
            return None;
        }
        Some(self.char_queue.remove(0))
    }

    /// Empties the key-event queue.
    pub fn clear_key_queue(&mut self)
        ensures
            final(self).key_queue@.len() == 0,
            final(self).key_states@ == old(self).key_states@,
            final(self).char_queue@ == old(self).char_queue@,
            final(self).auto_repeat_enabled == old(self).auto_repeat_enabled,
    {
        self.key_queue = Vec::new();
    }

    /// Empties the character queue.
    pub fn clear_char_queue(&mut self)
        ensures
            final(self).char_queue@.len() == 0,
            final(self).key_states@ == old(self).key_states@,
            final(self).key_queue@ == old(self).key_queue@,
            final(self).auto_repeat_enabled == old(self).auto_repeat_enabled,
    {
        self.char_queue = Vec::new();
    }

    /// Empties both queues.
    pub fn clear_all_queues(&mut self)
        ensures
            final(self).char_queue@.len() == 0,
            final(self).key_queue@.len() == 0,
            final(self).key_states@ == old(self).key_states@,
            final(self).auto_repeat_enabled == old(self).auto_repeat_enabled,
    {
        self.clear_char_queue();
        self.clear_key_queue();
    }

    /// Records that key-down messages are no longer repeats.
    pub fn disable_auto_repeat(&mut self)
        ensures
            *final(self) == (Keyboard { auto_repeat_enabled: false, ..*old(self) }),
    {
        self.auto_repeat_enabled = false;
    }

    /// Records that key-down messages arrive as repeats.
    pub fn enable_auto_repeat(&mut self)
        ensures
            *final(self) == (Keyboard { auto_repeat_enabled: true, ..*old(self) }),
    {
        self.auto_repeat_enabled = true;
    }

    fn record(&mut self, event: KeyEvent)
        requires
            old(self).wf(),
            (event.key_code as usize) < KEY_COUNT,
        ensures
            final(self).wf(),
            old(self).recorded(&*final(self), event),
    {
        self.key_states.set(event.key_code as usize, event.key_state == KeyState::Press);
        self.key_queue.push(event);
        trim_buffer(&mut self.key_queue);
    }

    /// Marks `key_code` as down and queues a press event.
    pub fn on_key_press(&mut self, key_code: u32) -> (r: Result<(), InvalidKeyCode>)
        requires
            old(self).wf(),
        ensures
            final(self).wf(),
            (key_code as usize) < KEY_COUNT ==> r is Ok && old(self).recorded(
                &*final(self),
                KeyEvent { key_state: KeyState::Press, key_code },
            ),
            (key_code as usize) >= KEY_COUNT ==> r == Err::<(), InvalidKeyCode>(
                InvalidKeyCode { code: key_code as u64 },
            ) && *final(self) == *old(self),
    {
        if key_code as usize >= KEY_COUNT {
            return Err(InvalidKeyCode { code: key_code as u64 });
        }
        self.record(KeyEvent { key_state: KeyState::Press, key_code });
        Ok(())
    }

    /// Marks `key_code` as up and queues a release event.
    pub fn on_key_release(&mut self, key_code: u32) -> (r: Result<(), InvalidKeyCode>)
        requires
            old(self).wf(),
        ensures
            final(self).wf(),
            (key_code as usize) < KEY_COUNT ==> r is Ok && old(self).recorded(
                &*final(self),
                KeyEvent { key_state: KeyState::Release, key_code },
            ),
            (key_code as usize) >= KEY_COUNT ==> r == Err::<(), InvalidKeyCode>(
                InvalidKeyCode { code: key_code as u64 },
            ) && *final(self) == *old(self),
    {
        if key_code as usize >= KEY_COUNT {
            return Err(InvalidKeyCode { code: key_code as u64 });
        }
        self.record(KeyEvent { key_state: KeyState::Release, key_code });
        Ok(())
    }

    /// Decodes `char_code` and queues the character; a code that is not a
    /// Unicode scalar value is dropped.
    pub fn on_char(&mut self, char_code: u32)
        requires
            old(self).wf(),
        ensures
            final(self).wf(),
            old(self).typed(&*final(self), char_code),
    {
        if let Some(c) = char_of(char_code) {
            self.char_queue.push(c);
            trim_buffer(&mut self.char_queue);
            proof {
                char_u32_cast(c, char_code);
            }
        }
    }
}

/// The pressed flags after `events`, applied oldest first.
pub open spec fn apply_key_events(states: Seq<bool>, events: Seq<KeyEvent>) -> Seq<bool>
    decreases events.len(),
{
    if events.len() == 0 {
        states
    } else {
        apply_key_event(apply_key_events(states, events.drop_last()), events.last())
    }
}

/// A queue after each of `items` has been enqueued in turn.
pub open spec fn enqueue_all<T>(queue: Seq<T>, items: Seq<T>) -> Seq<T>
    decreases items.len(),
{
    if items.len() == 0 {
        queue
    } else {
        enqueue(enqueue_all(queue, items.drop_last()), items.last())
    }
}

/// After any sequence of presses and releases, the flag of a key is set by
/// the last event on that key, and is unchanged if no event touched it.
pub proof fn lemma_last_key_event_wins(states: Seq<bool>, events: Seq<KeyEvent>, code: int)
    requires
        states.len() == KEY_COUNT,
        0 <= code < KEY_COUNT,
        forall|i: int| 0 <= i < events.len() ==> (#[trigger] events[i].key_code as int) < KEY_COUNT,
    ensures
        apply_key_events(states, events).len() == KEY_COUNT,
        forall|i: int|
            0 <= i < events.len() && events[i].key_code == code && (forall|j: int|
                i < j < events.len() ==> #[trigger] events[j].key_code != code) ==> apply_key_events(
                states,
                events,
            )[code] == (events[i].key_state == KeyState::Press),
        (forall|i: int| 0 <= i < events.len() ==> #[trigger] events[i].key_code != code)
            ==> apply_key_events(states, events)[code] == states[code],
    decreases events.len(),
{
    if events.len() > 0 {
        let prefix = events.drop_last();
        lemma_last_key_event_wins(states, prefix, code);
        assert forall|i: int|
            0 <= i < events.len() && events[i].key_code == code && (forall|j: int|
                i < j < events.len() ==> #[trigger] events[j].key_code != code) implies apply_key_events(
            states,
            events,
        )[code] == (events[i].key_state == KeyState::Press) by {
            if i < events.len() - 1 {
                assert(prefix[i] == events[i]);
                assert forall|j: int| i < j < prefix.len() implies #[trigger] prefix[j].key_code
                    != code by {
                    assert(prefix[j] == events[j]);
                }
            }
        }
        if forall|i: int| 0 <= i < events.len() ==> #[trigger] events[i].key_code != code {
            assert forall|i: int| 0 <= i < prefix.len() implies #[trigger] prefix[i].key_code
                != code by {
                assert(prefix[i] == events[i]);
            }
        }
    }
}

proof fn lemma_newest_push<T>(s: Seq<T>, x: T)
    ensures
        newest(newest(s).push(x)) == newest(s.push(x)),
{
    assert(newest(newest(s).push(x)) =~= newest(s.push(x)));
}

/// Trimming after every push keeps exactly the newest entries of the whole
/// history, in arrival order, and never more than the capacity.
pub proof fn lemma_queue_keeps_newest<T>(queue: Seq<T>, items: Seq<T>)
    requires
        queue.len() <= MAX_BUFFER_SIZE,
    ensures
        enqueue_all(queue, items) == newest(queue + items),
        enqueue_all(queue, items).len() <= MAX_BUFFER_SIZE,
    decreases items.len(),
{
    if items.len() > 0 {
        let prefix = items.drop_last();
        lemma_queue_keeps_newest(queue, prefix);
        lemma_newest_push(queue + prefix, items.last());
        assert((queue + prefix).push(items.last()) =~= queue + items);
    } else {
        assert(queue + items =~= queue);
    }
}

/// A pop-read of a key leaves it released, so a plain read right after it
/// reports the key as up.
pub proof fn lemma_pop_then_read(before: Keyboard, after: Keyboard, code: u16)
    requires
        before.wf(),
        (code as usize) < KEY_COUNT,
        before.popped(&after, code as int),
    ensures
        after.wf(),
        !after.is_pressed(code as int),
{
}

} // verus!
