//! The keyboard as a whole: the decoder's flags together with the queue of
//! decoded characters.
//!
//! The interrupt side hands every byte it reads from the keyboard to
//! `put_scan_code`; readers take characters out with `getchar`. Both work on
//! one `Keyboard`, which the caller keeps behind a lock.

use vstd::prelude::*;
use crate::buffer::{front_spec, pop_spec, push_spec, KeyboardBuffer, BUF_SIZE};
use crate::decoder::{decode, key_handler, pause_handler, ModifierState};

verus! {

/// State of the keyboard driver.
pub struct Keyboard {
    modifiers: ModifierState,
    buffer: KeyboardBuffer,
}

impl View for Keyboard {
    type V = Seq<u8>;

    /// The characters decoded and not yet read, oldest first.
    closed spec fn view(&self) -> Seq<u8> {
        self.buffer@
    }
}

impl Keyboard {
    /// The decoder's flags.
    pub closed spec fn modifiers(&self) -> ModifierState {
        self.modifiers
    }

    /// The queue that holds the decoded characters.
    pub closed spec fn buffer(&self) -> KeyboardBuffer {
        self.buffer
    }
}

/// The queue `q` after the decoder has handed over `emitted`: the character
/// is appended if there is one and the queue has room for it.
pub open spec fn queue_after(q: Seq<u8>, emitted: Option<u8>) -> Seq<u8> {
    match emitted {
        Some(c) => push_spec(q, c),
        None => q,
    }
}

/// The keyboard at start-up: every flag off, nothing queued.
pub fn init() -> (keyboard: Keyboard)
    ensures
        keyboard.modifiers() == ModifierState::new(),
        keyboard@ == Seq::<u8>::empty(),
        keyboard.buffer().wf(),
        keyboard.buffer().head() == 0,
        keyboard.buffer().tail() == 0,
{
    Keyboard { modifiers: ModifierState::new(), buffer: KeyboardBuffer::new() }
}

/// Decodes one byte from the keyboard: brings the flags up to date and
/// queues the character that the byte makes, if it makes one. A character
/// that arrives at a full queue is dropped.
pub fn put_scan_code(keyboard: &mut Keyboard, sc: u8)
    ensures
        final(keyboard).modifiers() == decode(old(keyboard).modifiers(), sc).0,
        final(keyboard)@ == queue_after(old(keyboard)@, decode(old(keyboard).modifiers(), sc).1),
        final(keyboard)@.len() <= BUF_SIZE,
        final(keyboard).buffer().wf(),
        decode(old(keyboard).modifiers(), sc).1 is None ==> final(keyboard).buffer() == old(
            keyboard,
        ).buffer(),
{
    proof {
        use_type_invariant(&keyboard.buffer);
        keyboard.buffer.lemma_wf();
    }
    if pause_handler(&mut keyboard.modifiers, sc) {
        // a modifier key: the flags are set, and there is nothing to queue
    } else if let Some(character) = key_handler(&mut keyboard.modifiers, sc) {
        keyboard.buffer.push(character);
    }
}

/// Takes the oldest decoded character out of the queue, if there is one.
/// Returns at once either way. The decoder's flags are not touched.
pub fn getchar(keyboard: &mut Keyboard) -> (res: Option<u8>)
    ensures
        res == front_spec(old(keyboard)@),
        final(keyboard)@ == pop_spec(old(keyboard)@),
        final(keyboard)@.len() <= BUF_SIZE,
        final(keyboard).modifiers() == old(keyboard).modifiers(),
        final(keyboard).buffer().wf(),
        res is None ==> *final(keyboard) == *old(keyboard),
{
    keyboard.buffer.pop()
}

} // verus!
