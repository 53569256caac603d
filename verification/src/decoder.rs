//! The modifier flags of the keyboard and what one byte from the keyboard
//! does to them.
//!
//! A byte is a scancode: the base code of a key in its low seven bits, and
//! in its top bit whether the key went down (clear) or came up (set). The
//! byte `0xE0` is no key: it announces that the next scancode belongs to the
//! extended set. `decode` says, for every flag state and every byte, which
//! state follows and which character, if any, is to be queued.

use vstd::prelude::*;
use crate::keymap::{
    get, is_caps_lock, is_letter, is_num_lock, is_shift, lemma_letter_keys, lemma_modifier_keys,
    lemma_lookup_assigned, lookup, spec_is_caps_lock, spec_is_letter, spec_is_num_lock,
    spec_is_shift, KeyCode, CAPS_LOCK, NUM_LOCK,
};

verus! {

/// The byte that announces a scancode of the extended set.
pub const EXTENDED_PREFIX: u8 = 0xE0;

/// The bit of a scancode that is set when the key came up.
pub const RELEASE_BIT: u8 = 0x80;

/// Whether a scancode reports a key that went down or one that came up.
#[derive(Clone, Copy, PartialEq, Eq, Structural, Debug)]
pub enum KeyState {
    KeyRelease,
    KeyPress,
}

/// The flags that the decoder keeps from one byte to the next.
#[derive(Clone, Copy, PartialEq, Eq, Structural, Debug)]
pub struct ModifierState {
    /// A shift key is held down.
    pub shift_active: bool,
    /// Caps lock is on.
    pub caps_lock_active: bool,
    /// Num lock is on.
    pub num_lock_active: bool,
    /// The last byte was the extended prefix.
    pub extended_pending: bool,
}

impl ModifierState {
    /// The state with every flag off.
    pub open spec fn spec_new() -> ModifierState {
        ModifierState {
            shift_active: false,
            caps_lock_active: false,
            num_lock_active: false,
            extended_pending: false,
        }
    }

    /// The state at start-up: every flag off.
    #[verifier::when_used_as_spec(spec_new)]
    pub fn new() -> (state: ModifierState)
        ensures
            state == Self::spec_new(),
    {
        ModifierState {
            shift_active: false,
            caps_lock_active: false,
            num_lock_active: false,
            extended_pending: false,
        }
    }

    /// This state with the extended prefix no longer pending.
    pub open spec fn settled(self) -> ModifierState {
        ModifierState { extended_pending: false, ..self }
    }
}

/// Whether the scancode `b` has its release bit set.
pub open spec fn is_release(b: u8) -> bool {
    b & RELEASE_BIT != 0
}

/// The scancode `b` without its release bit.
pub open spec fn spec_base_code(b: u8) -> u8 {
    b & 0x7F
}

/// Press or release, by the release bit of `sc`.
pub open spec fn spec_key_type(sc: u8) -> KeyState {
    if is_release(sc) {
        KeyState::KeyRelease
    } else {
        KeyState::KeyPress
    }
}

/// Whether `code` is a key that only sets a flag: shift, caps lock or num
/// lock.
pub open spec fn is_modifier(code: u8) -> bool {
    is_shift(code) || is_caps_lock(code) || is_num_lock(code)
}

/// Whether the key with base code `code` counts as shifted in `state`. Shift
/// shifts every key; caps lock turns that round, for letter keys only.
pub open spec fn effective_shift(state: ModifierState, code: u8) -> bool {
    state.shift_active != (state.caps_lock_active && is_letter(code))
}

/// The character that the key of row `pkc` makes in `state`; 0 if it makes
/// none. Num lock and a pending extended prefix have no say in it.
pub open spec fn spec_make_code(pkc: &KeyCode, state: &ModifierState) -> u8 {
    if effective_shift(*state, pkc.scode) {
        pkc.ascii2
    } else {
        pkc.ascii1
    }
}

/// What the byte `b` does in `state`: the state that follows, and the
/// character to queue, if there is one.
///
/// - The extended prefix is remembered and nothing else happens.
/// - Any other byte ends a pending prefix.
/// - A shift key sets the shift flag for as long as it is down.
/// - Caps lock and num lock flip their flag when the key comes up.
/// - Any other key that the table knows makes its character when it goes
///   down, unless that character is 0.
pub open spec fn decode(state: ModifierState, b: u8) -> (ModifierState, Option<u8>) {
    let release = is_release(b);
    let code = spec_base_code(b);
    if b == EXTENDED_PREFIX {
        (ModifierState { extended_pending: true, ..state }, None)
    } else if is_shift(code) {
        (ModifierState { shift_active: !release, ..state.settled() }, None)
    } else if is_caps_lock(code) && release {
        (ModifierState { caps_lock_active: !state.caps_lock_active, ..state.settled() }, None)
    } else if is_num_lock(code) && release {
        (ModifierState { num_lock_active: !state.num_lock_active, ..state.settled() }, None)
    } else {
        match lookup(code) {
            Some(entry) => if release || spec_make_code(&entry, &state) == 0 {
                (state.settled(), None)
            } else {
                (state.settled(), Some(spec_make_code(&entry, &state)))
            },
            None => (state.settled(), None),
        }
    }
}

/// The part of `decode` that `pause_handler` does: the state after a byte
/// whose base code is a modifier key.
pub open spec fn pause_step(state: ModifierState, b: u8) -> ModifierState {
    let release = is_release(b);
    let code = spec_base_code(b);
    if is_shift(code) {
        ModifierState { shift_active: !release, ..state.settled() }
    } else if is_caps_lock(code) && release {
        ModifierState { caps_lock_active: !state.caps_lock_active, ..state.settled() }
    } else if is_num_lock(code) && release {
        ModifierState { num_lock_active: !state.num_lock_active, ..state.settled() }
    } else {
        state.settled()
    }
}

/// The part of `decode` that `key_handler` does: the extended prefix, and
/// the keys that are looked up in the table.
pub open spec fn key_step(state: ModifierState, b: u8) -> (ModifierState, Option<u8>) {
    if b == EXTENDED_PREFIX {
        (ModifierState { extended_pending: true, ..state }, None)
    } else {
        match lookup(spec_base_code(b)) {
            Some(entry) => if is_release(b) || spec_make_code(&entry, &state) == 0 {
                (state.settled(), None)
            } else {
                (state.settled(), Some(spec_make_code(&entry, &state)))
            },
            None => (state.settled(), None),
        }
    }
}

/// Press or release, by the release bit of `sc`.
#[verifier::when_used_as_spec(spec_key_type)]
pub fn key_type(sc: u8) -> (state: KeyState)
    ensures
        state == spec_key_type(sc),
{
    if sc & RELEASE_BIT != 0 {
        KeyState::KeyRelease
    } else {
        KeyState::KeyPress
    }
}

/// The scancode `sc` without its release bit.
#[verifier::when_used_as_spec(spec_base_code)]
pub fn base_code(sc: u8) -> (code: u8)
    ensures
        code == spec_base_code(sc),
{
    sc & 0x7F
}

/// The character that the key of row `pkc` makes in `state`; 0 if it makes
/// none.
#[verifier::when_used_as_spec(spec_make_code)]
pub fn make_code(pkc: &KeyCode, state: &ModifierState) -> (code: u8)
    ensures
        code == spec_make_code(pkc, state),
{
    let shifted: bool = state.shift_active != (state.caps_lock_active && is_letter(pkc.scode));
    if shifted {
        pkc.ascii2
    } else {
        pkc.ascii1
    }
}

/// Handles the keys that only set a flag. Returns whether `src` was one of
/// them; if it was not, the state is left alone.
pub fn pause_handler(state: &mut ModifierState, src: u8) -> (handled: bool)
    ensures
        handled == is_modifier(base_code(src)),
        handled ==> *final(state) == pause_step(*old(state), src),
        handled ==> decode(*old(state), src) == (*final(state), None::<u8>),
        !handled ==> *final(state) == *old(state),
{
    let released: bool = matches!(key_type(src), KeyState::KeyRelease);
    let sc: u8 = base_code(src);
    proof {
        lemma_release_bit(src);
        if is_modifier(sc) {
            lemma_modifier_keys(sc);
        }
    }
    if is_shift(sc) {
        state.shift_active = !released;
        state.extended_pending = false;
        true
    } else if is_caps_lock(sc) {
        if released {
            state.caps_lock_active = !state.caps_lock_active;
        }
        state.extended_pending = false;
        true
    } else if is_num_lock(sc) {
        if released {
            state.num_lock_active = !state.num_lock_active;
        }
        state.extended_pending = false;
        true
    } else {
        false
    }
}

/// Handles the extended prefix and the keys that are looked up in the
/// table. Returns the character to queue, if the byte makes one.
pub fn key_handler(state: &mut ModifierState, src: u8) -> (emitted: Option<u8>)
    ensures
        (*final(state), emitted) == key_step(*old(state), src),
        !is_modifier(base_code(src)) ==> (*final(state), emitted) == decode(*old(state), src),
{
    proof {
        lemma_release_bit(src);
    }
    if src == EXTENDED_PREFIX {
        state.extended_pending = true;
        return None;
    }
    let pressed: bool = matches!(key_type(src), KeyState::KeyPress);
    let pkc: Option<KeyCode> = get(base_code(src));
    let mut emitted: Option<u8> = None;
    if let Some(key_code) = pkc {
        if pressed {
            let code: u8 = make_code(&key_code, state);
            if code != 0 {
                emitted = Some(code);
            }
        }
    }
    state.extended_pending = false;
    emitted
}

/// The release bit is the top bit: a scancode has it set exactly when it is
/// `0x80` or more, and the base code is the scancode less that bit.
pub proof fn lemma_release_bit(b: u8)
    ensures
        is_release(b) <==> b >= 0x80,
        spec_base_code(b) == if b >= 0x80 { b - 0x80 } else { b as int },
        spec_base_code(b) < 0x80,
        spec_base_code(EXTENDED_PREFIX) == 0x60,
{
    assert((b & 0x80 != 0) <==> b >= 0x80) by (bit_vector);
    assert(b >= 0x80 ==> b & 0x7F == b - 0x80) by (bit_vector);
    assert(b < 0x80 ==> b & 0x7F == b) by (bit_vector);
    assert(0xE0u8 & 0x7F == 0x60) by (bit_vector);
}

/// `decode` is `pause_step` on the modifier keys and `key_step` on every
/// other byte.
pub proof fn lemma_decode_split(state: ModifierState, b: u8)
    ensures
        is_modifier(base_code(b)) ==> decode(state, b) == (pause_step(state, b), None::<u8>),
        !is_modifier(base_code(b)) ==> decode(state, b) == key_step(state, b),
{
    lemma_release_bit(b);
    if is_modifier(base_code(b)) {
        lemma_modifier_keys(base_code(b));
    }
}

/// The extended prefix is pending after the prefix byte and after no other:
/// whatever follows the prefix ends it, whether or not it is a key that the
/// table knows.
pub proof fn lemma_extended_pending(state: ModifierState, b: u8)
    ensures
        decode(state, b).0.extended_pending == (b == EXTENDED_PREFIX),
        b == EXTENDED_PREFIX ==> decode(state, b) == (
            ModifierState { extended_pending: true, ..state },
            None::<u8>,
        ),
{
}

/// The extended prefix followed by a code that the table does not know
/// queues nothing and leaves the flags as they were before the prefix, with
/// no prefix pending.
pub proof fn lemma_prefix_then_unmapped(state: ModifierState, b: u8)
    requires
        b != EXTENDED_PREFIX,
        lookup(base_code(b)) is None,
    ensures
        decode(state, EXTENDED_PREFIX).1 is None,
        decode(decode(state, EXTENDED_PREFIX).0, b) == (state.settled(), None::<u8>),
{
    if is_modifier(base_code(b)) {
        lemma_modifier_keys(base_code(b));
    }
}

/// A key that comes up makes no character.
pub proof fn lemma_release_emits_nothing(state: ModifierState, b: u8)
    requires
        is_release(b),
    ensures
        decode(state, b).1 is None,
{
}

/// Shift is held, not toggled: the flag is on after a shift key went down
/// and off after it came up, whatever it was before. No other flag but the
/// pending prefix changes.
pub proof fn lemma_shift_is_held(state: ModifierState, b: u8)
    requires
        is_shift(base_code(b)),
    ensures
        decode(state, b) == (
            ModifierState { shift_active: !is_release(b), ..state.settled() },
            None::<u8>,
        ),
{
    lemma_release_bit(b);
}

/// Caps lock flips when the key comes up, not when it goes down: the press
/// leaves the flag as it is, the release that follows turns it round, and
/// neither queues a character.
pub proof fn lemma_caps_lock_edge(state: ModifierState)
    ensures
        decode(state, CAPS_LOCK) == (state.settled(), None::<u8>),
        decode(decode(state, CAPS_LOCK).0, CAPS_LOCK | RELEASE_BIT) == (
            ModifierState { caps_lock_active: !state.caps_lock_active, ..state.settled() },
            None::<u8>,
        ),
{
    assert(CAPS_LOCK | RELEASE_BIT == 0xBA) by (bit_vector);
    assert(0x3Au8 & 0x80 == 0) by (bit_vector);
    assert(0x3Au8 & 0x7F == 0x3A) by (bit_vector);
    assert(0xBAu8 & 0x80 != 0) by (bit_vector);
    assert(0xBAu8 & 0x7F == 0x3A) by (bit_vector);
    lemma_modifier_keys(CAPS_LOCK);
}

/// Num lock flips when the key comes up, as caps lock does.
pub proof fn lemma_num_lock_edge(state: ModifierState)
    ensures
        decode(state, NUM_LOCK) == (state.settled(), None::<u8>),
        decode(decode(state, NUM_LOCK).0, NUM_LOCK | RELEASE_BIT) == (
            ModifierState { num_lock_active: !state.num_lock_active, ..state.settled() },
            None::<u8>,
        ),
{
    assert(NUM_LOCK | RELEASE_BIT == 0xC5) by (bit_vector);
    assert(0x45u8 & 0x80 == 0) by (bit_vector);
    assert(0x45u8 & 0x7F == 0x45) by (bit_vector);
    assert(0xC5u8 & 0x80 != 0) by (bit_vector);
    assert(0xC5u8 & 0x7F == 0x45) by (bit_vector);
    lemma_modifier_keys(NUM_LOCK);
}

/// Caps lock has a say in letters only: for a key that is no letter, the
/// character made is the same with caps lock on and off.
pub proof fn lemma_caps_lock_spares_other_keys(state: ModifierState, b: u8)
    requires
        !is_letter(base_code(b)),
    ensures
        decode(ModifierState { caps_lock_active: !state.caps_lock_active, ..state }, b).1
            == decode(state, b).1,
{
    lemma_lookup_assigned(base_code(b));
}

/// Case of the letters: a letter key that goes down makes its capital when
/// exactly one of shift and caps lock is on, and its small letter when
/// neither is on or both are.
pub proof fn lemma_letter_case(state: ModifierState, b: u8)
    requires
        is_letter(base_code(b)),
        !is_release(b),
    ensures
        lookup(base_code(b)) is Some,
        decode(state, b).1 == Some(
            if state.shift_active != state.caps_lock_active {
                lookup(base_code(b))->0.ascii2
            } else {
                lookup(base_code(b))->0.ascii1
            },
        ),
        decode(state, b).0 == state.settled(),
{
    lemma_release_bit(b);
    lemma_letter_keys(base_code(b));
    lemma_lookup_assigned(base_code(b));
}

/// Num lock and a pending prefix have no say in the character: two states
/// that agree on shift and caps lock make the same character of every byte.
pub proof fn lemma_character_depends_on_shift_and_caps(s1: ModifierState, s2: ModifierState, b: u8)
    requires
        s1.shift_active == s2.shift_active,
        s1.caps_lock_active == s2.caps_lock_active,
    ensures
        decode(s1, b).1 == decode(s2, b).1,
{
}

} // verus!
