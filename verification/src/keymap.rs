//! The fixed key table of a US keyboard in scancode set 1, and the classes
//! of keys that the decoder tells apart.
//!
//! Every function here takes a base code: a scancode without its release
//! bit.

use vstd::prelude::*;

verus! {

/// Base code of the left shift key.
pub const LEFT_SHIFT: u8 = 0x2A;

/// Base code of the right shift key.
pub const RIGHT_SHIFT: u8 = 0x36;

/// Base code of the caps-lock key.
pub const CAPS_LOCK: u8 = 0x3A;

/// Base code of the num-lock key.
pub const NUM_LOCK: u8 = 0x45;

/// One row of the key table.
#[derive(Clone, Copy, PartialEq, Eq, Structural, Debug)]
pub struct KeyCode {
    /// Character of the key alone; 0 where the key prints nothing.
    pub ascii1: u8,
    /// Character of the key with shift; 0 where that prints nothing.
    pub ascii2: u8,
    /// Scancode of the key; 0 marks a position that no key is assigned to.
    pub scode: u8,
    /// Virtual key code, which names the key whether or not it prints.
    pub kcode: u8,
}

/// Number of rows of the key table.
pub const KEY_MAP_LEN: usize = 94;

/// The key table, one row per position `0x00..=0x5D`. A row holds, in this
/// order: the character alone, the character with shift, the scancode, the
/// virtual key code.
pub const KEY_MAP: [[u8; 4]; KEY_MAP_LEN] = [
    [0x00, 0x00, 0x00, 0x00],  // 0x00  unassigned
    [0x00, 0x00, 0x01, 0x1B],  // 0x01  Escape
    [0x31, 0x21, 0x02, 0x31],  // 0x02  1 !
    [0x32, 0x40, 0x03, 0x32],  // 0x03  2 @
    [0x33, 0x23, 0x04, 0x33],  // 0x04  3 #
    [0x34, 0x24, 0x05, 0x34],  // 0x05  4 $
    [0x35, 0x25, 0x06, 0x35],  // 0x06  5 %
    [0x36, 0x5E, 0x07, 0x36],  // 0x07  6 ^
    [0x37, 0x26, 0x08, 0x37],  // 0x08  7 &
    [0x38, 0x2A, 0x09, 0x38],  // 0x09  8 *
    [0x39, 0x28, 0x0A, 0x39],  // 0x0A  9 (
    [0x30, 0x29, 0x0B, 0x30],  // 0x0B  0 )
    [0x2D, 0x5F, 0x0C, 0xBD],  // 0x0C  - _
    [0x3D, 0x2B, 0x0D, 0xBB],  // 0x0D  = +
    [0x00, 0x00, 0x0E, 0x08],  // 0x0E  Backspace
    [0x00, 0x00, 0x0F, 0x09],  // 0x0F  Tab
    [0x71, 0x51, 0x10, 0x51],  // 0x10  q Q
    [0x77, 0x57, 0x11, 0x57],  // 0x11  w W
    [0x65, 0x45, 0x12, 0x45],  // 0x12  e E
    [0x72, 0x52, 0x13, 0x52],  // 0x13  r R
    [0x74, 0x54, 0x14, 0x54],  // 0x14  t T
    [0x79, 0x59, 0x15, 0x59],  // 0x15  y Y
    [0x75, 0x55, 0x16, 0x55],  // 0x16  u U
    [0x69, 0x49, 0x17, 0x49],  // 0x17  i I
    [0x6F, 0x4F, 0x18, 0x4F],  // 0x18  o O
    [0x70, 0x50, 0x19, 0x50],  // 0x19  p P
    [0x5B, 0x7B, 0x1A, 0xDB],  // 0x1A  [ {
    [0x5D, 0x7D, 0x1B, 0xDD],  // 0x1B  ] }
    [0x00, 0x00, 0x1C, 0x0D],  // 0x1C  Enter
    [0x00, 0x00, 0x1D, 0x11],  // 0x1D  left Ctrl
    [0x61, 0x41, 0x1E, 0x41],  // 0x1E  a A
    [0x73, 0x53, 0x1F, 0x53],  // 0x1F  s S
    [0x64, 0x44, 0x20, 0x44],  // 0x20  d D
    [0x66, 0x46, 0x21, 0x46],  // 0x21  f F
    [0x67, 0x47, 0x22, 0x47],  // 0x22  g G
    [0x68, 0x48, 0x23, 0x48],  // 0x23  h H
    [0x6A, 0x4A, 0x24, 0x4A],  // 0x24  j J
    [0x6B, 0x4B, 0x25, 0x4B],  // 0x25  k K
    [0x6C, 0x4C, 0x26, 0x4C],  // 0x26  l L
    [0x3B, 0x3A, 0x27, 0xBA],  // 0x27  ; :
    [0x27, 0x22, 0x28, 0xDE],  // 0x28  ' "
    [0x60, 0x7E, 0x29, 0xC0],  // 0x29  ` ~
    [0x00, 0x00, 0x2A, 0x10],  // 0x2A  left Shift
    [0x5C, 0x7C, 0x2B, 0xDC],  // 0x2B  \ |
    [0x7A, 0x5A, 0x2C, 0x5A],  // 0x2C  z Z
    [0x78, 0x58, 0x2D, 0x58],  // 0x2D  x X
    [0x63, 0x43, 0x2E, 0x43],  // 0x2E  c C
    [0x76, 0x56, 0x2F, 0x56],  // 0x2F  v V
    [0x62, 0x42, 0x30, 0x42],  // 0x30  b B
    [0x6E, 0x4E, 0x31, 0x4E],  // 0x31  n N
    [0x6D, 0x4D, 0x32, 0x4D],  // 0x32  m M
    [0x2C, 0x3C, 0x33, 0xBC],  // 0x33  , <
    [0x2E, 0x3E, 0x34, 0xBE],  // 0x34  . >
    [0x2F, 0x3F, 0x35, 0xBF],  // 0x35  / ?
    [0x00, 0x00, 0x36, 0x10],  // 0x36  right Shift
    [0x2A, 0x2A, 0x37, 0x6A],  // 0x37  keypad *
    [0x00, 0x00, 0x38, 0x12],  // 0x38  Alt
    [0x20, 0x00, 0x39, 0x20],  // 0x39  Space
    [0x00, 0x00, 0x3A, 0x14],  // 0x3A  Caps Lock
    [0x00, 0x00, 0x3B, 0x70],  // 0x3B  F1
    [0x00, 0x00, 0x3C, 0x71],  // 0x3C  F2
    [0x00, 0x00, 0x3D, 0x72],  // 0x3D  F3
    [0x00, 0x00, 0x3E, 0x73],  // 0x3E  F4
    [0x00, 0x00, 0x3F, 0x74],  // 0x3F  F5
    [0x00, 0x00, 0x40, 0x75],  // 0x40  F6
    [0x00, 0x00, 0x41, 0x76],  // 0x41  F7
    [0x00, 0x00, 0x42, 0x77],  // 0x42  F8
    [0x00, 0x00, 0x43, 0x78],  // 0x43  F9
    [0x00, 0x00, 0x44, 0x79],  // 0x44  F10
    [0x00, 0x00, 0x45, 0x90],  // 0x45  Num Lock
    [0x00, 0x00, 0x46, 0x91],  // 0x46  Scroll Lock
    [0x00, 0x00, 0x47, 0x24],  // 0x47  Home
    [0x00, 0x00, 0x48, 0x26],  // 0x48  Up
    [0x00, 0x00, 0x49, 0x21],  // 0x49  Page Up
    [0x00, 0x00, 0x4A, 0x6D],  // 0x4A  keypad -
    [0x00, 0x00, 0x4B, 0x25],  // 0x4B  Left
    [0x00, 0x00, 0x4C, 0x0C],  // 0x4C  keypad 5
    [0x00, 0x00, 0x4D, 0x27],  // 0x4D  Right
    [0x00, 0x00, 0x4E, 0x6B],  // 0x4E  keypad +
    [0x00, 0x00, 0x4F, 0x23],  // 0x4F  End
    [0x00, 0x00, 0x50, 0x28],  // 0x50  Down
    [0x00, 0x00, 0x51, 0x22],  // 0x51  Page Down
    [0x00, 0x00, 0x52, 0x2D],  // 0x52  Insert
    [0x00, 0x00, 0x53, 0x2E],  // 0x53  Delete
    [0x00, 0x00, 0x54, 0x0D],  // 0x54  Enter
    [0x00, 0x00, 0x00, 0x00],  // 0x55  unassigned
    [0x00, 0x00, 0x00, 0x00],  // 0x56  unassigned
    [0x00, 0x00, 0x57, 0x7A],  // 0x57  F11
    [0x00, 0x00, 0x58, 0x7B],  // 0x58  F12
    [0x00, 0x00, 0x00, 0x00],  // 0x59  unassigned
    [0x00, 0x00, 0x00, 0x00],  // 0x5A  unassigned
    [0x00, 0x00, 0x5B, 0x5B],  // 0x5B  left GUI
    [0x00, 0x00, 0x5C, 0x5C],  // 0x5C  right GUI
    [0x00, 0x00, 0x5D, 0x5D],  // 0x5D  Menu
];

/// Row `i` of the key table as a `KeyCode`.
pub open spec fn key_map_entry(i: int) -> KeyCode {
    KeyCode {
        ascii1: KEY_MAP[i][0],
        ascii2: KEY_MAP[i][1],
        scode: KEY_MAP[i][2],
        kcode: KEY_MAP[i][3],
    }
}

/// The key table as the sequence of its rows.
pub open spec fn key_map() -> Seq<KeyCode> {
    Seq::new(KEY_MAP_LEN as nat, |i: int| key_map_entry(i))
}

/// The row of the key with base code `code`: the row at position `code`,
/// where a key is assigned to that position. Code 0 stands for no key.
pub open spec fn lookup(code: u8) -> Option<KeyCode> {
    if code != 0 && code < KEY_MAP_LEN && key_map()[code as int].scode == code {
        Some(key_map()[code as int])
    } else {
        None
    }
}

/// Whether row `i` is the first row of the table with scancode `code`.
pub open spec fn is_first_match(code: u8, i: int) -> bool {
    &&& 0 <= i < KEY_MAP_LEN
    &&& key_map()[i].scode == code
    &&& forall|j: int| 0 <= j < i ==> (#[trigger] key_map()[j]).scode != code
}

/// Whether `code` is one of the two shift keys.
pub open spec fn spec_is_shift(code: u8) -> bool {
    code == LEFT_SHIFT || code == RIGHT_SHIFT
}

/// Whether `code` is the caps-lock key.
pub open spec fn spec_is_caps_lock(code: u8) -> bool {
    code == CAPS_LOCK
}

/// Whether `code` is the num-lock key.
pub open spec fn spec_is_num_lock(code: u8) -> bool {
    code == NUM_LOCK
}

/// Whether `code` is a letter key: a key of one of the three letter rows,
/// `q`..`p`, `a`..`l` or `z`..`m`.
pub open spec fn spec_is_letter(code: u8) -> bool {
    ||| 0x10 <= code <= 0x19
    ||| 0x1E <= code <= 0x26
    ||| 0x2C <= code <= 0x32
}

/// Left or right shift.
#[verifier::when_used_as_spec(spec_is_shift)]
pub fn is_shift(sc: u8) -> (res: bool)
    ensures
        res == spec_is_shift(sc),
{
    sc == LEFT_SHIFT || sc == RIGHT_SHIFT
}

/// The caps-lock key.
#[verifier::when_used_as_spec(spec_is_caps_lock)]
pub fn is_caps_lock(sc: u8) -> (res: bool)
    ensures
        res == spec_is_caps_lock(sc),
{
    sc == CAPS_LOCK
}

/// The num-lock key.
#[verifier::when_used_as_spec(spec_is_num_lock)]
pub fn is_num_lock(sc: u8) -> (res: bool)
    ensures
        res == spec_is_num_lock(sc),
{
    sc == NUM_LOCK
}

/// A letter key: the one kind of key whose case caps lock turns round.
#[verifier::when_used_as_spec(spec_is_letter)]
pub fn is_letter(sc: u8) -> (res: bool)
    ensures
        res == spec_is_letter(sc),
{
    if sc >= 0x10 && sc <= 0x19 {
        return true;
    } else if sc >= 0x1E && sc <= 0x26 {
        return true;
    } else if sc >= 0x2C && sc <= 0x32 {
        return true;
    }
    false
}

/// Reads row `i` of the table.
fn row(i: usize) -> (k: KeyCode)
    requires
        i < KEY_MAP_LEN,
    ensures
        k == key_map()[i as int],
{
    KeyCode {
        ascii1: KEY_MAP[i][0],
        ascii2: KEY_MAP[i][1],
        scode: KEY_MAP[i][2],
        kcode: KEY_MAP[i][3],
    }
}

/// Looks the key with base code `sc` up by a scan of the table from its
/// first row. Code 0 is the mark of an empty row and is never found.
pub fn get(sc: u8) -> (res: Option<KeyCode>)
    ensures
        res == lookup(sc),
{
    if sc == 0 {
        return None;
    }
    let mut i: usize = 0;
    while i < KEY_MAP_LEN
        invariant
            i <= KEY_MAP_LEN,
            sc != 0,
            forall|j: int| 0 <= j < i ==> (#[trigger] key_map()[j]).scode != sc,
        decreases KEY_MAP_LEN - i,
    {
        if KEY_MAP[i][2] == sc {
            proof {
                lemma_rows_in_place();
            }
            return Some(row(i));
        }
        i += 1;
    }
    proof {
        lemma_rows_in_place();
    }
    None
}

/// Every row of the table is either empty or sits at the position that its
/// own scancode names.
pub proof fn lemma_rows_in_place()
    ensures
        forall|i: int|
            0 <= i < KEY_MAP_LEN ==> (#[trigger] key_map()[i]).scode == 0 || key_map()[i].scode
                == i,
{
}

/// `lookup` gives what a scan of the table from its first row finds: for a
/// code other than 0, the first row with that scancode, and nothing where no
/// row has it.
pub proof fn lemma_lookup_is_first_match(code: u8)
    ensures
        lookup(code) matches Some(k) ==> code != 0 && is_first_match(code, code as int) && k
            == key_map()[code as int],
        lookup(code) is None ==> code == 0 || forall|i: int|
            0 <= i < KEY_MAP_LEN ==> (#[trigger] key_map()[i]).scode != code,
        forall|i: int|
            code != 0 && is_first_match(code, i) ==> lookup(code) == Some(#[trigger] key_map()[i]),
{
    lemma_rows_in_place();
}

/// The positions that a key is assigned to: all of `0x01..=0x5D` but
/// `0x55`, `0x56`, `0x59` and `0x5A`.
pub proof fn lemma_lookup_assigned(code: u8)
    ensures
        lookup(code) is Some <==> 0x01 <= code <= 0x5D && code != 0x55 && code != 0x56 && code
            != 0x59 && code != 0x5A,
        lookup(code) matches Some(k) ==> k.scode == code,
{
}

/// A letter key prints a small letter alone and the capital of the same
/// letter with shift.
pub proof fn lemma_letter_keys(code: u8)
    requires
        is_letter(code),
    ensures
        lookup(code) is Some,
        0x61 <= lookup(code)->0.ascii1 <= 0x7A,
        lookup(code)->0.ascii2 == lookup(code)->0.ascii1 - 0x20,
{
}

/// The keys that set a modifier are in the table, and they print nothing.
pub proof fn lemma_modifier_keys(code: u8)
    requires
        is_shift(code) || is_caps_lock(code) || is_num_lock(code),
    ensures
        !is_letter(code),
        lookup(code) is Some,
        lookup(code)->0.ascii1 == 0,
        lookup(code)->0.ascii2 == 0,
{
}

} // verus!
