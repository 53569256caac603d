//! Decoder for a PS/2 keyboard: turns the bytes the keyboard controller
//! delivers into characters and queues them until a reader asks for them.
//!
//! - [`buffer`]: the bounded byte queue between the decoder and its readers.
//! - [`keymap`]: the fixed key table and the key classes.
//! - [`decoder`]: the modifier flags and what one byte does to them.
//! - [`driver`]: the keyboard as a whole, one byte in, one character out.

pub mod buffer;
pub mod keymap;
pub mod decoder;
pub mod driver;
