//! The input and output core of a small terminal screen editor.
//!
//! The library decodes the bytes that a keyboard sends into keys, moves a
//! cursor over the viewport as the keys say, and composes the bytes that
//! redraw the screen. It never touches a terminal itself: its caller reads
//! bytes and hands them over, and writes the frames that come back.
//!
//! - [`key`]: keys, and the byte sequences that spell them.
//! - [`editor`]: the editor's state and what a key does to it.
//! - [`screen`]: the terminal codes and the lines of a frame.
//! - [`session`]: the editor's loop, played over recorded input.
//! - [`error`]: what can go wrong, and how it is put into words.

pub mod editor;
pub mod error;
pub mod key;
pub mod screen;
pub mod session;
