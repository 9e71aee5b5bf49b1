//! A gap-buffer text store with a column-aware cursor and a modal, vi-style
//! key dispatcher on top of it.
//!
//! * [`storage`] holds the slot array and the gap.
//! * [`text`] defines lines, columns and word skips on a character sequence.
//! * [`model`] says what a buffer stands for and what each operation makes
//!   of it.
//! * [`buffer`] is the engine itself: motions, edits and key handling.
//! * [`keys`] decodes key names.
//! * [`laws`] proves what holds of every buffer and every run of operations.

pub mod buffer;
pub mod keys;
pub mod laws;
pub mod model;
pub mod storage;
pub mod strings;
pub mod text;

pub use buffer::GapBuffer;
pub use model::Mode;
