//! The mathematical model of the editor: what a buffer stands for, and what
//! each operation makes of it.
//!
//! Every executable operation of [`crate::buffer::GapBuffer`] is specified as
//! one of the functions below, applied to the buffer's view.

use crate::keys::{InsertKey, NormalKey};
use crate::keys::{insert_key, normal_key};
use crate::storage::{GapStorage, GAP_SIZE};
use crate::text::{column, line_end, line_start, newline_free, skip_backward, skip_forward};
use vstd::prelude::*;

verus! {

/// The editing mode of the key dispatcher.
///
/// `Visual` is declared so that callers can name it, but no key leads into
/// it and no key is handled in it.
#[derive(Clone, Copy, PartialEq, Eq, Debug, Structural)]
pub enum Mode {
    Normal,
    Insert,
    Visual,
}

/// The cursor motions, each named after the operation of
/// [`crate::buffer::GapBuffer`] that carries it out.
pub enum Motion {
    /// `move_absolute` to a position.
    Absolute(usize),
    /// `move_relative` by a distance.
    Relative(i32),
    /// `down`
    Down,
    /// `up`
    Up,
    /// `end_of_line`
    LineEnd,
    /// `start_of_line`
    LineStart,
    /// `n_W`
    WordForward,
    /// `n_B`
    WordBackward,
}

/// What a buffer stands for.
pub struct BufferView {
    /// The visible text, the gap left out.
    pub text: Seq<char>,
    /// The cursor, as a position in `text`; it is also the number of
    /// characters stored in front of the gap.
    pub cursor: int,
    /// The number of empty slots in the gap.
    pub gap: int,
    /// The column that vertical motion tries to keep.
    pub abs_col: int,
    /// Whether `abs_col` is to be refreshed from the live column before the
    /// next vertical move.  It is false only after a vertical move that
    /// landed short of `abs_col`, until the cursor moves sideways.
    pub abs_col_flag: bool,
    /// The editing mode.
    pub mode: Mode,
}

impl BufferView {
    /// The values that a buffer can stand for.
    pub open spec fn wf(self) -> bool {
        &&& 0 <= self.cursor <= self.text.len()
        &&& 0 <= self.gap
        &&& self.text.len() + self.gap <= usize::MAX
        &&& 0 <= self.abs_col <= usize::MAX
    }

    /// What a fresh buffer for `text` stands for: the cursor at the start,
    /// a gap of `GAP_SIZE` slots, Normal mode.
    pub open spec fn initial(text: Seq<char>) -> BufferView {
        BufferView {
            text,
            cursor: 0,
            gap: GAP_SIZE as int,
            abs_col: 0,
            abs_col_flag: true,
            mode: Mode::Normal,
        }
    }

    /// The column of the cursor.
    pub open spec fn col(self) -> int {
        column(self.text, self.cursor)
    }

    /// The number of slots, full and empty.
    pub open spec fn capacity(self) -> int {
        self.text.len() + self.gap
    }

    /// The slot array: the text with the gap's empty slots at the cursor.
    pub open spec fn slots(self) -> Seq<Option<char>> {
        GapStorage::layout(self.text, self.cursor as nat, self.gap as nat)
    }

    /// Whether `n` more characters can be stored without the slot count
    /// leaving the machine's range: they fit into the gap, or the slot array
    /// can grow to hold them and a fresh gap.
    pub open spec fn has_room(self, n: int) -> bool {
        n <= self.gap || self.text.len() + n + GAP_SIZE <= usize::MAX
    }

    /// The number of characters that handling `key` may insert in the
    /// current mode.
    pub open spec fn room_needed(self, key: Seq<char>) -> int {
        match self.mode {
            Mode::Normal => normal_key(key).room_needed(),
            Mode::Insert => insert_key(key).room_needed(key),
            Mode::Visual => 0,
        }
    }

    /// No newline in front of the cursor.
    pub open spec fn on_first_line(self) -> bool {
        newline_free(self.text, 0, self.cursor)
    }

    /// No newline at or after the cursor.
    pub open spec fn on_last_line(self) -> bool {
        newline_free(self.text, self.cursor, self.text.len() as int)
    }

    /// The cursor put at `pos`, or at the end of the text where `pos` lies
    /// beyond it.  A move that displaces the cursor is a sideways motion and
    /// sets `abs_col_flag`.
    pub open spec fn moved_to(self, pos: int) -> BufferView {
        let dest = if pos > self.text.len() {
            self.text.len() as int
        } else {
            pos
        };
        BufferView {
            cursor: dest,
            abs_col_flag: self.abs_col_flag || dest != self.cursor,
            ..self
        }
    }

    /// The cursor moved by `delta` positions.  A move that would leave the
    /// text at its start does nothing; one that would leave it at its end
    /// stops there.
    pub open spec fn moved_by(self, delta: int) -> BufferView {
        if self.cursor + delta < 0 {
            self
        } else {
            self.moved_to(self.cursor + delta)
        }
    }

    /// The cursor at the end of its line.
    pub open spec fn at_line_end(self) -> BufferView {
        self.moved_to(line_end(self.text, self.cursor))
    }

    /// The cursor at the start of its line.
    pub open spec fn at_line_start(self) -> BufferView {
        self.moved_to(line_start(self.text, self.cursor))
    }

    /// The column that the next vertical move aims at.
    pub open spec fn target_col(self) -> int {
        if self.abs_col_flag {
            self.col()
        } else {
            self.abs_col
        }
    }

    /// The cursor one line down.
    ///
    /// Nothing changes on the last line.  Otherwise the cursor lands in the
    /// next line at the target column, or as far right as that line lets it:
    /// on the newline that ends the line, or, in the last line of the text,
    /// on the last character.  The target column is remembered, and the flag
    /// tells whether it was reached.
    pub open spec fn down(self) -> BufferView {
        if self.on_last_line() {
            self
        } else {
            let target = self.target_col();
            let start = line_end(self.text, self.cursor) + 1;
            let end = line_end(self.text, start);
            let limit = if end == self.text.len() && start < end {
                end - 1
            } else {
                end
            };
            let dest = if start + target <= limit {
                start + target
            } else {
                limit
            };
            BufferView {
                cursor: dest,
                abs_col: target,
                abs_col_flag: dest - start == target,
                ..self
            }
        }
    }

    /// The cursor one line up.
    ///
    /// Nothing changes on the first line.  Otherwise the cursor lands in the
    /// previous line at the target column, or on the newline that ends that
    /// line where the line is shorter.  The target column is remembered, and
    /// the flag tells whether it was reached.
    pub open spec fn up(self) -> BufferView {
        if self.on_first_line() {
            self
        } else {
            let target = self.target_col();
            let end = line_start(self.text, self.cursor) - 1;
            let start = line_start(self.text, end);
            let dest = if start + target <= end {
                start + target
            } else {
                end
            };
            BufferView {
                cursor: dest,
                abs_col: target,
                abs_col_flag: dest - start == target,
                ..self
            }
        }
    }

    /// The cursor moved forward over the characters that are no spaces and
    /// then over the spaces behind them, never past the last character.
    pub open spec fn word_forward(self) -> BufferView {
        self.moved_to(
            skip_forward(self.text, skip_forward(self.text, self.cursor, false), true),
        )
    }

    /// The cursor moved backward over spaces, then over the characters that
    /// are no spaces, then over spaces again.
    pub open spec fn word_backward(self) -> BufferView {
        self.moved_to(
            skip_backward(
                self.text,
                skip_backward(self.text, skip_backward(self.text, self.cursor, true), false),
                true,
            ),
        )
    }

    /// The buffer after one motion.
    pub open spec fn after(self, m: Motion) -> BufferView {
        match m {
            Motion::Absolute(pos) => self.moved_to(pos as int),
            Motion::Relative(distance) => self.moved_by(distance as int),
            Motion::Down => self.down(),
            Motion::Up => self.up(),
            Motion::LineEnd => self.at_line_end(),
            Motion::LineStart => self.at_line_start(),
            Motion::WordForward => self.word_forward(),
            Motion::WordBackward => self.word_backward(),
        }
    }

    /// The characters `s` put in at the cursor, the cursor behind them.  The
    /// gap shrinks by their number, or, where it was too small, is left with
    /// `GAP_SIZE` slots after growing.
    pub open spec fn inserted(self, s: Seq<char>) -> BufferView {
        BufferView {
            text: self.text.subrange(0, self.cursor) + s + self.text.subrange(
                self.cursor,
                self.text.len() as int,
            ),
            cursor: self.cursor + s.len(),
            gap: if s.len() > self.gap {
                GAP_SIZE as int
            } else {
                self.gap - s.len()
            },
            ..self
        }
    }

    /// The slots `start ..= end` emptied, with everything between them and
    /// the gap.  Slot indices count the gap's slots too: slot `i` holds
    /// `text[i]` where `i < cursor`, and `text[i - gap]` where
    /// `i >= cursor + gap`.
    pub open spec fn deleted(self, start: int, end: int) -> BufferView {
        let first = if start < self.cursor {
            start
        } else {
            self.cursor
        };
        let rest = if end + 1 - self.gap > self.cursor {
            end + 1 - self.gap
        } else {
            self.cursor
        };
        BufferView {
            text: self.text.subrange(0, first) + self.text.subrange(
                rest,
                self.text.len() as int,
            ),
            cursor: first,
            gap: self.gap + (rest - first),
            ..self
        }
    }

    /// The character in front of the cursor removed; nothing at the start of
    /// the text.
    pub open spec fn backspaced(self) -> BufferView {
        if self.cursor == 0 {
            self
        } else {
            self.deleted(self.cursor - 1, self.cursor - 1)
        }
    }

    /// The same buffer in another mode.
    pub open spec fn with_mode(self, mode: Mode) -> BufferView {
        BufferView { mode, ..self }
    }

    /// A new line opened below the cursor's line, in Insert mode.
    pub open spec fn opened_below(self) -> BufferView {
        self.at_line_end().with_mode(Mode::Insert).inserted(seq!['\n'])
    }

    /// A new line opened above the cursor's line, in Insert mode.
    pub open spec fn opened_above(self) -> BufferView {
        if self.on_first_line() {
            self.at_line_start().inserted(seq!['\n']).up().with_mode(Mode::Insert)
        } else {
            self.up().at_line_end().inserted(seq!['\n']).with_mode(Mode::Insert)
        }
    }

    /// What a key does in Normal mode.  The keys `w` and `b` are bound to
    /// motions that are not there yet; they and unbound keys change nothing.
    pub open spec fn normal(self, key: NormalKey) -> BufferView {
        match key {
            NormalKey::Left => self.moved_by(-1),
            NormalKey::Right => self.moved_by(1),
            NormalKey::Down => self.down(),
            NormalKey::Up => self.up(),
            NormalKey::Insert => self.with_mode(Mode::Insert),
            NormalKey::Append => self.moved_by(1).with_mode(Mode::Insert),
            NormalKey::OpenBelow => self.opened_below(),
            NormalKey::OpenAbove => self.opened_above(),
            NormalKey::LineEnd => self.at_line_end(),
            NormalKey::LineStart => self.at_line_start(),
            NormalKey::WordForward => self,
            NormalKey::WordBackward => self,
            NormalKey::BigWordForward => self.word_forward(),
            NormalKey::BigWordBackward => self.word_backward(),
            NormalKey::Unbound => self,
        }
    }

    /// What a key does in Insert mode; `name` is the key as it was typed.
    pub open spec fn typed(self, key: InsertKey, name: Seq<char>) -> BufferView {
        match key {
            InsertKey::Escape => self.with_mode(Mode::Normal),
            InsertKey::Backspace => self.backspaced(),
            InsertKey::Tab => self.inserted(seq![' ', ' ', ' ', ' ']),
            InsertKey::Enter => self.inserted(seq!['\n']),
            InsertKey::Shift => self,
            InsertKey::Text => self.inserted(name),
        }
    }

    /// What one key does: the step function of the dispatcher.  No key is
    /// handled in Visual mode.
    pub open spec fn input(self, key: Seq<char>) -> BufferView {
        match self.mode {
            Mode::Normal => self.normal(normal_key(key)),
            Mode::Insert => self.typed(insert_key(key), key),
            Mode::Visual => self,
        }
    }
}

} // verus!
