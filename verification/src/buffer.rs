//! The editor engine: a gap storage with a cursor that knows its column, the
//! motions and edits on it, and the modal key dispatcher on top.

use crate::keys::{insert_key, normal_key, InsertKey, NormalKey};
use crate::model::{BufferView, Mode};
use crate::storage::{GapStorage, GAP_SIZE};
use crate::text::{
    column, lemma_line_end, lemma_line_start, lemma_line_start_unique, line_end, line_start,
    newline_free, skip_backward, skip_forward,
};
use vstd::prelude::*;

verus! {

/// A text buffer with a cursor, edited through vi-style keys.
pub struct GapBuffer {
    store: GapStorage,
    col: usize,
    abs_col: usize,
    abs_col_flag: bool,
    mode: Mode,
}

impl View for GapBuffer {
    type V = BufferView;

    closed spec fn view(&self) -> BufferView {
        BufferView {
            text: self.store.text(),
            cursor: self.store.cursor() as int,
            gap: self.store.gap() as int,
            abs_col: self.abs_col as int,
            abs_col_flag: self.abs_col_flag,
            mode: self.mode,
        }
    }
}

impl GapBuffer {
    /// The part of well-formedness that concerns the representation: the
    /// storage is well-formed and the stored column is the cursor's column.
    pub closed spec fn inv(&self) -> bool {
        &&& self.store.wf()
        &&& self.col == column(self.store.text(), self.store.cursor() as int)
    }

    /// Well-formedness.  Constructors establish it and every operation keeps
    /// it.
    pub open spec fn wf(&self) -> bool {
        self.inv() && self@.wf()
    }

    /// Builds a buffer that holds `text`, with the cursor at position 0, a
    /// gap of `GAP_SIZE` slots, and the dispatcher in Normal mode.
    pub fn from_text(text: &str) -> (b: GapBuffer)
        ensures
            b.wf(),
            b@ == BufferView::initial(text@),
    {
        let store = GapStorage::from_text(text);
        proof {
            store.lemma_wf();
        }
        GapBuffer { store, col: 0, abs_col: 0, abs_col_flag: true, mode: Mode::Normal }
    }

    /// The visible text, the gap left out.
    pub fn get_text(&self) -> (out: String)
        requires
            self.wf(),
        ensures
            out@ == self@.text,
    {
        self.store.to_text()
    }

    /// The visible text with the marker `[CURSOR]` put in at the cursor.
    pub fn render(&self) -> (out: String)
        requires
            self.wf(),
        ensures
            out@ == self@.text.subrange(0, self@.cursor) + "[CURSOR]"@ + self@.text.subrange(
                self@.cursor,
                self@.text.len() as int,
            ),
    {
        let mut out = String::new();
        let here = self.store.position();
        self.store.append_text(&mut out, 0, here);
        out.append("[CURSOR]");
        self.store.append_text(&mut out, here, self.store.len());
        out
    }

    /// The cursor position in the visible text.
    pub fn get_cursor_pos(&self) -> (p: usize)
        ensures
            p == self@.cursor,
    {
        self.store.position()
    }

    /// A copy of the slot array, the gap's empty slots included.
    pub fn get_buf(&self) -> (out: Vec<Option<char>>)
        requires
            self.wf(),
        ensures
            out@ == self@.slots(),
    {
        proof {
            self.store.lemma_wf();
        }
        self.store.to_slots()
    }

    /// The length of the visible text.
    pub fn len(&self) -> (n: usize)
        requires
            self.wf(),
        ensures
            n == self@.text.len(),
    {
        self.store.len()
    }

    /// Whether `count` more characters can be stored without the slot count
    /// leaving the machine's range.  Insertions ask for this.
    pub fn has_room(&self, count: usize) -> (ok: bool)
        requires
            self.wf(),
        ensures
            ok == self@.has_room(count as int),
    {
        if count <= self.store.gap_capacity() {
            return true;
        }
        match self.store.len().checked_add(count) {
            Some(n) => n <= usize::MAX - GAP_SIZE,
            None => false,
        }
    }

    /// The number of characters that fit into the gap as it is.
    pub fn gap_capacity(&self) -> (g: usize)
        requires
            self.wf(),
        ensures
            g == self@.gap,
    {
        self.store.gap_capacity()
    }

    /// The column of the cursor, as the buffer keeps it.
    pub fn col(&self) -> (c: usize)
        requires
            self.wf(),
        ensures
            c == self@.col(),
    {
        self.col
    }

    /// The column that vertical motion tries to keep.
    pub fn abs_col(&self) -> (c: usize)
        ensures
            c == self@.abs_col,
    {
        self.abs_col
    }

    /// Whether the remembered column is to be refreshed before the next
    /// vertical move.
    pub fn abs_col_flag(&self) -> (f: bool)
        ensures
            f == self@.abs_col_flag,
    {
        self.abs_col_flag
    }

    /// The editing mode.
    pub fn mode(&self) -> (m: Mode)
        ensures
            m == self@.mode,
    {
        self.mode
    }

    /// Counts the characters between the cursor and the newline in front of
    /// it, or the start of the text.
    fn scan_col(store: &GapStorage) -> (col: usize)
        requires
            store.wf(),
        ensures
            col == column(store.text(), store.cursor() as int),
    {
        let mut i = store.position();
        let mut col: usize = 0;
        proof {
            store.lemma_wf();
        }
        while i > 0 && store.char_at(i - 1) != '\n'
            invariant
                store.wf(),
                0 <= i <= store.cursor() <= store.text().len() <= usize::MAX,
                col == store.cursor() - i,
                line_start(store.text(), i as int) == line_start(
                    store.text(),
                    store.cursor() as int,
                ),
            decreases i,
        {
            i -= 1;
            col += 1;
        }
        col
    }

    /// The column of the cursor, found by scanning back to the start of the
    /// line.
    pub fn find_col(&self) -> (c: usize)
        requires
            self.wf(),
        ensures
            c == self@.col(),
    {
        Self::scan_col(&self.store)
    }

    /// Shifts the gap to the right until the cursor is at `target` or at the
    /// end of the text, one character at a time, keeping the column up to
    /// date.  Does nothing where `target` is not to the right of the cursor.
    pub fn shift_right(&mut self, target: usize)
        requires
            old(self).wf(),
        ensures
            final(self).wf(),
            final(self)@ == if target > old(self)@.cursor {
                old(self)@.moved_to(target as int)
            } else {
                old(self)@
            },
    {
        let n = self.store.len();
        while target > self.store.position() && self.store.position() < n
            invariant
                self.wf(),
                n == self@.text.len(),
                self@.text == old(self)@.text,
                self@.gap == old(self)@.gap,
                self@.abs_col == old(self)@.abs_col,
                self@.mode == old(self)@.mode,
                old(self)@.cursor <= self@.cursor,
                self@.cursor <= target || self@.cursor == old(self)@.cursor,
                self@.abs_col_flag == (old(self)@.abs_col_flag
                    || self@.cursor != old(self)@.cursor),
            decreases n - self@.cursor,
        {
            proof {
                lemma_line_start(self@.text, self@.cursor);
            }
            let c = self.store.step_right();
            if c == '\n' {
                self.col = 0;
            } else {
                self.col = self.col + 1;
            }
            self.abs_col_flag = true;
        }
    }

    /// Shifts the gap to the left until the cursor is at `target`, one
    /// character at a time, keeping the column up to date.  Does nothing
    /// where `target` is not to the left of the cursor.
    pub fn shift_left(&mut self, target: usize)
        requires
            old(self).wf(),
        ensures
            final(self).wf(),
            final(self)@ == if target < old(self)@.cursor {
                old(self)@.moved_to(target as int)
            } else {
                old(self)@
            },
    {
        while target < self.store.position()
            invariant
                self.wf(),
                self@.text == old(self)@.text,
                self@.gap == old(self)@.gap,
                self@.abs_col == old(self)@.abs_col,
                self@.mode == old(self)@.mode,
                self@.cursor <= old(self)@.cursor,
                target <= self@.cursor || self@.cursor == old(self)@.cursor,
                self@.abs_col_flag == (old(self)@.abs_col_flag
                    || self@.cursor != old(self)@.cursor),
            decreases self@.cursor,
        {
            proof {
                lemma_line_start(self@.text, self@.cursor - 1);
            }
            let c = self.store.step_left();
            if c == '\n' {
                self.col = Self::scan_col(&self.store);
            } else {
                self.col = self.col - 1;
            }
            self.abs_col_flag = true;
        }
    }

    /// Puts the cursor at `cursor_pos`, or at the end of the text where
    /// `cursor_pos` lies beyond it.
    pub fn move_absolute(&mut self, cursor_pos: usize)
        requires
            old(self).wf(),
        ensures
            final(self).wf(),
            final(self)@ == old(self)@.moved_to(cursor_pos as int),
    {
        if cursor_pos < self.store.position() {
            self.shift_left(cursor_pos);
        } else if cursor_pos > self.store.position() {
            self.shift_right(cursor_pos);
        }
    }

    /// Moves the cursor by `distance` positions, to the left where it is
    /// negative.  A move that would pass the start of the text does nothing.
    pub fn move_relative(&mut self, distance: i32)
        requires
            old(self).wf(),
        ensures
            final(self).wf(),
            final(self)@ == old(self)@.moved_by(distance as int),
    {
        let here = self.store.position();
        if distance < 0 {
            let back: u32 = if distance == i32::MIN {
                2147483648u32
            } else {
                (-distance) as u32
            };
            if back as usize > here {
                return ;
            }
            self.move_absolute(here - back as usize);
        } else {
            match here.checked_add(distance as usize) {
                Some(target) => self.move_absolute(target),
                None => self.move_absolute(usize::MAX),
            }
        }
    }

    /// Puts the characters of `s` in at the cursor and moves the cursor
    /// behind them.  The gap grows first exactly when `s` has more
    /// characters than the gap has slots.
    pub fn insert(&mut self, s: &str)
        requires
            old(self).wf(),
            old(self)@.has_room(s@.len() as int),
        ensures
            final(self).wf(),
            final(self)@ == old(self)@.inserted(s@),
            final(self)@.capacity() != old(self)@.capacity() <==> s@.len() > old(self)@.gap,
    {
        self.store.insert(s);
        self.col = Self::scan_col(&self.store);
        proof {
            self.store.lemma_wf();
        }
    }

    /// Empties the slots `start ..= end`, and with them every slot between
    /// that range and the gap, so that the gap stays one run of empty slots.
    /// The cursor ends at the start of the gap.
    pub fn delete(&mut self, start: usize, end: usize)
        requires
            old(self).wf(),
            start <= end < old(self)@.capacity(),
        ensures
            final(self).wf(),
            final(self)@ == old(self)@.deleted(start as int, end as int),
    {
        self.store.delete(start, end);
        self.col = Self::scan_col(&self.store);
        proof {
            self.store.lemma_wf();
        }
    }

    /// Removes the character in front of the cursor.  Does nothing at the
    /// start of the text.
    pub fn backspace(&mut self)
        requires
            old(self).wf(),
        ensures
            final(self).wf(),
            final(self)@ == old(self)@.backspaced(),
    {
        let here = self.store.position();
        if here == 0 {
            return ;
        }
        self.delete(here - 1, here - 1);
    }

    /// Inserts four spaces.
    pub fn tab(&mut self)
        requires
            old(self).wf(),
            old(self)@.has_room(4),
        ensures
            final(self).wf(),
            final(self)@ == old(self)@.inserted(seq![' ', ' ', ' ', ' ']),
    {
        proof {
            reveal_strlit("    ");
            assert("    "@ =~= seq![' ', ' ', ' ', ' ']);
        }
        self.insert("    ");
    }

    /// Inserts a newline.
    pub fn enter(&mut self)
        requires
            old(self).wf(),
            old(self)@.has_room(1),
        ensures
            final(self).wf(),
            final(self)@ == old(self)@.inserted(seq!['\n']),
    {
        proof {
            reveal_strlit("\n");
            assert("\n"@ =~= seq!['\n']);
        }
        self.insert("\n");
    }

    /// Whether no newline stands in front of the cursor.
    pub fn on_first_line(&self) -> (first: bool)
        requires
            self.wf(),
        ensures
            first == self@.on_first_line(),
    {
        let mut i = self.store.position();
        while i != 0
            invariant
                self.wf(),
                0 <= i <= self@.cursor,
                newline_free(self@.text, i as int, self@.cursor),
            decreases i,
        {
            i -= 1;
            if self.store.char_at(i) == '\n' {
                return false;
            }
        }
        true
    }

    /// Whether no newline stands at or after the cursor.
    pub fn on_last_line(&self) -> (last: bool)
        requires
            self.wf(),
        ensures
            last == self@.on_last_line(),
    {
        let n = self.store.len();
        let mut i = self.store.position();
        while i != n
            invariant
                self.wf(),
                n == self@.text.len(),
                self@.cursor <= i <= n,
                newline_free(self@.text, self@.cursor, i as int),
            decreases n - i,
        {
            if self.store.char_at(i) == '\n' {
                return false;
            }
            i += 1;
        }
        true
    }

    /// Moves the cursor to the end of its line: in front of the next newline,
    /// or to the end of the text.
    pub fn end_of_line(&mut self)
        requires
            old(self).wf(),
        ensures
            final(self).wf(),
            final(self)@ == old(self)@.at_line_end(),
    {
        let n = self.store.len();
        proof {
            lemma_line_end(self@.text, self@.cursor);
        }
        while self.store.position() < n && self.store.char_at(self.store.position()) != '\n'
            invariant
                self.wf(),
                old(self).wf(),
                n == self@.text.len(),
                self@ == old(self)@.moved_to(self@.cursor),
                old(self)@.cursor <= self@.cursor <= line_end(old(self)@.text, old(self)@.cursor)
                    <= n,
                newline_free(self@.text, old(self)@.cursor, self@.cursor),
            decreases n - self@.cursor,
        {
            proof {
                lemma_line_end(self@.text, old(self)@.cursor);
            }
            self.move_relative(1);
        }
        proof {
            lemma_line_end(self@.text, old(self)@.cursor);
        }
    }

    /// Moves the cursor to the start of its line: behind the previous
    /// newline, or to the start of the text.
    pub fn start_of_line(&mut self)
        requires
            old(self).wf(),
        ensures
            final(self).wf(),
            final(self)@ == old(self)@.at_line_start(),
    {
        proof {
            lemma_line_start(self@.text, self@.cursor);
        }
        while self.store.position() > 0 && self.store.char_at(self.store.position() - 1) != '\n'
            invariant
                self.wf(),
                old(self).wf(),
                self@ == old(self)@.moved_to(self@.cursor),
                line_start(old(self)@.text, old(self)@.cursor) <= self@.cursor <= old(self)@.cursor,
                newline_free(self@.text, self@.cursor, old(self)@.cursor),
            decreases self@.cursor,
        {
            proof {
                lemma_line_start(self@.text, old(self)@.cursor);
            }
            self.move_relative(-1);
        }
        proof {
            lemma_line_start(self@.text, old(self)@.cursor);
        }
    }

    /// Moves the cursor one line down, to the remembered column or as close
    /// to it as the next line allows.  Does nothing on the last line.
    pub fn down(&mut self)
        requires
            old(self).wf(),
        ensures
            final(self).wf(),
            final(self)@ == old(self)@.down(),
    {
        if self.on_last_line() {
            return ;
        }
        if self.abs_col_flag {
            self.abs_col = self.col;
        }
        let ghost before = old(self)@;
        let ghost text = before.text;
        let ghost target = before.target_col();
        let ghost brk = line_end(text, before.cursor);
        let ghost start = brk + 1;
        let ghost end = line_end(text, start);
        proof {
            lemma_line_end(text, before.cursor);
            lemma_line_end(text, start);
        }
        // To the start of the next line.
        self.move_relative(1);
        while self.store.char_at(self.store.position() - 1) != '\n'
            invariant
                self.wf(),
                self@.text == text,
                self@.gap == before.gap,
                self@.mode == before.mode,
                self@.abs_col == target,
                before.cursor < self@.cursor <= start == brk + 1,
                0 <= before.cursor <= brk < text.len(),
                text[brk] == '\n',
                newline_free(text, before.cursor, brk),
            decreases start - self@.cursor,
        {
            self.move_relative(1);
        }
        assert(self@.cursor == start);
        // Right until the end of the line, the end of the text or the
        // remembered column.
        let n = self.store.len();
        while n - self.store.position() > 1 && self.store.char_at(self.store.position()) != '\n'
            && self.col != self.abs_col
            invariant
                self.wf(),
                n == text.len(),
                self@.text == text,
                self@.gap == before.gap,
                self@.mode == before.mode,
                self@.abs_col == target,
                0 <= start <= self@.cursor <= end <= text.len(),
                end == text.len() || text[end] == '\n',
                newline_free(text, start, end),
                start == 0 || text[start - 1] == '\n',
                self@.cursor - start <= target,
                end == text.len() && start < end ==> self@.cursor <= end - 1,
            decreases end - self@.cursor,
        {
            proof {
                lemma_line_start_unique(text, self@.cursor, start);
            }
            self.move_relative(1);
        }
        proof {
            lemma_line_start_unique(text, self@.cursor, start);
        }
        self.abs_col_flag = self.col == self.abs_col;
    }

    /// Moves the cursor one line up, to the remembered column or as close to
    /// it as the previous line allows.  Does nothing on the first line.
    pub fn up(&mut self)
        requires
            old(self).wf(),
        ensures
            final(self).wf(),
            final(self)@ == old(self)@.up(),
    {
        if self.on_first_line() {
            return ;
        }
        if self.abs_col_flag {
            self.abs_col = self.col;
        }
        let ghost before = old(self)@;
        let ghost text = before.text;
        let ghost target = before.target_col();
        let ghost end = line_start(text, before.cursor) - 1;
        let ghost start = line_start(text, end);
        proof {
            lemma_line_start(text, before.cursor);
            lemma_line_start(text, end);
        }
        // To the end of the previous line.
        self.move_relative(-1);
        while self.store.char_at(self.store.position()) != '\n'
            invariant
                self.wf(),
                self@.text == text,
                self@.gap == before.gap,
                self@.mode == before.mode,
                self@.abs_col == target,
                0 <= end <= self@.cursor < before.cursor <= text.len(),
                text[end] == '\n',
                newline_free(text, end + 1, before.cursor),
            decreases self@.cursor,
        {
            self.move_relative(-1);
        }
        assert(self@.cursor == end);
        // Left until the remembered column.
        while self.col > self.abs_col && self.store.position() > 0
            invariant
                self.wf(),
                self@.text == text,
                self@.gap == before.gap,
                self@.mode == before.mode,
                self@.abs_col == target,
                0 <= start <= self@.cursor <= end < text.len(),
                start == 0 || text[start - 1] == '\n',
                newline_free(text, start, end),
                self@.cursor == end || self@.cursor - start >= target,
            decreases self@.cursor,
        {
            proof {
                lemma_line_start_unique(text, self@.cursor, start);
            }
            self.move_relative(-1);
        }
        proof {
            lemma_line_start_unique(text, self@.cursor, start);
        }
        self.abs_col_flag = self.col == self.abs_col;
    }

    /// The word motion of the key `w`.  It is reserved: the call changes
    /// nothing.
    pub fn n_w(&mut self)
        ensures
            *final(self) == *old(self),
    {
    }

    /// The word motion of the key `b`.  It is reserved: the call changes
    /// nothing.
    pub fn n_b(&mut self)
        ensures
            *final(self) == *old(self),
    {
    }

    /// Moves the cursor forward over the characters that are no spaces and
    /// then over the spaces behind them.  The cursor never goes past the
    /// last character of the text.
    #[allow(non_snake_case)]
    pub fn n_W(&mut self)
        requires
            old(self).wf(),
        ensures
            final(self).wf(),
            final(self)@ == old(self)@.word_forward(),
    {
        self.skip_ahead(false);
        self.skip_ahead(true);
    }

    /// Moves the cursor backward over spaces, then over the characters that
    /// are no spaces, then over spaces again.
    #[allow(non_snake_case)]
    pub fn n_B(&mut self)
        requires
            old(self).wf(),
        ensures
            final(self).wf(),
            final(self)@ == old(self)@.word_backward(),
    {
        self.skip_back(true);
        self.skip_back(false);
        self.skip_back(true);
    }

    /// Moves the cursor forward while it is in front of the last character
    /// and the character ahead is a space (`spaces`) or is none (`!spaces`).
    fn skip_ahead(&mut self, spaces: bool)
        requires
            old(self).wf(),
        ensures
            final(self).wf(),
            final(self)@ == old(self)@.moved_to(
                skip_forward(old(self)@.text, old(self)@.cursor, spaces),
            ),
            old(self)@.cursor <= final(self)@.cursor,
    {
        let n = self.store.len();
        while n - self.store.position() > 1 && (self.store.char_at(self.store.position()) == ' ')
            == spaces
            invariant
                self.wf(),
                n == self@.text.len(),
                self@ == old(self)@.moved_to(self@.cursor),
                old(self)@.cursor <= self@.cursor,
                skip_forward(self@.text, self@.cursor, spaces) == skip_forward(
                    old(self)@.text,
                    old(self)@.cursor,
                    spaces,
                ),
            decreases n - self@.cursor,
        {
            self.move_relative(1);
        }
    }

    /// Moves the cursor backward while it is behind the start of the text
    /// and the character behind it is a space (`spaces`) or is none
    /// (`!spaces`).
    fn skip_back(&mut self, spaces: bool)
        requires
            old(self).wf(),
        ensures
            final(self).wf(),
            final(self)@ == old(self)@.moved_to(
                skip_backward(old(self)@.text, old(self)@.cursor, spaces),
            ),
            final(self)@.cursor <= old(self)@.cursor,
    {
        while self.store.position() != 0 && (self.store.char_at(self.store.position() - 1) == ' ')
            == spaces
            invariant
                self.wf(),
                self@ == old(self)@.moved_to(self@.cursor),
                self@.cursor <= old(self)@.cursor,
                skip_backward(self@.text, self@.cursor, spaces) == skip_backward(
                    old(self)@.text,
                    old(self)@.cursor,
                    spaces,
                ),
            decreases self@.cursor,
        {
            self.move_relative(-1);
        }
    }

    /// The key `o`: opens a new line below the cursor's line and enters
    /// Insert mode.
    pub fn n_o(&mut self)
        requires
            old(self).wf(),
            old(self)@.has_room(1),
        ensures
            final(self).wf(),
            final(self)@ == old(self)@.opened_below(),
    {
        self.end_of_line();
        self.mode = Mode::Insert;
        self.enter();
    }

    /// The key `O`: opens a new line above the cursor's line and enters
    /// Insert mode.
    #[allow(non_snake_case)]
    pub fn n_O(&mut self)
        requires
            old(self).wf(),
            old(self)@.has_room(1),
        ensures
            final(self).wf(),
            final(self)@ == old(self)@.opened_above(),
    {
        if self.on_first_line() {
            self.start_of_line();
            self.enter();
            self.up();
            self.mode = Mode::Insert;
        } else {
            self.up();
            self.end_of_line();
            self.enter();
            self.mode = Mode::Insert;
        }
    }

    /// Handles one key in Normal mode.  The reserved keys `w` and `b` and
    /// every unbound key are passed over: the buffer stays as it is.
    pub fn input_n(&mut self, c: &str)
        requires
            old(self).wf(),
            old(self)@.has_room(normal_key(c@).room_needed()),
        ensures
            final(self).wf(),
            final(self)@ == old(self)@.normal(normal_key(c@)),
    {
        match NormalKey::decode(c) {
            NormalKey::Left => self.move_relative(-1),
            NormalKey::Right => self.move_relative(1),
            NormalKey::Down => self.down(),
            NormalKey::Up => self.up(),
            NormalKey::Insert => self.mode = Mode::Insert,
            NormalKey::Append => {
                self.move_relative(1);
                self.mode = Mode::Insert;
            },
            NormalKey::OpenBelow => self.n_o(),
            NormalKey::OpenAbove => self.n_O(),
            NormalKey::LineEnd => self.end_of_line(),
            NormalKey::LineStart => self.start_of_line(),
            NormalKey::WordForward => self.n_w(),
            NormalKey::WordBackward => self.n_b(),
            NormalKey::BigWordForward => self.n_W(),
            NormalKey::BigWordBackward => self.n_B(),
            NormalKey::Unbound => {},
        }
    }

    /// Handles one key in Insert mode.  A key that is none of the named keys
    /// is text: its name is inserted as it is.
    pub fn input_i(&mut self, c: &str)
        requires
            old(self).wf(),
            old(self)@.has_room(insert_key(c@).room_needed(c@)),
        ensures
            final(self).wf(),
            final(self)@ == old(self)@.typed(insert_key(c@), c@),
    {
        match InsertKey::decode(c) {
            InsertKey::Escape => self.mode = Mode::Normal,
            InsertKey::Backspace => self.backspace(),
            InsertKey::Tab => self.tab(),
            InsertKey::Enter => self.enter(),
            InsertKey::Shift => {},
            InsertKey::Text => self.insert(c),
        }
    }

    /// Handles one key in Visual mode: no key is handled there, so the
    /// buffer stays as it is.
    pub fn input_v(&mut self, _c: &str)
        ensures
            *final(self) == *old(self),
    {
    }

    /// Whether there is room for what the key `c` may insert in the current
    /// mode: the test that `input` asks its caller to make.
    pub fn can_input(&self, c: &str) -> (ok: bool)
        requires
            self.wf(),
        ensures
            ok == self@.has_room(self@.room_needed(c@)),
    {
        match self.mode {
            Mode::Normal => match NormalKey::decode(c) {
                NormalKey::OpenBelow => self.has_room(1),
                NormalKey::OpenAbove => self.has_room(1),
                _ => true,
            },
            Mode::Insert => match InsertKey::decode(c) {
                InsertKey::Tab => self.has_room(4),
                InsertKey::Enter => self.has_room(1),
                InsertKey::Text => self.has_room(c.unicode_len()),
                _ => true,
            },
            Mode::Visual => true,
        }
    }

    /// Handles one key: the single entry point for changes.  `c` names the
    /// key: one character, or one of `Escape`, `Backspace`, `Tab`, `Enter`
    /// and `Shift`.  A key that the current mode does not handle has no
    /// effect at all.
    pub fn input(&mut self, c: &str)
        requires
            old(self).wf(),
            old(self)@.has_room(old(self)@.room_needed(c@)),
        ensures
            final(self).wf(),
            final(self)@ == old(self)@.input(c@),
    {
        match self.mode {
            Mode::Normal => {
                self.input_n(c);
            },
            Mode::Insert => {
                self.input_i(c);
            },
            Mode::Visual => {
                self.input_v(c);
            },
        }
    }
}

} // verus!
