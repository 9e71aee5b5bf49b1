//! Laws of the editor model: what holds of every buffer and of every
//! sequence of operations, proved from the definitions in
//! [`crate::model`].

use crate::keys::{insert_key, normal_key, InsertKey, NormalKey};
use crate::model::{BufferView, Mode, Motion};
use crate::text::{
    lemma_line_end, lemma_line_end_unique, lemma_line_start, lemma_line_start_unique,
    lemma_skip_backward, lemma_skip_forward,
};
use crate::text::{line_end, line_start, skip_backward, skip_forward};
use vstd::prelude::*;

verus! {

/// The sum of a sequence of distances.
pub open spec fn sum(deltas: Seq<i32>) -> int
    decreases deltas.len(),
{
    if deltas.len() == 0 {
        0
    } else {
        deltas[0] + sum(deltas.drop_first())
    }
}

impl BufferView {
    /// The buffer after the motions `ms`, carried out in order.
    pub open spec fn after_all(self, ms: Seq<Motion>) -> BufferView
        decreases ms.len(),
    {
        if ms.len() == 0 {
            self
        } else {
            self.after(ms[0]).after_all(ms.drop_first())
        }
    }

    /// The buffer after the keys `keys`, handled in order.
    pub open spec fn input_all(self, keys: Seq<Seq<char>>) -> BufferView
        decreases keys.len(),
    {
        if keys.len() == 0 {
            self
        } else {
            self.input(keys[0]).input_all(keys.drop_first())
        }
    }

    /// The buffer after relative moves by `deltas`, carried out in order.
    pub open spec fn moved_by_all(self, deltas: Seq<i32>) -> BufferView
        decreases deltas.len(),
    {
        if deltas.len() == 0 {
            self
        } else {
            self.moved_by(deltas[0] as int).moved_by_all(deltas.drop_first())
        }
    }

    /// Whether each of the relative moves by `deltas`, carried out in order,
    /// stays inside the text, so that none is cut short at either end.
    pub open spec fn unclamped(self, deltas: Seq<i32>) -> bool
        decreases deltas.len(),
    {
        deltas.len() == 0 || (0 <= self.cursor + deltas[0] <= self.text.len() && self.moved_by(
            deltas[0] as int,
        ).unclamped(deltas.drop_first()))
    }
}

/// A single motion keeps the buffer well-formed and leaves the text, the gap
/// and the mode as they are.
pub proof fn law_motion_keeps_text(v: BufferView, m: Motion)
    requires
        v.wf(),
    ensures
        v.after(m).wf(),
        v.after(m).text == v.text,
        v.after(m).gap == v.gap,
        v.after(m).mode == v.mode,
{
    let text = v.text;
    lemma_line_start(text, v.cursor);
    lemma_line_end(text, v.cursor);
    match m {
        Motion::Absolute(_) => {},
        Motion::Relative(_) => {},
        Motion::Down => {
            if !v.on_last_line() {
                let start = line_end(text, v.cursor) + 1;
                lemma_line_end(text, start);
            }
        },
        Motion::Up => {
            if !v.on_first_line() {
                let end = line_start(text, v.cursor) - 1;
                lemma_line_start(text, end);
            }
        },
        Motion::LineEnd => {},
        Motion::LineStart => {},
        Motion::WordForward => {
            lemma_skip_forward(text, v.cursor, false);
            lemma_skip_forward(text, skip_forward(text, v.cursor, false), true);
        },
        Motion::WordBackward => {
            let a = skip_backward(text, v.cursor, true);
            let b = skip_backward(text, a, false);
            lemma_skip_backward(text, v.cursor, true);
            lemma_skip_backward(text, a, false);
            lemma_skip_backward(text, b, true);
        },
    }
}

/// Navigation never edits: whatever motions are carried out, in whatever
/// order, the text afterwards is the text before.
pub proof fn law_navigation_keeps_text(v: BufferView, ms: Seq<Motion>)
    requires
        v.wf(),
    ensures
        v.after_all(ms).wf(),
        v.after_all(ms).text == v.text,
        v.after_all(ms).gap == v.gap,
        v.after_all(ms).mode == v.mode,
    decreases ms.len(),
{
    if ms.len() > 0 {
        law_motion_keeps_text(v, ms[0]);
        law_navigation_keeps_text(v.after(ms[0]), ms.drop_first());
    }
}

/// A move down from a line that is not the last one puts the cursor into the
/// next line, at the remembered column or short of it, and the flag tells
/// which of the two: it is set exactly when the column is the remembered one.
pub proof fn law_down_lands_in_next_line(v: BufferView)
    requires
        v.wf(),
        !v.on_last_line(),
    ensures
        line_start(v.text, v.down().cursor) == line_end(v.text, v.cursor) + 1,
        v.down().abs_col == v.target_col(),
        v.down().col() <= v.down().abs_col,
        v.down().abs_col_flag == (v.down().col() == v.down().abs_col),
{
    let text = v.text;
    let start = line_end(text, v.cursor) + 1;
    lemma_line_start(text, v.cursor);
    lemma_line_end(text, v.cursor);
    lemma_line_end(text, start);
    lemma_line_start_unique(text, v.down().cursor, start);
}

/// A move up from a line that is not the first one puts the cursor into the
/// previous line, at the remembered column or short of it, and the flag
/// tells which of the two: it is set exactly when the column is the
/// remembered one.
pub proof fn law_up_lands_in_previous_line(v: BufferView)
    requires
        v.wf(),
        !v.on_first_line(),
    ensures
        line_end(v.text, v.up().cursor) == line_start(v.text, v.cursor) - 1,
        v.up().abs_col == v.target_col(),
        v.up().col() <= v.up().abs_col,
        v.up().abs_col_flag == (v.up().col() == v.up().abs_col),
{
    let text = v.text;
    let end = line_start(text, v.cursor) - 1;
    let start = line_start(text, end);
    lemma_line_start(text, v.cursor);
    lemma_line_start(text, end);
    lemma_line_start_unique(text, v.up().cursor, start);
    lemma_line_end_unique(text, v.up().cursor, end);
}

/// In Normal mode, keys that only move the cursor never edit and never leave
/// the mode: whatever such keys are handled, in whatever order, the text
/// afterwards is the text before.  Reserved and unbound keys count among
/// them, as they do nothing.
pub proof fn law_motion_keys_keep_text(v: BufferView, keys: Seq<Seq<char>>)
    requires
        v.wf(),
        v.mode == Mode::Normal,
        forall|i: int| 0 <= i < keys.len() ==> !normal_key(#[trigger] keys[i]).leaves_normal(),
    ensures
        v.input_all(keys).wf(),
        v.input_all(keys).text == v.text,
        v.input_all(keys).gap == v.gap,
        v.input_all(keys).mode == Mode::Normal,
    decreases keys.len(),
{
    if keys.len() > 0 {
        let rest = keys.drop_first();
        assert forall|i: int| 0 <= i < rest.len() implies !normal_key(
            #[trigger] rest[i],
        ).leaves_normal() by {
            assert(rest[i] == keys[i + 1]);
        }
        let m = match normal_key(keys[0]) {
            NormalKey::Left => Motion::Relative(-1i32),
            NormalKey::Right => Motion::Relative(1),
            NormalKey::Down => Motion::Down,
            NormalKey::Up => Motion::Up,
            NormalKey::LineEnd => Motion::LineEnd,
            NormalKey::LineStart => Motion::LineStart,
            NormalKey::BigWordForward => Motion::WordForward,
            NormalKey::BigWordBackward => Motion::WordBackward,
            _ => Motion::Relative(0),
        };
        law_motion_keeps_text(v, m);
        assert(v.input(keys[0]) == v.after(m));
        law_motion_keys_keep_text(v.input(keys[0]), rest);
    }
}

/// An insertion that has room keeps the buffer well-formed, and the text
/// grows by what was inserted.
pub proof fn law_insert_keeps_wf(v: BufferView, s: Seq<char>)
    requires
        v.wf(),
        v.has_room(s.len() as int),
    ensures
        v.inserted(s).wf(),
        v.inserted(s).text.len() == v.text.len() + s.len(),
{
}

/// A deletion inside the slot array keeps the buffer well-formed and the
/// number of slots as it is: what leaves the text joins the gap.
pub proof fn law_delete_keeps_wf(v: BufferView, start: int, end: int)
    requires
        v.wf(),
        0 <= start <= end < v.capacity(),
    ensures
        v.deleted(start, end).wf(),
        v.deleted(start, end).capacity() == v.capacity(),
        v.deleted(start, end).text.len() <= v.text.len(),
{
}

/// Opening a line below keeps the buffer well-formed, puts in one character
/// and ends in Insert mode.
pub proof fn law_open_below_keeps_wf(v: BufferView)
    requires
        v.wf(),
        v.has_room(1),
    ensures
        v.opened_below().wf(),
        v.opened_below().text.len() == v.text.len() + 1,
        v.opened_below().mode == Mode::Insert,
{
    let a = v.at_line_end();
    law_motion_keeps_text(v, Motion::LineEnd);
    assert(a == v.after(Motion::LineEnd));
    let b = a.with_mode(Mode::Insert);
    assert(b.wf() && b.has_room(1));
    law_insert_keeps_wf(b, seq!['\n']);
}

/// Opening a line above keeps the buffer well-formed, puts in one character
/// and ends in Insert mode.
pub proof fn law_open_above_keeps_wf(v: BufferView)
    requires
        v.wf(),
        v.has_room(1),
    ensures
        v.opened_above().wf(),
        v.opened_above().text.len() == v.text.len() + 1,
        v.opened_above().mode == Mode::Insert,
{
    if v.on_first_line() {
        let a = v.at_line_start();
        law_motion_keeps_text(v, Motion::LineStart);
        assert(a == v.after(Motion::LineStart));
        assert(a.wf() && a.has_room(1));
        let b = a.inserted(seq!['\n']);
        law_insert_keeps_wf(a, seq!['\n']);
        let c = b.up();
        law_motion_keeps_text(b, Motion::Up);
        assert(c == b.after(Motion::Up));
    } else {
        let a = v.up();
        law_motion_keeps_text(v, Motion::Up);
        assert(a == v.after(Motion::Up));
        let b = a.at_line_end();
        law_motion_keeps_text(a, Motion::LineEnd);
        assert(b == a.after(Motion::LineEnd));
        assert(b.wf() && b.has_room(1));
        law_insert_keeps_wf(b, seq!['\n']);
    }
}

/// The dispatcher keeps the buffer well-formed: whatever key is handled in
/// whatever mode, as long as there is room for what it may insert.
pub proof fn law_input_keeps_wf(v: BufferView, key: Seq<char>)
    requires
        v.wf(),
        v.has_room(v.room_needed(key)),
    ensures
        v.input(key).wf(),
{
    match v.mode {
        Mode::Normal => {
            match normal_key(key) {
                NormalKey::Left => law_motion_keeps_text(v, Motion::Relative(-1i32)),
                NormalKey::Right => law_motion_keeps_text(v, Motion::Relative(1)),
                NormalKey::Down => law_motion_keeps_text(v, Motion::Down),
                NormalKey::Up => law_motion_keeps_text(v, Motion::Up),
                NormalKey::Insert => {},
                NormalKey::Append => law_motion_keeps_text(v, Motion::Relative(1)),
                NormalKey::OpenBelow => law_open_below_keeps_wf(v),
                NormalKey::OpenAbove => law_open_above_keeps_wf(v),
                NormalKey::LineEnd => law_motion_keeps_text(v, Motion::LineEnd),
                NormalKey::LineStart => law_motion_keeps_text(v, Motion::LineStart),
                NormalKey::WordForward => {},
                NormalKey::WordBackward => {},
                NormalKey::BigWordForward => law_motion_keeps_text(v, Motion::WordForward),
                NormalKey::BigWordBackward => law_motion_keeps_text(v, Motion::WordBackward),
                NormalKey::Unbound => {},
            }
        },
        Mode::Insert => {
            match insert_key(key) {
                InsertKey::Escape => {},
                InsertKey::Backspace => {
                    if v.cursor > 0 {
                        law_delete_keeps_wf(v, v.cursor - 1, v.cursor - 1);
                    }
                },
                InsertKey::Tab => law_insert_keeps_wf(v, seq![' ', ' ', ' ', ' ']),
                InsertKey::Enter => law_insert_keeps_wf(v, seq!['\n']),
                InsertKey::Shift => {},
                InsertKey::Text => law_insert_keeps_wf(v, key),
            }
        },
        Mode::Visual => {},
    }
}

/// Inserting a text that is not empty and then deleting the slots it was
/// written to gives back the text and the cursor from before the insertion.
/// The deletion is one that `delete` accepts.
pub proof fn law_insert_then_delete(v: BufferView, s: Seq<char>)
    requires
        v.wf(),
        s.len() > 0,
    ensures
        v.cursor <= v.cursor + s.len() - 1 < v.inserted(s).capacity(),
        v.inserted(s).deleted(v.cursor, v.cursor + s.len() - 1).text == v.text,
        v.inserted(s).deleted(v.cursor, v.cursor + s.len() - 1).cursor == v.cursor,
{
    let w = v.inserted(s);
    let back = w.deleted(v.cursor, v.cursor + s.len() - 1);
    assert(back.text =~= v.text);
}

/// Moving to an absolute position twice is the same as moving there once.
pub proof fn law_move_absolute_idempotent(v: BufferView, pos: usize)
    requires
        v.wf(),
    ensures
        v.moved_to(pos as int).moved_to(pos as int) == v.moved_to(pos as int),
{
}

/// Relative moves of which none is cut short at an end of the text add up:
/// the cursor ends at its old position plus the sum of the distances.
pub proof fn law_relative_moves_add_up(v: BufferView, deltas: Seq<i32>)
    requires
        v.wf(),
        v.unclamped(deltas),
    ensures
        v.moved_by_all(deltas).cursor == v.cursor + sum(deltas),
        v.moved_by_all(deltas).text == v.text,
    decreases deltas.len(),
{
    if deltas.len() > 0 {
        law_relative_moves_add_up(v.moved_by(deltas[0] as int), deltas.drop_first());
    }
}

/// Relative moves whose distances sum to zero, and of which none is cut
/// short at an end of the text, bring the cursor back to where it was.
pub proof fn law_relative_moves_cancel(v: BufferView, deltas: Seq<i32>)
    requires
        v.wf(),
        v.unclamped(deltas),
        sum(deltas) == 0,
    ensures
        v.moved_by_all(deltas).cursor == v.cursor,
{
    law_relative_moves_add_up(v, deltas);
}

/// Going to the end of the line, inserting a newline there and going to the
/// start of the line leaves the cursor at the start of the new line: one
/// position behind the end of the line it began in.  The text is the old one
/// with a newline put in at that line's end, and the line that the cursor
/// began in, now the line above, still starts where it did.
pub proof fn law_newline_at_line_end(v: BufferView)
    requires
        v.wf(),
    ensures
        v.at_line_end().inserted(seq!['\n']).at_line_start().cursor == line_end(v.text, v.cursor)
            + 1,
        v.at_line_end().inserted(seq!['\n']).at_line_start().text == v.text.subrange(
            0,
            line_end(v.text, v.cursor),
        ) + seq!['\n'] + v.text.subrange(line_end(v.text, v.cursor), v.text.len() as int),
        line_start(
            v.at_line_end().inserted(seq!['\n']).at_line_start().text,
            line_end(v.text, v.cursor),
        ) == line_start(v.text, v.cursor),
{
    let end = line_end(v.text, v.cursor);
    let start = line_start(v.text, v.cursor);
    lemma_line_end(v.text, v.cursor);
    lemma_line_start(v.text, v.cursor);
    let w = v.at_line_end().inserted(seq!['\n']);
    assert(w.text[w.cursor - 1] == '\n');
    assert forall|i: int| 0 <= i < end implies w.text[i] == v.text[i] by {}
    lemma_line_start_unique(w.text, end, start);
}

} // verus!
