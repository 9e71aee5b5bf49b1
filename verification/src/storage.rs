//! The gap storage: a flat array of character slots with one contiguous run
//! of empty slots (the gap) sitting at the cursor.
//!
//! A slot is either `Some(c)` (a character of the text) or `None` (part of the
//! gap).  Which slots are empty is decided by the two gap bounds alone; the
//! well-formedness predicate ties the slot contents to those bounds.

use vstd::prelude::*;

verus! {

/// Number of empty slots a fresh buffer starts with, and the slack that is
/// left over after every growth.
pub const GAP_SIZE: usize = 256;

/// Flat slot array plus the two indices that bound the gap.
///
/// Slots `[gap_start, gap_end)` are the gap.  The last slot of the gap is
/// `gap_end - 1`; keeping the bound exclusive lets an empty gap at slot 0 be
/// represented without a negative index.
pub struct GapStorage {
    buf: Vec<Option<char>>,
    gap_start: usize,
    gap_end: usize,
}

impl GapStorage {
    /// Representation invariant: the gap lies inside the array, every slot of
    /// the gap is empty and no slot outside of it is.
    pub closed spec fn wf(&self) -> bool {
        &&& self.gap_start <= self.gap_end <= self.buf@.len() <= usize::MAX
        &&& forall|i: int|
            0 <= i < self.buf@.len() ==> (#[trigger] self.buf@[i] is None <==> self.gap_start
                <= i < self.gap_end)
    }

    /// The slots themselves, the empty ones included.
    pub closed spec fn slots(&self) -> Seq<Option<char>> {
        self.buf@
    }

    /// The cursor: the number of characters in front of the gap.
    pub closed spec fn cursor(&self) -> nat {
        self.gap_start as nat
    }

    /// The number of empty slots.
    pub closed spec fn gap(&self) -> nat {
        (self.gap_end - self.gap_start) as nat
    }

    /// The visible text: the occupied slots in order, the gap left out.
    pub closed spec fn text(&self) -> Seq<char> {
        Seq::new(
            (self.buf@.len() - (self.gap_end - self.gap_start)) as nat,
            |i: int|
                if i < self.gap_start {
                    self.buf@[i]->0
                } else {
                    self.buf@[i + (self.gap_end - self.gap_start)]->0
                },
        )
    }

    /// The slot array that a text, a cursor and a gap length stand for.
    pub open spec fn layout(text: Seq<char>, cursor: nat, gap: nat) -> Seq<Option<char>> {
        Seq::new(
            text.len() + gap,
            |i: int|
                if i < cursor {
                    Some(text[i])
                } else if i < cursor + gap {
                    None
                } else {
                    Some(text[i - gap])
                },
        )
    }

    /// A well-formed storage keeps its cursor inside the text, its slot count
    /// inside the machine's range, and its slots laid out as `layout` says.
    pub proof fn lemma_wf(&self)
        requires
            self.wf(),
        ensures
            self.cursor() <= self.text().len(),
            self.text().len() + self.gap() <= usize::MAX,
            self.slots() == Self::layout(self.text(), self.cursor(), self.gap()),
    {
        assert(self.buf@.len() == self.buf.len());
        assert(self.buf@ =~= Self::layout(self.text(), self.cursor(), self.gap()));
    }

    /// Builds the storage for `text`: a gap of `GAP_SIZE` slots at position 0,
    /// followed by the characters of `text`.
    pub fn from_text(text: &str) -> (s: GapStorage)
        ensures
            s.wf(),
            s.text() == text@,
            s.cursor() == 0,
            s.gap() == GAP_SIZE,
    {
        let mut slots: Vec<Option<char>> = Vec::new();
        let mut k: usize = 0;
        while k < GAP_SIZE
            invariant
                k <= GAP_SIZE,
                slots@.len() == k,
                forall|i: int| 0 <= i < k ==> slots@[i] is None,
            decreases GAP_SIZE - k,
        {
            slots.push(None);
            k += 1;
        }
        for c in it: text.chars()
            invariant
                it.seq() == text@,
                slots@.len() == GAP_SIZE + it.index(),
                forall|i: int| 0 <= i < GAP_SIZE ==> slots@[i] is None,
                forall|i: int|
                    GAP_SIZE <= i < slots@.len() ==> slots@[i] == Some(text@[i - GAP_SIZE]),
        {
            slots.push(Some(c));
        }
        let s = GapStorage { buf: slots, gap_start: 0, gap_end: GAP_SIZE };
        assert(s.buf@.len() == s.buf.len());
        assert(s.text() =~= text@);
        s
    }

    /// Length of the visible text.
    pub fn len(&self) -> (n: usize)
        requires
            self.wf(),
        ensures
            n == self.text().len(),
    {
        self.buf.len() - (self.gap_end - self.gap_start)
    }

    /// The cursor position, in text coordinates.
    pub fn position(&self) -> (p: usize)
        ensures
            p == self.cursor(),
    {
        self.gap_start
    }

    /// The number of characters that can be inserted before the array has to
    /// grow.  It is always computed from the two gap bounds.
    pub fn gap_capacity(&self) -> (g: usize)
        requires
            self.wf(),
        ensures
            g == self.gap(),
    {
        self.gap_end - self.gap_start
    }

    /// The character at text index `i`.
    pub fn char_at(&self, i: usize) -> (c: char)
        requires
            self.wf(),
            i < self.text().len(),
        ensures
            c == self.text()[i as int],
    {
        if i < self.gap_start {
            self.buf[i].unwrap()
        } else {
            self.buf[i + (self.gap_end - self.gap_start)].unwrap()
        }
    }

    /// Moves the gap one slot to the right: the character just behind the gap
    /// is copied to the gap's first slot and its old slot becomes empty.
    /// Returns the character that the cursor crossed.
    pub fn step_right(&mut self) -> (c: char)
        requires
            old(self).wf(),
            old(self).cursor() < old(self).text().len(),
        ensures
            final(self).wf(),
            final(self).text() == old(self).text(),
            final(self).gap() == old(self).gap(),
            final(self).cursor() == old(self).cursor() + 1,
            c == old(self).text()[old(self).cursor() as int],
    {
        let slot = self.buf[self.gap_end];
        self.buf.set(self.gap_end, None);
        self.buf.set(self.gap_start, slot);
        self.gap_start = self.gap_start + 1;
        self.gap_end = self.gap_end + 1;
        assert(self.text() =~= old(self).text());
        slot.unwrap()
    }

    /// Moves the gap one slot to the left: the character just in front of the
    /// gap is copied to the gap's last slot and its old slot becomes empty.
    /// Returns the character that the cursor crossed.
    pub fn step_left(&mut self) -> (c: char)
        requires
            old(self).wf(),
            old(self).cursor() > 0,
        ensures
            final(self).wf(),
            final(self).text() == old(self).text(),
            final(self).gap() == old(self).gap(),
            final(self).cursor() == old(self).cursor() - 1,
            c == old(self).text()[old(self).cursor() - 1],
    {
        let slot = self.buf[self.gap_start - 1];
        self.buf.set(self.gap_start - 1, None);
        self.buf.set(self.gap_end - 1, slot);
        self.gap_start = self.gap_start - 1;
        self.gap_end = self.gap_end - 1;
        assert(self.text() =~= old(self).text());
        slot.unwrap()
    }

    /// Widens the gap by `extra` empty slots, put in at the gap's end.  The
    /// characters on both sides of the gap stay as they are.
    pub fn grow(&mut self, extra: usize)
        requires
            old(self).wf(),
            old(self).text().len() + old(self).gap() + extra <= usize::MAX,
        ensures
            final(self).wf(),
            final(self).text() == old(self).text(),
            final(self).cursor() == old(self).cursor(),
            final(self).gap() == old(self).gap() + extra,
            final(self).slots().len() == old(self).slots().len() + extra,
            forall|i: int|
                0 <= i < old(self).cursor() ==> final(self).slots()[i]
                    == #[trigger] old(self).slots()[i],
            forall|i: int|
                old(self).cursor() + old(self).gap() <= i < old(self).slots().len()
                    ==> final(self).slots()[i + extra] == #[trigger] old(self).slots()[i],
    {
        let mut tail = self.buf.split_off(self.gap_end);
        let mut k: usize = 0;
        while k < extra
            invariant
                k <= extra,
                self.gap_start == old(self).gap_start,
                self.gap_end == old(self).gap_end,
                self.buf@.len() == self.gap_end + k,
                self.buf@.subrange(0, self.gap_end as int) == old(self).buf@.subrange(
                    0,
                    self.gap_end as int,
                ),
                forall|i: int| self.gap_end <= i < self.gap_end + k ==> self.buf@[i] is None,
            decreases extra - k,
        {
            self.buf.push(None);
            k += 1;
            assert(self.buf@.subrange(0, self.gap_end as int) =~= old(self).buf@.subrange(
                0,
                self.gap_end as int,
            ));
        }
        self.buf.append(&mut tail);
        self.gap_end = self.gap_end + extra;
        proof {
            let before = old(self).buf@;
            let split = old(self).gap_end as int;
            assert(self.buf@.len() == self.buf.len());
            assert forall|i: int| 0 <= i < self.buf@.len() implies (#[trigger] self.buf@[i] is None
                <==> self.gap_start <= i < self.gap_end) by {
                if i < split {
                    assert(self.buf@[i] == before.subrange(0, split)[i]);
                } else if i >= split + extra {
                    assert(self.buf@[i] == before.subrange(split, before.len() as int)[i - split
                        - extra]);
                    assert(before[i - extra] is Some);
                }
            }
            let text = old(self).text();
            assert forall|i: int| 0 <= i < text.len() implies self.text()[i] == text[i] by {
                if i < self.gap_start {
                    assert(self.buf@[i] == before.subrange(0, split)[i]);
                } else {
                    let j = i + (self.gap_end - self.gap_start);
                    assert(self.buf@[j] == before.subrange(split, before.len() as int)[j - split
                        - extra]);
                }
            }
            assert(self.text() =~= old(self).text());
            assert forall|i: int| 0 <= i < split implies self.buf@[i] == before[i] by {
                assert(self.buf@[i] == before.subrange(0, split)[i]);
            }
            assert forall|i: int| split <= i < before.len() implies self.buf@[i + extra]
                == before[i] by {
                assert(self.buf@[i + extra] == before.subrange(split, before.len() as int)[i
                    - split]);
            }
        }
    }

    /// Writes the characters of `s` into the gap, front to back, and moves
    /// the cursor behind them.  The gap is widened first exactly when `s` has
    /// more characters than the gap has slots; it is then widened so far that
    /// `GAP_SIZE` slots are left once `s` is in.
    pub fn insert(&mut self, s: &str)
        requires
            old(self).wf(),
            s@.len() <= old(self).gap() || old(self).text().len() + s@.len() + GAP_SIZE
                <= usize::MAX,
        ensures
            final(self).wf(),
            final(self).text() == old(self).text().subrange(0, old(self).cursor() as int) + s@
                + old(self).text().subrange(
                old(self).cursor() as int,
                old(self).text().len() as int,
            ),
            final(self).cursor() == old(self).cursor() + s@.len(),
            final(self).gap() == if s@.len() > old(self).gap() {
                GAP_SIZE as nat
            } else {
                (old(self).gap() - s@.len()) as nat
            },
    {
        let n = s.unicode_len();
        let room = self.gap_end - self.gap_start;
        if n > room {
            self.grow(n - room + GAP_SIZE);
        }
        let ghost before = old(self).text();
        let ghost at = old(self).gap_start as int;
        for c in it: s.chars()
            invariant
                it.seq() == s@,
                n == s@.len(),
                self.wf(),
                self.gap_start == at + it.index(),
                self.gap_end - self.gap_start >= n - it.index(),
                self.gap_end - at == if n > old(self).gap() {
                    n + GAP_SIZE
                } else {
                    old(self).gap() as int
                },
                0 <= at <= before.len(),
                self.text() == before.subrange(0, at) + s@.subrange(0, it.index())
                    + before.subrange(at, before.len() as int),
        {
            let ghost prev = self.text();
            let ghost done = it.index();
            self.buf.set(self.gap_start, Some(c));
            self.gap_start = self.gap_start + 1;
            proof {
                let goal = before.subrange(0, at) + s@.subrange(0, done + 1) + before.subrange(
                    at,
                    before.len() as int,
                );
                assert(self.text().len() == prev.len() + 1);
                assert(goal.len() == prev.len() + 1);
                assert forall|i: int| 0 <= i < goal.len() implies self.text()[i] == goal[i] by {
                    if i < at + done {
                        assert(self.text()[i] == prev[i]);
                    } else if i > at + done {
                        assert(self.text()[i] == prev[i - 1]);
                    } else {
                        assert(self.text()[i] == c);
                        assert(goal[i] == s@[done]);
                    }
                }
                assert(self.text() =~= goal);
            }
        }
        assert(s@.subrange(0, s@.len() as int) =~= s@);
    }

    /// Empties the slots `start ..= end` and whatever lies between them and
    /// the gap, so that the gap becomes the one run of empty slots that
    /// covers both its old extent and the given range.
    pub fn delete(&mut self, start: usize, end: usize)
        requires
            old(self).wf(),
            start <= end,
            end < old(self).text().len() + old(self).gap(),
        ensures
            final(self).wf(),
            final(self).cursor() == if start < old(self).cursor() {
                start as nat
            } else {
                old(self).cursor()
            },
            final(self).text().len() + final(self).gap()
                == old(self).text().len() + old(self).gap(),
            final(self).text() == old(self).text().subrange(0, final(self).cursor() as int)
                + old(self).text().subrange(
                if end + 1 - old(self).gap() > old(self).cursor() {
                    end + 1 - old(self).gap()
                } else {
                    old(self).cursor() as int
                },
                old(self).text().len() as int,
            ),
    {
        let lo = if start < self.gap_start {
            start
        } else {
            self.gap_start
        };
        let hi = if end + 1 > self.gap_end {
            end + 1
        } else {
            self.gap_end
        };
        let mut i: usize = lo;
        while i < self.gap_start
            invariant
                old(self).wf(),
                lo <= i <= self.gap_start,
                self.gap_start == old(self).gap_start,
                self.gap_end == old(self).gap_end,
                self.buf@.len() == old(self).buf@.len(),
                forall|j: int|
                    0 <= j < self.buf@.len() ==> #[trigger] self.buf@[j] == if lo <= j < i {
                        None
                    } else {
                        old(self).buf@[j]
                    },
            decreases self.gap_start - i,
        {
            self.buf.set(i, None);
            i += 1;
        }
        let mut k: usize = self.gap_end;
        while k < hi
            invariant
                old(self).wf(),
                self.gap_end <= k <= hi <= self.buf@.len(),
                self.gap_start == old(self).gap_start,
                self.gap_end == old(self).gap_end,
                self.buf@.len() == old(self).buf@.len(),
                forall|j: int|
                    0 <= j < self.buf@.len() ==> #[trigger] self.buf@[j] == if lo <= j
                        < self.gap_start || self.gap_end <= j < k {
                        None
                    } else {
                        old(self).buf@[j]
                    },
            decreases hi - k,
        {
            self.buf.set(k, None);
            k += 1;
        }
        self.gap_start = lo;
        self.gap_end = hi;
        proof {
            let from = hi - old(self).gap();
            let before = old(self).text();
            assert(self.text() =~= before.subrange(0, lo as int) + before.subrange(
                from,
                before.len() as int,
            ));
        }
    }

    /// The visible text as a string.
    pub fn to_text(&self) -> (out: String)
        requires
            self.wf(),
        ensures
            out@ == self.text(),
    {
        let mut out = String::new();
        let n = self.len();
        self.append_text(&mut out, 0, n);
        assert(self.text().subrange(0, n as int) =~= self.text());
        out
    }

    /// Appends the characters `from .. to` of the visible text to `out`.
    pub fn append_text(&self, out: &mut String, from: usize, to: usize)
        requires
            self.wf(),
            from <= to <= self.text().len(),
        ensures
            final(out)@ == old(out)@ + self.text().subrange(from as int, to as int),
    {
        let mut i: usize = from;
        while i < to
            invariant
                self.wf(),
                from <= i <= to <= self.text().len(),
                out@ == old(out)@ + self.text().subrange(from as int, i as int),
            decreases to - i,
        {
            out.push(self.char_at(i));
            i += 1;
            assert(out@ =~= old(out)@ + self.text().subrange(from as int, i as int));
        }
    }

    /// A copy of the slots, the empty ones included.
    pub fn to_slots(&self) -> (out: Vec<Option<char>>)
        ensures
            out@ == self.slots(),
    {
        let mut out: Vec<Option<char>> = Vec::new();
        let n = self.buf.len();
        let mut i: usize = 0;
        while i < n
            invariant
                i <= n,
                n == self.buf@.len(),
                out@ == self.buf@.subrange(0, i as int),
            decreases n - i,
        {
            out.push(self.buf[i]);
            i += 1;
            assert(out@ =~= self.buf@.subrange(0, i as int));
        }
        assert(self.buf@.subrange(0, n as int) =~= self.buf@);
        out
    }
}

} // verus!
