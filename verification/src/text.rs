//! Line and word geometry of a text, as pure functions of a character
//! sequence and a position in it.
//!
//! A position `p` with `0 <= p <= text.len()` lies between characters: the
//! character behind it is `text[p - 1]`, the one ahead of it `text[p]`.

use vstd::prelude::*;

verus! {

/// The position where the line that holds `pos` begins: the nearest position
/// at or before `pos` that is the start of the text or follows a newline.
pub open spec fn line_start(text: Seq<char>, pos: int) -> int
    decreases pos,
{
    if pos <= 0 {
        0
    } else if text[pos - 1] == '\n' {
        pos
    } else {
        line_start(text, pos - 1)
    }
}

/// The position where the line that holds `pos` ends: the nearest position
/// at or after `pos` that is the end of the text or has a newline ahead.
pub open spec fn line_end(text: Seq<char>, pos: int) -> int
    decreases text.len() - pos,
{
    if pos >= text.len() {
        text.len() as int
    } else if text[pos] == '\n' {
        pos
    } else {
        line_end(text, pos + 1)
    }
}

/// The column of `pos`: its distance from the start of its line.
pub open spec fn column(text: Seq<char>, pos: int) -> int {
    pos - line_start(text, pos)
}

/// No newline among the characters `text[from .. to]`.
pub open spec fn newline_free(text: Seq<char>, from: int, to: int) -> bool {
    forall|i: int| from <= i < to ==> text[i] != '\n'
}

/// Where a forward skip from `pos` stops.  The skip crosses characters that
/// are spaces (`spaces == true`) or are not (`spaces == false`), and never
/// goes past the last character of the text.
pub open spec fn skip_forward(text: Seq<char>, pos: int, spaces: bool) -> int
    decreases text.len() - pos,
{
    if 0 <= pos && pos + 1 < text.len() && (text[pos] == ' ') == spaces {
        skip_forward(text, pos + 1, spaces)
    } else {
        pos
    }
}

/// Where a backward skip from `pos` stops.  The skip crosses characters that
/// are spaces (`spaces == true`) or are not (`spaces == false`), and stops at
/// the start of the text.
pub open spec fn skip_backward(text: Seq<char>, pos: int, spaces: bool) -> int
    decreases pos,
{
    if 0 < pos <= text.len() && (text[pos - 1] == ' ') == spaces {
        skip_backward(text, pos - 1, spaces)
    } else {
        pos
    }
}

/// `line_start` is the one position at or before `pos` that begins a line
/// and has no newline between itself and `pos`.
pub proof fn lemma_line_start(text: Seq<char>, pos: int)
    requires
        0 <= pos <= text.len(),
    ensures
        0 <= line_start(text, pos) <= pos,
        line_start(text, pos) == 0 || text[line_start(text, pos) - 1] == '\n',
        newline_free(text, line_start(text, pos), pos),
    decreases pos,
{
    if pos > 0 && text[pos - 1] != '\n' {
        lemma_line_start(text, pos - 1);
    }
}

/// Any line start at or before `pos` with no newline up to `pos` is
/// `line_start(text, pos)`.
pub proof fn lemma_line_start_unique(text: Seq<char>, pos: int, s: int)
    requires
        0 <= s <= pos <= text.len(),
        s == 0 || text[s - 1] == '\n',
        newline_free(text, s, pos),
    ensures
        line_start(text, pos) == s,
    decreases pos - s,
{
    if s < pos {
        assert(text[pos - 1] != '\n');
        lemma_line_start_unique(text, pos - 1, s);
    }
}

/// `line_end` is the one position at or after `pos` that ends a line and
/// has no newline between `pos` and itself.
pub proof fn lemma_line_end(text: Seq<char>, pos: int)
    requires
        0 <= pos <= text.len(),
    ensures
        pos <= line_end(text, pos) <= text.len(),
        line_end(text, pos) == text.len() || text[line_end(text, pos)] == '\n',
        newline_free(text, pos, line_end(text, pos)),
    decreases text.len() - pos,
{
    if pos < text.len() && text[pos] != '\n' {
        lemma_line_end(text, pos + 1);
    }
}

/// Any line end at or after `pos` with no newline since `pos` is
/// `line_end(text, pos)`.
pub proof fn lemma_line_end_unique(text: Seq<char>, pos: int, e: int)
    requires
        0 <= pos <= e <= text.len(),
        e == text.len() || text[e] == '\n',
        newline_free(text, pos, e),
    ensures
        line_end(text, pos) == e,
    decreases e - pos,
{
    if pos < e {
        assert(text[pos] != '\n');
        lemma_line_end_unique(text, pos + 1, e);
    }
}

/// A forward skip stays in the text, crosses only characters of the kind it
/// skips, and stops at the last character or at one of the other kind.
pub proof fn lemma_skip_forward(text: Seq<char>, pos: int, spaces: bool)
    requires
        0 <= pos <= text.len(),
    ensures
        pos <= skip_forward(text, pos, spaces) <= text.len(),
        forall|i: int|
            pos <= i < skip_forward(text, pos, spaces) ==> (text[i] == ' ') == spaces,
        skip_forward(text, pos, spaces) + 1 >= text.len() || (text[skip_forward(
            text,
            pos,
            spaces,
        )] == ' ') != spaces,
    decreases text.len() - pos,
{
    if pos + 1 < text.len() && (text[pos] == ' ') == spaces {
        lemma_skip_forward(text, pos + 1, spaces);
    }
}

/// A backward skip stays in the text, crosses only characters of the kind
/// it skips, and stops at the start of the text or behind a character of the
/// other kind.
pub proof fn lemma_skip_backward(text: Seq<char>, pos: int, spaces: bool)
    requires
        0 <= pos <= text.len(),
    ensures
        0 <= skip_backward(text, pos, spaces) <= pos,
        forall|i: int|
            skip_backward(text, pos, spaces) <= i < pos ==> (text[i] == ' ') == spaces,
        skip_backward(text, pos, spaces) == 0 || (text[skip_backward(text, pos, spaces) - 1]
            == ' ') != spaces,
    decreases pos,
{
    if 0 < pos && (text[pos - 1] == ' ') == spaces {
        lemma_skip_backward(text, pos - 1, spaces);
    }
}

} // verus!
