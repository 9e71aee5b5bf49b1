//! Decoding of key names into closed sets of commands, one set per mode.
//!
//! A key is named by a string: a single character, or one of `Escape`,
//! `Backspace`, `Tab`, `Enter` and `Shift`.  The dispatcher decodes the name
//! once and then works on the decoded value alone.

use crate::strings::same_text;
use vstd::prelude::*;

verus! {

/// The commands of Normal mode.
#[derive(Clone, Copy, PartialEq, Eq, Debug, Structural)]
pub enum NormalKey {
    /// `h`
    Left,
    /// `l`
    Right,
    /// `j`
    Down,
    /// `k`
    Up,
    /// `i`
    Insert,
    /// `a`
    Append,
    /// `o`
    OpenBelow,
    /// `O`
    OpenAbove,
    /// `$`
    LineEnd,
    /// `0`
    LineStart,
    /// `w`: bound, but the motion behind it is not there yet.
    WordForward,
    /// `b`: bound, but the motion behind it is not there yet.
    WordBackward,
    /// `W`
    BigWordForward,
    /// `B`
    BigWordBackward,
    /// Any other name.
    Unbound,
}

/// The commands of Insert mode.
#[derive(Clone, Copy, PartialEq, Eq, Debug, Structural)]
pub enum InsertKey {
    Escape,
    Backspace,
    Tab,
    Enter,
    Shift,
    /// Any other name: the name itself is the text to insert.
    Text,
}

/// The key name that consists of the one character `c`.
pub open spec fn is_char(key: Seq<char>, c: char) -> bool {
    key.len() == 1 && key[0] == c
}

/// The Normal-mode command that a key name stands for.
pub open spec fn normal_key(key: Seq<char>) -> NormalKey {
    if is_char(key, 'h') {
        NormalKey::Left
    } else if is_char(key, 'l') {
        NormalKey::Right
    } else if is_char(key, 'j') {
        NormalKey::Down
    } else if is_char(key, 'k') {
        NormalKey::Up
    } else if is_char(key, 'i') {
        NormalKey::Insert
    } else if is_char(key, 'a') {
        NormalKey::Append
    } else if is_char(key, 'o') {
        NormalKey::OpenBelow
    } else if is_char(key, 'O') {
        NormalKey::OpenAbove
    } else if is_char(key, '$') {
        NormalKey::LineEnd
    } else if is_char(key, '0') {
        NormalKey::LineStart
    } else if is_char(key, 'w') {
        NormalKey::WordForward
    } else if is_char(key, 'b') {
        NormalKey::WordBackward
    } else if is_char(key, 'W') {
        NormalKey::BigWordForward
    } else if is_char(key, 'B') {
        NormalKey::BigWordBackward
    } else {
        NormalKey::Unbound
    }
}

/// The Insert-mode command that a key name stands for.
pub open spec fn insert_key(key: Seq<char>) -> InsertKey {
    if key == "Escape"@ {
        InsertKey::Escape
    } else if key == "Backspace"@ {
        InsertKey::Backspace
    } else if key == "Tab"@ {
        InsertKey::Tab
    } else if key == "Enter"@ {
        InsertKey::Enter
    } else if key == "Shift"@ {
        InsertKey::Shift
    } else {
        InsertKey::Text
    }
}

impl NormalKey {
    /// The commands that end Normal mode: `i`, `a`, `o` and `O`.  All other
    /// commands move the cursor or do nothing.
    pub open spec fn leaves_normal(self) -> bool {
        self == NormalKey::Insert || self == NormalKey::Append || self == NormalKey::OpenBelow
            || self == NormalKey::OpenAbove
    }

    /// The number of characters that the command may insert: one for `o` and
    /// `O`, none for the others.
    pub open spec fn room_needed(self) -> int {
        if self == NormalKey::OpenBelow || self == NormalKey::OpenAbove {
            1
        } else {
            0
        }
    }

    /// Decodes a key name for Normal mode.
    pub fn decode(key: &str) -> (k: NormalKey)
        ensures
            k == normal_key(key@),
    {
        if key.unicode_len() != 1 {
            return NormalKey::Unbound;
        }
        let c = key.get_char(0);
        if c == 'h' {
            NormalKey::Left
        } else if c == 'l' {
            NormalKey::Right
        } else if c == 'j' {
            NormalKey::Down
        } else if c == 'k' {
            NormalKey::Up
        } else if c == 'i' {
            NormalKey::Insert
        } else if c == 'a' {
            NormalKey::Append
        } else if c == 'o' {
            NormalKey::OpenBelow
        } else if c == 'O' {
            NormalKey::OpenAbove
        } else if c == '$' {
            NormalKey::LineEnd
        } else if c == '0' {
            NormalKey::LineStart
        } else if c == 'w' {
            NormalKey::WordForward
        } else if c == 'b' {
            NormalKey::WordBackward
        } else if c == 'W' {
            NormalKey::BigWordForward
        } else if c == 'B' {
            NormalKey::BigWordBackward
        } else {
            NormalKey::Unbound
        }
    }

    /// Whether the command is one that this library carries out.  `false`
    /// for the two reserved word motions and for unbound keys, which the
    /// dispatcher passes over without any effect.
    pub fn is_supported(&self) -> (b: bool)
        ensures
            b == !(*self == NormalKey::WordForward || *self == NormalKey::WordBackward || *self
                == NormalKey::Unbound),
    {
        match self {
            NormalKey::WordForward | NormalKey::WordBackward | NormalKey::Unbound => false,
            _ => true,
        }
    }
}

impl InsertKey {
    /// The number of characters that the command inserts, where `name` is
    /// the key as it was typed.
    pub open spec fn room_needed(self, name: Seq<char>) -> int {
        match self {
            InsertKey::Tab => 4,
            InsertKey::Enter => 1,
            InsertKey::Text => name.len() as int,
            _ => 0,
        }
    }

    /// Decodes a key name for Insert mode.
    pub fn decode(key: &str) -> (k: InsertKey)
        ensures
            k == insert_key(key@),
    {
        if same_text(key, "Escape") {
            InsertKey::Escape
        } else if same_text(key, "Backspace") {
            InsertKey::Backspace
        } else if same_text(key, "Tab") {
            InsertKey::Tab
        } else if same_text(key, "Enter") {
            InsertKey::Enter
        } else if same_text(key, "Shift") {
            InsertKey::Shift
        } else {
            InsertKey::Text
        }
    }
}

} // verus!
