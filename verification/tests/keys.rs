use gap_buffer::buffer::GapBuffer;
use gap_buffer::keys::{InsertKey, NormalKey};
use gap_buffer::model::Mode;
use gap_buffer::strings::same_text;

#[test]
fn same_text_compares_characters() {
    assert!(same_text("", ""));
    assert!(same_text("Escape", "Escape"));
    assert!(!same_text("Escape", "Escapf"));
    assert!(!same_text("Escape", "Escap"));
    assert!(!same_text("a", ""));
    assert!(same_text("\u{e9}t\u{e9}", "\u{e9}t\u{e9}"));
    assert!(!same_text("\u{e9}", "e"));
}

#[test]
fn normal_keys_decode() {
    assert_eq!(NormalKey::decode("h"), NormalKey::Left);
    assert_eq!(NormalKey::decode("l"), NormalKey::Right);
    assert_eq!(NormalKey::decode("j"), NormalKey::Down);
    assert_eq!(NormalKey::decode("k"), NormalKey::Up);
    assert_eq!(NormalKey::decode("i"), NormalKey::Insert);
    assert_eq!(NormalKey::decode("a"), NormalKey::Append);
    assert_eq!(NormalKey::decode("o"), NormalKey::OpenBelow);
    assert_eq!(NormalKey::decode("O"), NormalKey::OpenAbove);
    assert_eq!(NormalKey::decode("$"), NormalKey::LineEnd);
    assert_eq!(NormalKey::decode("0"), NormalKey::LineStart);
    assert_eq!(NormalKey::decode("w"), NormalKey::WordForward);
    assert_eq!(NormalKey::decode("b"), NormalKey::WordBackward);
    assert_eq!(NormalKey::decode("W"), NormalKey::BigWordForward);
    assert_eq!(NormalKey::decode("B"), NormalKey::BigWordBackward);
    assert_eq!(NormalKey::decode("x"), NormalKey::Unbound);
    assert_eq!(NormalKey::decode(""), NormalKey::Unbound);
    assert_eq!(NormalKey::decode("hh"), NormalKey::Unbound);
    assert_eq!(NormalKey::decode("Escape"), NormalKey::Unbound);
}

#[test]
fn supported_normal_keys() {
    assert!(NormalKey::Left.is_supported());
    assert!(NormalKey::BigWordBackward.is_supported());
    assert!(NormalKey::OpenAbove.is_supported());
    assert!(!NormalKey::WordForward.is_supported());
    assert!(!NormalKey::WordBackward.is_supported());
    assert!(!NormalKey::Unbound.is_supported());
}

#[test]
fn insert_keys_decode() {
    assert_eq!(InsertKey::decode("Escape"), InsertKey::Escape);
    assert_eq!(InsertKey::decode("Backspace"), InsertKey::Backspace);
    assert_eq!(InsertKey::decode("Tab"), InsertKey::Tab);
    assert_eq!(InsertKey::decode("Enter"), InsertKey::Enter);
    assert_eq!(InsertKey::decode("Shift"), InsertKey::Shift);
    assert_eq!(InsertKey::decode("x"), InsertKey::Text);
    assert_eq!(InsertKey::decode("escape"), InsertKey::Text);
    assert_eq!(InsertKey::decode(""), InsertKey::Text);
    assert_eq!(InsertKey::decode("Tabs"), InsertKey::Text);
}

#[test]
fn normal_mode_motion_keys() {
    let mut b = GapBuffer::from_text("hello big\nworld");
    b.input("l");
    assert_eq!(b.get_cursor_pos(), 1);
    b.input("h");
    assert_eq!(b.get_cursor_pos(), 0);
    b.input("h");
    assert_eq!(b.get_cursor_pos(), 0);
    b.input("$");
    assert_eq!(b.get_cursor_pos(), 9);
    b.input("0");
    assert_eq!(b.get_cursor_pos(), 0);
    b.input("W");
    assert_eq!(b.get_cursor_pos(), 6);
    b.input("B");
    assert_eq!(b.get_cursor_pos(), 0);
    b.input("l");
    b.input("l");
    b.input("j");
    assert_eq!(b.get_cursor_pos(), 12);
    b.input("k");
    assert_eq!(b.get_cursor_pos(), 2);
    assert_eq!(b.mode(), Mode::Normal);
    assert_eq!(b.get_text(), "hello big\nworld");
}

#[test]
fn normal_mode_passes_over_reserved_and_unbound_keys() {
    let mut b = GapBuffer::from_text("one two");
    b.move_absolute(2);
    for key in ["w", "b", "x", "Escape", "Enter", "Tab", "Backspace", "Shift", "", "hl", "\u{e9}"] {
        b.input(key);
        assert_eq!(b.get_cursor_pos(), 2);
        assert_eq!(b.get_text(), "one two");
        assert_eq!(b.mode(), Mode::Normal);
        assert_eq!(b.gap_capacity(), 256);
    }
}

#[test]
fn i_enters_insert_mode_and_escape_leaves_it() {
    let mut b = GapBuffer::from_text("bc");
    b.input("i");
    assert_eq!(b.mode(), Mode::Insert);
    assert_eq!(b.get_cursor_pos(), 0);
    b.input("a");
    assert_eq!(b.get_text(), "abc");
    assert_eq!(b.get_cursor_pos(), 1);
    assert_eq!(b.mode(), Mode::Insert);
    b.input("Escape");
    assert_eq!(b.mode(), Mode::Normal);
    assert_eq!(b.get_text(), "abc");
    assert_eq!(b.get_cursor_pos(), 1);
}

#[test]
fn a_appends_behind_the_cursor() {
    let mut b = GapBuffer::from_text("ac");
    b.input("a");
    assert_eq!(b.mode(), Mode::Insert);
    assert_eq!(b.get_cursor_pos(), 1);
    b.input("b");
    assert_eq!(b.get_text(), "abc");
}

#[test]
fn o_opens_a_line_below() {
    let mut b = GapBuffer::from_text("ab\ncd");
    b.input("o");
    assert_eq!(b.get_text(), "ab\n\ncd");
    assert_eq!(b.get_cursor_pos(), 3);
    assert_eq!(b.mode(), Mode::Insert);

    let mut last = GapBuffer::from_text("hello");
    last.input("o");
    assert_eq!(last.get_text(), "hello\n");
    assert_eq!(last.get_cursor_pos(), 6);
}

#[test]
fn capital_o_opens_a_line_above_the_first_line() {
    let mut b = GapBuffer::from_text("ab\ncd");
    b.move_absolute(1);
    b.input("O");
    assert_eq!(b.get_text(), "\nab\ncd");
    assert_eq!(b.get_cursor_pos(), 0);
    assert_eq!(b.mode(), Mode::Insert);
}

#[test]
fn capital_o_opens_a_line_above_a_later_line() {
    let mut b = GapBuffer::from_text("ab\ncd");
    b.move_absolute(4);
    b.input("O");
    assert_eq!(b.get_text(), "ab\n\ncd");
    assert_eq!(b.get_cursor_pos(), 3);
    assert_eq!(b.mode(), Mode::Insert);
}

#[test]
fn insert_mode_named_keys() {
    let mut b = GapBuffer::from_text("");
    b.input("i");
    b.input("x");
    b.input("Tab");
    assert_eq!(b.get_text(), "x    ");
    b.input("Enter");
    assert_eq!(b.get_text(), "x    \n");
    assert_eq!(b.col(), 0);
    b.input("Shift");
    assert_eq!(b.get_text(), "x    \n");
    b.input("y");
    b.input("Backspace");
    b.input("Backspace");
    assert_eq!(b.get_text(), "x    ");
    assert_eq!(b.get_cursor_pos(), 5);
    assert_eq!(b.col(), 5);
    assert_eq!(b.mode(), Mode::Insert);
}

#[test]
fn insert_mode_inserts_any_other_name_as_text() {
    let mut b = GapBuffer::from_text("");
    b.input("i");
    for key in ["h", "j", "$", "0", "W", " ", "escape", "\u{4e16}"] {
        b.input(key);
    }
    assert_eq!(b.get_text(), "hj$0W escape\u{4e16}");
    assert_eq!(b.get_cursor_pos(), 13);
}

#[test]
fn backspace_key_at_the_start_does_nothing() {
    let mut b = GapBuffer::from_text("abc");
    b.input("i");
    b.input("Backspace");
    assert_eq!(b.get_text(), "abc");
    assert_eq!(b.get_cursor_pos(), 0);
    assert_eq!(b.mode(), Mode::Insert);
}

#[test]
fn mode_handlers_ignore_the_current_mode() {
    let mut b = GapBuffer::from_text("ab");
    b.input_i("x");
    assert_eq!(b.get_text(), "xab");
    assert_eq!(b.mode(), Mode::Normal);
    b.input_n("l");
    assert_eq!(b.get_cursor_pos(), 2);
    b.input_v("l");
    b.input_v("Escape");
    assert_eq!(b.get_cursor_pos(), 2);
    assert_eq!(b.get_text(), "xab");
    assert_eq!(b.mode(), Mode::Normal);
}

#[test]
fn every_key_can_be_handled_in_a_small_buffer() {
    let mut b = GapBuffer::from_text("some text");
    for key in ["h", "o", "O", "x", "Tab", "Enter", "Escape", "a long run of text", ""] {
        assert!(b.can_input(key));
    }
    b.input("i");
    for key in ["h", "o", "O", "x", "Tab", "Enter", "Escape", "a long run of text", ""] {
        assert!(b.can_input(key));
    }
    let long = "z".repeat(3000);
    assert!(b.can_input(&long));
    b.input(&long);
    assert_eq!(b.len(), 3009);
    assert_eq!(b.gap_capacity(), 256);
}

#[test]
fn typing_a_line_key_by_key() {
    let mut b = GapBuffer::from_text("");
    b.input("i");
    for c in "fn main".chars() {
        b.input(&c.to_string());
    }
    b.input("Escape");
    b.input("0");
    b.input("W");
    assert_eq!(b.get_cursor_pos(), 3);
    b.input("i");
    b.input("Backspace");
    b.input("_");
    b.input("Escape");
    assert_eq!(b.get_text(), "fn_main");
    assert_eq!(b.col(), 3);
}
