use gap_buffer::buffer::GapBuffer;
use gap_buffer::model::Mode;

fn at(text: &str, pos: usize) -> GapBuffer {
    let mut b = GapBuffer::from_text(text);
    b.move_absolute(pos);
    b
}

#[test]
fn vertical_motion_keeps_the_remembered_column() {
    let mut b = at("ab\nabcdef\na", 1);
    assert_eq!(b.col(), 1);

    b.down();
    assert_eq!(b.get_cursor_pos(), 4);
    assert_eq!(b.col(), 1);
    assert!(b.abs_col_flag());

    b.down();
    assert_eq!(b.get_cursor_pos(), 10);
    assert_eq!(b.col(), 0);
    assert!(!b.abs_col_flag());
    assert_eq!(b.abs_col(), 1);

    b.up();
    assert_eq!(b.get_cursor_pos(), 4);
    assert_eq!(b.col(), 1);
    assert!(b.abs_col_flag());
    assert_eq!(b.get_text(), "ab\nabcdef\na");
}

#[test]
fn word_motion_forward_and_back() {
    let mut b = GapBuffer::from_text("hello world");
    b.n_W();
    assert_eq!(b.get_cursor_pos(), 6);
    assert_eq!(b.get_text().chars().nth(6), Some('w'));
    b.n_B();
    assert_eq!(b.get_cursor_pos(), 0);
}

#[test]
fn word_forward_stops_on_the_last_character() {
    let mut b = GapBuffer::from_text("a  b c");
    b.n_W();
    assert_eq!(b.get_cursor_pos(), 3);
    b.n_W();
    assert_eq!(b.get_cursor_pos(), 5);
    b.n_W();
    assert_eq!(b.get_cursor_pos(), 5);

    let mut single = GapBuffer::from_text("word");
    single.n_W();
    assert_eq!(single.get_cursor_pos(), 3);
}

#[test]
fn word_forward_on_empty_text_and_at_the_end() {
    let mut empty = GapBuffer::from_text("");
    empty.n_W();
    assert_eq!(empty.get_cursor_pos(), 0);

    let mut b = at("ab cd", 5);
    b.n_W();
    assert_eq!(b.get_cursor_pos(), 5);
}

#[test]
fn word_backward_skips_spaces_word_spaces() {
    let mut b = at("a  b c", 5);
    b.n_B();
    assert_eq!(b.get_cursor_pos(), 1);

    let mut mid = at("hello world", 8);
    mid.n_B();
    assert_eq!(mid.get_cursor_pos(), 5);

    let mut start = GapBuffer::from_text("abc");
    start.n_B();
    assert_eq!(start.get_cursor_pos(), 0);
}

#[test]
fn reserved_word_motions_change_nothing() {
    let mut b = at("one two", 2);
    b.n_w();
    assert_eq!(b.get_cursor_pos(), 2);
    b.n_b();
    assert_eq!(b.get_cursor_pos(), 2);
    assert_eq!(b.get_text(), "one two");
}

#[test]
fn navigation_never_changes_the_text() {
    let text = "alpha beta\n\ngamma\ndelta epsilon\n";
    let mut b = GapBuffer::from_text(text);
    b.move_relative(3);
    b.down();
    b.down();
    b.n_W();
    b.end_of_line();
    b.up();
    b.move_absolute(7);
    b.n_B();
    b.start_of_line();
    b.move_relative(-2);
    b.down();
    b.move_absolute(1000);
    b.up();
    assert_eq!(b.get_text(), text);
    assert_eq!(b.len(), text.chars().count());
    assert_eq!(b.gap_capacity(), 256);
    assert_eq!(b.mode(), Mode::Normal);
}

#[test]
fn move_absolute_twice_is_move_absolute_once() {
    for pos in [0usize, 3, 11, 12, 500] {
        let mut b = at("hello\nworld", 4);
        b.move_absolute(pos);
        let first = b.get_cursor_pos();
        let col = b.col();
        b.move_absolute(pos);
        assert_eq!(b.get_cursor_pos(), first);
        assert_eq!(b.col(), col);
    }
}

#[test]
fn move_absolute_stops_at_the_end_of_the_text() {
    let mut b = GapBuffer::from_text("hello");
    b.move_absolute(3);
    assert_eq!(b.get_cursor_pos(), 3);
    b.move_absolute(99);
    assert_eq!(b.get_cursor_pos(), 5);
    b.move_absolute(usize::MAX);
    assert_eq!(b.get_cursor_pos(), 5);
    b.move_absolute(0);
    assert_eq!(b.get_cursor_pos(), 0);
    assert_eq!(b.get_text(), "hello");
}

#[test]
fn relative_moves_that_sum_to_zero_return() {
    let mut b = at("0123456789", 4);
    for d in [3, -5, 1, 4, -3] {
        b.move_relative(d);
    }
    assert_eq!(b.get_cursor_pos(), 4);
}

#[test]
fn relative_moves_add_up() {
    let mut b = at("0123456789", 2);
    b.move_relative(5);
    assert_eq!(b.get_cursor_pos(), 7);
    b.move_relative(-4);
    assert_eq!(b.get_cursor_pos(), 3);
    b.move_relative(0);
    assert_eq!(b.get_cursor_pos(), 3);
}

#[test]
fn move_relative_past_the_start_does_nothing() {
    let mut b = at("abcdef", 2);
    b.move_relative(-3);
    assert_eq!(b.get_cursor_pos(), 2);
    b.move_relative(-2);
    assert_eq!(b.get_cursor_pos(), 0);
    b.move_relative(-1);
    assert_eq!(b.get_cursor_pos(), 0);
    b.move_relative(i32::MIN);
    assert_eq!(b.get_cursor_pos(), 0);
}

#[test]
fn move_relative_past_the_end_stops_there() {
    let mut b = at("abcdef", 4);
    b.move_relative(5);
    assert_eq!(b.get_cursor_pos(), 6);
    b.move_relative(1);
    assert_eq!(b.get_cursor_pos(), 6);
    b.move_absolute(1);
    b.move_relative(i32::MAX);
    assert_eq!(b.get_cursor_pos(), 6);
}

#[test]
fn shift_right_and_left_only_move_their_way() {
    let mut b = at("abcdef", 3);
    b.shift_right(1);
    assert_eq!(b.get_cursor_pos(), 3);
    b.shift_left(5);
    assert_eq!(b.get_cursor_pos(), 3);
    b.shift_right(5);
    assert_eq!(b.get_cursor_pos(), 5);
    b.shift_right(9);
    assert_eq!(b.get_cursor_pos(), 6);
    b.shift_left(2);
    assert_eq!(b.get_cursor_pos(), 2);
    assert_eq!(b.get_text(), "abcdef");
}

#[test]
fn column_follows_the_cursor_across_newlines() {
    let mut b = GapBuffer::from_text("ab\ncde\n\nf");
    let cols = [0usize, 1, 2, 0, 1, 2, 3, 0, 0, 1];
    for (pos, col) in cols.iter().enumerate() {
        b.move_absolute(pos);
        assert_eq!(b.col(), *col);
        assert_eq!(b.find_col(), *col);
    }
    for (pos, col) in cols.iter().enumerate().rev() {
        b.move_absolute(pos);
        assert_eq!(b.col(), *col);
        assert_eq!(b.find_col(), *col);
    }
    b.move_absolute(9);
    b.move_absolute(4);
    assert_eq!(b.col(), 1);
}

#[test]
fn line_ends_and_starts() {
    let mut b = at("hello\nworld", 2);
    b.end_of_line();
    assert_eq!(b.get_cursor_pos(), 5);
    b.end_of_line();
    assert_eq!(b.get_cursor_pos(), 5);
    b.start_of_line();
    assert_eq!(b.get_cursor_pos(), 0);
    b.move_absolute(8);
    b.start_of_line();
    assert_eq!(b.get_cursor_pos(), 6);
    b.end_of_line();
    assert_eq!(b.get_cursor_pos(), 11);
    assert_eq!(b.col(), 5);
}

#[test]
fn first_and_last_line() {
    let mut b = GapBuffer::from_text("ab\ncd\nef");
    assert!(b.on_first_line());
    assert!(!b.on_last_line());
    b.move_absolute(2);
    assert!(b.on_first_line());
    assert!(!b.on_last_line());
    b.move_absolute(3);
    assert!(!b.on_first_line());
    assert!(!b.on_last_line());
    b.move_absolute(6);
    assert!(!b.on_first_line());
    assert!(b.on_last_line());

    let b = GapBuffer::from_text("");
    assert!(b.on_first_line());
    assert!(b.on_last_line());

    let b = GapBuffer::from_text("a\n");
    assert!(!b.on_last_line());
}

#[test]
fn down_on_the_last_line_and_up_on_the_first_do_nothing() {
    let mut b = at("abc\ndef", 5);
    b.down();
    assert_eq!(b.get_cursor_pos(), 5);
    assert_eq!(b.abs_col(), 0);
    assert!(b.abs_col_flag());
    b.move_absolute(2);
    b.up();
    assert_eq!(b.get_cursor_pos(), 2);
    assert_eq!(b.abs_col(), 0);
}

#[test]
fn down_rests_on_the_newline_of_a_short_middle_line() {
    let mut b = at("abcdefgh\nabc\nx", 5);
    b.down();
    assert_eq!(b.get_cursor_pos(), 12);
    assert_eq!(b.col(), 3);
    assert_eq!(b.abs_col(), 5);
    assert!(!b.abs_col_flag());
    b.down();
    assert_eq!(b.get_cursor_pos(), 13);
    assert_eq!(b.col(), 0);
    assert_eq!(b.abs_col(), 5);
    b.up();
    b.up();
    assert_eq!(b.get_cursor_pos(), 5);
    assert!(b.abs_col_flag());
}

#[test]
fn down_into_an_empty_last_line() {
    let mut b = at("abc\n", 2);
    b.down();
    assert_eq!(b.get_cursor_pos(), 4);
    assert_eq!(b.col(), 0);
    assert!(!b.abs_col_flag());
    assert_eq!(b.abs_col(), 2);
    b.up();
    assert_eq!(b.get_cursor_pos(), 2);
    assert!(b.abs_col_flag());
}

#[test]
fn up_rests_on_the_newline_of_a_short_line() {
    let mut b = at("ab\nabcdef", 8);
    assert_eq!(b.col(), 5);
    b.up();
    assert_eq!(b.get_cursor_pos(), 2);
    assert_eq!(b.col(), 2);
    assert_eq!(b.abs_col(), 5);
    assert!(!b.abs_col_flag());
    b.down();
    assert_eq!(b.get_cursor_pos(), 8);
    assert!(b.abs_col_flag());
}

#[test]
fn a_sideways_move_refreshes_the_remembered_column() {
    let mut b = at("abcdef\nab\nabcdef", 4);
    b.down();
    assert_eq!(b.get_cursor_pos(), 9);
    assert!(!b.abs_col_flag());
    b.move_relative(-1);
    assert!(b.abs_col_flag());
    b.down();
    assert_eq!(b.get_cursor_pos(), 11);
    assert_eq!(b.abs_col(), 1);
    assert!(b.abs_col_flag());
}

#[test]
fn a_move_that_stays_put_leaves_the_flag() {
    let mut b = at("abcdef\nab", 4);
    b.down();
    assert_eq!(b.get_cursor_pos(), 8);
    assert!(!b.abs_col_flag());
    b.move_absolute(8);
    assert!(!b.abs_col_flag());
    b.move_relative(-100);
    assert!(!b.abs_col_flag());
    b.up();
    assert_eq!(b.get_cursor_pos(), 4);
}

#[test]
fn newline_at_line_end_then_line_start() {
    let mut b = at("hello\nworld", 2);
    b.end_of_line();
    b.insert("\n");
    b.start_of_line();
    assert_eq!(b.get_cursor_pos(), 6);
    assert_eq!(b.get_text(), "hello\n\nworld");
}
