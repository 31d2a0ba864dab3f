use chat_tui::action::Action;
use chat_tui::input_box::InputBox;
use chat_tui::key::{KeyCode, KeyEvent, KeyEventKind};

fn typed(text: &str) -> InputBox {
    let mut input = InputBox::new();
    for c in text.chars() {
        input.enter_char(c);
    }
    input
}

fn press(code: KeyCode) -> KeyEvent {
    KeyEvent::new(code)
}

#[test]
fn new_buffer_is_empty_with_cursor_at_start() {
    let input = InputBox::new();
    assert!(input.is_empty());
    assert_eq!(input.text(), "");
    assert_eq!(input.cursor_position(), 0);
}

#[test]
fn enter_char_appends_when_cursor_is_at_end() {
    let input = typed("hello");
    assert_eq!(input.text(), "hello");
    assert_eq!(input.cursor_position(), 5);
    assert!(!input.is_empty());
}

#[test]
fn enter_char_inserts_at_cursor_and_advances() {
    let mut input = typed("ac");
    input.move_cursor_left();
    input.enter_char('b');
    assert_eq!(input.text(), "abc");
    assert_eq!(input.cursor_position(), 2);
}

#[test]
fn enter_char_at_start_of_text() {
    let mut input = typed("bc");
    input.move_cursor(-2);
    input.enter_char('a');
    assert_eq!(input.text(), "abc");
    assert_eq!(input.cursor_position(), 1);
}

#[test]
fn delete_char_on_empty_buffer_changes_nothing() {
    let mut input = InputBox::new();
    input.delete_char();
    assert_eq!(input.text(), "");
    assert_eq!(input.cursor_position(), 0);
}

#[test]
fn delete_char_at_start_changes_nothing() {
    let mut input = typed("abc");
    input.move_cursor(-3);
    input.delete_char();
    assert_eq!(input.text(), "abc");
    assert_eq!(input.cursor_position(), 0);
}

#[test]
fn delete_char_removes_the_character_before_the_cursor() {
    let mut input = typed("abc");
    input.move_cursor_left();
    input.delete_char();
    assert_eq!(input.text(), "ac");
    assert_eq!(input.cursor_position(), 1);
}

#[test]
fn delete_char_at_end_removes_last_character() {
    let mut input = typed("abc");
    input.delete_char();
    assert_eq!(input.text(), "ab");
    assert_eq!(input.cursor_position(), 2);
}

#[test]
fn editing_counts_characters_not_bytes() {
    let mut input = typed("h\u{e9}llo \u{4e16}\u{754c}");
    assert_eq!(input.cursor_position(), 8);
    input.delete_char();
    assert_eq!(input.text(), "h\u{e9}llo \u{4e16}");
    assert_eq!(input.cursor_position(), 7);
    input.move_cursor(-5);
    assert_eq!(input.cursor_position(), 2);
    input.delete_char();
    assert_eq!(input.text(), "hllo \u{4e16}");
    assert_eq!(input.cursor_position(), 1);
    input.enter_char('\u{1f600}');
    assert_eq!(input.text(), "h\u{1f600}llo \u{4e16}");
    assert_eq!(input.cursor_position(), 2);
}

#[test]
fn move_cursor_left_stops_at_start() {
    let mut input = typed("ab");
    input.move_cursor_left();
    assert_eq!(input.cursor_position(), 1);
    input.move_cursor_left();
    assert_eq!(input.cursor_position(), 0);
    input.move_cursor_left();
    input.move_cursor_left();
    assert_eq!(input.cursor_position(), 0);
    assert_eq!(input.text(), "ab");
}

#[test]
fn move_cursor_right_stops_at_end() {
    let mut input = typed("ab");
    input.move_cursor(-2);
    input.move_cursor_right();
    assert_eq!(input.cursor_position(), 1);
    input.move_cursor_right();
    assert_eq!(input.cursor_position(), 2);
    input.move_cursor_right();
    input.move_cursor_right();
    assert_eq!(input.cursor_position(), 2);
}

#[test]
fn move_cursor_on_empty_buffer_stays_at_zero() {
    let mut input = InputBox::new();
    input.move_cursor_left();
    assert_eq!(input.cursor_position(), 0);
    input.move_cursor_right();
    assert_eq!(input.cursor_position(), 0);
    input.move_cursor(7);
    assert_eq!(input.cursor_position(), 0);
    input.move_cursor(-7);
    assert_eq!(input.cursor_position(), 0);
}

#[test]
fn move_cursor_clamps_to_the_text() {
    let mut input = typed("abcdef");
    input.move_cursor(-4);
    assert_eq!(input.cursor_position(), 2);
    input.move_cursor(3);
    assert_eq!(input.cursor_position(), 5);
    input.move_cursor(100);
    assert_eq!(input.cursor_position(), 6);
    input.move_cursor(-100);
    assert_eq!(input.cursor_position(), 0);
    input.move_cursor(0);
    assert_eq!(input.cursor_position(), 0);
    input.move_cursor(i64::MAX);
    assert_eq!(input.cursor_position(), 6);
    input.move_cursor(i64::MIN);
    assert_eq!(input.cursor_position(), 0);
}

#[test]
fn clamp_cursor_brings_a_position_into_the_text() {
    let input = typed("abc");
    assert_eq!(input.clamp_cursor(0), 0);
    assert_eq!(input.clamp_cursor(2), 2);
    assert_eq!(input.clamp_cursor(3), 3);
    assert_eq!(input.clamp_cursor(4), 3);
    assert_eq!(input.clamp_cursor(usize::MAX), 3);
    assert_eq!(InputBox::new().clamp_cursor(5), 0);
}

#[test]
fn set_text_then_text_gives_the_text_back() {
    let mut input = typed("old");
    input.set_text("localhost:8080");
    assert_eq!(input.text(), "localhost:8080");
    input.set_text("");
    assert_eq!(input.text(), "");
    input.set_text("na\u{ef}ve \u{2764}");
    assert_eq!(input.text(), "na\u{ef}ve \u{2764}");
}

#[test]
fn set_text_puts_the_cursor_behind_the_text() {
    let mut input = InputBox::new();
    input.set_text("localhost:8080");
    assert_eq!(input.cursor_position(), 14);
    input.set_text("\u{4e16}\u{754c}");
    assert_eq!(input.cursor_position(), 2);
    input.set_text("");
    assert_eq!(input.cursor_position(), 0);
}

#[test]
fn reset_empties_the_buffer() {
    let mut input = typed("abc");
    input.reset();
    assert!(input.is_empty());
    assert_eq!(input.text(), "");
    assert_eq!(input.cursor_position(), 0);
}

#[test]
fn reset_of_an_empty_buffer_is_idempotent() {
    let mut input = InputBox::new();
    input.reset();
    assert!(input.is_empty());
    assert_eq!(input.cursor_position(), 0);
    input.reset();
    assert!(input.is_empty());
    assert_eq!(input.text(), "");
    assert_eq!(input.cursor_position(), 0);
}

#[test]
fn reset_cursor_keeps_the_text() {
    let mut input = typed("abc");
    input.reset_cursor();
    assert_eq!(input.text(), "abc");
    assert_eq!(input.cursor_position(), 0);
}

#[test]
fn cursor_stays_within_the_text_after_every_edit() {
    let mut input = InputBox::new();
    let deltas: [i64; 6] = [-3, 2, 1, -1, 40, -2];
    let mut step = 0;
    for round in 0..40 {
        match round % 5 {
            0 => input.enter_char('x'),
            1 => input.move_cursor(deltas[step % 6]),
            2 => input.delete_char(),
            3 => input.enter_char('\u{e9}'),
            _ => input.move_cursor_left(),
        }
        step += 1;
        assert!(input.cursor_position() <= input.text().chars().count());
    }
    for _ in 0..50 {
        input.delete_char();
        assert!(input.cursor_position() <= input.text().chars().count());
    }
    assert_eq!(input.cursor_position(), 0);
}

#[test]
fn key_presses_edit_the_buffer() {
    let mut input = InputBox::new();
    assert_eq!(input.handle_key_event(press(KeyCode::Char('h'))), Action::Noop);
    assert_eq!(input.handle_key_event(press(KeyCode::Char('i'))), Action::Noop);
    assert_eq!(input.text(), "hi");
    assert_eq!(input.handle_key_event(press(KeyCode::Left)), Action::Noop);
    assert_eq!(input.cursor_position(), 1);
    assert_eq!(input.handle_key_event(press(KeyCode::Backspace)), Action::Noop);
    assert_eq!(input.text(), "i");
    assert_eq!(input.cursor_position(), 0);
    assert_eq!(input.handle_key_event(press(KeyCode::Right)), Action::Noop);
    assert_eq!(input.cursor_position(), 1);
}

#[test]
fn keys_that_are_no_edit_leave_the_buffer() {
    let mut input = typed("hi");
    for code in [KeyCode::Enter, KeyCode::Esc, KeyCode::Other] {
        assert_eq!(input.handle_key_event(press(code)), Action::Noop);
        assert_eq!(input.text(), "hi");
        assert_eq!(input.cursor_position(), 2);
    }
}

#[test]
fn only_presses_edit_the_buffer() {
    let mut input = typed("hi");
    for kind in [KeyEventKind::Release, KeyEventKind::Repeat] {
        for code in [KeyCode::Char('x'), KeyCode::Backspace, KeyCode::Left] {
            let key = KeyEvent { code, control: false, kind };
            assert_eq!(input.handle_key_event(key), Action::Noop);
            assert_eq!(input.text(), "hi");
            assert_eq!(input.cursor_position(), 2);
        }
    }
}

#[test]
fn a_character_with_control_held_is_still_inserted() {
    let mut input = InputBox::new();
    assert_eq!(input.handle_key_event(KeyEvent::with_control(KeyCode::Char('c'))), Action::Noop);
    assert_eq!(input.text(), "c");
}
