use ccm::keys::{handle_text_input, KeyCode, KeyEvent, KeyModifiers, TextInputResult};
use ccm::text_input::{word_left_position, word_right_position, TextInput};

// ============ TextInput ============

#[test]
fn test_text_input_basic_insert() {
    let mut input = TextInput::new();
    input.insert('a');
    input.insert('b');
    assert_eq!(input.content(), "ab");
    assert_eq!(input.cursor_position(), 2);
}

#[test]
fn test_text_input_cjk_display_width() {
    let mut input = TextInput::new();
    input.insert_str("Hello");
    input.insert('中'); // display width 2
    input.insert('文');
    assert_eq!(input.content(), "Hello中文");
    assert_eq!(input.display_width(), 5 + 2 + 2);
    assert_eq!(input.cursor_display_offset(), 9);
}

#[test]
fn test_text_input_cursor_movement() {
    let mut input = TextInput::with_content("Hello世界");
    assert_eq!(input.cursor_position(), 7);

    input.move_left();
    assert_eq!(input.cursor_position(), 6);
    assert_eq!(input.cursor_display_offset(), 5 + 2);

    input.move_home();
    assert_eq!(input.cursor_position(), 0);
    assert_eq!(input.cursor_display_offset(), 0);
}

#[test]
fn test_text_input_backspace_cjk() {
    let mut input = TextInput::with_content("Hello世界");
    input.backspace();
    assert_eq!(input.content(), "Hello世");
    input.backspace();
    assert_eq!(input.content(), "Hello");
}

#[test]
fn test_text_input_insert_at_middle() {
    let mut input = TextInput::with_content("Hello");
    input.move_home();
    input.move_right();
    input.move_right();
    input.insert('X');
    assert_eq!(input.content(), "HeXllo");
}

#[test]
fn test_text_input_delete_at_middle() {
    let mut input = TextInput::with_content("Hello");
    input.move_home();
    input.move_right();
    input.move_right();
    input.delete();
    assert_eq!(input.content(), "Helo");
}

#[test]
fn test_text_input_word_navigation() {
    let mut input = TextInput::with_content("hello world test");
    input.move_home();

    input.move_word_right();
    assert_eq!(input.cursor_position(), 6);

    input.move_word_right();
    assert_eq!(input.cursor_position(), 12);

    input.move_word_left();
    assert_eq!(input.cursor_position(), 6);
}

#[test]
fn test_text_input_clear() {
    let mut input = TextInput::with_content("test");
    input.clear();
    assert!(input.is_empty());
    assert_eq!(input.cursor_position(), 0);
}

#[test]
fn test_text_input_set_content() {
    let mut input = TextInput::new();
    input.set_content("new content");
    assert_eq!(input.content(), "new content");
    assert_eq!(input.cursor_position(), 11);
}

// ============ handle_text_input ============

#[test]
fn test_handle_text_input_character() {
    let mut input = TextInput::new();
    let key = KeyEvent::new(KeyCode::Char('a'), KeyModifiers::empty());
    match handle_text_input(&key, &mut input) {
        TextInputResult::Handled => assert_eq!(input.content(), "a"),
        _ => panic!("Expected Handled"),
    }
}

#[test]
fn test_handle_text_input_backspace() {
    let mut input = TextInput::with_content("abc");
    let key = KeyEvent::new(KeyCode::Backspace, KeyModifiers::empty());
    match handle_text_input(&key, &mut input) {
        TextInputResult::Handled => assert_eq!(input.content(), "ab"),
        _ => panic!("Expected Handled"),
    }
}

#[test]
fn test_handle_text_input_esc() {
    let mut input = TextInput::with_content("text");
    let key = KeyEvent::new(KeyCode::Esc, KeyModifiers::empty());
    match handle_text_input(&key, &mut input) {
        TextInputResult::Cancel => {
            // The buffer is not cleared by the handler.
            assert_eq!(input.content(), "text");
        }
        _ => panic!("Expected Cancel"),
    }
}

#[test]
fn test_handle_text_input_enter() {
    let mut input = TextInput::with_content("text");
    let key = KeyEvent::new(KeyCode::Enter, KeyModifiers::empty());
    match handle_text_input(&key, &mut input) {
        TextInputResult::Submit => assert_eq!(input.content(), "text"),
        _ => panic!("Expected Submit"),
    }
}

#[test]
fn test_handle_text_input_shift_enter_newline() {
    let mut input = TextInput::with_content("line1");
    let key = KeyEvent::new(KeyCode::Enter, KeyModifiers::shift());
    match handle_text_input(&key, &mut input) {
        TextInputResult::Handled => assert_eq!(input.content(), "line1\n"),
        _ => panic!("Expected Handled"),
    }
}

#[test]
fn test_handle_text_input_home_end() {
    let mut input = TextInput::with_content("text");
    let home_key = KeyEvent::new(KeyCode::Home, KeyModifiers::empty());
    let end_key = KeyEvent::new(KeyCode::End, KeyModifiers::empty());

    handle_text_input(&home_key, &mut input);
    assert_eq!(input.cursor_position(), 0);

    handle_text_input(&end_key, &mut input);
    assert_eq!(input.cursor_position(), 4);
}

#[test]
fn test_handle_text_input_ctrl_arrows() {
    let mut input = TextInput::with_content("hello world");
    input.move_home();

    let ctrl_right = KeyEvent::new(KeyCode::Right, KeyModifiers::control());
    handle_text_input(&ctrl_right, &mut input);
    assert_eq!(input.cursor_position(), 6);

    let ctrl_left = KeyEvent::new(KeyCode::Left, KeyModifiers::control());
    handle_text_input(&ctrl_left, &mut input);
    assert_eq!(input.cursor_position(), 0);
}

// ============ further cases ============

#[test]
fn insert_then_backspace_restores_buffer() {
    let mut input = TextInput::with_content("a世c");
    input.move_left();
    let before = (input.content().to_string(), input.cursor_position());
    input.insert('界');
    assert_eq!(input.content(), "a世界c");
    assert!(input.backspace());
    assert_eq!((input.content().to_string(), input.cursor_position()), before);
}

#[test]
fn insert_left_delete_restores_buffer() {
    let mut input = TextInput::with_content("xy");
    input.move_left();
    input.insert('q');
    input.move_left();
    assert!(input.delete());
    assert_eq!(input.content(), "xy");
    assert_eq!(input.cursor_position(), 1);
}

#[test]
fn edges_do_nothing() {
    let mut input = TextInput::with_content("ab");
    assert!(!input.delete());
    assert!(!input.move_right());
    assert!(!input.move_word_right());
    input.move_home();
    assert!(!input.backspace());
    assert!(!input.move_left());
    assert!(!input.move_word_left());
    assert_eq!(input.content(), "ab");
}

#[test]
fn insert_str_in_middle_and_trim() {
    let mut input = TextInput::with_content("  ad  ");
    input.move_home();
    input.move_right();
    input.move_right();
    input.move_right();
    input.insert_str("bc");
    assert_eq!(input.content(), "  abcd  ");
    assert_eq!(input.cursor_position(), 5);
    assert_eq!(input.trim(), "abcd");
    input.move_end();
    assert_eq!(input.cursor_position(), 8);
}

#[test]
fn word_moves_skip_punctuation() {
    let mut input = TextInput::with_content("foo, bar.baz");
    input.move_word_left();
    assert_eq!(input.cursor_position(), 9);
    input.move_word_left();
    assert_eq!(input.cursor_position(), 5);
    input.move_word_left();
    assert_eq!(input.cursor_position(), 0);
    assert_eq!(word_left_position(&[true, false, true], 3), 2);
    assert_eq!(word_right_position(&[true, false, false, true], 0), 3);
}

#[test]
fn handle_text_input_other_keys() {
    let mut input = TextInput::with_content("abc");
    input.move_left();
    let del = KeyEvent::new(KeyCode::Delete, KeyModifiers::empty());
    assert_eq!(handle_text_input(&del, &mut input), TextInputResult::Handled);
    assert_eq!(input.content(), "ab");
    let tab = KeyEvent::new(KeyCode::Tab, KeyModifiers::empty());
    assert_eq!(handle_text_input(&tab, &mut input), TextInputResult::Unhandled);
    assert_eq!(input.content(), "ab");
}

#[test]
fn cursor_stays_in_text_over_any_calls() {
    let mut t = TextInput::with_content("héllo wörld");
    let mut seed: u32 = 7;
    for step in 0..2000u32 {
        seed = seed.wrapping_mul(1_103_515_245).wrapping_add(12_345);
        match (seed >> 16) % 12 {
            0 => t.clear(),
            1 => t.set_content(if step % 2 == 0 { "ab cd" } else { "中文 x" }),
            2 => t.insert('é'),
            3 => t.insert_str("a b"),
            4 => {
                t.backspace();
            },
            5 => {
                t.delete();
            },
            6 => {
                t.move_left();
            },
            7 => {
                t.move_right();
            },
            8 => t.move_home(),
            9 => t.move_end(),
            10 => {
                t.move_word_left();
            },
            _ => {
                t.move_word_right();
            },
        }
        assert!(t.cursor_position() <= t.content().chars().count());
    }
}
