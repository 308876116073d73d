use bizray_tui::input::InputState;

#[test]
fn test_input_state_new() {
    let state = InputState::new();
    assert!(state.is_empty());
    assert_eq!(state.cursor_position, 0);
}

#[test]
fn test_input_state_insert_char() {
    let mut state = InputState::new();
    state.insert_char('h');
    state.insert_char('i');
    assert_eq!(state.value, "hi");
    assert_eq!(state.cursor_position, 2);
}

#[test]
fn test_input_state_delete_char() {
    let mut state = InputState::with_value("hello".to_string());
    state.delete_char();
    assert_eq!(state.value, "hell");
    assert_eq!(state.cursor_position, 4);
}

#[test]
fn test_input_state_cursor_movement() {
    let mut state = InputState::with_value("hello".to_string());
    assert_eq!(state.cursor_position, 5);

    state.move_cursor_left();
    assert_eq!(state.cursor_position, 4);

    state.move_cursor_to_start();
    assert_eq!(state.cursor_position, 0);

    state.move_cursor_right();
    assert_eq!(state.cursor_position, 1);

    state.move_cursor_to_end();
    assert_eq!(state.cursor_position, 5);
}

#[test]
fn test_input_state_clear() {
    let mut state = InputState::with_value("hello".to_string());
    state.clear();
    assert!(state.is_empty());
    assert_eq!(state.cursor_position, 0);
}

#[test]
fn input_inserts_in_the_middle() {
    let mut state = InputState::with_value("hllo".to_string());
    state.move_cursor_to_start();
    state.move_cursor_right();
    state.insert_char('e');
    assert_eq!(state.value, "hello");
    assert_eq!(state.cursor_position, 2);
}

#[test]
fn input_handles_multi_byte_characters() {
    let mut state = InputState::new();
    state.insert_char('ä');
    state.insert_char('€');
    state.insert_char('😀');
    state.insert_char('x');
    assert_eq!(state.value, "ä€😀x");
    assert_eq!(state.cursor_position, 4);
    state.move_cursor_left();
    state.delete_char();
    assert_eq!(state.value, "ä€x");
    assert_eq!(state.cursor_position, 2);
    state.move_cursor_to_start();
    state.delete_char_forward();
    assert_eq!(state.value, "€x");
    assert_eq!(state.cursor_position, 0);
    let filled = InputState::with_value("日本語".to_string());
    assert_eq!(filled.cursor_position, 3);
}

#[test]
fn input_deletes_nothing_at_the_edges() {
    let mut empty = InputState::new();
    empty.delete_char();
    empty.delete_char_forward();
    empty.move_cursor_left();
    empty.move_cursor_right();
    assert!(empty.is_empty());
    assert_eq!(empty.cursor_position, 0);

    let mut state = InputState::with_value("ab".to_string());
    state.delete_char_forward();
    assert_eq!(state.value, "ab");
    assert_eq!(state.cursor_position, 2);
    state.move_cursor_right();
    assert_eq!(state.cursor_position, 2);
    state.move_cursor_to_start();
    state.delete_char();
    assert_eq!(state.value, "ab");
    assert_eq!(state.cursor_position, 0);
    state.move_cursor_left();
    assert_eq!(state.cursor_position, 0);
}

#[test]
fn input_delete_forward_removes_character_at_cursor() {
    let mut state = InputState::with_value("abc".to_string());
    state.move_cursor_left();
    state.move_cursor_left();
    state.delete_char_forward();
    assert_eq!(state.value, "ac");
    assert_eq!(state.cursor_position, 1);
}

#[test]
fn input_cursor_stays_in_range_over_a_run_of_edits() {
    let mut state = InputState::new();
    let script = "iiibbfibfffbbbbiibfib";
    for (n, op) in script.chars().enumerate() {
        match op {
            'i' => state.insert_char(if n % 2 == 0 { 'é' } else { 'z' }),
            'b' => state.delete_char(),
            _ => state.delete_char_forward(),
        }
        if n % 3 == 0 {
            state.move_cursor_left();
        }
        assert!(state.cursor_position <= state.value.chars().count());
    }
}

#[test]
fn input_default_and_clone() {
    let state = InputState::default();
    assert!(state.is_empty());
    assert_eq!(state.cursor_position, 0);
    let filled = InputState::with_value("abc".to_string());
    let copy = filled.clone();
    assert_eq!(copy.value, "abc");
    assert_eq!(copy.cursor_position, 3);
}

#[test]
fn input_byte_index_of_a_character() {
    let state = InputState::with_value("aé€😀z".to_string());
    assert_eq!(state.char_index_from_position(0), 0);
    assert_eq!(state.char_index_from_position(1), 1);
    assert_eq!(state.char_index_from_position(2), 3);
    assert_eq!(state.char_index_from_position(3), 6);
    assert_eq!(state.char_index_from_position(4), 10);
    assert_eq!(state.char_index_from_position(5), 11);
    assert_eq!(state.char_index_from_position(99), 11);
    assert_eq!(InputState::new().char_index_from_position(0), 0);
}
