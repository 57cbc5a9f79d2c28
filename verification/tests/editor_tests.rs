use bssh::editor::{EditorMode, EditorState};

fn create_test_editor() -> EditorState {
    let content = "line 1\nline 2\nline 3".to_string();
    EditorState::new("test.txt".to_string(), "/tmp/test.txt".to_string(), content)
}

fn create_empty_editor() -> EditorState {
    EditorState::new("empty.txt".to_string(), "/tmp/empty.txt".to_string(), String::new())
}

#[test]
fn test_move_cursor_down() {
    let mut editor = create_test_editor();
    assert_eq!(editor.cursor_row, 0);

    editor.move_cursor_down();
    assert_eq!(editor.cursor_row, 1);

    editor.move_cursor_down();
    assert_eq!(editor.cursor_row, 2);

    editor.move_cursor_down();
    assert_eq!(editor.cursor_row, 2);
}

#[test]
fn test_move_cursor_up() {
    let mut editor = create_test_editor();
    editor.cursor_row = 2;

    editor.move_cursor_up();
    assert_eq!(editor.cursor_row, 1);

    editor.move_cursor_up();
    assert_eq!(editor.cursor_row, 0);

    editor.move_cursor_up();
    assert_eq!(editor.cursor_row, 0);
}

#[test]
fn test_move_cursor_right() {
    let mut editor = create_test_editor();
    assert_eq!(editor.cursor_col, 0);

    editor.move_cursor_right();
    assert_eq!(editor.cursor_col, 1);

    for _ in 0..4 {
        editor.move_cursor_right();
    }
    assert_eq!(editor.cursor_col, 5);

    editor.move_cursor_right();
    assert_eq!(editor.cursor_col, 5);
}

#[test]
fn test_move_cursor_right_wraps_to_next_line() {
    let mut editor = create_test_editor();
    editor.mode = EditorMode::Insert;

    for _ in 0..6 {
        editor.move_cursor_right();
    }

    editor.move_cursor_right();
    assert_eq!(editor.cursor_row, 1);
    assert_eq!(editor.cursor_col, 0);
}

#[test]
fn test_move_cursor_left() {
    let mut editor = create_test_editor();
    editor.cursor_col = 3;

    editor.move_cursor_left();
    assert_eq!(editor.cursor_col, 2);

    editor.move_cursor_left();
    assert_eq!(editor.cursor_col, 1);

    editor.move_cursor_left();
    assert_eq!(editor.cursor_col, 0);

    editor.move_cursor_left();
    assert_eq!(editor.cursor_col, 0);
    assert_eq!(editor.cursor_row, 0);
}

#[test]
fn test_move_cursor_left_wraps_to_previous_line() {
    let mut editor = create_test_editor();
    editor.cursor_row = 1;
    editor.cursor_col = 0;

    editor.move_cursor_left();
    assert_eq!(editor.cursor_row, 0);
    assert_eq!(editor.cursor_col, 5);
}

#[test]
fn test_move_to_line_start() {
    let mut editor = create_test_editor();
    editor.cursor_col = 5;

    editor.move_to_line_start();
    assert_eq!(editor.cursor_col, 0);
}

#[test]
fn test_move_to_line_end() {
    let mut editor = create_test_editor();
    editor.cursor_col = 0;

    editor.move_to_line_end();
    assert_eq!(editor.cursor_col, 5);

    editor.mode = EditorMode::Insert;
    editor.cursor_col = 0;
    editor.move_to_line_end();
    assert_eq!(editor.cursor_col, 6);
}

#[test]
fn test_move_to_buffer_start() {
    let mut editor = create_test_editor();
    editor.cursor_row = 2;
    editor.cursor_col = 3;

    editor.move_to_buffer_start();
    assert_eq!(editor.cursor_row, 0);
    assert_eq!(editor.cursor_col, 0);
}

#[test]
fn test_move_to_buffer_end() {
    let mut editor = create_test_editor();

    editor.move_to_buffer_end();
    assert_eq!(editor.cursor_row, 2);
    assert_eq!(editor.cursor_col, 5);
}

#[test]
fn test_insert_char() {
    let mut editor = create_empty_editor();
    editor.mode = EditorMode::Insert;

    editor.insert_char('H');
    assert_eq!(editor.buffer[0], "H");
    assert_eq!(editor.cursor_col, 1);
    assert!(editor.modified);

    editor.insert_char('i');
    assert_eq!(editor.buffer[0], "Hi");
    assert_eq!(editor.cursor_col, 2);
}

#[test]
fn test_insert_char_in_middle() {
    let mut editor = create_test_editor();
    editor.mode = EditorMode::Insert;
    editor.cursor_col = 4;

    editor.insert_char('X');
    assert_eq!(editor.buffer[0], "lineX 1");
    assert_eq!(editor.cursor_col, 5);
}

#[test]
fn test_delete_char() {
    let mut editor = create_test_editor();
    editor.mode = EditorMode::Insert;
    editor.cursor_col = 4;

    editor.delete_char();
    assert_eq!(editor.buffer[0], "lin 1");
    assert_eq!(editor.cursor_col, 3);
    assert!(editor.modified);
}

#[test]
fn test_delete_char_at_line_start_joins_lines() {
    let mut editor = create_test_editor();
    editor.mode = EditorMode::Insert;
    editor.cursor_row = 1;
    editor.cursor_col = 0;

    editor.delete_char();
    assert_eq!(editor.buffer.len(), 2);
    assert_eq!(editor.buffer[0], "line 1line 2");
    assert_eq!(editor.cursor_row, 0);
    assert_eq!(editor.cursor_col, 6);
}

#[test]
fn test_insert_newline() {
    let mut editor = create_empty_editor();
    editor.mode = EditorMode::Insert;
    editor.insert_char('H');
    editor.insert_char('i');

    editor.insert_newline();
    assert_eq!(editor.buffer.len(), 2);
    assert_eq!(editor.buffer[0], "Hi");
    assert_eq!(editor.buffer[1], "");
    assert_eq!(editor.cursor_row, 1);
    assert_eq!(editor.cursor_col, 0);
}

#[test]
fn test_insert_newline_splits_line() {
    let mut editor = create_test_editor();
    editor.mode = EditorMode::Insert;
    editor.cursor_col = 4;

    editor.insert_newline();
    assert_eq!(editor.buffer.len(), 4);
    assert_eq!(editor.buffer[0], "line");
    assert_eq!(editor.buffer[1], " 1");
    assert_eq!(editor.cursor_row, 1);
    assert_eq!(editor.cursor_col, 0);
}

#[test]
fn test_delete_char_at_cursor() {
    let mut editor = create_test_editor();
    editor.cursor_col = 2;

    editor.delete_char_at_cursor();
    assert_eq!(editor.buffer[0], "lie 1");
    assert_eq!(editor.cursor_col, 2);
    assert!(editor.modified);
}

#[test]
fn test_delete_char_at_cursor_end_of_line() {
    let mut editor = create_test_editor();
    editor.cursor_col = 5;

    editor.delete_char_at_cursor();
    assert_eq!(editor.buffer[0], "line ");
    assert_eq!(editor.cursor_col, 4);
}

#[test]
fn test_delete_char_at_cursor_beyond_line() {
    let mut editor = create_test_editor();
    editor.cursor_col = 10;

    let original = editor.buffer[0].clone();
    editor.delete_char_at_cursor();
    assert_eq!(editor.buffer[0], original);
    assert!(!editor.modified);
}

#[test]
fn test_delete_char_at_cursor_empty_line() {
    let mut editor = create_empty_editor();

    editor.delete_char_at_cursor();
    assert_eq!(editor.buffer[0], "");
    assert!(!editor.modified);
}

#[test]
fn test_x_key_deletes_multiple_chars() {
    let mut editor = create_test_editor();
    editor.cursor_col = 0;

    editor.delete_char_at_cursor();
    assert_eq!(editor.buffer[0], "ine 1");
    assert_eq!(editor.cursor_col, 0);

    editor.delete_char_at_cursor();
    assert_eq!(editor.buffer[0], "ne 1");
    assert_eq!(editor.cursor_col, 0);

    editor.delete_char_at_cursor();
    assert_eq!(editor.buffer[0], "e 1");
    assert_eq!(editor.cursor_col, 0);
}

#[test]
fn test_delete_line() {
    let mut editor = create_test_editor();
    editor.cursor_row = 1;

    editor.delete_line();
    assert_eq!(editor.buffer.len(), 2);
    assert_eq!(editor.buffer[0], "line 1");
    assert_eq!(editor.buffer[1], "line 3");
    assert_eq!(editor.yank_register, vec!["line 2"]);
    assert!(editor.modified);
}

#[test]
fn test_delete_last_line() {
    let mut editor = create_test_editor();
    editor.cursor_row = 2;

    editor.delete_line();
    assert_eq!(editor.buffer.len(), 2);
    assert_eq!(editor.cursor_row, 1);
}

#[test]
fn test_delete_only_line() {
    let mut editor = create_empty_editor();
    editor.buffer[0] = "test".to_string();

    editor.delete_line();
    assert_eq!(editor.buffer.len(), 1);
    assert_eq!(editor.buffer[0], "");
    assert_eq!(editor.yank_register, vec!["test"]);
}

#[test]
fn test_yank_line() {
    let mut editor = create_test_editor();
    editor.cursor_row = 1;

    editor.yank_line();
    assert_eq!(editor.yank_register, vec!["line 2"]);
    assert!(!editor.modified);
}

#[test]
fn test_paste_below() {
    let mut editor = create_test_editor();
    editor.yank_register = vec!["pasted line".to_string()];
    editor.cursor_row = 0;

    editor.paste_below();
    assert_eq!(editor.buffer.len(), 4);
    assert_eq!(editor.buffer[0], "line 1");
    assert_eq!(editor.buffer[1], "pasted line");
    assert_eq!(editor.buffer[2], "line 2");
    assert_eq!(editor.cursor_row, 1);
    assert!(editor.modified);
}

#[test]
fn test_paste_multiple_lines() {
    let mut editor = create_test_editor();
    editor.yank_register = vec!["line A".to_string(), "line B".to_string()];
    editor.cursor_row = 0;

    editor.paste_below();
    assert_eq!(editor.buffer.len(), 5);
    assert_eq!(editor.buffer[1], "line A");
    assert_eq!(editor.buffer[2], "line B");
}

#[test]
fn test_mode_starts_in_normal() {
    let editor = create_test_editor();
    assert_eq!(editor.mode, EditorMode::Normal);
}

#[test]
fn test_normal_mode_cursor_clamping() {
    let mut editor = create_test_editor();
    editor.mode = EditorMode::Insert;
    editor.cursor_col = 6;

    editor.mode = EditorMode::Normal;
    editor.clamp_cursor();
    assert_eq!(editor.cursor_col, 5);
}

#[test]
fn test_insert_mode_allows_past_end() {
    let mut editor = create_test_editor();
    editor.mode = EditorMode::Insert;

    editor.move_to_line_end();
    assert_eq!(editor.cursor_col, 6);
}

#[test]
fn test_command_write() {
    let mut editor = create_test_editor();

    editor.execute_command("w");
    assert_eq!(editor.status_message, "Saving...");
    assert!(!editor.should_quit);
}

#[test]
fn test_command_quit_with_modifications() {
    let mut editor = create_test_editor();
    editor.modified = true;

    editor.execute_command("q");
    assert!(editor.status_message.contains("No write since last change"));
    assert!(!editor.should_quit);
}

#[test]
fn test_command_quit_without_modifications() {
    let mut editor = create_test_editor();
    editor.modified = false;

    editor.execute_command("q");
    assert!(editor.should_quit);
}

#[test]
fn test_command_force_quit() {
    let mut editor = create_test_editor();
    editor.modified = true;

    editor.execute_command("q!");
    assert!(editor.should_quit);
}

#[test]
fn test_command_write_quit() {
    let mut editor = create_test_editor();

    editor.execute_command("wq");
    assert_eq!(editor.status_message, "Saving and quitting...");
}

#[test]
fn test_command_unknown() {
    let mut editor = create_test_editor();

    editor.execute_command("unknown");
    assert!(editor.status_message.contains("Unknown command"));
}

#[test]
fn test_scroll_down_when_cursor_moves_off_screen() {
    let mut editor = create_test_editor();
    editor.scroll_offset = 0;
    editor.cursor_row = 10;

    editor.update_scroll(5);

    assert!(editor.scroll_offset > 0);
    assert!(editor.cursor_row >= editor.scroll_offset);
    assert!(editor.cursor_row < editor.scroll_offset + 5);
}

#[test]
fn test_scroll_up_when_cursor_moves_above_viewport() {
    let mut editor = create_test_editor();
    editor.scroll_offset = 10;
    editor.cursor_row = 5;

    editor.update_scroll(5);

    assert!(editor.scroll_offset <= editor.cursor_row);
}

#[test]
fn test_empty_file_handling() {
    let editor = create_empty_editor();
    assert_eq!(editor.buffer.len(), 1);
    assert_eq!(editor.buffer[0], "");
}

#[test]
fn test_cursor_clamping_on_shorter_line() {
    let mut editor = create_test_editor();
    editor.buffer = vec!["long line here".to_string(), "short".to_string()];
    editor.cursor_col = 10;
    editor.cursor_row = 0;

    editor.move_cursor_down();
    assert_eq!(editor.cursor_col, 4);
}

#[test]
fn test_file_paths_stored_correctly() {
    let editor = EditorState::new(
        "test.conf".to_string(),
        "/etc/test.conf".to_string(),
        "config=value".to_string(),
    );

    assert_eq!(editor.filename, "test.conf");
    assert_eq!(editor.remote_path, "/etc/test.conf");
}

#[test]
fn test_modified_flag() {
    let mut editor = create_empty_editor();
    assert!(!editor.modified);

    editor.mode = EditorMode::Insert;
    editor.insert_char('a');
    assert!(editor.modified);
}

#[test]
fn test_full_editing_workflow() {
    let mut editor = create_empty_editor();
    editor.mode = EditorMode::Insert;

    for c in "Hello".chars() {
        editor.insert_char(c);
    }

    editor.insert_newline();

    for c in "World".chars() {
        editor.insert_char(c);
    }

    assert_eq!(editor.buffer.len(), 2);
    assert_eq!(editor.buffer[0], "Hello");
    assert_eq!(editor.buffer[1], "World");
    assert_eq!(editor.cursor_row, 1);
    assert_eq!(editor.cursor_col, 5);
}

#[test]
fn test_delete_and_paste_workflow() {
    let mut editor = create_test_editor();

    editor.move_cursor_down();
    editor.delete_line();

    editor.move_to_buffer_end();
    editor.paste_below();

    assert_eq!(editor.buffer.len(), 3);
    assert_eq!(editor.buffer[0], "line 1");
    assert_eq!(editor.buffer[1], "line 3");
    assert_eq!(editor.buffer[2], "line 2");
}

#[test]
fn test_navigation_and_editing_combo() {
    let mut editor = create_test_editor();
    editor.mode = EditorMode::Insert;

    editor.move_to_line_end();

    editor.insert_char('!');

    editor.move_cursor_down();
    editor.move_to_line_start();

    editor.insert_char('>');

    assert_eq!(editor.buffer[0], "line 1!");
    assert_eq!(editor.buffer[1], ">line 2");
}

#[test]
fn test_multiline_paste() {
    let mut editor = create_empty_editor();

    editor.yank_register = vec![
        "first".to_string(),
        "second".to_string(),
        "third".to_string(),
    ];

    editor.paste_below();

    assert_eq!(editor.buffer.len(), 4);
    assert_eq!(editor.buffer[1], "first");
    assert_eq!(editor.buffer[2], "second");
    assert_eq!(editor.buffer[3], "third");
}
