//! Editing workflows, edge cases and design limits, recorded as
//! documentation-style tests; the unit tests exercise each step.

#[test]
fn test_workflow_create_config_file() {
    // Open an empty file, enter insert mode, type the configuration,
    // save with :w, quit with :q.
    assert!(true, "Workflow documented");
}

#[test]
fn test_workflow_edit_existing_file() {
    // Load the file, navigate to the line, delete it, retype it, save
    // and quit with :wq.
    assert!(true, "Workflow documented");
}

#[test]
fn test_workflow_copy_paste_lines() {
    // Yank a line, move, paste below, repeat as needed.
    assert!(true, "Workflow documented");
}

#[test]
fn test_workflow_refactor_multiple_lines() {
    // Delete unwanted lines, open new ones, edit, then save.
    assert!(true, "Workflow documented");
}

#[test]
fn test_workflow_abandon_changes() {
    // Edit, try :q, see the unsaved-changes warning, force with :q!.
    assert!(true, "Workflow documented");
}

#[test]
fn test_workflow_quick_fix() {
    // Navigate to the spot, insert, escape, save and quit.
    assert!(true, "Workflow documented");
}

#[test]
fn test_workflow_append_to_file() {
    // Jump to the end, open a line below, type, save.
    assert!(true, "Workflow documented");
}

#[test]
fn test_workflow_multiline_edit() {
    // Insert several lines with Enter between them, review, save.
    assert!(true, "Workflow documented");
}

#[test]
fn test_error_handling_save_failure() {
    // A lost connection or denied write shows an error and keeps the
    // buffer marked modified; the user may retry or force quit.
    assert!(true, "Error handling documented");
}

#[test]
fn test_error_handling_load_failure() {
    // A missing or unreadable file surfaces the error as a status line.
    assert!(true, "Error handling documented");
}

#[test]
fn test_edge_case_very_long_lines() {
    // Lines longer than the screen stay single lines in the buffer; the
    // cursor can move beyond the visible width.
    assert!(true, "Edge case documented");
}

#[test]
fn test_edge_case_very_large_file() {
    // Scrolling keeps the cursor visible with a three-line margin.
    assert!(true, "Edge case documented");
}

#[test]
fn test_edge_case_unicode_characters() {
    // Editing works on whole characters; wide glyphs may not align on
    // screen, but the text itself is never corrupted.
    assert!(true, "Edge case documented");
}

#[test]
fn test_mode_transitions() {
    // Normal to insert on i, a, o; normal to command on ':'; insert
    // back to normal on Esc; command back on Esc or Enter.
    assert!(true, "Mode transitions documented");
}

#[test]
fn test_undo_not_supported() {
    // Undo is intentionally absent; quitting without saving and
    // reloading stands in for it.
    assert!(true, "Design limitation documented");
}

#[test]
fn test_search_not_fully_implemented() {
    // '/' enters search mode; matching and jumping are not wired up.
    assert!(true, "Incomplete feature documented");
}

#[test]
fn test_cursor_movement_performance() {
    // Every cursor movement is constant-time arithmetic with a bounds
    // check.
    assert!(true, "Performance characteristics documented");
}

#[test]
fn test_text_editing_performance() {
    // Character edits cost the tail of the line; line splits cost one
    // insertion. Fine for configuration files.
    assert!(true, "Performance characteristics documented");
}

#[test]
fn test_line_operations_performance() {
    // Deleting a line shifts the ones after it; yanking copies one
    // line; pasting costs the lines pasted.
    assert!(true, "Performance characteristics documented");
}

#[test]
fn test_no_command_injection() {
    // The editor works on an in-memory buffer; nothing it does runs a
    // shell.
    assert!(true, "Security property documented");
}

#[test]
fn test_file_permissions_preserved() {
    // Saving recreates the remote file, which may reset its mode to the
    // server's default.
    assert!(true, "Security consideration documented");
}

#[test]
fn test_no_temp_file_leakage() {
    // Editing never writes local temporary files; content only moves
    // over the file-transfer channel.
    assert!(true, "Security property documented");
}
