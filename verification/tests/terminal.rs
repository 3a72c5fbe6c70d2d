use hecto::editor::terminal::{Command, Position, Terminal};

#[test]
fn new_terminal_is_cooked_with_nothing_staged() {
    let mut term = Terminal::new();
    assert!(!term.is_raw());
    assert_eq!(term.execute(), Vec::<Command>::new());
}

#[test]
fn initialise_enters_raw_mode_and_stages_the_first_clear() {
    let mut term = Terminal::new();
    term.initialise();
    assert!(term.is_raw());
    assert_eq!(
        term.execute(),
        vec![
            Command::ClearScreen,
            Command::MoveTo(Position { x: 0, y: 0 }),
        ]
    );
}

#[test]
fn commands_are_released_in_the_order_they_were_staged() {
    let mut term = Terminal::new();
    term.hide_cursor();
    term.clear_line();
    term.print("~\r\n");
    term.move_cursor_to(Position { x: 3, y: 7 });
    term.show_cursor();
    assert_eq!(
        term.execute(),
        vec![
            Command::HideCursor,
            Command::ClearLine,
            Command::Print("~\r\n".to_string()),
            Command::MoveTo(Position { x: 3, y: 7 }),
            Command::ShowCursor,
        ]
    );
}

#[test]
fn execute_leaves_the_queue_empty() {
    let mut term = Terminal::new();
    term.clear_screen();
    assert_eq!(term.execute(), vec![Command::ClearScreen]);
    assert_eq!(term.execute(), Vec::<Command>::new());
}

#[test]
fn terminate_restores_cooked_mode() {
    let mut term = Terminal::new();
    term.initialise();
    term.terminate();
    assert!(!term.is_raw());
}

#[test]
fn terminate_twice_is_harmless() {
    let mut term = Terminal::new();
    term.initialise();
    term.print("~\r\n");
    term.terminate();
    term.terminate();
    assert!(!term.is_raw());
    // The staged commands survive both terminations untouched.
    assert_eq!(
        term.execute(),
        vec![
            Command::ClearScreen,
            Command::MoveTo(Position { x: 0, y: 0 }),
            Command::Print("~\r\n".to_string()),
        ]
    );
}

#[test]
fn terminate_before_initialise_is_harmless() {
    let mut term = Terminal::new();
    term.terminate();
    assert!(!term.is_raw());
}
