use hecto::editor::event::{Event, KeyCode, KeyEvent, Modifiers};
use hecto::editor::Editor;

fn key(code: KeyCode, modifiers: Modifiers) -> Event {
    Event::Key(KeyEvent { code, modifiers })
}

fn mods(control: bool, shift: bool, alt: bool) -> Modifiers {
    Modifiers {
        control,
        shift,
        alt,
        superkey: false,
        hyper: false,
        meta: false,
    }
}

#[test]
fn default_session_is_not_quitting() {
    let editor = Editor::default();
    assert!(!editor.should_quit());
}

#[test]
fn control_q_quits() {
    let mut editor = Editor::default();
    editor.evaluate_event(&key(KeyCode::Char('q'), mods(true, false, false)));
    assert!(editor.should_quit());
}

#[test]
fn plain_q_is_ignored() {
    let mut editor = Editor::default();
    editor.evaluate_event(&key(KeyCode::Char('q'), Modifiers::none()));
    assert!(!editor.should_quit());
}

#[test]
fn control_capital_q_is_ignored() {
    let mut editor = Editor::default();
    editor.evaluate_event(&key(KeyCode::Char('Q'), mods(true, false, false)));
    assert!(!editor.should_quit());
}

#[test]
fn control_shift_q_is_ignored() {
    let mut editor = Editor::default();
    editor.evaluate_event(&key(KeyCode::Char('q'), mods(true, true, false)));
    assert!(!editor.should_quit());
}

#[test]
fn control_alt_q_is_ignored() {
    let mut editor = Editor::default();
    editor.evaluate_event(&key(KeyCode::Char('q'), mods(true, false, true)));
    assert!(!editor.should_quit());
}

#[test]
fn control_q_with_super_is_ignored() {
    let mut editor = Editor::default();
    let m = Modifiers {
        control: true,
        shift: false,
        alt: false,
        superkey: true,
        hyper: false,
        meta: false,
    };
    editor.evaluate_event(&key(KeyCode::Char('q'), m));
    assert!(!editor.should_quit());
}

#[test]
fn control_a_is_ignored() {
    let mut editor = Editor::default();
    editor.evaluate_event(&key(KeyCode::Char('a'), mods(true, false, false)));
    assert!(!editor.should_quit());
}

#[test]
fn non_character_key_is_ignored() {
    let mut editor = Editor::default();
    editor.evaluate_event(&key(KeyCode::Other, mods(true, false, false)));
    assert!(!editor.should_quit());
}

#[test]
fn non_key_event_is_ignored() {
    let mut editor = Editor::default();
    editor.evaluate_event(&Event::Other);
    assert!(!editor.should_quit());
}

#[test]
fn quit_flag_is_never_reset() {
    let mut editor = Editor::default();
    editor.evaluate_event(&key(KeyCode::Char('q'), mods(true, false, false)));
    assert!(editor.should_quit());
    editor.evaluate_event(&key(KeyCode::Char('a'), mods(false, false, false)));
    assert!(editor.should_quit());
    editor.evaluate_event(&Event::Other);
    assert!(editor.should_quit());
}
