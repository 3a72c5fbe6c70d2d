use hecto::editor::Editor;

const MESSAGE: &str = "hecto editor -- version 0.1.0";

#[test]
fn banner_is_centered_at_width_80() {
    // Message length 29; padding (80 - 29) / 2 = 25; 24 leading spaces.
    let line = Editor::build_welcome_line(80);
    let expected = format!("~{}{}\r\n", " ".repeat(24), MESSAGE);
    assert_eq!(line, expected);
    assert_eq!(line.chars().count(), 56);
}

#[test]
fn leading_spaces_match_centering_formula() {
    for width in 32u16..=200 {
        let line = Editor::build_welcome_line(width);
        let spaces = line
            .chars()
            .skip(1)
            .take_while(|c| *c == ' ')
            .count();
        let expected = (width as usize - MESSAGE.chars().count()) / 2 - 1;
        assert_eq!(spaces, expected, "width {width}");
    }
}

#[test]
fn banner_never_exceeds_the_width() {
    for width in 1u16..=200 {
        let line = Editor::build_welcome_line(width);
        assert!(
            line.chars().count() <= width as usize,
            "width {width}: {line:?}"
        );
    }
}

#[test]
fn narrow_viewport_truncates_without_panicking() {
    // Width below the message length: padding floors to zero and the line
    // is cut to the width.
    let line = Editor::build_welcome_line(10);
    assert_eq!(line, "~hecto edi");
}

#[test]
fn width_equal_to_message_length_truncates() {
    let line = Editor::build_welcome_line(29);
    assert_eq!(line.chars().count(), 29);
    assert_eq!(line, format!("~{}", &MESSAGE[..28]));
}

#[test]
fn width_one_keeps_only_the_tilde() {
    let line = Editor::build_welcome_line(1);
    assert_eq!(line, "~");
}

#[test]
fn just_wide_enough_gets_no_spaces() {
    // (31 - 29) / 2 = 1, so one less leaves no space; the line break is
    // partly cut.
    let line = Editor::build_welcome_line(31);
    assert_eq!(line, format!("~{MESSAGE}\r"));
}

#[test]
fn wide_enough_line_keeps_its_line_break() {
    let line = Editor::build_welcome_line(33);
    assert_eq!(line, format!("~ {MESSAGE}\r\n"));
}
