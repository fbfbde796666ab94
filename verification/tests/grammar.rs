use input_bridge::accelerator::is_valid_combination;

#[test]
fn accepts_primary_shift_space() {
    assert!(is_valid_combination("Primary+Shift+Space"));
}

#[test]
fn accepts_command_or_control_shift_space() {
    assert!(is_valid_combination("CommandOrControl+Shift+Space"));
}

#[test]
fn accepts_bare_key() {
    assert!(is_valid_combination("A"));
    assert!(is_valid_combination("Z"));
    assert!(is_valid_combination("0"));
    assert!(is_valid_combination("9"));
    assert!(is_valid_combination("Space"));
    assert!(is_valid_combination("Enter"));
    assert!(is_valid_combination("Tab"));
    assert!(is_valid_combination("Escape"));
}

#[test]
fn accepts_each_modifier() {
    assert!(is_valid_combination("Primary+A"));
    assert!(is_valid_combination("CommandOrControl+A"));
    assert!(is_valid_combination("CmdOrCtrl+A"));
    assert!(is_valid_combination("Command+A"));
    assert!(is_valid_combination("Cmd+A"));
    assert!(is_valid_combination("Control+A"));
    assert!(is_valid_combination("Ctrl+A"));
    assert!(is_valid_combination("Shift+A"));
    assert!(is_valid_combination("Alt+A"));
    assert!(is_valid_combination("Option+A"));
    assert!(is_valid_combination("Super+A"));
    assert!(is_valid_combination("Meta+A"));
}

#[test]
fn accepts_stacked_modifiers() {
    assert!(is_valid_combination("Ctrl+Alt+Shift+F"));
}

#[test]
fn rejects_empty() {
    assert!(!is_valid_combination(""));
}

#[test]
fn rejects_lone_separator() {
    assert!(!is_valid_combination("+"));
}

#[test]
fn rejects_trailing_separator() {
    assert!(!is_valid_combination("Shift+"));
}

#[test]
fn rejects_empty_token() {
    assert!(!is_valid_combination("Shift++A"));
    assert!(!is_valid_combination("+A"));
}

#[test]
fn rejects_unknown_modifier() {
    assert!(!is_valid_combination("Bogus+A"));
}

#[test]
fn rejects_unknown_key() {
    assert!(!is_valid_combination("Shift+foo"));
    assert!(!is_valid_combination("a"));
    assert!(!is_valid_combination("shift"));
}

#[test]
fn rejects_key_in_modifier_position() {
    assert!(!is_valid_combination("A+Shift"));
    assert!(!is_valid_combination("Space+A"));
}

#[test]
fn rejects_modifier_without_key() {
    assert!(!is_valid_combination("Shift"));
    assert!(!is_valid_combination("Ctrl+Shift"));
}
