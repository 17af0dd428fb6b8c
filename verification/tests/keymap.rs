use argon::keymap::{action_for_key, EditorAction};

fn key(s: &str) -> Vec<u8> {
    s.as_bytes().to_vec()
}

#[test]
fn ctrl_s_exports() {
    assert_eq!(action_for_key(true, &key("s")), EditorAction::ExportFile);
}

#[test]
fn ctrl_o_opens_picker() {
    assert_eq!(action_for_key(true, &key("o")), EditorAction::OpenFilePicker);
}

#[test]
fn tab_indents() {
    assert_eq!(action_for_key(false, &key("Tab")), EditorAction::InsertIndent);
}

#[test]
fn tab_indents_with_ctrl_held() {
    assert_eq!(action_for_key(true, &key("Tab")), EditorAction::InsertIndent);
}

#[test]
fn enter_breaks_line() {
    assert_eq!(action_for_key(false, &key("Enter")), EditorAction::InsertNewline);
}

#[test]
fn plain_s_is_ordinary_typing() {
    assert_eq!(action_for_key(false, &key("s")), EditorAction::NoAction);
}

#[test]
fn plain_o_is_ordinary_typing() {
    assert_eq!(action_for_key(false, &key("o")), EditorAction::NoAction);
}

#[test]
fn other_keys_are_left_alone() {
    assert_eq!(action_for_key(false, &key("a")), EditorAction::NoAction);
    assert_eq!(action_for_key(true, &key("x")), EditorAction::NoAction);
    assert_eq!(action_for_key(false, &key("Escape")), EditorAction::NoAction);
}
