use bup::path;
use bup::{Editor, EditorAction, EditorMessage, Target};

fn photos() -> Target {
    Target {
        repo: 7,
        name: "Photos".to_string(),
        sources: vec![Some("/home/u/pics".to_string())],
        excludes: vec!["*.tmp".to_string()],
        duplication: Vec::new(),
    }
}

#[test]
fn new_target_editor_is_empty() {
    let e = Editor::new_target(42);
    assert_eq!(e.target.repo, 42);
    assert!(e.target.name.is_empty());
    assert!(e.target.sources.is_empty());
    assert!(e.target.excludes.is_empty());
    assert!(e.error.is_none());
}

#[test]
fn set_name_replaces_name() {
    let mut e = Editor::with_target(photos());
    assert_eq!(e.update(EditorMessage::SetName("Music".to_string())), EditorAction::Nothing);
    assert_eq!(e.target.name, "Music");
}

#[test]
fn new_source_then_delete_restores_sources() {
    let mut e = Editor::with_target(photos());
    let before = e.target.sources.clone();
    e.update(EditorMessage::NewSource);
    assert_eq!(e.target.sources.len(), before.len() + 1);
    assert_eq!(e.target.sources.last(), Some(&None));
    e.update(EditorMessage::DelSource(before.len()));
    assert_eq!(e.target.sources, before);
}

#[test]
fn new_exclude_then_delete_restores_excludes() {
    let mut e = Editor::with_target(photos());
    let before = e.target.excludes.clone();
    e.update(EditorMessage::NewExclude);
    assert_eq!(e.target.excludes.last(), Some(&String::new()));
    e.update(EditorMessage::DelExclude(before.len()));
    assert_eq!(e.target.excludes, before);
}

#[test]
fn chosen_path_fills_its_slot() {
    let mut e = Editor::with_target(photos());
    e.update(EditorMessage::NewSource);
    let a = e.update(EditorMessage::Source(1, path::Message::Path("/srv".to_string())));
    assert_eq!(a, EditorAction::Nothing);
    assert_eq!(e.target.sources, vec![Some("/home/u/pics".to_string()), Some("/srv".to_string())]);
}

#[test]
fn pressing_a_picker_asks_for_the_dialog() {
    let mut e = Editor::with_target(photos());
    assert_eq!(e.update(EditorMessage::Source(0, path::Message::SelectPath)), EditorAction::PickSource(0));
    assert_eq!(e.update(EditorMessage::Source(3, path::Message::SelectPath)), EditorAction::Nothing);
}

#[test]
fn dialog_error_keeps_the_previous_path() {
    let mut e = Editor::with_target(photos());
    e.update(EditorMessage::Source(0, path::Message::Error("User cancelled file open".to_string())));
    assert_eq!(e.target.sources, vec![Some("/home/u/pics".to_string())]);
}

#[test]
fn set_and_delete_exclude_by_position() {
    let mut e = Editor::with_target(photos());
    e.update(EditorMessage::NewExclude);
    e.update(EditorMessage::SetExclude(1, "*.bak".to_string()));
    assert_eq!(e.target.excludes, vec!["*.tmp".to_string(), "*.bak".to_string()]);
    e.update(EditorMessage::DelExclude(0));
    assert_eq!(e.target.excludes, vec!["*.bak".to_string()]);
}

#[test]
fn positions_past_the_lists_change_nothing() {
    let mut e = Editor::with_target(photos());
    e.update(EditorMessage::DelSource(5));
    e.update(EditorMessage::DelExclude(5));
    e.update(EditorMessage::SetExclude(5, "x".to_string()));
    e.update(EditorMessage::Source(5, path::Message::Path("/x".to_string())));
    assert_eq!(e.target.sources, photos().sources);
    assert_eq!(e.target.excludes, photos().excludes);
}

#[test]
fn refused_save_records_the_reason() {
    let mut e = Editor::new_target(1);
    e.update(EditorMessage::Save);
    assert_eq!(e.error, Some("Name should not be empty".to_string()));
}

#[test]
fn valid_save_and_cancel_leave_the_editor_alone() {
    let mut e = Editor::with_target(photos());
    e.update(EditorMessage::Save);
    e.update(EditorMessage::Cancel);
    assert!(e.error.is_none());
    assert_eq!(e.target.name, "Photos");
}

#[test]
fn picker_update_opens_dialog_only_on_press() {
    let mut p = bup::FilePicker::new();
    assert_eq!(p.update(path::Message::SelectPath), path::PickerAction::OpenDialog);
    assert_eq!(p.update(path::Message::Path("/a".to_string())), path::PickerAction::Nothing);
    assert_eq!(p.update(path::Message::Error("e".to_string())), path::PickerAction::Nothing);
}
