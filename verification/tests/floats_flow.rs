//! The float flows: delete confirmations and their deferred action, the
//! save-confirm ownership round trip, warnings, help, and the startup
//! corrupt-data dialog.

use dir_link::app::data::RuntimeError;
use dir_link::app::App;
use dir_link::data::dir::LinkDir;
use dir_link::data::dirset::LinkDirSet;
use dir_link::data::link::Link;
use dir_link::float::confirm::ConfirmChoice;
use dir_link::float::edit::FolderEditState;
use dir_link::float::warning::CorruptDataWarningChoice;
use dir_link::float::Float;
use dir_link::input::{KeyCode, KeyPress};
use dir_link::key::handle_key_event;
use dir_link::state::common::{InputMode, InputPart};
use dir_link::state::{AppState, NormalState};
use ratatui::crossterm::event::{KeyCode as RawKeyCode, KeyEvent, KeyModifiers};

fn raw_of(code: KeyCode, ctrl: bool) -> KeyEvent {
    let raw_code = match code {
        KeyCode::Char(c) => RawKeyCode::Char(c),
        KeyCode::Esc => RawKeyCode::Esc,
        KeyCode::Enter => RawKeyCode::Enter,
        KeyCode::Left => RawKeyCode::Left,
        KeyCode::Right => RawKeyCode::Right,
        KeyCode::Up => RawKeyCode::Up,
        KeyCode::Down => RawKeyCode::Down,
        KeyCode::Tab => RawKeyCode::Tab,
        KeyCode::BackTab => RawKeyCode::BackTab,
        KeyCode::Other => RawKeyCode::Null,
    };
    let modifiers = if ctrl { KeyModifiers::CONTROL } else { KeyModifiers::NONE };
    KeyEvent::new(raw_code, modifiers)
}

fn press(code: KeyCode) -> KeyPress {
    KeyPress { code, ctrl: false, press: true, raw: raw_of(code, false) }
}

fn type_text(app: &mut App, text: &str) {
    for c in text.chars() {
        handle_key_event(app, press(KeyCode::Char(c)));
    }
}

fn two_folder_app() -> App {
    let mut set = LinkDirSet::new();
    set.push(LinkDir::builder("a").unwrap()).unwrap();
    set.push(LinkDir::builder("b").unwrap()).unwrap();
    App::new(set)
}

#[test]
fn delete_confirm_cancel_is_a_no_op() {
    let mut app = two_folder_app();
    handle_key_event(&mut app, press(KeyCode::Char('x')));
    assert!(matches!(app.inspect_floats()[0], Float::FolderDeleteConfirm(_)));
    handle_key_event(&mut app, press(KeyCode::Char('n')));
    assert!(app.inspect_floats().is_empty());
    assert_eq!(app.data.len(), 2);
    assert_eq!(app.data.get(0).identifier(), "a");
    assert_eq!(app.data.get(1).identifier(), "b");
}

#[test]
fn delete_confirm_escape_is_a_no_op() {
    let mut app = two_folder_app();
    handle_key_event(&mut app, press(KeyCode::Char('x')));
    handle_key_event(&mut app, press(KeyCode::Esc));
    assert!(app.inspect_floats().is_empty());
    assert_eq!(app.data.len(), 2);
}

#[test]
fn delete_confirm_yes_removes_and_reclamps() {
    let mut app = two_folder_app();
    handle_key_event(&mut app, press(KeyCode::Down));
    handle_key_event(&mut app, press(KeyCode::Char('x')));
    handle_key_event(&mut app, press(KeyCode::Char('y')));
    assert!(app.inspect_floats().is_empty());
    assert_eq!(app.data.len(), 1);
    assert_eq!(app.data.get(0).identifier(), "a");
    assert_eq!(app.state.folder_selected(), Some(Some(0)));
}

#[test]
fn delete_confirm_choose_applies_switched_choice() {
    let mut app = two_folder_app();
    handle_key_event(&mut app, press(KeyCode::Char('x')));
    // Move the selection to Yes, then settle it with enter.
    handle_key_event(&mut app, press(KeyCode::Left));
    handle_key_event(&mut app, press(KeyCode::Enter));
    assert_eq!(app.data.len(), 1);
}

#[test]
fn link_delete_confirm_cancel_keeps_links() {
    let mut set = LinkDirSet::new();
    let mut dir = LinkDir::builder("work").unwrap();
    dir.push(Link::builder("a", "/tmp").unwrap()).unwrap();
    set.push(dir).unwrap();
    let mut app = App::new(set);
    handle_key_event(&mut app, press(KeyCode::Enter));
    handle_key_event(&mut app, press(KeyCode::Char('x')));
    assert!(matches!(app.inspect_floats()[0], Float::LinkDeleteConfirm(_)));
    handle_key_event(&mut app, press(KeyCode::Char('n')));
    assert!(app.inspect_floats().is_empty());
    assert_eq!(app.data.get(0).len(), 1);
    assert_eq!(app.data.get(0).get(0).identifier(), "a");
}

#[test]
fn save_confirm_no_restores_editor_exactly() {
    let mut app = App::new(LinkDirSet::new());
    handle_key_event(&mut app, press(KeyCode::Char('a')));
    type_text(&mut app, "wip");
    // Back to command mode, then quit with unsaved changes.
    handle_key_event(&mut app, press(KeyCode::Esc));
    let (before_value, before_mode, before_selected) = match &app.inspect_floats()[0] {
        Float::FolderEdit(e) => (e.value().to_string(), *e.mode(), e.selected()),
        _ => panic!("expected the edit float"),
    };
    handle_key_event(&mut app, press(KeyCode::Char('q')));
    match &app.inspect_floats()[0] {
        Float::FolderSaveConfirm(c) => assert_eq!(c.choice(), ConfirmChoice::No),
        _ => panic!("expected the save confirmation"),
    }
    handle_key_event(&mut app, press(KeyCode::Char('n')));
    match &app.inspect_floats()[0] {
        Float::FolderEdit(e) => {
            assert_eq!(e.value(), before_value);
            assert_eq!(*e.mode(), before_mode);
            assert_eq!(e.selected(), before_selected);
        },
        _ => panic!("expected the restored edit float"),
    }
    assert_eq!(before_mode, InputMode::Normal);
    assert!(app.data.is_empty());
}

#[test]
fn save_confirm_yes_discards_editor() {
    let mut app = App::new(LinkDirSet::new());
    handle_key_event(&mut app, press(KeyCode::Char('a')));
    type_text(&mut app, "wip");
    handle_key_event(&mut app, press(KeyCode::Esc));
    handle_key_event(&mut app, press(KeyCode::Char('q')));
    handle_key_event(&mut app, press(KeyCode::Char('y')));
    assert!(app.inspect_floats().is_empty());
    assert!(app.data.is_empty());
    assert!(app.state.is_folder());
}

#[test]
fn quit_without_changes_asks_nothing() {
    let mut set = LinkDirSet::new();
    set.push(LinkDir::builder("work").unwrap()).unwrap();
    let mut app = App::new(set);
    handle_key_event(&mut app, press(KeyCode::Char('r')));
    // The buffer still holds the unchanged name; quitting asks nothing.
    handle_key_event(&mut app, press(KeyCode::Esc));
    handle_key_event(&mut app, press(KeyCode::Char('q')));
    assert!(app.inspect_floats().is_empty());
    assert!(app.state.is_folder());
}

#[test]
fn help_opens_and_dismisses() {
    let mut app = two_folder_app();
    handle_key_event(&mut app, press(KeyCode::Char('a')));
    handle_key_event(&mut app, press(KeyCode::Esc));
    handle_key_event(&mut app, press(KeyCode::Char('?')));
    assert_eq!(app.inspect_floats().len(), 2);
    match &app.inspect_floats()[1] {
        Float::Help(h) => {
            assert_eq!(h.entries().len(), 5);
            assert_eq!(h.entries()[0].key(), "<Esc>/<q>");
        },
        _ => panic!("expected the help float"),
    }
    handle_key_event(&mut app, press(KeyCode::Char('q')));
    assert_eq!(app.inspect_floats().len(), 1);
    assert!(matches!(app.inspect_floats()[0], Float::FolderEdit(_)));
}

#[test]
fn corrupt_data_warning_new_data_keeps_running() {
    let mut app = App::new(LinkDirSet::new());
    let mut runtime = RuntimeError::new().with_read_data(String::from("stored data failed to parse"));
    app.check_corrept_data(&mut runtime);
    assert!(runtime.read_data.is_none());
    assert!(!app.option.save);
    assert_eq!(app.inspect_floats().len(), 1);
    match &app.inspect_floats()[0] {
        Float::CorruptDataWarning(w) => {
            assert_eq!(w.choice(), CorruptDataWarningChoice::Exit);
            assert_eq!(w.message(), "stored data failed to parse");
        },
        _ => panic!("expected the corrupt-data dialog"),
    }
    // Move the choice to NewData and settle it.
    handle_key_event(&mut app, press(KeyCode::Right));
    handle_key_event(&mut app, press(KeyCode::Enter));
    assert!(app.inspect_floats().is_empty());
    assert!(app.option.save);
    assert!(app.data.is_empty());
    assert!(app.state.is_folder());
}

#[test]
fn corrupt_data_warning_exit_quits_without_saving() {
    let mut app = App::new(LinkDirSet::new());
    let mut runtime = RuntimeError::new().with_read_data(String::from("bad json"));
    app.check_corrept_data(&mut runtime);
    handle_key_event(&mut app, press(KeyCode::Enter));
    assert!(app.inspect_floats().is_empty());
    assert!(!app.option.save);
    assert!(matches!(app.state, AppState::Quit(_)));
}

#[test]
fn warning_is_dismissed_by_escape() {
    let mut app = two_folder_app();
    // A duplicate append raises a warning that escape dismisses.
    handle_key_event(&mut app, press(KeyCode::Char('a')));
    type_text(&mut app, "a");
    handle_key_event(&mut app, press(KeyCode::Enter));
    assert!(matches!(app.inspect_floats()[0], Float::Warning(_)));
    handle_key_event(&mut app, press(KeyCode::Esc));
    assert!(app.inspect_floats().is_empty());
    assert!(matches!(app.state, AppState::Normal(NormalState::Folder(_))));
}

#[test]
fn typing_reaches_the_buffer() {
    let mut app = App::new(LinkDirSet::new());
    handle_key_event(&mut app, press(KeyCode::Char('a')));
    type_text(&mut app, "note");
    match &app.inspect_floats()[0] {
        Float::FolderEdit(e) => assert_eq!(e.value(), "note"),
        _ => panic!("expected the edit float"),
    }
}

#[test]
fn prefilled_buffer_matches_existing_value() {
    let edit = FolderEditState::new(Some(0)).with_value("work");
    assert_eq!(edit.value(), "work");
    assert_eq!(edit.selected(), Some(0));
}

#[test]
fn link_save_confirm_no_restores_editor_exactly() {
    let mut set = LinkDirSet::new();
    set.push(LinkDir::builder("work").unwrap()).unwrap();
    let mut app = App::new(set);
    handle_key_event(&mut app, press(KeyCode::Enter));
    handle_key_event(&mut app, press(KeyCode::Char('a')));
    type_text(&mut app, "draft");
    handle_key_event(&mut app, press(KeyCode::Esc));
    let before = match &app.inspect_floats()[0] {
        Float::LinkEdit(e) => (
            e.value().0.to_string(),
            e.value().1.to_string(),
            *e.mode(),
            *e.part(),
            e.selected(),
            e.from(),
        ),
        _ => panic!("expected the link edit float"),
    };
    handle_key_event(&mut app, press(KeyCode::Char('q')));
    assert!(matches!(app.inspect_floats()[0], Float::LinkSaveConfirm(_)));
    handle_key_event(&mut app, press(KeyCode::Char('n')));
    match &app.inspect_floats()[0] {
        Float::LinkEdit(e) => {
            assert_eq!(e.value().0, before.0);
            assert_eq!(e.value().1, before.1);
            assert_eq!(*e.mode(), before.2);
            assert_eq!(*e.part(), before.3);
            assert_eq!(e.selected(), before.4);
            assert_eq!(e.from(), before.5);
        },
        _ => panic!("expected the restored link edit float"),
    }
}

#[test]
fn editor_part_switches_with_arrows_and_tab() {
    let mut set = LinkDirSet::new();
    set.push(LinkDir::builder("work").unwrap()).unwrap();
    let mut app = App::new(set);
    handle_key_event(&mut app, press(KeyCode::Enter));
    handle_key_event(&mut app, press(KeyCode::Char('a')));
    handle_key_event(&mut app, press(KeyCode::Esc));
    // In command mode the arrows pick a buffer directly.
    handle_key_event(&mut app, press(KeyCode::Right));
    match &app.inspect_floats()[0] {
        Float::LinkEdit(e) => assert_eq!(*e.part(), InputPart::Value),
        _ => panic!("expected the link edit float"),
    }
    handle_key_event(&mut app, press(KeyCode::Left));
    match &app.inspect_floats()[0] {
        Float::LinkEdit(e) => assert_eq!(*e.part(), InputPart::Key),
        _ => panic!("expected the link edit float"),
    }
    handle_key_event(&mut app, press(KeyCode::Tab));
    match &app.inspect_floats()[0] {
        Float::LinkEdit(e) => assert_eq!(*e.part(), InputPart::Value),
        _ => panic!("expected the link edit float"),
    }
}
