//! The interaction state machine driven through whole key events: the
//! append/rename/pick flows, cursor movement, and quitting.

use dir_link::app::App;
use dir_link::data::dir::LinkDir;
use dir_link::data::dirset::LinkDirSet;
use dir_link::data::link::Link;
use dir_link::float::Float;
use dir_link::input::{KeyCode, KeyPress};
use dir_link::key::handle_key_event;
use dir_link::key::{handle_normal_folder_key_event, handle_normal_link_key_event};
use dir_link::message::{NormalFolderMessage, NormalLinkMessage};
use dir_link::state::{AppState, NormalState};
use ratatui::crossterm::event::{KeyCode as RawKeyCode, KeyEvent, KeyModifiers};

fn raw_of(code: KeyCode, ctrl: bool) -> KeyEvent {
    let raw_code = match code {
        KeyCode::Char(c) => RawKeyCode::Char(c),
        KeyCode::Esc => RawKeyCode::Esc,
        KeyCode::Enter => RawKeyCode::Enter,
        KeyCode::Left => RawKeyCode::Left,
        KeyCode::Right => RawKeyCode::Right,
        KeyCode::Up => RawKeyCode::Up,
        KeyCode::Down => RawKeyCode::Down,
        KeyCode::Tab => RawKeyCode::Tab,
        KeyCode::BackTab => RawKeyCode::BackTab,
        KeyCode::Other => RawKeyCode::Null,
    };
    let modifiers = if ctrl { KeyModifiers::CONTROL } else { KeyModifiers::NONE };
    KeyEvent::new(raw_code, modifiers)
}

fn press(code: KeyCode) -> KeyPress {
    KeyPress { code, ctrl: false, press: true, raw: raw_of(code, false) }
}

fn ctrl_press(code: KeyCode) -> KeyPress {
    KeyPress { code, ctrl: true, press: true, raw: raw_of(code, true) }
}

fn type_text(app: &mut App, text: &str) {
    for c in text.chars() {
        handle_key_event(app, press(KeyCode::Char(c)));
    }
}

fn empty_app() -> App {
    App::new(LinkDirSet::new())
}

/// Builds an app whose data already holds folder "work".
fn app_with_work() -> App {
    let mut set = LinkDirSet::new();
    set.push(LinkDir::builder("work").unwrap()).unwrap();
    App::new(set)
}

#[test]
fn append_folder_to_empty_set() {
    let mut app = empty_app();
    handle_key_event(&mut app, press(KeyCode::Char('a')));
    assert_eq!(app.inspect_floats().len(), 1);
    type_text(&mut app, "work");
    handle_key_event(&mut app, press(KeyCode::Enter));
    assert_eq!(app.data.len(), 1);
    assert_eq!(app.data.get(0).identifier(), "work");
    assert!(app.inspect_floats().is_empty());
    match &app.state {
        AppState::Normal(NormalState::Folder(s)) => assert_eq!(s.selected(), Some(0)),
        _ => panic!("expected the folder view"),
    }
}

#[test]
fn rename_folder_to_empty_fails_with_warning() {
    let mut app = app_with_work();
    handle_key_event(&mut app, press(KeyCode::Char('r')));
    assert_eq!(app.inspect_floats().len(), 1);
    // Wipe the pre-filled buffer, then confirm the empty name.
    handle_key_event(&mut app, ctrl_press(KeyCode::Char('u')));
    handle_key_event(&mut app, press(KeyCode::Enter));
    assert_eq!(app.inspect_floats().len(), 1);
    match &app.inspect_floats()[0] {
        Float::Warning(w) => assert!(!w.message().is_empty()),
        _ => panic!("expected a warning float"),
    }
    assert_eq!(app.data.len(), 1);
    assert_eq!(app.data.get(0).identifier(), "work");
}

#[test]
fn rename_folder_changes_identifier() {
    let mut app = app_with_work();
    handle_key_event(&mut app, press(KeyCode::Char('r')));
    handle_key_event(&mut app, ctrl_press(KeyCode::Char('u')));
    type_text(&mut app, "projects");
    handle_key_event(&mut app, press(KeyCode::Enter));
    assert!(app.inspect_floats().is_empty());
    assert_eq!(app.data.get(0).identifier(), "projects");
}

#[test]
fn append_duplicate_link_fails_and_keeps_first() {
    let mut app = app_with_work();
    // Enter the folder, then append {"a": "/tmp"}.
    handle_key_event(&mut app, press(KeyCode::Enter));
    assert!(app.state.is_link());
    handle_key_event(&mut app, press(KeyCode::Char('a')));
    type_text(&mut app, "a");
    handle_key_event(&mut app, press(KeyCode::Enter));
    type_text(&mut app, "/tmp");
    handle_key_event(&mut app, press(KeyCode::Enter));
    assert!(app.inspect_floats().is_empty());
    assert_eq!(app.data.get(0).len(), 1);
    // Append another link named "a" with a different path.
    handle_key_event(&mut app, press(KeyCode::Char('a')));
    type_text(&mut app, "a");
    handle_key_event(&mut app, press(KeyCode::Enter));
    type_text(&mut app, "/var");
    handle_key_event(&mut app, press(KeyCode::Enter));
    assert_eq!(app.inspect_floats().len(), 1);
    match &app.inspect_floats()[0] {
        Float::Warning(w) => assert_eq!(w.message(), "Same link name already exists"),
        _ => panic!("expected a warning float"),
    }
    assert_eq!(app.data.get(0).len(), 1);
    assert_eq!(app.data.get(0).get(0).path(), "/tmp");
}

#[test]
fn picking_a_link_quits_with_it() {
    let mut set = LinkDirSet::new();
    let mut dir = LinkDir::builder("work").unwrap();
    dir.push(Link::builder("a", "/tmp").unwrap()).unwrap();
    set.push(dir).unwrap();
    let mut app = App::new(set);
    // Select folder "work" (index 0), then select the link at index 0.
    handle_key_event(&mut app, press(KeyCode::Enter));
    assert!(app.state.is_link());
    handle_key_event(&mut app, press(KeyCode::Enter));
    match &app.state {
        AppState::Quit(transfer) => {
            let link = transfer.link().expect("the pick carries the chosen link");
            assert_eq!(link.identifier(), "a");
            assert_eq!(link.path(), "/tmp");
        },
        _ => panic!("expected the quit state"),
    }
}

#[test]
fn quit_from_folder_view() {
    let mut app = app_with_work();
    handle_key_event(&mut app, press(KeyCode::Char('q')));
    match &app.state {
        AppState::Quit(transfer) => assert!(transfer.link().is_none()),
        _ => panic!("expected the quit state"),
    }
}

#[test]
fn back_returns_to_folder_view() {
    let mut app = app_with_work();
    handle_key_event(&mut app, press(KeyCode::Enter));
    assert!(app.state.is_link());
    handle_key_event(&mut app, press(KeyCode::Left));
    match &app.state {
        AppState::Normal(NormalState::Folder(s)) => assert_eq!(s.selected(), Some(0)),
        _ => panic!("expected the folder view"),
    }
}

#[test]
fn cursor_moves_and_clamps() {
    let mut set = LinkDirSet::new();
    set.push(LinkDir::builder("a").unwrap()).unwrap();
    set.push(LinkDir::builder("b").unwrap()).unwrap();
    let mut app = App::new(set);
    handle_key_event(&mut app, press(KeyCode::Down));
    assert_eq!(app.state.folder_selected(), Some(Some(1)));
    handle_key_event(&mut app, press(KeyCode::Down));
    assert_eq!(app.state.folder_selected(), Some(Some(2)));
    // Selecting one past the end clamps to the last valid index.
    handle_key_event(&mut app, press(KeyCode::Enter));
    assert_eq!(app.state.folder_selected(), Some(Some(1)));
    handle_key_event(&mut app, press(KeyCode::Up));
    assert_eq!(app.state.folder_selected(), Some(Some(0)));
}

#[test]
fn switch_down_reorders_folders_and_follows() {
    let mut set = LinkDirSet::new();
    set.push(LinkDir::builder("a").unwrap()).unwrap();
    set.push(LinkDir::builder("b").unwrap()).unwrap();
    let mut app = App::new(set);
    handle_key_event(&mut app, press(KeyCode::Char('J')));
    assert_eq!(app.data.get(0).identifier(), "b");
    assert_eq!(app.data.get(1).identifier(), "a");
    assert_eq!(app.state.folder_selected(), Some(Some(1)));
    // Switching back up restores the original order.
    handle_key_event(&mut app, press(KeyCode::Char('K')));
    assert_eq!(app.data.get(0).identifier(), "a");
    assert_eq!(app.data.get(1).identifier(), "b");
    assert_eq!(app.state.folder_selected(), Some(Some(0)));
}

#[test]
fn selecting_empty_list_seeds_cursor() {
    let mut app = empty_app();
    match &mut app.state {
        AppState::Normal(NormalState::Folder(s)) => s.select(None),
        _ => panic!("expected the folder view"),
    }
    handle_key_event(&mut app, press(KeyCode::Enter));
    assert_eq!(app.state.folder_selected(), Some(Some(0)));
}

#[test]
fn key_tables_translate_as_documented() {
    assert!(matches!(
        handle_normal_folder_key_event(press(KeyCode::Char('q'))),
        Some(NormalFolderMessage::Quit)
    ));
    assert!(matches!(
        handle_normal_folder_key_event(ctrl_press(KeyCode::Char('c'))),
        Some(NormalFolderMessage::Quit)
    ));
    assert!(matches!(
        handle_normal_folder_key_event(press(KeyCode::Right)),
        Some(NormalFolderMessage::Select)
    ));
    assert!(matches!(
        handle_normal_folder_key_event(ctrl_press(KeyCode::Up)),
        Some(NormalFolderMessage::SwitchUp)
    ));
    assert!(handle_normal_folder_key_event(press(KeyCode::Char('z'))).is_none());
    let mut released = press(KeyCode::Char('q'));
    released.press = false;
    assert!(handle_normal_folder_key_event(released).is_none());
    assert!(matches!(
        handle_normal_link_key_event(press(KeyCode::Left)),
        Some(NormalLinkMessage::Back)
    ));
    assert!(matches!(
        handle_normal_link_key_event(press(KeyCode::Char('x'))),
        Some(NormalLinkMessage::Remove)
    ));
}

#[test]
fn relink_changes_path_through_the_editor() {
    let mut set = LinkDirSet::new();
    let mut dir = LinkDir::builder("work").unwrap();
    dir.push(Link::builder("a", "/tmp").unwrap()).unwrap();
    set.push(dir).unwrap();
    let mut app = App::new(set);
    handle_key_event(&mut app, press(KeyCode::Enter));
    handle_key_event(&mut app, press(KeyCode::Char('r')));
    // Move to the path buffer, wipe it, and type a new absolute path.
    handle_key_event(&mut app, press(KeyCode::Tab));
    handle_key_event(&mut app, ctrl_press(KeyCode::Char('u')));
    type_text(&mut app, "/var");
    handle_key_event(&mut app, press(KeyCode::Enter));
    assert!(app.inspect_floats().is_empty());
    assert_eq!(app.data.get(0).get(0).identifier(), "a");
    assert_eq!(app.data.get(0).get(0).path(), "/var");
}

#[test]
fn relative_path_input_resolves_to_absolute() {
    let mut app = app_with_work();
    handle_key_event(&mut app, press(KeyCode::Enter));
    handle_key_event(&mut app, press(KeyCode::Char('a')));
    type_text(&mut app, "here");
    handle_key_event(&mut app, press(KeyCode::Enter));
    type_text(&mut app, "notes");
    handle_key_event(&mut app, press(KeyCode::Enter));
    assert!(app.inspect_floats().is_empty());
    let link_path = app.data.get(0).get(0).path().to_string();
    assert!(link_path.starts_with('/'));
    assert!(link_path.ends_with("notes"));
}

#[test]
fn empty_path_input_resolves_to_working_directory() {
    let mut app = app_with_work();
    handle_key_event(&mut app, press(KeyCode::Enter));
    handle_key_event(&mut app, press(KeyCode::Char('a')));
    type_text(&mut app, "here");
    handle_key_event(&mut app, press(KeyCode::Enter));
    handle_key_event(&mut app, press(KeyCode::Enter));
    assert!(app.inspect_floats().is_empty());
    assert!(app.data.get(0).get(0).path().starts_with('/'));
}

#[test]
fn unmapped_key_changes_nothing() {
    let mut app = app_with_work();
    handle_key_event(&mut app, press(KeyCode::Char('z')));
    assert!(app.inspect_floats().is_empty());
    assert_eq!(app.data.len(), 1);
    assert_eq!(app.state.folder_selected(), Some(Some(0)));
}

#[test]
fn quit_state_consumes_no_keys() {
    let mut app = app_with_work();
    handle_key_event(&mut app, press(KeyCode::Char('q')));
    assert!(matches!(app.state, AppState::Quit(_)));
    handle_key_event(&mut app, press(KeyCode::Char('a')));
    assert!(app.inspect_floats().is_empty());
    assert!(matches!(app.state, AppState::Quit(_)));
    assert_eq!(app.data.len(), 1);
}
