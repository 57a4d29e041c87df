use todui::add_state::AddState;
use todui::app::{App, AppState, Row};
use todui::delete_state::DeleteState;
use todui::list_state::ListState;
use todui::todo::Todo;
use todui::ui_state::{Command, Key, KeyCode, UiState};

fn item(description: &str, completed: bool) -> Todo {
    Todo { description: description.to_string(), completed }
}

fn app(todos: Vec<Todo>, hide_completed: bool, position: usize) -> App {
    App {
        ui_state: UiState::List(ListState::new(position)),
        state: AppState { hide_completed, todos },
    }
}

fn list_position(app: &App) -> Option<usize> {
    match &app.ui_state {
        UiState::List(l) => Some(l.position),
        _ => None,
    }
}

fn key(code: KeyCode) -> Key {
    Key { code, ctrl: false }
}

fn ctrl(c: char) -> Key {
    Key { code: KeyCode::Char(c), ctrl: true }
}

#[test]
fn add_scenario() {
    let mut a = app(vec![item("old", true)], false, 1);
    a.handle_command(Command::ToggleCurrent);
    assert!(matches!(&a.ui_state, UiState::Add(s) if s.description.is_empty()));
    a.handle_command(Command::AppendChar('a'));
    a.handle_command(Command::AppendChar('b'));
    a.handle_command(Command::CommitAdd);
    assert_eq!(a.state.todos.len(), 2);
    assert_eq!(a.state.todos[1].description, "ab");
    assert!(!a.state.todos[1].completed);
    assert_eq!(list_position(&a), Some(2));
}

#[test]
fn delete_scenario() {
    let mut a = app(vec![item("A", false), item("B", true)], false, 0);
    a.handle_command(Command::RequestDelete);
    assert!(matches!(&a.ui_state, UiState::Delete(d) if d.position == 0));
    a.handle_command(Command::ConfirmDelete);
    assert_eq!(a.state.todos.len(), 1);
    assert_eq!(a.state.todos[0].description, "B");
    assert!(a.state.todos[0].completed);
    assert_eq!(list_position(&a), Some(0));
}

#[test]
fn toggle_filter_twice() {
    let mut a = app(vec![item("A", false), item("B", true), item("C", false)], false, 0);
    a.handle_command(Command::ToggleFilter);
    a.handle_command(Command::ToggleFilter);
    assert!(!a.state.hide_completed);
    assert_eq!(list_position(&a), Some(0));

    let mut a = app(vec![item("A", false), item("B", true), item("C", false)], true, 2);
    a.handle_command(Command::ToggleFilter);
    a.handle_command(Command::ToggleFilter);
    assert!(a.state.hide_completed);
    assert_eq!(list_position(&a), Some(2));

    let mut a = app(vec![item("A", false), item("B", true), item("C", false)], false, 1);
    a.handle_command(Command::ToggleFilter);
    assert_eq!(list_position(&a), Some(2));
    a.handle_command(Command::ToggleFilter);
    assert!(!a.state.hide_completed);
    assert_eq!(list_position(&a), Some(2));
    assert_eq!(a.state.todos.len(), 3);
}

#[test]
fn toggle_current_with_filter_moves_down() {
    let mut a = app(vec![item("A", false), item("B", true), item("C", false)], true, 0);
    a.handle_command(Command::ToggleCurrent);
    assert!(a.state.todos[0].completed);
    assert_eq!(list_position(&a), Some(2));
    let mut b = app(vec![item("A", false)], false, 0);
    b.handle_command(Command::ToggleCurrent);
    assert!(b.state.todos[0].completed);
    assert_eq!(list_position(&b), Some(0));
}

#[test]
fn request_delete_on_add_slot_does_nothing() {
    let mut a = app(vec![item("A", false)], false, 1);
    a.handle_command(Command::RequestDelete);
    assert_eq!(list_position(&a), Some(1));
}

#[test]
fn cancel_delete_keeps_list() {
    let mut a = app(vec![item("A", false), item("B", false)], false, 1);
    a.handle_command(Command::RequestDelete);
    a.handle_command(Command::CancelDelete);
    assert_eq!(a.state.todos.len(), 2);
    assert_eq!(list_position(&a), Some(1));
}

#[test]
fn delete_last_item_moves_up() {
    let mut a = app(vec![item("A", false), item("B", false)], false, 1);
    a.handle_command(Command::RequestDelete);
    a.handle_command(Command::ConfirmDelete);
    assert_eq!(list_position(&a), Some(0));
}

#[test]
fn draft_editing() {
    let mut s = AddState::new(String::new());
    let mut todos = Vec::new();
    assert!(s.handle_command(Command::Backspace, &mut todos).is_none());
    assert_eq!(s.description, "");
    s.handle_command(Command::AppendChar('x'), &mut todos);
    s.handle_command(Command::AppendChar('é'), &mut todos);
    s.handle_command(Command::Backspace, &mut todos);
    assert_eq!(s.description, "x");
    assert!(todos.is_empty());
}

#[test]
fn commit_of_empty_draft_does_nothing() {
    let mut a = app(vec![], false, 0);
    a.handle_command(Command::ToggleCurrent);
    a.handle_command(Command::CommitAdd);
    assert!(matches!(&a.ui_state, UiState::Add(_)));
    assert!(a.state.todos.is_empty());
}

#[test]
fn commit_trims_draft() {
    let mut s = AddState::new("  spaced  ".to_string());
    let mut todos = vec![item("A", false)];
    let r = s.handle_command(Command::CommitAdd, &mut todos);
    assert!(matches!(r, Some(UiState::List(l)) if l.position == 2));
    assert_eq!(todos[1].description, "spaced");
}

#[test]
fn cancel_and_interrupt_leave_add() {
    for cmd in [Command::CancelAdd, Command::Interrupt] {
        let mut a = app(vec![item("A", false)], false, 1);
        a.handle_command(Command::ToggleCurrent);
        a.handle_command(Command::AppendChar('z'));
        a.handle_command(cmd);
        assert_eq!(list_position(&a), Some(1));
        assert_eq!(a.state.todos.len(), 1);
    }
}

#[test]
fn quit_is_final() {
    let mut a = app(vec![item("A", false)], false, 0);
    assert!(a.is_running());
    a.handle_command(Command::Quit);
    assert!(!a.is_running());
    a.handle_command(Command::ToggleCurrent);
    a.handle_command(Command::MoveDown);
    assert!(matches!(a.ui_state, UiState::Quit));
    assert!(!a.state.todos[0].completed);
    let mut b = app(vec![], false, 0);
    b.handle_command(Command::Interrupt);
    assert!(!b.is_running());
}

#[test]
fn keys_in_list_mode() {
    let mut a = app(vec![item("A", false), item("B", false)], false, 0);
    a.handle_key_event(key(KeyCode::Char('j')));
    assert_eq!(list_position(&a), Some(1));
    a.handle_key_event(key(KeyCode::Up));
    assert_eq!(list_position(&a), Some(0));
    a.handle_key_event(key(KeyCode::Char(' ')));
    assert!(a.state.todos[0].completed);
    a.handle_key_event(ctrl('h'));
    assert!(a.state.hide_completed);
    assert_eq!(list_position(&a), Some(1));
    a.handle_key_event(key(KeyCode::Char('h')));
    assert!(a.state.hide_completed);
    a.handle_key_event(key(KeyCode::Char('d')));
    assert!(matches!(&a.ui_state, UiState::Delete(d) if d.position == 1));
    a.handle_key_event(key(KeyCode::Char('q')));
    assert!(matches!(&a.ui_state, UiState::Delete(_)));
    a.handle_key_event(key(KeyCode::Char('n')));
    assert_eq!(list_position(&a), Some(1));
    a.handle_key_event(key(KeyCode::Esc));
    assert!(!a.is_running());
}

#[test]
fn keys_in_add_and_delete_modes() {
    let mut a = app(vec![item("A", false)], false, 1);
    a.handle_key_event(key(KeyCode::Char(' ')));
    a.handle_key_event(key(KeyCode::Char('q')));
    a.handle_key_event(key(KeyCode::Char('c')));
    a.handle_key_event(key(KeyCode::Backspace));
    a.handle_key_event(key(KeyCode::Enter));
    assert_eq!(a.state.todos[1].description, "q");
    assert_eq!(list_position(&a), Some(2));
    a.handle_key_event(key(KeyCode::Char('k')));
    a.handle_key_event(key(KeyCode::Char('d')));
    a.handle_key_event(key(KeyCode::Char('y')));
    assert_eq!(a.state.todos.len(), 1);
    assert_eq!(list_position(&a), Some(0));
    a.handle_key_event(ctrl('c'));
    assert!(!a.is_running());
}

#[test]
fn delete_state_confirms() {
    let mut d = DeleteState::new(0);
    let mut s = AppState { hide_completed: false, todos: vec![item("A", false)] };
    assert!(d.handle_key_event(key(KeyCode::Enter), &mut s).is_none());
    let r = d.handle_key_event(key(KeyCode::Char('y')), &mut s);
    assert!(matches!(r, Some(UiState::List(l)) if l.position == 0));
    assert!(s.todos.is_empty());
}

#[test]
fn app_from_file_and_back() {
    let a = App::new("- [ ] one\n- [x] two\n");
    assert_eq!(list_position(&a), Some(0));
    assert!(!a.state.hide_completed);
    assert_eq!(a.state.todos.len(), 2);
    assert_eq!(a.file_contents(), "- [ ] one\n- [x] two\n");
}

#[test]
fn rows_reflect_selection_and_filter() {
    let a = app(vec![item("A", true), item("B", false)], true, 1);
    assert_eq!(
        a.rows(),
        vec![
            Row { completed: true, selected: false, hidden: true },
            Row { completed: false, selected: true, hidden: false },
        ]
    );
}

#[test]
fn deleting_first_item_may_select_a_hidden_one() {
    let mut a = app(vec![item("A", false), item("B", true)], true, 0);
    a.handle_command(Command::RequestDelete);
    a.handle_command(Command::ConfirmDelete);
    assert_eq!(a.state.todos.len(), 1);
    assert_eq!(list_position(&a), Some(0));
    assert!(a.state.todos[0].completed);
}

#[test]
fn commit_of_blank_draft_does_nothing() {
    let mut s = AddState::new("  \t ".to_string());
    let mut todos = vec![item("A", false)];
    assert!(s.handle_command(Command::CommitAdd, &mut todos).is_none());
    assert_eq!(todos.len(), 1);
    assert_eq!(s.description, "  \t ");
}
