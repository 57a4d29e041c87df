use vstd::prelude::*;

use crate::add_state::AddState;
use crate::app::{next_position, AppState};
use crate::delete_state::DeleteState;
use crate::ui_state::{list_at, list_transition, resulting, same_state, Command, Key, KeyCode, UiState};

verus! {

/// Browsing the list; `position` is the selected index, the length of the
/// list being the "add new" slot.
#[derive(Debug)]
pub struct ListState {
    pub position: usize,
}

/// The command that a key press means while browsing.
pub open spec fn list_command(key: Key) -> Option<Command> {
    match key.code {
        KeyCode::Char('h') if key.ctrl => Some(Command::ToggleFilter),
        KeyCode::Esc | KeyCode::Char('q') => Some(Command::Quit),
        KeyCode::Char('c') if key.ctrl => Some(Command::Interrupt),
        KeyCode::Up | KeyCode::Char('k') => Some(Command::MoveUp),
        KeyCode::Down | KeyCode::Char('j') => Some(Command::MoveDown),
        KeyCode::Char(' ') => Some(Command::ToggleCurrent),
        KeyCode::Char('d') => Some(Command::RequestDelete),
        _ => None,
    }
}

/// Toggling the filter twice leaves the list and the filter as they were, and
/// the selection where it was, save for one correction: where the first toggle
/// hid the selected item, the selection moved down to the next visible one.
/// The selection is taken to rest on no hidden item to begin with.
pub proof fn lemma_toggle_filter_twice(
    p: int,
    a: AppState,
    l1: ListState,
    a1: AppState,
    u2: UiState,
    a2: AppState,
)
    requires
        0 <= p <= a.todos.len(),
        a.hide_completed && p < a.todos.len() ==> !a.done()[p],
        list_transition(p, a, Command::ToggleFilter, UiState::List(l1), a1),
        list_transition(l1.position as int, a1, Command::ToggleFilter, u2, a2),
    ensures
        same_state(a, a2),
        u2 == list_at(
            if !a.hide_completed && p < a.todos.len() && a.done()[p] {
                next_position(false, p, a.done(), true)
            } else {
                p
            },
        ),
{
    assert(a1.done() == a.done());
    let q = if !a.hide_completed && p < a.todos.len() && a.done()[p] {
        next_position(false, p, a.done(), true)
    } else {
        p
    };
    if !a.hide_completed && p < a.todos.len() && a.done()[p] {
        crate::app::lemma_next_position_bounds(false, p, a.done(), true);
        crate::app::lemma_first_visible_from(a.done(), true, p + 1);
    }
    assert(l1.position == q);
}

impl ListState {
    pub fn new(position: usize) -> (r: ListState)
        ensures
            r.position == position,
    {
        ListState { position }
    }

    /// Reads a key press as a command.
    pub fn command_for(key: Key) -> (r: Option<Command>)
        ensures
            r == list_command(key),
    {
        match key.code {
            KeyCode::Char('h') if key.ctrl => Some(Command::ToggleFilter),
            KeyCode::Esc | KeyCode::Char('q') => Some(Command::Quit),
            KeyCode::Char('c') if key.ctrl => Some(Command::Interrupt),
            KeyCode::Up | KeyCode::Char('k') => Some(Command::MoveUp),
            KeyCode::Down | KeyCode::Char('j') => Some(Command::MoveDown),
            KeyCode::Char(' ') => Some(Command::ToggleCurrent),
            KeyCode::Char('d') => Some(Command::RequestDelete),
            _ => None,
        }
    }

    /// Handles a key press; `None` means the mode stays `List`, at the
    /// position that `self` then holds.
    pub fn handle_key_event(&mut self, key: Key, app_state: &mut AppState) -> (r: Option<UiState>)
        requires
            old(self).position <= old(app_state).todos.len(),
        ensures
            r is None ==> final(self).position <= final(app_state).todos.len(),
            r matches Some(u) ==> !(u is List) && *final(self) == *old(self),
            match list_command(key) {
                Some(cmd) => list_transition(
                    old(self).position as int,
                    *old(app_state),
                    cmd,
                    resulting(r, UiState::List(*final(self))),
                    *final(app_state),
                ),
                None => r is None && *final(self) == *old(self) && *final(app_state)
                    == *old(app_state),
            },
    {
        match Self::command_for(key) {
            Some(cmd) => self.handle_command(cmd, app_state),
            None => None,
        }
    }

    /// Carries out one command of the `List` mode.
    pub fn handle_command(&mut self, cmd: Command, app_state: &mut AppState) -> (r: Option<
        UiState,
    >)
        requires
            old(self).position <= old(app_state).todos.len(),
        ensures
            r is None ==> final(self).position <= final(app_state).todos.len(),
            r matches Some(u) ==> !(u is List) && *final(self) == *old(self),
            list_transition(
                old(self).position as int,
                *old(app_state),
                cmd,
                resulting(r, UiState::List(*final(self))),
                *final(app_state),
            ),
    {
        match cmd {
            Command::MoveUp => self.move_position(true, app_state),
            Command::MoveDown => self.move_position(false, app_state),
            Command::ToggleFilter => self.toggle_hide_completed(app_state),
            Command::ToggleCurrent => self.handle_interact(app_state),
            Command::RequestDelete => {
                if self.position < app_state.todos.len() {
                    Some(UiState::Delete(DeleteState::new(self.position)))
                } else {
                    None
                }
            },
            Command::Quit | Command::Interrupt => Some(UiState::Quit),
            _ => None,
        }
    }

    /// Flips the filter; when the selection then rests on a hidden item, it
    /// moves down to the next visible one.
    pub fn toggle_hide_completed(&mut self, app_state: &mut AppState) -> (r: Option<UiState>)
        requires
            old(self).position <= old(app_state).todos.len(),
        ensures
            final(self).position <= final(app_state).todos.len(),
            r is None,
            final(app_state).hide_completed == !old(app_state).hide_completed,
            final(app_state).todos@ == old(app_state).todos@,
            final(self).position == if final(app_state).hide_completed && old(self).position
                < old(app_state).todos.len() && old(app_state).done()[old(self).position as int] {
                next_position(false, old(self).position as int, old(app_state).done(), true)
            } else {
                old(self).position as int
            },
    {
        app_state.hide_completed = !app_state.hide_completed;
        if app_state.hide_completed && self.position < app_state.todos.len()
            && app_state.todos[self.position].completed {
            self.position = app_state.get_next_position(false, self.position);
        }
        None
    }

    /// Moves the selection one step up (`up`) or down.
    pub fn move_position(&mut self, up: bool, app_state: &AppState) -> (r: Option<UiState>)
        requires
            old(self).position <= app_state.todos.len(),
        ensures
            final(self).position <= app_state.todos.len(),
            r is None,
            final(self).position == next_position(
                up,
                old(self).position as int,
                app_state.done(),
                app_state.hide_completed,
            ),
    {
        self.position = app_state.get_next_position(up, self.position);
        None
    }

    /// Acts on the selection: toggles the selected item (and, with the filter
    /// on, moves down past it), or on the "add new" slot enters `Add`.
    pub fn handle_interact(&mut self, app_state: &mut AppState) -> (r: Option<UiState>)
        requires
            old(self).position <= old(app_state).todos.len(),
        ensures
            r is None ==> final(self).position <= final(app_state).todos.len(),
            r is None && final(app_state).hide_completed && final(self).position
                < final(app_state).todos.len() ==> !final(app_state).done()[final(self).position as int],
            r matches Some(u) ==> !(u is List) && *final(self) == *old(self),
            list_transition(
                old(self).position as int,
                *old(app_state),
                Command::ToggleCurrent,
                resulting(r, UiState::List(*final(self))),
                *final(app_state),
            ),
    {
        if self.position < app_state.todos.len() {
            app_state.toggle_todo(self.position);
            if app_state.hide_completed {
                self.move_position(false, app_state);
                proof {
                    crate::app::lemma_first_visible_from(
                        app_state.done(),
                        app_state.hide_completed,
                        old(self).position + 1,
                    );
                }
            }
            None
        } else {
            Some(UiState::Add(AddState::new(String::new())))
        }
    }
}

} // verus!
