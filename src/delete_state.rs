use vstd::prelude::*;

use crate::app::AppState;
use crate::list_state::ListState;
use crate::ui_state::{delete_transition, resulting, Command, Key, KeyCode, UiState};

verus! {

/// Asking to confirm the removal of the item at `position`.
#[derive(Debug)]
pub struct DeleteState {
    pub position: usize,
}

/// The command that a key press means while a removal awaits confirmation.
pub open spec fn delete_command(key: Key) -> Option<Command> {
    match key.code {
        KeyCode::Esc | KeyCode::Char('n') => Some(Command::CancelDelete),
        KeyCode::Char('y') => Some(Command::ConfirmDelete),
        _ => None,
    }
}

impl DeleteState {
    pub fn new(position: usize) -> (r: DeleteState)
        ensures
            r.position == position,
    {
        DeleteState { position }
    }

    /// Reads a key press as a command.
    pub fn command_for(key: Key) -> (r: Option<Command>)
        ensures
            r == delete_command(key),
    {
        match key.code {
            KeyCode::Esc | KeyCode::Char('n') => Some(Command::CancelDelete),
            KeyCode::Char('y') => Some(Command::ConfirmDelete),
            _ => None,
        }
    }

    /// Handles a key press; `None` means the mode stays `Delete`.
    pub fn handle_key_event(&mut self, key: Key, app_state: &mut AppState) -> (r: Option<UiState>)
        requires
            old(self).position < old(app_state).todos.len(),
        ensures
            *final(self) == *old(self),
            match delete_command(key) {
                Some(cmd) => delete_transition(
                    old(self).position as int,
                    *old(app_state),
                    cmd,
                    resulting(r, UiState::Delete(*old(self))),
                    *final(app_state),
                ),
                None => r is None && *final(app_state) == *old(app_state),
            },
    {
        match Self::command_for(key) {
            Some(cmd) => self.handle_command(cmd, app_state),
            None => None,
        }
    }

    /// Carries out one command of the `Delete` mode.
    pub fn handle_command(&self, cmd: Command, app_state: &mut AppState) -> (r: Option<UiState>)
        requires
            self.position < old(app_state).todos.len(),
        ensures
            delete_transition(
                self.position as int,
                *old(app_state),
                cmd,
                resulting(r, UiState::Delete(*self)),
                *final(app_state),
            ),
    {
        match cmd {
            Command::ConfirmDelete => self.delete_todo(app_state),
            Command::CancelDelete => Some(UiState::List(ListState::new(self.position))),
            _ => None,
        }
    }

    /// Removes the item and selects the nearest position above it.
    pub fn delete_todo(&self, app_state: &mut AppState) -> (r: Option<UiState>)
        requires
            self.position < old(app_state).todos.len(),
        ensures
            delete_transition(
                self.position as int,
                *old(app_state),
                Command::ConfirmDelete,
                resulting(r, UiState::Delete(*self)),
                *final(app_state),
            ),
    {
        app_state.delete_todo(self.position);
        let new_position = app_state.get_next_position(true, self.position);
        Some(UiState::List(ListState::new(new_position)))
    }
}

} // verus!
