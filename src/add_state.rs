use vstd::prelude::*;

use crate::list_state::ListState;
use crate::text::{pop_char, push_char};
use crate::todo::Todo;
use crate::ui_state::{add_transition, resulting, Command, Key, KeyCode, UiState};

verus! {

/// Composing a new item; `description` is the draft.
#[derive(Debug)]
pub struct AddState {
    pub description: String,
}

/// The command that a key press means while composing.
pub open spec fn add_command(key: Key) -> Option<Command> {
    match key.code {
        KeyCode::Esc => Some(Command::CancelAdd),
        KeyCode::Char('c') if key.ctrl => Some(Command::Interrupt),
        KeyCode::Char(c) => Some(Command::AppendChar(c)),
        KeyCode::Backspace => Some(Command::Backspace),
        KeyCode::Enter => Some(Command::CommitAdd),
        _ => None,
    }
}

impl AddState {
    pub fn new(description: String) -> (r: AddState)
        ensures
            r.description == description,
    {
        AddState { description }
    }

    /// Reads a key press as a command.
    pub fn command_for(key: Key) -> (r: Option<Command>)
        ensures
            r == add_command(key),
    {
        match key.code {
            KeyCode::Esc => Some(Command::CancelAdd),
            KeyCode::Char('c') if key.ctrl => Some(Command::Interrupt),
            KeyCode::Char(c) => Some(Command::AppendChar(c)),
            KeyCode::Backspace => Some(Command::Backspace),
            KeyCode::Enter => Some(Command::CommitAdd),
            _ => None,
        }
    }

    /// Handles a key press; `None` means the mode stays `Add`, with the draft
    /// that `self` then holds.
    pub fn handle_key_event(&mut self, key: Key, todos: &mut Vec<Todo>) -> (r: Option<UiState>)
        ensures
            r matches Some(u) ==> !(u is Add) && *final(self) == *old(self),
            match add_command(key) {
                Some(cmd) => add_transition(
                    old(self).description@,
                    old(todos)@,
                    cmd,
                    resulting(r, UiState::Add(*final(self))),
                    final(todos)@,
                ),
                None => r is None && final(self).description@ == old(self).description@
                    && final(todos)@ == old(todos)@,
            },
    {
        match Self::command_for(key) {
            Some(cmd) => self.handle_command(cmd, todos),
            None => None,
        }
    }

    /// Carries out one command of the `Add` mode.
    pub fn handle_command(&mut self, cmd: Command, todos: &mut Vec<Todo>) -> (r: Option<UiState>)
        ensures
            r matches Some(u) ==> !(u is Add) && *final(self) == *old(self),
            add_transition(
                old(self).description@,
                old(todos)@,
                cmd,
                resulting(r, UiState::Add(*final(self))),
                final(todos)@,
            ),
    {
        match cmd {
            Command::AppendChar(c) => self.edit_description(Some(c)),
            Command::Backspace => self.edit_description(None),
            Command::CommitAdd => self.save_new(todos),
            Command::CancelAdd | Command::Interrupt => Some(Self::get_back_state(todos)),
            _ => None,
        }
    }

    /// Appends `char` to the draft, or with `None` removes its last character.
    pub fn edit_description(&mut self, char: Option<char>) -> (r: Option<UiState>)
        ensures
            r is None,
            final(self).description@ == match char {
                Some(c) => old(self).description@.push(c),
                None => if old(self).description@.len() > 0 {
                    old(self).description@.drop_last()
                } else {
                    old(self).description@
                },
            },
    {
        match char {
            Some(c) => push_char(&mut self.description, c),
            None => {
                pop_char(&mut self.description);
            },
        }
        None
    }

    /// Appends the trimmed draft as a new item and goes back to the list at
    /// its "add new" slot; a draft that trims to nothing commits nothing.
    pub fn save_new(&self, todos: &mut Vec<Todo>) -> (r: Option<UiState>)
        ensures
            r matches Some(u) ==> !(u is Add),
            add_transition(
                self.description@,
                old(todos)@,
                Command::CommitAdd,
                resulting(r, UiState::Add(*self)),
                final(todos)@,
            ),
    {
        let todo = Todo::new(self.description.as_str());
        if !todo.description.as_str().is_empty() {
            todos.push(todo);
            assert(todos@.drop_last() =~= old(todos)@);
            Some(Self::get_back_state(todos))
        } else {
            None
        }
    }

    /// The `List` mode at the "add new" slot of `todos`.
    pub fn get_back_state(todos: &Vec<Todo>) -> (r: UiState)
        ensures
            r == UiState::List(ListState { position: todos.len() }),
    {
        UiState::List(ListState::new(todos.len()))
    }
}

} // verus!
