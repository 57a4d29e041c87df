use vstd::prelude::*;

use crate::add_state::{add_command, AddState};
use crate::app::{
    completed_flags, is_hidden, lemma_next_position_bounds, lemma_next_position_visible,
    next_position, toggled, AppState,
};
use crate::delete_state::{delete_command, DeleteState};
use crate::list_state::{list_command, ListState};
use crate::text::trimmed;
use crate::todo::Todo;

verus! {

/// The interaction mode; exactly one is active at a time.
#[derive(Debug)]
pub enum UiState {
    List(ListState),
    Add(AddState),
    Delete(DeleteState),
    Quit,
}

/// An abstract user intent, independent of the key that triggers it.
#[derive(Debug, Clone, Copy, PartialEq, Eq, Structural)]
pub enum Command {
    MoveUp,
    MoveDown,
    ToggleCurrent,
    ToggleFilter,
    RequestDelete,
    ConfirmDelete,
    CancelDelete,
    AppendChar(char),
    Backspace,
    CommitAdd,
    CancelAdd,
    Quit,
    Interrupt,
}

/// The key of a key press, as far as the modes read it.
#[derive(Debug, Clone, Copy, PartialEq, Eq, Structural)]
pub enum KeyCode {
    Char(char),
    Esc,
    Enter,
    Backspace,
    Up,
    Down,
    Other,
}

/// A key press: its key, and whether Control and no other modifier was held.
#[derive(Debug, Clone, Copy, PartialEq, Eq, Structural)]
pub struct Key {
    pub code: KeyCode,
    pub ctrl: bool,
}

/// The mode shown as `List` at `position`.
pub open spec fn list_at(position: int) -> UiState {
    UiState::List(ListState { position: position as usize })
}

/// Whether `u` is the `Add` mode with an empty draft.
pub open spec fn is_empty_add(u: UiState) -> bool {
    match u {
        UiState::Add(s) => s.description@.len() == 0,
        _ => false,
    }
}

/// Whether the list and the filter are the same in both states.
pub open spec fn same_state(a: AppState, a2: AppState) -> bool {
    a2.hide_completed == a.hide_completed && a2.todos@ == a.todos@
}

/// One step of the `List` mode at `p`, from `a` to the mode `u2` and state `a2`.
pub open spec fn list_transition(p: int, a: AppState, cmd: Command, u2: UiState, a2: AppState) -> bool {
    let len = a.todos.len() as int;
    let hide = a.hide_completed;
    match cmd {
        Command::MoveUp => same_state(a, a2) && u2 == list_at(next_position(true, p, a.done(), hide)),
        Command::MoveDown => same_state(a, a2) && u2 == list_at(
            next_position(false, p, a.done(), hide),
        ),
        Command::ToggleFilter => {
            &&& a2.hide_completed == !hide
            &&& a2.todos@ == a.todos@
            &&& u2 == list_at(
                if !hide && p < len && a.done()[p] {
                    next_position(false, p, a.done(), true)
                } else {
                    p
                },
            )
        },
        Command::ToggleCurrent => if p < len {
            &&& a2.hide_completed == hide
            &&& a2.todos@ == toggled(a.todos@, p)
            &&& u2 == list_at(
                if hide {
                    next_position(false, p, completed_flags(a2.todos@), hide)
                } else {
                    p
                },
            )
        } else {
            same_state(a, a2) && is_empty_add(u2)
        },
        Command::RequestDelete => same_state(a, a2) && u2 == if p < len {
            UiState::Delete(DeleteState { position: p as usize })
        } else {
            list_at(p)
        },
        Command::Quit | Command::Interrupt => same_state(a, a2) && u2 == UiState::Quit,
        _ => same_state(a, a2) && u2 == list_at(p),
    }
}

/// The list after a draft is committed: a new incomplete item at the end,
/// its description the trimmed draft. A draft that trims to nothing is not
/// committed, so that no item is created with an empty description.
pub open spec fn appended(todos: Seq<Todo>, todos2: Seq<Todo>, draft: Seq<char>) -> bool {
    &&& todos2.len() == todos.len() + 1
    &&& todos2.drop_last() == todos
    &&& todos2.last().description@ == trimmed(draft)
    &&& !todos2.last().completed
}

/// Whether `u` is the `Add` mode with draft `d`.
pub open spec fn is_add(u: UiState, d: Seq<char>) -> bool {
    match u {
        UiState::Add(s) => s.description@ == d,
        _ => false,
    }
}

/// One step of the `Add` mode with draft `d`, from the list `todos` to the
/// mode `u2` and list `todos2`.
pub open spec fn add_transition(
    d: Seq<char>,
    todos: Seq<Todo>,
    cmd: Command,
    u2: UiState,
    todos2: Seq<Todo>,
) -> bool {
    match cmd {
        Command::AppendChar(c) => todos2 == todos && is_add(u2, d.push(c)),
        Command::Backspace => todos2 == todos && is_add(
            u2,
            if d.len() > 0 {
                d.drop_last()
            } else {
                d
            },
        ),
        Command::CommitAdd => if trimmed(d).len() > 0 {
            appended(todos, todos2, d) && u2 == list_at(todos2.len() as int)
        } else {
            todos2 == todos && is_add(u2, d)
        },
        Command::CancelAdd | Command::Interrupt => todos2 == todos && u2 == list_at(
            todos.len() as int,
        ),
        _ => todos2 == todos && is_add(u2, d),
    }
}

/// One step of the `Delete` mode at `p`, from `a` to the mode `u2` and state `a2`.
pub open spec fn delete_transition(p: int, a: AppState, cmd: Command, u2: UiState, a2: AppState) -> bool {
    match cmd {
        Command::ConfirmDelete => {
            &&& a2.hide_completed == a.hide_completed
            &&& a2.todos@ == a.todos@.remove(p)
            &&& u2 == list_at(next_position(true, p, completed_flags(a2.todos@), a.hide_completed))
        },
        Command::CancelDelete => same_state(a, a2) && u2 == list_at(p),
        _ => same_state(a, a2) && u2 == UiState::Delete(DeleteState { position: p as usize }),
    }
}

/// The mode after a step that returned `r` and left the current mode as `current`.
pub open spec fn resulting(r: Option<UiState>, current: UiState) -> UiState {
    match r {
        Some(u) => u,
        None => current,
    }
}

/// The command that a key press means in mode `u`; none in `Quit`.
pub open spec fn mode_command(u: UiState, key: Key) -> Option<Command> {
    match u {
        UiState::List(_) => list_command(key),
        UiState::Add(_) => add_command(key),
        UiState::Delete(_) => delete_command(key),
        UiState::Quit => None,
    }
}

/// One step of the whole machine, from mode `u` and state `a` to mode `u2`
/// and state `a2`. `Add` leaves the filter as it is; `Quit` leaves everything.
pub open spec fn transition(u: UiState, a: AppState, cmd: Command, u2: UiState, a2: AppState) -> bool {
    match u {
        UiState::List(l) => list_transition(l.position as int, a, cmd, u2, a2),
        UiState::Add(s) => a2.hide_completed == a.hide_completed && add_transition(
            s.description@,
            a.todos@,
            cmd,
            u2,
            a2.todos@,
        ),
        UiState::Delete(d) => delete_transition(d.position as int, a, cmd, u2, a2),
        UiState::Quit => u2 == UiState::Quit && same_state(a, a2),
    }
}

/// The selection of `List` lies in `[0, len]`; that of `Delete` names an item.
pub open spec fn in_bounds(u: UiState, a: AppState) -> bool {
    match u {
        UiState::List(l) => l.position <= a.todos.len(),
        UiState::Delete(d) => d.position < a.todos.len(),
        _ => true,
    }
}

/// The selection, where the mode has one, rests on no hidden item.
pub open spec fn selection_visible(u: UiState, a: AppState) -> bool {
    match u {
        UiState::List(l) => l.position < a.todos.len() ==> !is_hidden(
            a.done(),
            a.hide_completed,
            l.position as int,
        ),
        UiState::Delete(d) => d.position < a.todos.len() ==> !is_hidden(
            a.done(),
            a.hide_completed,
            d.position as int,
        ),
        _ => true,
    }
}

/// Every step keeps the selection within bounds and off hidden items, with
/// one exception that the steps themselves produce: confirming the removal of
/// the first item when the item that moves up to its place is hidden.
pub proof fn lemma_selection_stays_visible(
    u: UiState,
    a: AppState,
    cmd: Command,
    u2: UiState,
    a2: AppState,
)
    requires
        in_bounds(u, a),
        selection_visible(u, a),
        transition(u, a, cmd, u2, a2),
        !(u is Delete && u->Delete_0.position == 0 && cmd == Command::ConfirmDelete),
    ensures
        in_bounds(u2, a2),
        selection_visible(u2, a2),
{
    match u {
        UiState::List(l) => {
            let p = l.position as int;
            lemma_next_position_bounds(true, p, a.done(), a.hide_completed);
            lemma_next_position_bounds(false, p, a.done(), a.hide_completed);
            lemma_next_position_visible(true, p, a.done(), a.hide_completed);
            lemma_next_position_visible(false, p, a.done(), a.hide_completed);
            lemma_next_position_bounds(false, p, a.done(), true);
            lemma_next_position_visible(false, p, a.done(), true);
            if p < a.todos.len() {
                lemma_next_position_bounds(false, p, a2.done(), a.hide_completed);
                lemma_next_position_visible(false, p, a2.done(), a.hide_completed);
            }
            if a2.todos@ == a.todos@ {
                assert(a2.done() == a.done());
            }
        },
        UiState::Delete(d) => {
            let p = d.position as int;
            if cmd == Command::ConfirmDelete {
                lemma_next_position_bounds(true, p, a2.done(), a.hide_completed);
                lemma_next_position_visible(true, p, a2.done(), a.hide_completed);
            } else {
                assert(a2.done() == a.done());
            }
        },
        _ => {},
    }
}

} // verus!
