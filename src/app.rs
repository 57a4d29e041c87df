use vstd::prelude::*;

use crate::list_state::ListState;
use crate::todo::{deserialize_todos, file_text, parse_text, serialize_todos, todo_models, Todo};
use crate::ui_state::{in_bounds, mode_command, transition, Command, Key, UiState};

verus! {

/// The completion flags of a list of items, in order.
pub open spec fn completed_flags(todos: Seq<Todo>) -> Seq<bool> {
    Seq::new(todos.len(), |i: int| todos[i].completed)
}

/// An item is hidden when the filter is active and the item is completed.
pub open spec fn is_hidden(done: Seq<bool>, hide_completed: bool, i: int) -> bool {
    hide_completed && done[i]
}

/// The first index at or after `i` that is not hidden, or the length of the
/// list (the sentinel slot) when there is none.
pub open spec fn first_visible_from(done: Seq<bool>, hide_completed: bool, i: int) -> int
    decreases done.len() - i,
{
    if i >= done.len() {
        done.len() as int
    } else if !is_hidden(done, hide_completed, i) {
        i
    } else {
        first_visible_from(done, hide_completed, i + 1)
    }
}

/// The last index below `i` that is not hidden, or -1 when there is none.
pub open spec fn last_visible_below(done: Seq<bool>, hide_completed: bool, i: int) -> int
    decreases i,
{
    if i <= 0 {
        -1
    } else if !is_hidden(done, hide_completed, i - 1) {
        i - 1
    } else {
        last_visible_below(done, hide_completed, i - 1)
    }
}

/// Where the selection goes from `cur` when moving one step up or down.
/// Moving down lands on the next visible item, or on the sentinel slot.
/// Moving up lands on the previous visible item; when nothing above is
/// visible it falls back to the first visible item from `cur` on, or the
/// sentinel slot.
pub open spec fn next_position(up: bool, cur: int, done: Seq<bool>, hide_completed: bool) -> int {
    if up {
        if cur == 0 {
            0
        } else if last_visible_below(done, hide_completed, cur) >= 0 {
            last_visible_below(done, hide_completed, cur)
        } else {
            first_visible_from(done, hide_completed, cur)
        }
    } else {
        if cur == done.len() {
            cur
        } else {
            first_visible_from(done, hide_completed, cur + 1)
        }
    }
}

pub proof fn lemma_first_visible_from(done: Seq<bool>, hide_completed: bool, i: int)
    requires
        0 <= i,
    ensures
        i <= first_visible_from(done, hide_completed, i) <= done.len() || (i > done.len()
            && first_visible_from(done, hide_completed, i) == done.len()),
        first_visible_from(done, hide_completed, i) < done.len() ==> !is_hidden(
            done,
            hide_completed,
            first_visible_from(done, hide_completed, i),
        ),
    decreases done.len() - i,
{
    if i < done.len() && is_hidden(done, hide_completed, i) {
        lemma_first_visible_from(done, hide_completed, i + 1);
    }
}

pub proof fn lemma_last_visible_below(done: Seq<bool>, hide_completed: bool, i: int)
    requires
        0 <= i <= done.len(),
    ensures
        -1 <= last_visible_below(done, hide_completed, i) < i,
        last_visible_below(done, hide_completed, i) >= 0 ==> !is_hidden(
            done,
            hide_completed,
            last_visible_below(done, hide_completed, i),
        ),
    decreases i,
{
    if i > 0 && is_hidden(done, hide_completed, i - 1) {
        lemma_last_visible_below(done, hide_completed, i - 1);
    }
}

/// A step from a position in `[0, len]` stays in `[0, len]`.
pub proof fn lemma_next_position_bounds(up: bool, cur: int, done: Seq<bool>, hide_completed: bool)
    requires
        0 <= cur <= done.len(),
    ensures
        0 <= next_position(up, cur, done, hide_completed) <= done.len(),
{
    lemma_first_visible_from(done, hide_completed, cur);
    if cur < done.len() {
        lemma_first_visible_from(done, hide_completed, cur + 1);
    }
    lemma_last_visible_below(done, hide_completed, cur);
}

/// A step lands on a hidden item only where it stays put: moving up from the top.
pub proof fn lemma_next_position_visible(up: bool, cur: int, done: Seq<bool>, hide_completed: bool)
    requires
        0 <= cur <= done.len(),
    ensures
        ({
            let r = next_position(up, cur, done, hide_completed);
            r < done.len() && is_hidden(done, hide_completed, r) ==> up && cur == 0
        }),
{
    lemma_first_visible_from(done, hide_completed, cur);
    if cur < done.len() {
        lemma_first_visible_from(done, hide_completed, cur + 1);
    }
    lemma_last_visible_below(done, hide_completed, cur);
}

/// The list with the flag of the item at `p` flipped.
pub open spec fn toggled(todos: Seq<Todo>, p: int) -> Seq<Todo> {
    todos.update(p, Todo { description: todos[p].description, completed: !todos[p].completed })
}

/// The list together with the hide-completed filter.
#[derive(Debug)]
pub struct AppState {
    pub hide_completed: bool,
    pub todos: Vec<Todo>,
}

impl AppState {
    /// The completion flags of the items.
    pub open spec fn done(&self) -> Seq<bool> {
        completed_flags(self.todos@)
    }

    /// Flips the completion flag of the item at `list_position`.
    pub fn toggle_todo(&mut self, list_position: usize)
        requires
            list_position < old(self).todos.len(),
        ensures
            final(self).todos@ == toggled(old(self).todos@, list_position as int),
            final(self).hide_completed == old(self).hide_completed,
    {
        let completed = self.todos[list_position].completed;
        self.todos[list_position].completed = !completed;
        assert(self.todos@ =~= toggled(old(self).todos@, list_position as int));
    }

    /// Removes the item at `list_position`.
    pub fn delete_todo(&mut self, list_position: usize)
        requires
            list_position < old(self).todos.len(),
        ensures
            final(self).todos@ == old(self).todos@.remove(list_position as int),
            final(self).hide_completed == old(self).hide_completed,
    {
        self.todos.remove(list_position);
    }

    /// Whether the item at `i` is hidden by the filter.
    fn hidden_at(&self, i: usize) -> (r: bool)
        requires
            i < self.todos.len(),
        ensures
            r == is_hidden(self.done(), self.hide_completed, i as int),
    {
        self.hide_completed && self.todos[i].completed
    }

    /// The selection index after one step up (`up`) or down from
    /// `current_list_position`. At a boundary it stays where it is; otherwise it
    /// never rests on a hidden item: when none is left to land on, it is the
    /// sentinel slot.
    pub fn get_next_position(&self, up: bool, current_list_position: usize) -> (r: usize)
        requires
            current_list_position <= self.todos.len(),
        ensures
            r == next_position(up, current_list_position as int, self.done(), self.hide_completed),
            r <= self.todos.len(),
            r < self.todos.len() && is_hidden(self.done(), self.hide_completed, r as int) ==> r
                == current_list_position,
            up && current_list_position == 0 ==> r == 0,
            !up && current_list_position == self.todos.len() ==> r == self.todos.len(),
    {
        let len: usize = self.todos.len();
        let cur: usize = current_list_position;
        let ghost done = self.done();
        let ghost hide_completed = self.hide_completed;
        if up {
            if cur == 0 {
                return 0;
            }
            let mut i: usize = cur;
            while i > 0 && self.hidden_at(i - 1)
                invariant
                    i <= cur <= len == done.len(),
                    done == self.done(),
                    hide_completed == self.hide_completed,
                    last_visible_below(done, hide_completed, cur as int) == last_visible_below(
                        done,
                        hide_completed,
                        i as int,
                    ),
                decreases i,
            {
                i = i - 1;
            }
            proof {
                lemma_last_visible_below(done, hide_completed, cur as int);
            }
            if i > 0 {
                i - 1
            } else {
                self.first_visible(cur)
            }
        } else {
            if cur == len {
                return cur;
            }
            self.first_visible(cur + 1)
        }
    }

    /// The first index at or after `from` that is not hidden, or the length.
    fn first_visible(&self, from: usize) -> (r: usize)
        requires
            from <= self.todos.len(),
        ensures
            r == first_visible_from(self.done(), self.hide_completed, from as int),
            r <= self.todos.len(),
            r < self.todos.len() ==> !is_hidden(self.done(), self.hide_completed, r as int),
    {
        let mut i: usize = from;
        while i < self.todos.len() && self.hidden_at(i)
            invariant
                from <= i <= self.todos.len(),
                first_visible_from(self.done(), self.hide_completed, from as int)
                    == first_visible_from(self.done(), self.hide_completed, i as int),
            decreases self.todos.len() - i,
        {
            i = i + 1;
        }
        proof {
            lemma_first_visible_from(self.done(), self.hide_completed, i as int);
        }
        i
    }
}

/// What a renderer shows of one item.
#[derive(Debug, Clone, Copy, PartialEq, Eq, Structural)]
pub struct Row {
    pub completed: bool,
    pub selected: bool,
    pub hidden: bool,
}

/// The whole application: the interaction mode and the list it acts on.
#[derive(Debug)]
pub struct App {
    pub ui_state: UiState,
    pub state: AppState,
}

/// The selected index in mode `u`, if the mode has one.
pub open spec fn selected_index(u: UiState) -> Option<usize> {
    match u {
        UiState::List(l) => Some(l.position),
        UiState::Delete(d) => Some(d.position),
        _ => None,
    }
}

impl App {
    /// The selection of `List` lies in `[0, len]`; that of `Delete` names an item.
    pub open spec fn wf(&self) -> bool {
        in_bounds(self.ui_state, self.state)
    }

    /// The application at launch, with the items that the file text holds:
    /// `List` at the first position, filter off.
    pub fn new(contents: &str) -> (r: App)
        ensures
            r.wf(),
            r.ui_state == UiState::List(ListState { position: 0 }),
            !r.state.hide_completed,
            todo_models(r.state.todos@) == parse_text(contents@),
    {
        App {
            ui_state: UiState::List(ListState::new(0)),
            state: AppState { hide_completed: false, todos: deserialize_todos(contents) },
        }
    }

    /// Whether the application still takes input.
    pub fn is_running(&self) -> (r: bool)
        ensures
            r == !(self.ui_state is Quit),
    {
        !matches!(self.ui_state, UiState::Quit)
    }

    /// The text that the file holds for the current list.
    pub fn file_contents(&self) -> (r: String)
        ensures
            r@ == file_text(todo_models(self.state.todos@)),
    {
        serialize_todos(&self.state.todos)
    }

    /// Carries out one command in the current mode.
    pub fn handle_command(&mut self, cmd: Command)
        requires
            old(self).wf(),
        ensures
            final(self).wf(),
            transition(
                old(self).ui_state,
                old(self).state,
                cmd,
                final(self).ui_state,
                final(self).state,
            ),
    {
        let next = match &mut self.ui_state {
            UiState::List(list) => list.handle_command(cmd, &mut self.state),
            UiState::Add(add) => add.handle_command(cmd, &mut self.state.todos),
            UiState::Delete(delete) => delete.handle_command(cmd, &mut self.state),
            UiState::Quit => None,
        };
        match next {
            Some(u) => {
                self.ui_state = u;
            },
            None => {},
        }
        proof {
            let a = old(self).state;
            match old(self).ui_state {
                UiState::List(l) => {
                    let p = l.position as int;
                    lemma_next_position_bounds(true, p, a.done(), a.hide_completed);
                    lemma_next_position_bounds(false, p, a.done(), a.hide_completed);
                    if l.position < a.todos.len() {
                        lemma_next_position_bounds(false, p, self.state.done(), self.state.hide_completed);
                    }
                },
                UiState::Delete(d) => {
                    let p = d.position as int;
                    lemma_next_position_bounds(true, p, self.state.done(), a.hide_completed);
                },
                _ => {},
            }
        }
    }

    /// Handles a key press in the current mode; a key that means nothing
    /// there changes nothing.
    pub fn handle_key_event(&mut self, key: Key)
        requires
            old(self).wf(),
        ensures
            final(self).wf(),
            match mode_command(old(self).ui_state, key) {
                Some(cmd) => transition(
                    old(self).ui_state,
                    old(self).state,
                    cmd,
                    final(self).ui_state,
                    final(self).state,
                ),
                None => final(self).ui_state == old(self).ui_state && final(self).state == old(
                    self,
                ).state,
            },
    {
        let cmd = match &self.ui_state {
            UiState::List(_) => ListState::command_for(key),
            UiState::Add(_) => crate::add_state::AddState::command_for(key),
            UiState::Delete(_) => crate::delete_state::DeleteState::command_for(key),
            UiState::Quit => None,
        };
        match cmd {
            Some(cmd) => self.handle_command(cmd),
            None => {},
        }
    }

    /// What a renderer shows of each item, in order.
    pub fn rows(&self) -> (r: Vec<Row>)
        ensures
            r.len() == self.state.todos.len(),
            forall|i: int|
                0 <= i < r.len() ==> r[i] == (Row {
                    completed: self.state.todos[i].completed,
                    selected: selected_index(self.ui_state) == Some(i as usize),
                    hidden: self.state.hide_completed && self.state.todos[i].completed,
                }),
    {
        let selected = match &self.ui_state {
            UiState::List(l) => Some(l.position),
            UiState::Delete(d) => Some(d.position),
            _ => None,
        };
        let mut r: Vec<Row> = Vec::new();
        let mut i: usize = 0;
        while i < self.state.todos.len()
            invariant
                i <= self.state.todos.len(),
                selected == selected_index(self.ui_state),
                r.len() == i,
                forall|j: int|
                    0 <= j < i ==> r[j] == (Row {
                        completed: self.state.todos[j].completed,
                        selected: selected_index(self.ui_state) == Some(j as usize),
                        hidden: self.state.hide_completed && self.state.todos[j].completed,
                    }),
            decreases self.state.todos.len() - i,
        {
            let completed = self.state.todos[i].completed;
            let is_selected = match selected {
                Some(p) => p == i,
                None => false,
            };
            r.push(Row { completed, selected: is_selected, hidden: self.state.hide_completed && completed });
            i = i + 1;
        }
        r
    }
}

} // verus!
