use vstd::prelude::*;

use crate::collection::{
    collect_by_id, entries_of, ids, insert_by_id, insert_todo, lemma_insert_by_id, lemma_insert_grows,
    lemma_remove_at, sorted_by_id,
};
use crate::todo::{Entry, Todo};

verus! {

/// The interaction mode that decides which handler takes the next key.
#[derive(Clone, Copy, Debug, PartialEq, Eq, Structural)]
pub enum CurrentScreen {
    Main,
    AddTodo,
    DeleteTodo,
    EditTodo,
    Selection,
    Search,
}

impl CurrentScreen {
    /// The name the footer shows for the mode.
    pub fn mode_label(&self) -> (r: &'static str)
        ensures
            r@ == match *self {
                CurrentScreen::Main => "NORMAL"@,
                CurrentScreen::AddTodo => "ADD"@,
                CurrentScreen::DeleteTodo => "DELETE"@,
                CurrentScreen::EditTodo => "EDIT"@,
                CurrentScreen::Selection => "SELECT"@,
                CurrentScreen::Search => "SEARCH"@,
            },
    {
        match self {
            CurrentScreen::Main => "NORMAL",
            CurrentScreen::AddTodo => "ADD",
            CurrentScreen::DeleteTodo => "DELETE",
            CurrentScreen::EditTodo => "EDIT",
            CurrentScreen::Selection => "SELECT",
            CurrentScreen::Search => "SEARCH",
        }
    }

    /// The keys the footer lists for the mode.
    pub fn key_hint(&self) -> (r: &'static str)
        ensures
            r@ == match *self {
                CurrentScreen::Main => " <Space> - Toggle | a - Add | e - Edit | d - Delete | q - Quit"@,
                CurrentScreen::AddTodo => " <Enter> - Add | <Esc> - Cancel"@,
                CurrentScreen::DeleteTodo => " y - Yes | n - No | <Esc> - Cancel"@,
                CurrentScreen::EditTodo => " <Enter> - Yes | <Esc> - Cancel"@,
                CurrentScreen::Selection => " <Esc> | q - Normal "@,
                CurrentScreen::Search => " <Esc> - Normal "@,
            },
    {
        match self {
            CurrentScreen::Main => " <Space> - Toggle | a - Add | e - Edit | d - Delete | q - Quit",
            CurrentScreen::AddTodo => " <Enter> - Add | <Esc> - Cancel",
            CurrentScreen::DeleteTodo => " y - Yes | n - No | <Esc> - Cancel",
            CurrentScreen::EditTodo => " <Enter> - Yes | <Esc> - Cancel",
            CurrentScreen::Selection => " <Esc> | q - Normal ",
            CurrentScreen::Search => " <Esc> - Normal ",
        }
    }
}

/// A write that the store has to carry out for a change of the collection.
#[derive(Debug)]
pub enum Command {
    /// Nothing to store.
    Nothing,
    /// Create a record with this label; its new identifier is handed back to
    /// `App::add_todo`.
    Insert(String),
    /// Store the completion flag of a record.
    SetCompleted(i64, bool),
    /// Store the label of a record.
    SetLabel(i64, String),
    /// Remove a record; whether that succeeded is handed back to
    /// `App::delete_selected_todo`.
    Delete(i64),
}

/// The session: the collection in display order, the selection and scroll
/// position over it, the mode and the input buffers.
pub struct App {
    /// Ordered by ascending identifier.
    pub todos: Vec<Todo>,
    pub should_quit: bool,
    pub current_screen: CurrentScreen,
    /// The buffer shared by the add and edit modes.
    pub todo_input: String,
    /// Display position of the selected item.
    pub selected_todo: Option<usize>,
    /// Position of the scrollbar over a content as long as the collection.
    pub scroll_position: usize,
    pub search_query: String,
}

/// The selection when it is `sel`: the position it names, or the top.
pub open spec fn position_or_top(sel: Option<usize>) -> usize {
    match sel {
        Some(i) => i,
        None => 0,
    }
}

/// The mode leaves the shared input buffer empty in every mode but add and edit.
pub open spec fn idle_input(screen: CurrentScreen) -> bool {
    !(screen is AddTodo || screen is EditTodo)
}

impl App {
    pub open spec fn entries(&self) -> Seq<Entry> {
        entries_of(self.todos@)
    }

    pub open spec fn ids(&self) -> Set<i64> {
        ids(self.entries())
    }

    /// The identifier at the selected position, when that position exists.
    pub open spec fn selected_id(&self) -> Option<i64> {
        match self.selected_todo {
            Some(i) => if i < self.entries().len() {
                Some(self.entries()[i as int].id)
            } else {
                None
            },
            None => None,
        }
    }

    /// A selected position lies inside the collection, so an empty
    /// collection has none.
    pub open spec fn selection_in_bounds(&self) -> bool {
        match self.selected_todo {
            Some(i) => i < self.todos.len(),
            None => true,
        }
    }

    pub open spec fn wf(&self) -> bool {
        &&& sorted_by_id(self.entries())
        &&& self.selection_in_bounds()
        &&& self.scroll_position == position_or_top(self.selected_todo)
        &&& idle_input(self.current_screen) ==> self.todo_input@.len() == 0
        &&& (self.current_screen is EditTodo || self.current_screen is DeleteTodo)
            ==> self.selected_todo is Some
    }

    /// Everything but the selection and the scroll position is as in `other`.
    pub open spec fn same_but_selection(&self, other: &App) -> bool {
        &&& self.entries() == other.entries()
        &&& self.should_quit == other.should_quit
        &&& self.current_screen == other.current_screen
        &&& self.todo_input@ == other.todo_input@
        &&& self.search_query@ == other.search_query@
    }

    /// Everything but the collection is as in `other`.
    pub open spec fn same_but_entries(&self, other: &App) -> bool {
        &&& self.should_quit == other.should_quit
        &&& self.current_screen == other.current_screen
        &&& self.todo_input@ == other.todo_input@
        &&& self.search_query@ == other.search_query@
    }

    /// The selection after moving to the first position.
    pub open spec fn top_selection(&self) -> Option<usize> {
        if self.todos.len() > 0 {
            Some(0usize)
        } else {
            self.selected_todo
        }
    }

    /// The selection after moving to the last position.
    pub open spec fn bottom_selection(&self) -> Option<usize> {
        if self.todos.len() > 0 {
            Some((self.todos.len() - 1) as usize)
        } else {
            self.selected_todo
        }
    }

    /// The selection after moving one position down, wrapping to the first.
    pub open spec fn next_selection(&self) -> Option<usize> {
        if self.todos.len() == 0 {
            self.selected_todo
        } else {
            Some(
                match self.selected_todo {
                    Some(i) => if i + 1 == self.todos.len() {
                        0usize
                    } else {
                        (i + 1) as usize
                    },
                    None => 0usize,
                },
            )
        }
    }

    /// The selection after moving one position up, wrapping to the last.
    pub open spec fn prev_selection(&self) -> Option<usize> {
        if self.todos.len() == 0 {
            self.selected_todo
        } else {
            Some(
                match self.selected_todo {
                    Some(i) => if i == 0 {
                        (self.todos.len() - 1) as usize
                    } else {
                        (i - 1) as usize
                    },
                    None => 0usize,
                },
            )
        }
    }

    /// `next` is this session with the selected item's completion flipped,
    /// and `cmd` stores the new value; with no selection nothing changes.
    pub open spec fn toggled(&self, next: App, cmd: Command) -> bool {
        &&& next.selected_todo == self.selected_todo
        &&& match self.selected_id() {
            Some(id) => {
                let p = self.selected_todo.unwrap() as int;
                let e = self.entries()[p];
                &&& next.entries() == self.entries().update(p, Entry { completed: !e.completed, ..e })
                &&& cmd == Command::SetCompleted(id, !e.completed)
            },
            None => next.entries() == self.entries() && cmd is Nothing,
        }
    }

    /// `next` is this session with the buffer moved into the selected item's
    /// label, and `cmd` stores it; with no selection nothing changes.
    pub open spec fn relabeled(&self, next: App, cmd: Command) -> bool {
        &&& next.selected_todo == self.selected_todo
        &&& match self.selected_id() {
            Some(id) => {
                let p = self.selected_todo.unwrap() as int;
                &&& next.entries() == self.entries().update(
                    p,
                    Entry { label: self.todo_input@, ..self.entries()[p] },
                )
                &&& next.todo_input@.len() == 0
                &&& cmd matches Command::SetLabel(i, l) && i == id && l@ == self.todo_input@
            },
            None => {
                &&& next.entries() == self.entries()
                &&& next.todo_input@ == self.todo_input@
                &&& cmd is Nothing
            },
        }
    }

    /// `next` is this session once the store answered an insertion of the
    /// buffer with `inserted`.
    pub open spec fn added(&self, inserted: Option<i64>, next: App) -> bool {
        &&& next.entries() == match inserted {
            Some(id) => insert_by_id(
                self.entries(),
                Entry { id, label: self.todo_input@, completed: false },
            ),
            None => self.entries(),
        }
        &&& next.selected_todo == self.selected_todo
        &&& next.current_screen == CurrentScreen::Main
        &&& next.todo_input@.len() == 0
        &&& next.should_quit == self.should_quit
        &&& next.search_query@ == self.search_query@
    }

    /// `next` is this session once the store answered the removal of the
    /// selected item, `deleted` telling whether it was removed.
    pub open spec fn removed(&self, deleted: bool, next: App) -> bool {
        &&& next.current_screen == CurrentScreen::Main
        &&& next.todo_input@.len() == 0
        &&& next.should_quit == self.should_quit
        &&& next.search_query@ == self.search_query@
        &&& if deleted && self.selected_id() is Some {
            let p = self.selected_todo.unwrap();
            let n = (self.todos.len() - 1) as usize;
            &&& next.entries() == self.entries().remove(p as int)
            &&& next.selected_todo == if n == 0 {
                None
            } else if p < n {
                Some(p)
            } else {
                Some((n - 1) as usize)
            }
        } else {
            &&& next.entries() == self.entries()
            &&& next.selected_todo == self.selected_todo
        }
    }

    /// A session over the records that were loaded, or over none where
    /// loading failed. Nothing is selected.
    pub fn new(loaded: Option<Vec<Todo>>) -> (app: App)
        ensures
            app.wf(),
            app.entries() == match loaded {
                Some(v) => collect_by_id(entries_of(v@)),
                None => Seq::<Entry>::empty(),
            },
            !app.should_quit,
            app.current_screen == CurrentScreen::Main,
            app.todo_input@.len() == 0,
            app.selected_todo is None,
            app.search_query@.len() == 0,
    {
        let mut todos: Vec<Todo> = Vec::new();
        if let Some(rows) = loaded {
            let mut i: usize = 0;
            while i < rows.len()
                invariant
                    i <= rows.len(),
                    entries_of(todos@) == collect_by_id(entries_of(rows@).take(i as int)),
                    sorted_by_id(entries_of(todos@)),
                decreases rows.len() - i,
            {
                let ghost before = entries_of(todos@);
                let row = &rows[i];
                let todo = Todo { id: row.id, label: row.label.clone(), completed: row.completed };
                proof {
                    lemma_insert_by_id(before, todo@);
                    let s = entries_of(rows@).take(i + 1);
                    assert(s.drop_last() =~= entries_of(rows@).take(i as int));
                    assert(s.last() == todo@);
                }
                insert_todo(&mut todos, todo);
                i = i + 1;
            }
            assert(entries_of(rows@).take(rows.len() as int) =~= entries_of(rows@));
        } else {
            assert(entries_of(todos@) =~= Seq::<Entry>::empty());
        }
        App {
            todos,
            should_quit: false,
            current_screen: CurrentScreen::Main,
            todo_input: String::new(),
            selected_todo: None,
            scroll_position: 0,
            search_query: String::new(),
        }
    }

    /// Finishes the add flow once the store has answered: with a new
    /// identifier the buffer becomes a new item, not completed, in its place
    /// by identifier; without one the collection stays. Either way the buffer
    /// is cleared and the mode is back to `Main`; the selection stays.
    pub fn add_todo(&mut self, inserted: Option<i64>)
        requires
            old(self).wf(),
            old(self).todo_input@.len() > 0,
        ensures
            final(self).wf(),
            old(self).added(inserted, *final(self)),
    {
        if let Some(id) = inserted {
            let todo = Todo::new(id, self.todo_input.clone());
            proof {
                lemma_insert_by_id(self.entries(), todo@);
                assert(insert_by_id(self.entries(), todo@).len() >= self.entries().len()) by {
                    lemma_insert_grows(self.entries(), todo@);
                }
            }
            insert_todo(&mut self.todos, todo);
        }
        self.todo_input = String::new();
        self.current_screen = CurrentScreen::Main;
    }

    /// Selects the first position; nothing to select in an empty collection.
    pub fn go_to_top(&mut self)
        requires
            old(self).wf(),
        ensures
            final(self).wf(),
            final(self).same_but_selection(old(self)),
            final(self).selected_todo == old(self).top_selection(),
    {
        if self.todos.len() > 0 {
            self.selected_todo = Some(0);
            self.scroll_position = 0;
        }
    }

    /// Selects the last position; nothing to select in an empty collection.
    pub fn go_to_bottom(&mut self)
        requires
            old(self).wf(),
        ensures
            final(self).wf(),
            final(self).same_but_selection(old(self)),
            final(self).selected_todo == old(self).bottom_selection(),
    {
        let len = self.todos.len();
        if len > 0 {
            self.selected_todo = Some(len - 1);
            self.scroll_position = len - 1;
        }
    }

    /// Moves the selection one position down, from the last position to the
    /// first; with nothing selected, selects the first. No-op when empty.
    pub fn select_next_todo(&mut self)
        requires
            old(self).wf(),
        ensures
            final(self).wf(),
            final(self).same_but_selection(old(self)),
            final(self).selected_todo == old(self).next_selection(),
    {
        let len = self.todos.len();
        if len == 0 {
            return;
        }
        let i: usize = match self.selected_todo {
            Some(i) => if i >= len - 1 {
                0
            } else {
                i + 1
            },
            None => 0,
        };
        self.selected_todo = Some(i);
        if i == 0 {
            self.scroll_position = 0;
            return;
        }
        self.scroll_position = if self.scroll_position + 1 < len {
            self.scroll_position + 1
        } else {
            len - 1
        };
    }

    /// Moves the selection one position up, from the first position to the
    /// last; with nothing selected, selects the first. No-op when empty.
    pub fn select_prev_todo(&mut self)
        requires
            old(self).wf(),
        ensures
            final(self).wf(),
            final(self).same_but_selection(old(self)),
            final(self).selected_todo == old(self).prev_selection(),
    {
        let len = self.todos.len();
        if len == 0 {
            return;
        }
        let i: usize = match self.selected_todo {
            Some(i) => if i == 0 {
                len - 1
            } else {
                i - 1
            },
            None => 0,
        };
        self.selected_todo = Some(i);
        if i == len - 1 {
            self.scroll_position = len - 1;
            return;
        }
        self.scroll_position = if self.scroll_position > 0 {
            self.scroll_position - 1
        } else {
            0
        };
    }

    /// The identifier at the selected position, if that position exists.
    pub fn get_selected_todo_id(&self) -> (r: Option<i64>)
        ensures
            r == self.selected_id(),
    {
        match self.selected_todo {
            Some(i) => if i < self.todos.len() {
                Some(self.todos[i].id)
            } else {
                None
            },
            None => None,
        }
    }

    /// The item at the selected position, if that position exists.
    pub fn get_selected_todo(&self) -> (r: Option<&Todo>)
        ensures
            r is Some <==> self.selected_id() is Some,
            r is Some ==> r.unwrap()@ == self.entries()[self.selected_todo.unwrap() as int],
    {
        match self.selected_todo {
            Some(i) => if i < self.todos.len() {
                Some(&self.todos[i])
            } else {
                None
            },
            None => None,
        }
    }

    /// Flips `completed` of the selected item and returns the write that
    /// stores the new value; with no selection, changes nothing.
    pub fn toggle_selected_todo(&mut self) -> (cmd: Command)
        requires
            old(self).wf(),
        ensures
            final(self).wf(),
            final(self).same_but_entries(old(self)),
            old(self).toggled(*final(self), cmd),
    {
        match self.selected_todo {
            Some(p) => if p < self.todos.len() {
                let current = &self.todos[p];
                let mut todo = Todo {
                    id: current.id,
                    label: current.label.clone(),
                    completed: current.completed,
                };
                todo.toggle();
                let id = todo.id;
                let completed = todo.completed;
                self.todos.set(p, todo);
                proof {
                    assert(self.entries() =~= old(self).entries().update(
                        p as int,
                        Entry { completed, ..old(self).entries()[p as int] },
                    ));
                }
                Command::SetCompleted(id, completed)
            } else {
                Command::Nothing
            },
            None => Command::Nothing,
        }
    }

    /// Gives the selected item the buffer as its label, clears the buffer,
    /// and returns the write that stores the label; with no selection,
    /// changes nothing.
    pub fn update_selected_todo(&mut self) -> (cmd: Command)
        requires
            old(self).wf(),
        ensures
            final(self).wf(),
            final(self).current_screen == old(self).current_screen,
            final(self).should_quit == old(self).should_quit,
            final(self).search_query@ == old(self).search_query@,
            old(self).relabeled(*final(self), cmd),
    {
        match self.selected_todo {
            Some(p) => if p < self.todos.len() {
                let id = self.todos[p].id;
                let todo = Todo {
                    id,
                    label: self.todo_input.clone(),
                    completed: self.todos[p].completed,
                };
                let label = self.todo_input.clone();
                self.todos.set(p, todo);
                self.todo_input = String::new();
                proof {
                    assert(self.entries() =~= old(self).entries().update(
                        p as int,
                        Entry { label: old(self).todo_input@, ..old(self).entries()[p as int] },
                    ));
                }
                Command::SetLabel(id, label)
            } else {
                Command::Nothing
            },
            None => Command::Nothing,
        }
    }

    /// Finishes a deletion once the store has answered. Where the store
    /// removed the record, the selected item leaves the collection and the
    /// selection stays on its position, moved up when that was the last one
    /// and dropped when nothing is left; where it did not, the collection
    /// stays. Either way the mode is back to `Main` with an empty buffer.
    pub fn delete_selected_todo(&mut self, deleted: bool)
        requires
            old(self).wf(),
        ensures
            final(self).wf(),
            old(self).removed(deleted, *final(self)),
    {
        if deleted {
            if let Some(p) = self.selected_todo {
                if p < self.todos.len() {
                    proof {
                        lemma_remove_at(self.entries(), p as int);
                    }
                    let _removed = self.todos.remove(p);
                    assert(self.entries() =~= old(self).entries().remove(p as int));
                    let n = self.todos.len();
                    if n == 0 {
                        self.selected_todo = None;
                        self.scroll_position = 0;
                    } else if p >= n {
                        self.selected_todo = Some(n - 1);
                        self.scroll_position = n - 1;
                    }
                }
            }
        }
        self.todo_input = String::new();
        self.current_screen = CurrentScreen::Main;
    }
}

} // verus!
