use vstd::prelude::*;

use crate::app::{App, Command, CurrentScreen};
use crate::text::{pop_char, push_char};

verus! {

/// A key press, as far as the session tells keys apart.
#[derive(Clone, Copy, Debug, PartialEq, Eq, Structural)]
pub enum Key {
    Char(char),
    Enter,
    Esc,
    Backspace,
    /// Any other key: no handler reacts to it.
    Other,
}

/// `b` holds the collection and the buffers of `a`, with the mode, the
/// selection and the quit flag given.
pub open spec fn shifted(
    a: App,
    b: App,
    screen: CurrentScreen,
    sel: Option<usize>,
    quit: bool,
) -> bool {
    &&& b.entries() == a.entries()
    &&& b.todo_input@ == a.todo_input@
    &&& b.search_query@ == a.search_query@
    &&& b.current_screen == screen
    &&& b.selected_todo == sel
    &&& b.should_quit == quit
}

/// `b` is `a` as it was.
pub open spec fn unchanged(a: App, b: App) -> bool {
    shifted(a, b, a.current_screen, a.selected_todo, a.should_quit)
}

/// `b` is `a` with the shared buffer holding `input`.
pub open spec fn typed(a: App, b: App, input: Seq<char>) -> bool {
    &&& b.entries() == a.entries()
    &&& b.todo_input@ == input
    &&& b.search_query@ == a.search_query@
    &&& b.current_screen == a.current_screen
    &&& b.selected_todo == a.selected_todo
    &&& b.should_quit == a.should_quit
}

/// `b` is `a` back in `Main` with the shared buffer cleared.
pub open spec fn left_to_main(a: App, b: App) -> bool {
    &&& b.entries() == a.entries()
    &&& b.todo_input@.len() == 0
    &&& b.search_query@ == a.search_query@
    &&& b.current_screen == CurrentScreen::Main
    &&& b.selected_todo == a.selected_todo
    &&& b.should_quit == a.should_quit
}

/// The buffer after a backspace: one character shorter, unless empty.
pub open spec fn backspaced(s: Seq<char>) -> Seq<char> {
    if s.len() == 0 {
        s
    } else {
        s.drop_last()
    }
}

/// What a key does in `Main`.
pub open spec fn main_step(a: App, key: Key, b: App, cmd: Command) -> bool {
    match key {
        Key::Char('q') | Key::Esc => shifted(a, b, a.current_screen, a.selected_todo, true)
            && cmd is Nothing,
        Key::Char('a') => shifted(a, b, CurrentScreen::AddTodo, a.selected_todo, a.should_quit)
            && cmd is Nothing,
        Key::Char('d') => shifted(
            a,
            b,
            if a.selected_todo is Some {
                CurrentScreen::DeleteTodo
            } else {
                a.current_screen
            },
            a.selected_todo,
            a.should_quit,
        ) && cmd is Nothing,
        Key::Char('e') => cmd is Nothing && match a.selected_id() {
            Some(_) => {
                &&& b.entries() == a.entries()
                &&& b.todo_input@ == a.entries()[a.selected_todo.unwrap() as int].label
                &&& b.search_query@ == a.search_query@
                &&& b.current_screen == CurrentScreen::EditTodo
                &&& b.selected_todo == a.selected_todo
                &&& b.should_quit == a.should_quit
            },
            None => unchanged(a, b),
        },
        Key::Char('g') => shifted(a, b, a.current_screen, a.top_selection(), a.should_quit)
            && cmd is Nothing,
        Key::Char('G') => shifted(a, b, a.current_screen, a.bottom_selection(), a.should_quit)
            && cmd is Nothing,
        Key::Char('v') => shifted(
            a,
            b,
            CurrentScreen::Selection,
            if a.selected_todo is None && a.todos.len() > 0 {
                Some(0usize)
            } else {
                a.selected_todo
            },
            a.should_quit,
        ) && cmd is Nothing,
        Key::Char('j') => shifted(a, b, a.current_screen, a.next_selection(), a.should_quit)
            && cmd is Nothing,
        Key::Char('k') => shifted(a, b, a.current_screen, a.prev_selection(), a.should_quit)
            && cmd is Nothing,
        Key::Char('/') => {
            &&& b.entries() == a.entries()
            &&& b.todo_input@ == a.todo_input@
            &&& b.search_query@.len() == 0
            &&& b.current_screen == CurrentScreen::Search
            &&& b.selected_todo == a.selected_todo
            &&& b.should_quit == a.should_quit
            &&& cmd is Nothing
        },
        Key::Char(' ') => a.toggled(b, cmd) && b.same_but_entries(&a),
        _ => unchanged(a, b) && cmd is Nothing,
    }
}

/// What a key does in `AddTodo`. Confirming a non-empty buffer asks the
/// store for a record; `App::add_todo` finishes the flow with its answer.
pub open spec fn add_step(a: App, key: Key, b: App, cmd: Command) -> bool {
    match key {
        Key::Esc => left_to_main(a, b) && cmd is Nothing,
        Key::Backspace => typed(a, b, backspaced(a.todo_input@)) && cmd is Nothing,
        Key::Enter => unchanged(a, b) && if a.todo_input@.len() == 0 {
            cmd is Nothing
        } else {
            cmd matches Command::Insert(l) && l@ == a.todo_input@
        },
        Key::Char(c) => typed(a, b, a.todo_input@.push(c)) && cmd is Nothing,
        Key::Other => unchanged(a, b) && cmd is Nothing,
    }
}

/// What a key does in `DeleteTodo`. Confirming asks the store to remove the
/// selected record; `App::delete_selected_todo` finishes the flow with its
/// answer.
pub open spec fn delete_step(a: App, key: Key, b: App, cmd: Command) -> bool {
    match key {
        Key::Esc | Key::Char('n') | Key::Char('N') => shifted(
            a,
            b,
            CurrentScreen::Main,
            a.selected_todo,
            a.should_quit,
        ) && cmd is Nothing,
        Key::Char('y') | Key::Char('Y') => match a.selected_id() {
            Some(id) => unchanged(a, b) && cmd == Command::Delete(id),
            None => shifted(a, b, CurrentScreen::Main, a.selected_todo, a.should_quit)
                && cmd is Nothing,
        },
        _ => unchanged(a, b) && cmd is Nothing,
    }
}

/// What a key does in `EditTodo`. Confirming an empty buffer asks the store
/// to remove the selected record, as deleting it would.
pub open spec fn edit_step(a: App, key: Key, b: App, cmd: Command) -> bool {
    match key {
        Key::Esc => left_to_main(a, b) && cmd is Nothing,
        Key::Char(c) => typed(a, b, a.todo_input@.push(c)) && cmd is Nothing,
        Key::Backspace => typed(a, b, backspaced(a.todo_input@)) && cmd is Nothing,
        Key::Enter => if a.todo_input@.len() == 0 {
            match a.selected_id() {
                Some(id) => unchanged(a, b) && cmd == Command::Delete(id),
                None => left_to_main(a, b) && cmd is Nothing,
            }
        } else {
            &&& a.relabeled(b, cmd)
            &&& b.current_screen == CurrentScreen::Main
            &&& b.should_quit == a.should_quit
            &&& b.search_query@ == a.search_query@
        },
        Key::Other => unchanged(a, b) && cmd is Nothing,
    }
}

/// What a key does in `Selection`: only leaving it.
pub open spec fn selection_step(a: App, key: Key, b: App, cmd: Command) -> bool {
    cmd is Nothing && match key {
        Key::Esc | Key::Char('q') => shifted(
            a,
            b,
            CurrentScreen::Main,
            a.selected_todo,
            a.should_quit,
        ),
        _ => unchanged(a, b),
    }
}

/// What a key does in `Search`: typing into the query, or leaving.
pub open spec fn search_step(a: App, key: Key, b: App, cmd: Command) -> bool {
    cmd is Nothing && match key {
        Key::Esc => shifted(a, b, CurrentScreen::Main, a.selected_todo, a.should_quit),
        Key::Char(c) => {
            &&& b.entries() == a.entries()
            &&& b.todo_input@ == a.todo_input@
            &&& b.search_query@ == a.search_query@.push(c)
            &&& b.current_screen == a.current_screen
            &&& b.selected_todo == a.selected_todo
            &&& b.should_quit == a.should_quit
        },
        _ => unchanged(a, b),
    }
}

/// What a key does, by the mode it arrives in.
pub open spec fn step(a: App, key: Key, b: App, cmd: Command) -> bool {
    match a.current_screen {
        CurrentScreen::Main => main_step(a, key, b, cmd),
        CurrentScreen::AddTodo => add_step(a, key, b, cmd),
        CurrentScreen::DeleteTodo => delete_step(a, key, b, cmd),
        CurrentScreen::EditTodo => edit_step(a, key, b, cmd),
        CurrentScreen::Selection => selection_step(a, key, b, cmd),
        CurrentScreen::Search => search_step(a, key, b, cmd),
    }
}

fn handle_main_screen_events(app: &mut App, key: Key) -> (cmd: Command)
    requires
        old(app).wf(),
        old(app).current_screen == CurrentScreen::Main,
    ensures
        final(app).wf(),
        main_step(*old(app), key, *final(app), cmd),
{
    match key {
        Key::Char('q') | Key::Esc => {
            app.should_quit = true;
        },
        Key::Char('a') => {
            app.current_screen = CurrentScreen::AddTodo;
        },
        Key::Char('d') => {
            if app.selected_todo.is_some() {
                app.current_screen = CurrentScreen::DeleteTodo;
            }
        },
        Key::Char('e') => {
            let label = match app.get_selected_todo() {
                Some(todo) => todo.label.clone(),
                None => {
                    return Command::Nothing;
                },
            };
            app.todo_input = label;
            app.current_screen = CurrentScreen::EditTodo;
        },
        Key::Char('g') => {
            app.go_to_top();
        },
        Key::Char('G') => {
            app.go_to_bottom();
        },
        Key::Char('v') => {
            if app.selected_todo.is_none() && app.todos.len() > 0 {
                app.selected_todo = Some(0);
                app.scroll_position = 0;
            }
            app.current_screen = CurrentScreen::Selection;
        },
        Key::Char('j') => {
            app.select_next_todo();
        },
        Key::Char('k') => {
            app.select_prev_todo();
        },
        Key::Char('/') => {
            app.current_screen = CurrentScreen::Search;
            app.search_query = String::new();
        },
        Key::Char(' ') => {
            return app.toggle_selected_todo();
        },
        _ => {},
    }
    Command::Nothing
}

fn handle_add_screen_events(app: &mut App, key: Key) -> (cmd: Command)
    requires
        old(app).wf(),
        old(app).current_screen == CurrentScreen::AddTodo,
    ensures
        final(app).wf(),
        add_step(*old(app), key, *final(app), cmd),
{
    match key {
        Key::Esc => {
            app.current_screen = CurrentScreen::Main;
            app.todo_input = String::new();
        },
        Key::Backspace => {
            let _ = pop_char(&mut app.todo_input);
        },
        Key::Enter => {
            if app.todo_input.as_str().is_empty() {
                return Command::Nothing;
            }
            return Command::Insert(app.todo_input.clone());
        },
        Key::Char(c) => {
            push_char(&mut app.todo_input, c);
        },
        Key::Other => {},
    }
    Command::Nothing
}

fn handle_delete_screen_events(app: &mut App, key: Key) -> (cmd: Command)
    requires
        old(app).wf(),
        old(app).current_screen == CurrentScreen::DeleteTodo,
    ensures
        final(app).wf(),
        delete_step(*old(app), key, *final(app), cmd),
{
    match key {
        Key::Esc | Key::Char('n') | Key::Char('N') => {
            app.current_screen = CurrentScreen::Main;
        },
        Key::Char('y') | Key::Char('Y') => {
            match app.get_selected_todo_id() {
                Some(id) => {
                    return Command::Delete(id);
                },
                None => {
                    app.current_screen = CurrentScreen::Main;
                },
            }
        },
        _ => {},
    }
    Command::Nothing
}

fn handle_edit_screen_events(app: &mut App, key: Key) -> (cmd: Command)
    requires
        old(app).wf(),
        old(app).current_screen == CurrentScreen::EditTodo,
    ensures
        final(app).wf(),
        edit_step(*old(app), key, *final(app), cmd),
{
    match key {
        Key::Esc => {
            app.current_screen = CurrentScreen::Main;
            app.todo_input = String::new();
        },
        Key::Char(c) => {
            push_char(&mut app.todo_input, c);
        },
        Key::Backspace => {
            let _ = pop_char(&mut app.todo_input);
        },
        Key::Enter => {
            if app.todo_input.as_str().is_empty() {
                match app.get_selected_todo_id() {
                    Some(id) => {
                        return Command::Delete(id);
                    },
                    None => {
                        app.current_screen = CurrentScreen::Main;
                        return Command::Nothing;
                    },
                }
            }
            let cmd = app.update_selected_todo();
            app.current_screen = CurrentScreen::Main;
            return cmd;
        },
        Key::Other => {},
    }
    Command::Nothing
}

fn handle_selection_screen_events(app: &mut App, key: Key) -> (cmd: Command)
    requires
        old(app).wf(),
        old(app).current_screen == CurrentScreen::Selection,
    ensures
        final(app).wf(),
        selection_step(*old(app), key, *final(app), cmd),
{
    match key {
        Key::Esc | Key::Char('q') => {
            app.current_screen = CurrentScreen::Main;
        },
        _ => {},
    }
    Command::Nothing
}

fn handle_search_screen_events(app: &mut App, key: Key) -> (cmd: Command)
    requires
        old(app).wf(),
        old(app).current_screen == CurrentScreen::Search,
    ensures
        final(app).wf(),
        search_step(*old(app), key, *final(app), cmd),
{
    match key {
        Key::Esc => {
            app.current_screen = CurrentScreen::Main;
        },
        Key::Char(c) => {
            push_char(&mut app.search_query, c);
        },
        _ => {},
    }
    Command::Nothing
}

/// Hands the key to the handler of the current mode and returns the write,
/// if any, that the store has to carry out.
pub fn update(app: &mut App, key: Key) -> (cmd: Command)
    requires
        old(app).wf(),
    ensures
        final(app).wf(),
        step(*old(app), key, *final(app), cmd),
{
    match app.current_screen {
        CurrentScreen::Main => handle_main_screen_events(app, key),
        CurrentScreen::AddTodo => handle_add_screen_events(app, key),
        CurrentScreen::DeleteTodo => handle_delete_screen_events(app, key),
        CurrentScreen::EditTodo => handle_edit_screen_events(app, key),
        CurrentScreen::Selection => handle_selection_screen_events(app, key),
        CurrentScreen::Search => handle_search_screen_events(app, key),
    }
}

} // verus!
