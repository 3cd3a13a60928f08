use vstd::prelude::*;

use crate::app::{App, Command, CurrentScreen};
use crate::collection::{ids, lemma_insert_by_id, lemma_insert_grows, lemma_remove_at};
use crate::todo::Entry;
use crate::update::{step, Key};

verus! {

/// The identifiers the store holds once it has carried out `cmd` without
/// failing, an insertion being given the identifier `fresh`.
pub open spec fn stored_ids(store: Set<i64>, cmd: Command, fresh: i64) -> Set<i64> {
    match cmd {
        Command::Insert(_) => store.insert(fresh),
        Command::Delete(id) => store.remove(id),
        _ => store,
    }
}

/// `b` is the session `a` once the store's successful answer to `cmd` has
/// been handed back; writes that expect no answer leave the collection.
pub open spec fn settled(a: App, cmd: Command, fresh: i64, b: App) -> bool {
    match cmd {
        Command::Insert(_) => a.added(Some(fresh), b),
        Command::Delete(_) => a.removed(true, b),
        _ => b.entries() == a.entries(),
    }
}

/// In a well-formed session a selected position lies inside the collection,
/// so an empty collection has no selection.
pub proof fn lemma_selection_bounds(app: App)
    requires
        app.wf(),
    ensures
        app.todos.len() == 0 ==> app.selected_todo is None,
        app.selected_todo matches Some(i) ==> i < app.todos.len(),
{
}

/// Finishing an insertion keeps a selected position inside the collection.
pub proof fn lemma_selection_bounds_after_add(a: App, inserted: Option<i64>, b: App)
    requires
        a.wf(),
        a.added(inserted, b),
    ensures
        b.selection_in_bounds(),
{
    assert(a.entries().len() == a.todos.len());
    assert(b.entries().len() == b.todos.len());
    if let Some(id) = inserted {
        let e = Entry { id, label: a.todo_input@, completed: false };
        lemma_insert_grows(a.entries(), e);
    }
}

/// Finishing a deletion keeps a selected position inside the collection and
/// drops the selection when the collection becomes empty.
pub proof fn lemma_selection_bounds_after_delete(a: App, deleted: bool, b: App)
    requires
        a.wf(),
        a.removed(deleted, b),
    ensures
        b.selection_in_bounds(),
        b.todos.len() == 0 ==> b.selected_todo is None,
{
    assert(a.entries().len() == a.todos.len());
    assert(b.entries().len() == b.todos.len());
}

proof fn lemma_ids_update(s: Seq<Entry>, p: int, e: Entry)
    requires
        0 <= p < s.len(),
        e.id == s[p].id,
    ensures
        ids(s.update(p, e)) == ids(s),
{
    let r = s.update(p, e);
    assert forall|id: i64| ids(r).contains(id) <==> ids(s).contains(id) by {
        if ids(r).contains(id) {
            let i = choose|i: int| 0 <= i < r.len() && r[i].id == id;
            assert(s[i].id == id);
        }
        if ids(s).contains(id) {
            let i = choose|i: int| 0 <= i < s.len() && s[i].id == id;
            assert(r[i].id == id);
        }
    }
    assert(ids(r) =~= ids(s));
}

/// A key alone changes no identifier: a write that needs the store's answer
/// leaves the collection as it was, and a removal names the selected item.
proof fn lemma_key_keeps_ids(a: App, key: Key, mid: App, cmd: Command)
    requires
        a.wf(),
        step(a, key, mid, cmd),
    ensures
        mid.ids() == a.ids(),
        cmd is Insert ==> mid.entries() == a.entries(),
        cmd matches Command::Delete(id) ==> mid.entries() == a.entries()
            && mid.selected_todo == a.selected_todo && a.selected_id() == Some(id),
{
    if a.selected_id() is Some {
        let p = a.selected_todo.unwrap() as int;
        let e = a.entries()[p];
        lemma_ids_update(a.entries(), p, Entry { completed: !e.completed, ..e });
        lemma_ids_update(a.entries(), p, Entry { label: a.todo_input@, ..e });
    }
}

/// With no store failure, the identifiers of the collection and of the store
/// agree after every key and the store's answer to it, when they agreed
/// before.
pub proof fn lemma_storage_parity(
    a: App,
    key: Key,
    mid: App,
    cmd: Command,
    fresh: i64,
    b: App,
    store: Set<i64>,
)
    requires
        a.wf(),
        a.ids() == store,
        step(a, key, mid, cmd),
        mid.wf(),
        settled(mid, cmd, fresh, b),
    ensures
        b.ids() == stored_ids(store, cmd, fresh),
{
    lemma_key_keeps_ids(a, key, mid, cmd);
    match cmd {
        Command::Insert(_) => {
            lemma_insert_by_id(
                mid.entries(),
                Entry { id: fresh, label: mid.todo_input@, completed: false },
            );
        },
        Command::Delete(id) => {
            let p = mid.selected_todo.unwrap() as int;
            lemma_remove_at(mid.entries(), p);
        },
        _ => {},
    }
}

/// Toggling the selected item twice gives the collection back, and the two
/// writes store the flipped value, then the original one.
pub proof fn lemma_toggle_twice(a: App, mid: App, first: Command, b: App, second: Command)
    requires
        a.wf(),
        a.selected_id() is Some,
        a.toggled(mid, first),
        mid.toggled(b, second),
    ensures
        b.entries() == a.entries(),
        ({
            let e = a.entries()[a.selected_todo.unwrap() as int];
            &&& first == Command::SetCompleted(e.id, !e.completed)
            &&& second == Command::SetCompleted(e.id, e.completed)
        }),
{
    let p = a.selected_todo.unwrap() as int;
    let e = a.entries()[p];
    assert(mid.entries()[p] == Entry { completed: !e.completed, ..e });
    assert(b.entries() =~= a.entries());
}

/// Moving down from the last position selects the first, and moving up from
/// the first selects the last.
pub proof fn lemma_wraparound(a: App)
    requires
        a.wf(),
        a.todos.len() > 0,
    ensures
        a.selected_todo == Some((a.todos.len() - 1) as usize) ==> a.next_selection() == Some(
            0usize,
        ),
        a.selected_todo == Some(0usize) ==> a.prev_selection() == Some(
            (a.todos.len() - 1) as usize,
        ),
{
}

/// Confirming an empty buffer in the add mode stays in that mode, asks the
/// store for nothing and leaves the collection as it was.
pub proof fn lemma_empty_label_rejected(a: App, b: App, cmd: Command)
    requires
        a.current_screen == CurrentScreen::AddTodo,
        a.todo_input@.len() == 0,
        step(a, Key::Enter, b, cmd),
    ensures
        b.current_screen == CurrentScreen::AddTodo,
        b.entries() == a.entries(),
        cmd is Nothing,
{
}

} // verus!
