use todo_tui::app::{App, Command, CurrentScreen};
use todo_tui::todo::Todo;
use todo_tui::update::{update, Key};

fn labels(app: &App) -> Vec<String> {
    app.todos.iter().map(|t| t.label.clone()).collect()
}

fn ids(app: &App) -> Vec<i64> {
    app.todos.iter().map(|t| t.id).collect()
}

fn with_items(items: &[(i64, &str)]) -> App {
    let rows = items.iter().map(|(id, l)| Todo::new(*id, l.to_string())).collect();
    App::new(Some(rows))
}

fn type_text(app: &mut App, text: &str) {
    for c in text.chars() {
        let cmd = update(app, Key::Char(c));
        assert!(matches!(cmd, Command::Nothing));
    }
}

#[test]
fn todo_new_is_not_completed() {
    let t = Todo::new(7, "Write".to_string());
    assert_eq!(t.id, 7);
    assert_eq!(t.label, "Write");
    assert!(!t.completed);
}

#[test]
fn todo_toggle_flips_completed() {
    let mut t = Todo::new(1, "a".to_string());
    t.toggle();
    assert!(t.completed);
    t.toggle();
    assert!(!t.completed);
    assert_eq!(t.label, "a");
}

#[test]
fn new_without_records_starts_empty() {
    let app = App::new(None);
    assert!(app.todos.is_empty());
    assert_eq!(app.selected_todo, None);
    assert_eq!(app.current_screen, CurrentScreen::Main);
    assert!(!app.should_quit);
    assert!(app.todo_input.is_empty());
}

#[test]
fn new_orders_by_identifier_and_later_record_wins() {
    let rows = vec![
        Todo::new(5, "five".to_string()),
        Todo::new(2, "two".to_string()),
        Todo::new(9, "nine".to_string()),
        Todo::new(2, "two again".to_string()),
    ];
    let app = App::new(Some(rows));
    assert_eq!(ids(&app), vec![2, 5, 9]);
    assert_eq!(labels(&app), vec!["two again", "five", "nine"]);
}

#[test]
fn wraparound_on_three_items() {
    let mut app = with_items(&[(1, "a"), (2, "b"), (3, "c")]);
    app.go_to_bottom();
    assert_eq!(app.selected_todo, Some(2));
    app.select_next_todo();
    assert_eq!(app.selected_todo, Some(0));
    assert_eq!(app.scroll_position, 0);
    app.select_prev_todo();
    assert_eq!(app.selected_todo, Some(2));
    assert_eq!(app.scroll_position, 2);
}

#[test]
fn moving_selects_and_scrolls_together() {
    let mut app = with_items(&[(1, "a"), (2, "b"), (3, "c")]);
    update(&mut app, Key::Char('j'));
    assert_eq!(app.selected_todo, Some(0));
    update(&mut app, Key::Char('j'));
    assert_eq!(app.selected_todo, Some(1));
    assert_eq!(app.scroll_position, 1);
    update(&mut app, Key::Char('k'));
    assert_eq!(app.selected_todo, Some(0));
    update(&mut app, Key::Char('G'));
    assert_eq!(app.selected_todo, Some(2));
    update(&mut app, Key::Char('g'));
    assert_eq!(app.selected_todo, Some(0));
    assert_eq!(app.scroll_position, 0);
}

#[test]
fn moving_in_empty_collection_selects_nothing() {
    let mut app = App::new(Some(vec![]));
    app.select_next_todo();
    app.select_prev_todo();
    app.go_to_top();
    app.go_to_bottom();
    assert_eq!(app.selected_todo, None);
    assert_eq!(app.scroll_position, 0);
    update(&mut app, Key::Char('d'));
    assert_eq!(app.current_screen, CurrentScreen::Main);
    update(&mut app, Key::Char('e'));
    assert_eq!(app.current_screen, CurrentScreen::Main);
}

#[test]
fn empty_label_rejected() {
    let mut app = with_items(&[(1, "a")]);
    update(&mut app, Key::Char('a'));
    assert_eq!(app.current_screen, CurrentScreen::AddTodo);
    let cmd = update(&mut app, Key::Enter);
    assert!(matches!(cmd, Command::Nothing));
    assert_eq!(app.current_screen, CurrentScreen::AddTodo);
    assert_eq!(app.todos.len(), 1);
}

#[test]
fn add_then_list() {
    let mut app = App::new(Some(vec![]));
    update(&mut app, Key::Char('a'));
    type_text(&mut app, "Buy milk");
    assert_eq!(app.todo_input, "Buy milk");
    let cmd = update(&mut app, Key::Enter);
    match cmd {
        Command::Insert(label) => assert_eq!(label, "Buy milk"),
        other => panic!("unexpected {:?}", other),
    }
    app.add_todo(Some(1));
    assert_eq!(app.todos.len(), 1);
    assert_eq!(app.todos[0].id, 1);
    assert_eq!(app.todos[0].label, "Buy milk");
    assert!(!app.todos[0].completed);
    assert_eq!(app.selected_todo, None);
    assert_eq!(app.current_screen, CurrentScreen::Main);
    assert!(app.todo_input.is_empty());
}

#[test]
fn add_keeps_selection_and_identifier_order() {
    let mut app = with_items(&[(5, "five")]);
    update(&mut app, Key::Char('j'));
    update(&mut app, Key::Char('a'));
    type_text(&mut app, "three");
    update(&mut app, Key::Enter);
    app.add_todo(Some(3));
    assert_eq!(ids(&app), vec![3, 5]);
    assert_eq!(app.selected_todo, Some(0));
}

#[test]
fn failed_insert_leaves_collection() {
    let mut app = with_items(&[(1, "a")]);
    update(&mut app, Key::Char('a'));
    type_text(&mut app, "b");
    update(&mut app, Key::Enter);
    app.add_todo(None);
    assert_eq!(ids(&app), vec![1]);
    assert_eq!(app.current_screen, CurrentScreen::Main);
    assert!(app.todo_input.is_empty());
}

#[test]
fn add_cancel_and_backspace() {
    let mut app = App::new(Some(vec![]));
    update(&mut app, Key::Char('a'));
    update(&mut app, Key::Backspace);
    assert!(app.todo_input.is_empty());
    type_text(&mut app, "abc");
    update(&mut app, Key::Backspace);
    assert_eq!(app.todo_input, "ab");
    update(&mut app, Key::Esc);
    assert_eq!(app.current_screen, CurrentScreen::Main);
    assert!(app.todo_input.is_empty());
    assert!(app.todos.is_empty());
}

#[test]
fn delete_last_item() {
    let mut app = with_items(&[(1, "only")]);
    update(&mut app, Key::Char('j'));
    assert_eq!(app.selected_todo, Some(0));
    update(&mut app, Key::Char('d'));
    assert_eq!(app.current_screen, CurrentScreen::DeleteTodo);
    let cmd = update(&mut app, Key::Char('y'));
    assert!(matches!(cmd, Command::Delete(1)));
    app.delete_selected_todo(true);
    assert!(app.todos.is_empty());
    assert_eq!(app.selected_todo, None);
    assert_eq!(app.current_screen, CurrentScreen::Main);
}

#[test]
fn delete_at_end_moves_selection_up() {
    let mut app = with_items(&[(1, "a"), (2, "b"), (3, "c")]);
    update(&mut app, Key::Char('G'));
    update(&mut app, Key::Char('d'));
    let cmd = update(&mut app, Key::Char('Y'));
    assert!(matches!(cmd, Command::Delete(3)));
    app.delete_selected_todo(true);
    assert_eq!(ids(&app), vec![1, 2]);
    assert_eq!(app.selected_todo, Some(1));
    assert_eq!(app.scroll_position, 1);
}

#[test]
fn delete_in_middle_keeps_position() {
    let mut app = with_items(&[(1, "a"), (2, "b"), (3, "c")]);
    update(&mut app, Key::Char('j'));
    update(&mut app, Key::Char('j'));
    update(&mut app, Key::Char('d'));
    update(&mut app, Key::Char('y'));
    app.delete_selected_todo(true);
    assert_eq!(ids(&app), vec![1, 3]);
    assert_eq!(app.selected_todo, Some(1));
}

#[test]
fn failed_delete_leaves_collection() {
    let mut app = with_items(&[(1, "a")]);
    update(&mut app, Key::Char('j'));
    update(&mut app, Key::Char('d'));
    update(&mut app, Key::Char('y'));
    app.delete_selected_todo(false);
    assert_eq!(ids(&app), vec![1]);
    assert_eq!(app.selected_todo, Some(0));
    assert_eq!(app.current_screen, CurrentScreen::Main);
}

#[test]
fn delete_denied() {
    let mut app = with_items(&[(1, "a")]);
    update(&mut app, Key::Char('j'));
    update(&mut app, Key::Char('d'));
    let cmd = update(&mut app, Key::Char('n'));
    assert!(matches!(cmd, Command::Nothing));
    assert_eq!(app.current_screen, CurrentScreen::Main);
    assert_eq!(app.todos.len(), 1);
}

#[test]
fn edit_to_empty_deletes() {
    let mut app = with_items(&[(1, "X")]);
    update(&mut app, Key::Char('j'));
    update(&mut app, Key::Char('e'));
    assert_eq!(app.current_screen, CurrentScreen::EditTodo);
    assert_eq!(app.todo_input, "X");
    update(&mut app, Key::Backspace);
    assert!(app.todo_input.is_empty());
    let cmd = update(&mut app, Key::Enter);
    assert!(matches!(cmd, Command::Delete(1)));
    app.delete_selected_todo(true);
    assert!(app.todos.is_empty());
    assert_eq!(app.selected_todo, None);
    assert_eq!(app.current_screen, CurrentScreen::Main);
}

#[test]
fn edit_relabels_selected() {
    let mut app = with_items(&[(1, "X"), (2, "Y")]);
    update(&mut app, Key::Char('G'));
    update(&mut app, Key::Char('e'));
    type_text(&mut app, "z");
    let cmd = update(&mut app, Key::Enter);
    match cmd {
        Command::SetLabel(id, label) => {
            assert_eq!(id, 2);
            assert_eq!(label, "Yz");
        }
        other => panic!("unexpected {:?}", other),
    }
    assert_eq!(labels(&app), vec!["X", "Yz"]);
    assert_eq!(app.current_screen, CurrentScreen::Main);
    assert!(app.todo_input.is_empty());
}

#[test]
fn edit_cancel_changes_nothing() {
    let mut app = with_items(&[(1, "X")]);
    update(&mut app, Key::Char('j'));
    update(&mut app, Key::Char('e'));
    type_text(&mut app, "yz");
    update(&mut app, Key::Esc);
    assert_eq!(labels(&app), vec!["X"]);
    assert!(app.todo_input.is_empty());
    assert_eq!(app.current_screen, CurrentScreen::Main);
}

#[test]
fn toggle_twice_restores_and_writes_both_values() {
    let mut app = with_items(&[(4, "a")]);
    update(&mut app, Key::Char('j'));
    let first = update(&mut app, Key::Char(' '));
    assert!(matches!(first, Command::SetCompleted(4, true)));
    assert!(app.todos[0].completed);
    let second = update(&mut app, Key::Char(' '));
    assert!(matches!(second, Command::SetCompleted(4, false)));
    assert!(!app.todos[0].completed);
}

#[test]
fn toggle_without_selection_does_nothing() {
    let mut app = with_items(&[(4, "a")]);
    let cmd = app.toggle_selected_todo();
    assert!(matches!(cmd, Command::Nothing));
    assert!(!app.todos[0].completed);
}

#[test]
fn storage_parity_over_a_session() {
    let mut app = App::new(Some(vec![]));
    let mut store: Vec<i64> = vec![];
    let mut next_id: i64 = 1;
    let keys = [
        Key::Char('a'), Key::Char('x'), Key::Enter,
        Key::Char('a'), Key::Char('y'), Key::Enter,
        Key::Char('j'), Key::Char(' '),
        Key::Char('a'), Key::Char('z'), Key::Enter,
        Key::Char('d'), Key::Char('y'),
        Key::Char('e'), Key::Backspace, Key::Enter,
    ];
    for key in keys {
        match update(&mut app, key) {
            Command::Insert(_) => {
                store.push(next_id);
                app.add_todo(Some(next_id));
                next_id += 1;
            }
            Command::Delete(id) => {
                store.retain(|s| *s != id);
                app.delete_selected_todo(true);
            }
            _ => {}
        }
        let mut sorted = store.clone();
        sorted.sort();
        assert_eq!(ids(&app), sorted);
    }
    assert_eq!(ids(&app), vec![3]);
}

#[test]
fn quit_and_modes() {
    let mut app = with_items(&[(1, "a")]);
    update(&mut app, Key::Char('v'));
    assert_eq!(app.current_screen, CurrentScreen::Selection);
    assert_eq!(app.selected_todo, Some(0));
    update(&mut app, Key::Char('q'));
    assert_eq!(app.current_screen, CurrentScreen::Main);
    assert!(!app.should_quit);
    update(&mut app, Key::Char('/'));
    assert_eq!(app.current_screen, CurrentScreen::Search);
    update(&mut app, Key::Char('m'));
    assert_eq!(app.search_query, "m");
    update(&mut app, Key::Esc);
    assert_eq!(app.current_screen, CurrentScreen::Main);
    update(&mut app, Key::Other);
    assert!(!app.should_quit);
    update(&mut app, Key::Esc);
    assert!(app.should_quit);
}

#[test]
fn footer_text_by_mode() {
    assert_eq!(CurrentScreen::Main.mode_label(), "NORMAL");
    assert_eq!(CurrentScreen::DeleteTodo.mode_label(), "DELETE");
    assert_eq!(CurrentScreen::AddTodo.key_hint(), " <Enter> - Add | <Esc> - Cancel");
}
