use evtxview::app::{App, Command, Orientation};
use evtxview::record::Record;
use evtxview::selection::{
    next_selection, previous_selection, reconcile, scroll_offset, select_index,
};

fn rec(id: u64, user: Option<&str>) -> Record {
    Record::new(id, user.map(|u| u.to_string()), format!("event {}", id), 0)
}

fn app_with_ids(ids: &[u64]) -> App {
    let mut app = App::new();
    for &id in ids {
        app.append_record(rec(id, None));
    }
    app
}

fn valid(app: &App) -> bool {
    match app.selected() {
        None => app.table().len() == 0,
        Some(i) => i < app.table().len(),
    }
}

#[test]
fn scenario_exclude_select_reset_keeps_position() {
    let mut app = app_with_ids(&[1, 2, 1, 3, 2]);
    app.set_selected(1);
    app.exclude_event_id();
    let t = app.table();
    let view: Vec<usize> = (0..t.len()).map(|r| t.store_index(r)).collect();
    assert_eq!(view, vec![0, 2, 3]);
    app.set_selected(2);
    assert_eq!(app.table().record(2).event_id, 3);
    app.reset_filter();
    let t = app.table();
    let view: Vec<usize> = (0..t.len()).map(|r| t.store_index(r)).collect();
    assert_eq!(view, vec![0, 1, 2, 3, 4]);
    assert_eq!(app.selected(), Some(2));
    assert_eq!(app.table().record(2).event_id, 1);
}

#[test]
fn scenario_empty_store_navigation_is_noop() {
    let mut app = App::new();
    app.next(1);
    assert_eq!(app.selected(), None);
    app.previous(1);
    assert_eq!(app.selected(), None);
    assert_eq!(app.selected_content(), None);
}

#[test]
fn scenario_previous_clamps_at_zero() {
    let mut app = app_with_ids(&[1, 2, 3]);
    app.set_selected(1);
    app.previous(3);
    assert_eq!(app.selected(), Some(0));
}

#[test]
fn next_clamps_at_last_row() {
    let mut app = app_with_ids(&[1, 2, 3, 4]);
    app.next(1);
    assert_eq!(app.selected(), Some(1));
    app.next(10);
    assert_eq!(app.selected(), Some(3));
    app.next(usize::MAX);
    assert_eq!(app.selected(), Some(3));
}

#[test]
fn selection_shrinks_with_view() {
    let mut app = app_with_ids(&[1, 1, 2, 2, 2]);
    app.set_selected(4);
    // the record under the cursor has id 2; excluding it leaves two rows
    app.exclude_event_id();
    assert_eq!(app.table().len(), 2);
    assert_eq!(app.selected(), Some(1));
    // nothing left once 1 is excluded too
    app.exclude_event_id();
    assert_eq!(app.table().len(), 0);
    assert_eq!(app.selected(), None);
    app.next(1);
    assert_eq!(app.selected(), None);
    app.reset_filter();
    assert_eq!(app.selected(), Some(0));
}

#[test]
fn selection_stays_valid_through_mutations() {
    let mut app = App::new();
    assert!(valid(&app));
    let users = [Some("a"), None, Some("b"), Some("a"), None, Some("c")];
    for (k, u) in users.iter().enumerate() {
        app.append_record(rec((k % 3) as u64, *u));
        assert!(valid(&app));
    }
    let cmds = [
        Command::Last,
        Command::ExcludeUser,
        Command::Down,
        Command::IncludeEventId,
        Command::Up,
        Command::ExcludeEventId,
        Command::PageDown,
        Command::ResetFilter,
        Command::Last,
        Command::IncludeUser,
        Command::First,
        Command::ExcludeUser,
    ];
    app.set_viewport_height(6);
    for c in cmds.iter() {
        app.handle_command(*c);
        assert!(valid(&app));
    }
}

#[test]
fn first_selected_row_appears_with_first_passing_record() {
    let mut app = App::new();
    assert_eq!(app.selected(), None);
    app.append_record(rec(1, None));
    assert_eq!(app.selected(), Some(0));
    assert_eq!(app.selected_content().map(|s| s.as_str()), Some("event 1"));
}

#[test]
fn user_filter_through_cursor() {
    let mut app = App::new();
    app.append_record(rec(1, Some("alice")));
    app.append_record(rec(2, None));
    app.append_record(rec(3, Some("alice")));
    app.include_user();
    assert_eq!(app.table().len(), 2);
    assert_eq!(app.table().record(1).event_id, 3);
    app.reset_filter();
    app.set_selected(1);
    app.exclude_user();
    assert_eq!(app.table().len(), 2);
    assert_eq!(app.table().record(0).event_id, 1);
    assert_eq!(app.table().record(1).event_id, 3);
}

#[test]
fn commands_from_keys() {
    assert_eq!(Command::from_char('q'), Some(Command::Quit));
    assert_eq!(Command::from_char('G'), Some(Command::Last));
    assert_eq!(Command::from_char('E'), Some(Command::ExcludeEventId));
    assert_eq!(Command::from_char('e'), Some(Command::IncludeEventId));
    assert_eq!(Command::from_char('+'), Some(Command::IncreaseTableSize));
    assert_eq!(Command::from_char('x'), None);
}

#[test]
fn page_moves_half_the_viewport() {
    let mut app = app_with_ids(&[0; 30]);
    app.set_viewport_height(10);
    app.handle_command(Command::PageDown);
    assert_eq!(app.selected(), Some(5));
    app.handle_command(Command::PageDown);
    assert_eq!(app.selected(), Some(10));
    app.handle_command(Command::PageUp);
    assert_eq!(app.selected(), Some(5));
    app.handle_command(Command::Last);
    assert_eq!(app.selected(), Some(29));
    app.handle_command(Command::First);
    assert_eq!(app.selected(), Some(0));
}

#[test]
fn page_with_tiny_viewport_does_nothing() {
    let mut app = app_with_ids(&[0, 0, 0]);
    app.set_viewport_height(1);
    app.handle_command(Command::PageDown);
    assert_eq!(app.selected(), Some(0));
}

#[test]
fn layout_commands() {
    let mut app = App::new();
    assert_eq!(app.orientation(), Orientation::Horizontal);
    app.handle_command(Command::ChangeOrientation);
    assert_eq!(app.orientation(), Orientation::Vertical);
    app.handle_command(Command::ChangeOrientation);
    assert_eq!(app.orientation(), Orientation::Horizontal);
    assert_eq!(app.table_percentage(), 50);
    for _ in 0..100 {
        app.handle_command(Command::IncreaseTableSize);
    }
    assert_eq!(app.table_percentage(), 97);
    for _ in 0..100 {
        app.handle_command(Command::DecreaseTableSize);
    }
    assert_eq!(app.table_percentage(), 3);
    assert!(!app.should_exit());
    app.handle_command(Command::Quit);
    assert!(app.should_exit());
}

#[test]
fn scrollbar_and_window() {
    let mut app = app_with_ids(&[0; 20]);
    app.set_viewport_height(5);
    assert_eq!(app.table_scrollbar(), (0, 20));
    assert_eq!(app.visible_window(), (0, 5));
    app.set_selected(7);
    assert_eq!(app.table_scrollbar(), (7, 20));
    assert_eq!(app.visible_window(), (3, 8));
    app.set_selected(100);
    assert_eq!(app.selected(), Some(19));
    assert_eq!(app.visible_window(), (15, 20));
    let empty = App::new();
    assert_eq!(empty.visible_window(), (0, 0));
    assert_eq!(empty.table_scrollbar(), (0, 0));
}

#[test]
fn selection_functions() {
    assert_eq!(reconcile(Some(5), 3), Some(2));
    assert_eq!(reconcile(Some(1), 3), Some(1));
    assert_eq!(reconcile(None, 3), Some(0));
    assert_eq!(reconcile(Some(1), 0), None);
    assert_eq!(next_selection(Some(1), 2, 10), Some(3));
    assert_eq!(next_selection(Some(8), 5, 10), Some(9));
    assert_eq!(next_selection(None, 1, 0), None);
    assert_eq!(previous_selection(Some(1), 3, 10), Some(0));
    assert_eq!(previous_selection(Some(6), 3, 10), Some(3));
    assert_eq!(select_index(4, 3), Some(2));
    assert_eq!(select_index(4, 0), None);
    assert_eq!(scroll_offset(2, 5), 0);
    assert_eq!(scroll_offset(9, 5), 5);
    assert_eq!(scroll_offset(4, 5), 0);
    assert_eq!(scroll_offset(5, 5), 1);
    assert_eq!(scroll_offset(3, 0), 3);
}
