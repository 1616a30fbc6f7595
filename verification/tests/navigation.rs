use crossterm::event::KeyCode;
use crossterm::event::KeyEvent;
use crossterm::event::KeyModifiers;
use datagrid::database::ColumnKind;
use datagrid::database::Database;
use datagrid::database::DatabaseView;
use datagrid::database::MainView;
use datagrid::database::TableContentView;
use datagrid::database::TableSchemaView;
use datagrid::frame::Area;
use datagrid::frame::PieceKind;
use datagrid::keys::Key;
use datagrid::navigation::Navigator;
use datagrid::table::EditorReply;

fn press(code: KeyCode) -> KeyEvent {
    KeyEvent::new(code, KeyModifiers::NONE)
}

fn at_main(db: &Database) -> Navigator<DatabaseView> {
    Navigator::new(DatabaseView::Main(MainView {}), db)
}

#[test]
fn a_new_stack_shows_the_root() {
    let db = Database::new();
    let navigator = at_main(&db);
    assert_eq!(navigator.depth(), 0);
    assert_eq!(*navigator.top().shown(), DatabaseView::Main(MainView {}));
    assert_eq!(navigator.top().selection(), None);
}

#[test]
fn back_at_the_root_is_not_handled() {
    let mut db = Database::new();
    let mut navigator = at_main(&db);
    assert!(!navigator.handle_key(&mut db, Key::Esc));
    assert!(!navigator.handle_key(&mut db, Key::Other));
    assert!(!navigator.handle_key(&mut db, Key::Char('z')));
    assert_eq!(navigator.depth(), 0);
}

#[test]
fn drilling_down_and_back_from_an_empty_store() {
    let mut db = Database::new();
    let mut navigator = at_main(&db);

    assert!(navigator.handle_key(&mut db, Key::Char('n')));
    assert!(navigator.handle_key(&mut db, Key::Char('n')));
    assert_eq!(db.table_count(), 2);
    assert_eq!(db.table(0).name(), "");
    assert_eq!(db.table(1).name(), "");
    assert_eq!(db.table(0).id(), 0);
    assert_eq!(db.table(1).id(), 1);

    assert!(navigator.handle_key(&mut db, Key::Right));
    assert!(navigator.handle_key(&mut db, Key::Right));
    navigator.scroll_top(1);
    assert_eq!(navigator.top().selection(), Some((0, 1)));
    assert_eq!(navigator.top().scroll_offset(), 1);

    assert!(navigator.handle_key(&mut db, Key::Enter));
    assert_eq!(navigator.depth(), 1);
    assert_eq!(*navigator.top().shown(), DatabaseView::Schema(TableSchemaView { table_idx: 0 }));
    assert_eq!(navigator.top().selection(), None);
    assert_eq!(navigator.top().scroll_offset(), 0);
    assert_eq!(db.table(0).column_count(), 0);
    let frame = navigator.frame(&db, Area { x: 0, y: 0, width: 20, height: 5 });
    assert_eq!(frame.columns.len(), 2);
    assert_eq!(frame.columns[0].len(), 1);

    assert!(navigator.handle_key(&mut db, Key::Char('n')));
    assert_eq!(db.table(0).column_count(), 1);
    assert_eq!(db.table(0).column(0).kind(), ColumnKind::Bool);
    assert_eq!(db.table(0).column(0).name(), "");
    assert_eq!(db.table(1).column_count(), 0);

    assert!(navigator.handle_key(&mut db, Key::Right));
    assert_eq!(navigator.top().selection(), Some((0, 0)));
    assert!(navigator.handle_key(&mut db, Key::Enter));
    assert!(navigator.top().is_editing());
    assert_eq!(navigator.top().edit_text(), Some(String::new()));
    navigator.set_edit_text("done".to_string());
    assert!(navigator.handle_key(&mut db, Key::Esc));
    assert_eq!(navigator.depth(), 1);
    assert!(!navigator.top().is_editing());
    assert_eq!(db.table(0).column(0).name(), "done");

    assert!(navigator.handle_key(&mut db, Key::Esc));
    assert_eq!(navigator.depth(), 0);
    assert_eq!(*navigator.top().shown(), DatabaseView::Main(MainView {}));
    assert_eq!(navigator.top().selection(), Some((0, 1)));
    assert_eq!(navigator.top().scroll_offset(), 1);
    assert!(!navigator.top().is_editing());
    assert_eq!(db.table_count(), 2);
    assert_eq!(db.table(0).column(0).name(), "done");
}

#[test]
fn the_content_of_a_table_is_edited_in_its_own_grid() {
    let mut db = Database::new();
    db.create_table();
    db.add_column_of(0, ColumnKind::Text);
    db.add_column_of(0, ColumnKind::Int);
    let mut navigator = at_main(&db);
    assert!(navigator.handle_key(&mut db, Key::Left));
    assert_eq!(navigator.top().selection(), Some((0, 2)));
    assert!(navigator.handle_key(&mut db, Key::Enter));
    assert_eq!(*navigator.top().shown(), DatabaseView::Content(TableContentView { table_idx: 0 }));
    assert!(navigator.handle_key(&mut db, Key::Char('n')));
    assert!(navigator.handle_key(&mut db, Key::Char('n')));
    assert_eq!(db.table(0).row_count(), 2);
    assert!(navigator.handle_key(&mut db, Key::Left));
    assert!(navigator.handle_key(&mut db, Key::Down));
    assert_eq!(navigator.top().selection(), Some((1, 1)));
    assert!(navigator.handle_key(&mut db, Key::Enter));
    navigator.set_edit_text("-5".to_string());
    assert!(navigator.handle_key(&mut db, Key::Esc));
    assert_eq!(db.table(0).column(1).text_at(1), "-5");
    assert_eq!(db.table(0).column(1).text_at(0), "0");
    assert!(navigator.handle_key(&mut db, Key::Esc));
    assert_eq!(navigator.depth(), 0);
    assert_eq!(navigator.top().selection(), Some((0, 2)));
}

#[test]
fn keys_reach_the_top_grid_only() {
    let mut db = Database::new();
    db.create_table();
    db.create_table();
    let mut navigator = at_main(&db);
    navigator.handle_key(&mut db, Key::Right);
    navigator.handle_key(&mut db, Key::Down);
    navigator.handle_key(&mut db, Key::Right);
    assert!(navigator.handle_key(&mut db, Key::Enter));
    assert_eq!(*navigator.top().shown(), DatabaseView::Schema(TableSchemaView { table_idx: 1 }));
    for _ in 0..3 {
        navigator.handle_key(&mut db, Key::Char('n'));
    }
    for key in [Key::Down, Key::Down, Key::Right, Key::Up, Key::Left] {
        assert!(navigator.handle_key(&mut db, key));
    }
    assert_eq!(navigator.top().selection(), Some((0, 0)));
    assert_eq!(db.table_count(), 2);
    assert_eq!(db.table(1).column_count(), 3);
    assert_eq!(db.table(0).column_count(), 0);
    assert!(navigator.handle_key(&mut db, Key::Esc));
    assert_eq!(navigator.top().selection(), Some((1, 1)));
}

#[test]
fn the_editor_answers_through_the_stack() {
    let mut db = Database::new();
    db.create_table();
    let mut navigator = at_main(&db);
    navigator.handle_key(&mut db, Key::Right);
    navigator.handle_key(&mut db, Key::Enter);
    assert!(navigator.top().is_editing());
    let typed = EditorReply { consumed: true, text: "t".to_string() };
    assert!(navigator.handle_edited_key(&mut db, Key::Char('t'), typed));
    let escaped = EditorReply { consumed: true, text: "t".to_string() };
    assert!(navigator.handle_edited_key(&mut db, Key::Esc, escaped));
    assert!(navigator.top().is_editing());
    let unknown = EditorReply { consumed: false, text: "t1".to_string() };
    assert!(!navigator.handle_edited_key(&mut db, Key::Other, unknown));
    assert_eq!(navigator.top().edit_text(), Some("t1".to_string()));
    let frame = navigator.frame(&db, Area { x: 0, y: 0, width: 30, height: 4 });
    assert_eq!(frame.columns[0][1].kind, PieceKind::Editor);
    assert_eq!(frame.columns[0][1].text, "t1");
    let done = EditorReply { consumed: false, text: "t12".to_string() };
    assert!(navigator.handle_edited_key(&mut db, Key::Esc, done));
    assert!(!navigator.top().is_editing());
    assert_eq!(db.table(0).name(), "t12");
    assert_eq!(navigator.depth(), 0);
}

#[test]
fn terminal_events_drive_the_stack() {
    let mut db = Database::new();
    let mut navigator = at_main(&db);
    assert!(navigator.handle_key_event(&mut db, &press(KeyCode::Char('n')), None));
    assert_eq!(db.table_count(), 1);
    assert!(navigator.handle_key_event(&mut db, &press(KeyCode::Left), None));
    assert!(navigator.handle_key_event(&mut db, &press(KeyCode::Char('h')), None));
    assert_eq!(navigator.top().selection(), Some((0, 1)));
    assert!(navigator.handle_key_event(&mut db, &press(KeyCode::Enter), None));
    assert_eq!(navigator.depth(), 1);
    assert!(!navigator.handle_key_event(&mut db, &press(KeyCode::Backspace), None));
    assert!(navigator.handle_key_event(&mut db, &press(KeyCode::Char('n')), None));
    assert!(navigator.handle_key_event(&mut db, &press(KeyCode::Down), None));
    assert!(navigator.handle_key_event(&mut db, &press(KeyCode::Enter), None));
    let typed = EditorReply { consumed: true, text: "age".to_string() };
    assert!(navigator.handle_key_event(&mut db, &press(KeyCode::Char('e')), Some(typed)));
    let left = EditorReply { consumed: false, text: "age".to_string() };
    assert!(navigator.handle_key_event(&mut db, &press(KeyCode::Esc), Some(left)));
    assert_eq!(db.table(0).column(0).name(), "age");
    assert!(navigator.handle_key_event(&mut db, &press(KeyCode::Esc), None));
    assert_eq!(navigator.depth(), 0);
    assert!(!navigator.handle_key_event(&mut db, &press(KeyCode::Esc), None));
    assert_eq!(navigator.top().selection(), Some((0, 1)));
}

#[test]
fn only_the_commit_key_commits_and_only_while_editing() {
    let mut db = Database::new();
    db.create_table();
    let mut navigator = at_main(&db);
    assert!(!navigator.commits(&press(KeyCode::Esc)));
    navigator.handle_key(&mut db, Key::Right);
    assert!(!navigator.commits(&press(KeyCode::Esc)));
    navigator.handle_key(&mut db, Key::Enter);
    assert!(navigator.top().is_editing());
    assert!(navigator.commits(&press(KeyCode::Esc)));
    assert!(!navigator.commits(&press(KeyCode::Enter)));
    assert!(!navigator.commits(&press(KeyCode::Char('n'))));
    assert!(!navigator.commits(&press(KeyCode::Left)));
    assert!(!navigator.commits(&press(KeyCode::Tab)));
    navigator.handle_key(&mut db, Key::Esc);
    assert!(!navigator.commits(&press(KeyCode::Esc)));
}
