use datagrid::database::Database;
use datagrid::database::DatabaseView;
use datagrid::database::MainView;
use datagrid::database::TableSchemaView;
use datagrid::frame::equal_shares;
use datagrid::frame::visible_rows;
use datagrid::frame::Area;
use datagrid::frame::Frame;
use datagrid::frame::PieceKind;
use datagrid::keys::Key;
use datagrid::navigation::Navigator;
use datagrid::table::State;

fn area(x: u16, y: u16, width: u16, height: u16) -> Area {
    Area { x, y, width, height }
}

fn named_tables(names: &[&str]) -> Database {
    let mut db = Database::new();
    for (index, name) in names.iter().enumerate() {
        db.create_table();
        db.rename_table(index, name.to_string());
    }
    db
}

fn thirds() -> Vec<Area> {
    vec![area(0, 0, 10, 6), area(10, 0, 10, 6), area(20, 0, 10, 6)]
}

fn assert_inside(frame: &Frame, bounds: Area) {
    for column in &frame.columns {
        for piece in column {
            let inner = piece.area;
            if inner.width == 0 || inner.height == 0 {
                continue;
            }
            assert!(bounds.x <= inner.x);
            assert!(inner.x as u32 + inner.width as u32 <= bounds.x as u32 + bounds.width as u32);
            assert!(bounds.y <= inner.y);
            assert!(inner.y as u32 + inner.height as u32 <= bounds.y as u32 + bounds.height as u32);
        }
    }
}

#[test]
fn scrolling_past_the_end_shows_no_row() {
    assert_eq!(visible_rows(3, 5, 10), 0);
    assert_eq!(visible_rows(3, 3, 10), 0);
    assert_eq!(visible_rows(0, 0, 10), 0);
    assert_eq!(visible_rows(0, usize::MAX, usize::MAX), 0);
}

#[test]
fn visible_rows_are_what_is_left_or_what_fits() {
    assert_eq!(visible_rows(3, 0, 10), 3);
    assert_eq!(visible_rows(3, 1, 10), 2);
    assert_eq!(visible_rows(3, 2, 10), 1);
    assert_eq!(visible_rows(30, 5, 10), 10);
    assert_eq!(visible_rows(15, 5, 10), 10);
    assert_eq!(visible_rows(30, 5, 0), 0);
    assert_eq!(visible_rows(usize::MAX, 0, usize::MAX), usize::MAX);
    assert_eq!(visible_rows(usize::MAX, 1, usize::MAX), usize::MAX - 1);
}

#[test]
fn areas_overlap_in_their_shared_columns() {
    let bounds = area(5, 2, 10, 4);
    assert_eq!(area(0, 2, 8, 4).within(bounds), area(5, 2, 3, 4));
    assert_eq!(area(7, 2, 3, 4).within(bounds), area(7, 2, 3, 4));
    assert_eq!(area(12, 2, 10, 4).within(bounds), area(12, 2, 3, 4));
    assert_eq!(area(20, 2, 5, 4).within(bounds), area(20, 2, 0, 4));
    assert_eq!(area(0, 2, 5, 4).within(bounds), area(5, 2, 0, 4));
    assert_eq!(area(65535, 0, 65535, 1).within(area(65000, 0, 65535, 1)), area(65535, 0, 65000, 1));
}

#[test]
fn the_body_lies_below_a_header_of_one_row() {
    assert_eq!(area(0, 0, 10, 6).usable_height(), 6);
    assert_eq!(area(0, 0, 10, 6).body_height(), 5);
    assert_eq!(area(0, 0, 10, 1).body_height(), 0);
    assert_eq!(area(0, 0, 10, 0).body_height(), 0);
    assert_eq!(area(0, 65535, 10, 6).usable_height(), 1);
    assert_eq!(area(0, 65535, 10, 6).body_height(), 0);
    assert_eq!(area(0, 65530, 10, 65535).usable_height(), 6);
}

#[test]
fn strips_are_one_row_of_the_bounds() {
    let bounds = area(5, 2, 10, 4);
    assert_eq!(area(0, 2, 8, 4).strip(bounds, 0), area(5, 2, 3, 1));
    assert_eq!(area(0, 2, 8, 4).strip(bounds, 3), area(5, 5, 3, 1));
    assert_eq!(area(0, 2, 8, 4).strip(bounds, 4), area(5, 2, 3, 0));
    assert_eq!(area(0, 0, 8, 4).strip(area(0, 65535, 8, 4), 1), area(0, 65535, 8, 0));
}

#[test]
fn a_frame_has_a_header_and_the_visible_rows() {
    let db = named_tables(&["a", "b", "c", "d"]);
    let grid = State::new(DatabaseView::Main(MainView {}), &db);
    let bounds = area(0, 0, 30, 6);
    let frame = grid.frame_in(&db, bounds, &thirds());
    assert_eq!(frame.columns.len(), 3);
    let headers = ["Table", "Schema", "Content"];
    for (c, column) in frame.columns.iter().enumerate() {
        assert_eq!(column.len(), 5);
        assert_eq!(column[0].kind, PieceKind::Header);
        assert_eq!(column[0].text, headers[c]);
        assert_eq!(column[0].area, area(10 * c as u16, 0, 10, 1));
        assert!(!column[0].selected);
        for (line, piece) in column.iter().enumerate().skip(1) {
            assert_eq!(piece.area, area(10 * c as u16, line as u16, 10, 1));
            assert!(!piece.selected);
        }
    }
    let names: Vec<&str> = frame.columns[0][1..].iter().map(|piece| piece.text.as_str()).collect();
    assert_eq!(names, vec!["a", "b", "c", "d"]);
    for piece in &frame.columns[0][1..] {
        assert_eq!(piece.kind, PieceKind::Text);
    }
    for c in 1..3 {
        for piece in &frame.columns[c][1..] {
            assert_eq!(piece.kind, PieceKind::Link);
            assert_eq!(piece.text, "Open");
        }
    }
    assert_inside(&frame, bounds);
}

#[test]
fn a_frame_starts_at_the_scroll_offset_and_fits_the_height() {
    let db = named_tables(&["a", "b", "c", "d", "e", "f", "g"]);
    let mut grid = State::new(DatabaseView::Main(MainView {}), &db);
    grid.set_scroll_offset(2);
    let frame = grid.frame_in(&db, area(0, 0, 30, 4), &thirds());
    let names: Vec<&str> = frame.columns[0][1..].iter().map(|piece| piece.text.as_str()).collect();
    assert_eq!(names, vec!["c", "d", "e"]);
    grid.set_scroll_offset(5);
    let frame = grid.frame_in(&db, area(0, 0, 30, 4), &thirds());
    let names: Vec<&str> = frame.columns[0][1..].iter().map(|piece| piece.text.as_str()).collect();
    assert_eq!(names, vec!["f", "g"]);
    grid.set_scroll_offset(7);
    let frame = grid.frame_in(&db, area(0, 0, 30, 4), &thirds());
    assert_eq!(frame.columns[0].len(), 1);
    grid.set_scroll_offset(usize::MAX);
    let frame = grid.frame_in(&db, area(0, 0, 30, 4), &thirds());
    assert_eq!(frame.columns[0].len(), 1);
    assert_eq!(frame.columns[2].len(), 1);
}

#[test]
fn a_frame_without_height_shows_empty_headers_only() {
    let db = named_tables(&["a", "b"]);
    let grid = State::new(DatabaseView::Main(MainView {}), &db);
    let frame = grid.frame_in(&db, area(0, 3, 30, 0), &thirds());
    assert_eq!(frame.columns.len(), 3);
    for column in &frame.columns {
        assert_eq!(column.len(), 1);
        assert_eq!(column[0].area.height, 0);
    }
    let frame = grid.frame_in(&db, area(0, 3, 30, 1), &thirds());
    for column in &frame.columns {
        assert_eq!(column.len(), 1);
        assert_eq!(column[0].area.height, 1);
        assert_eq!(column[0].area.y, 3);
    }
}

#[test]
fn a_frame_marks_the_selected_cell() {
    let mut db = named_tables(&["a", "b", "c"]);
    let mut grid = State::new(DatabaseView::Main(MainView {}), &db);
    grid.handle_key(&mut db, Key::Right);
    grid.handle_key(&mut db, Key::Down);
    grid.handle_key(&mut db, Key::Right);
    let frame = grid.frame_in(&db, area(0, 0, 30, 6), &thirds());
    for (c, column) in frame.columns.iter().enumerate() {
        for (line, piece) in column.iter().enumerate() {
            assert_eq!(piece.selected, c == 1 && line == 2);
        }
    }
    assert_eq!(frame.columns[1][2].kind, PieceKind::Link);
    grid.set_scroll_offset(2);
    let frame = grid.frame_in(&db, area(0, 0, 30, 6), &thirds());
    for column in &frame.columns {
        for piece in column {
            assert!(!piece.selected);
        }
    }
}

#[test]
fn a_frame_shows_the_editor_in_the_edited_cell() {
    let mut db = named_tables(&["a", "b", "c"]);
    let mut grid = State::new(DatabaseView::Main(MainView {}), &db);
    grid.handle_key(&mut db, Key::Right);
    grid.handle_key(&mut db, Key::Down);
    grid.handle_key(&mut db, Key::Enter);
    grid.set_edit_text("being typed".to_string());
    let frame = grid.frame_in(&db, area(0, 0, 30, 6), &thirds());
    let piece = &frame.columns[0][2];
    assert_eq!(piece.kind, PieceKind::Editor);
    assert_eq!(piece.text, "being typed");
    assert!(piece.selected);
    assert_eq!(piece.area, area(0, 2, 10, 1));
    assert_eq!(frame.columns[0][1].kind, PieceKind::Text);
    assert_eq!(frame.columns[0][1].text, "a");
    assert_eq!(frame.columns[0][3].text, "c");
    let editors = frame.columns.iter().flatten().filter(|piece| piece.kind == PieceKind::Editor).count();
    assert_eq!(editors, 1);
}

#[test]
fn column_areas_are_cut_to_the_bounds() {
    let db = named_tables(&["a", "b"]);
    let grid = State::new(DatabaseView::Main(MainView {}), &db);
    let bounds = area(4, 1, 12, 3);
    let areas = vec![area(0, 1, 6, 3), area(6, 1, 6, 3), area(12, 1, 60, 3)];
    let frame = grid.frame_in(&db, bounds, &areas);
    assert_eq!(frame.columns[0][0].area, area(4, 1, 2, 1));
    assert_eq!(frame.columns[1][1].area, area(6, 2, 6, 1));
    assert_eq!(frame.columns[2][2].area, area(12, 3, 4, 1));
    assert_inside(&frame, bounds);
}

#[test]
fn the_layout_gives_each_header_a_column() {
    let db = named_tables(&["a", "b", "c"]);
    let grid = State::new(DatabaseView::Main(MainView {}), &db);
    let bounds = area(2, 1, 30, 6);
    let frame = grid.frame(&db, bounds);
    assert_eq!(frame.columns.len(), 3);
    for column in &frame.columns {
        assert_eq!(column.len(), 4);
        assert_eq!(column[0].area.y, 1);
        assert_eq!(column[3].area.y, 4);
    }
    assert_inside(&frame, bounds);
    let widths: u32 = frame.columns.iter().map(|column| column[0].area.width as u32).sum();
    assert_eq!(widths, 30);
    assert_eq!(frame.columns[0][0].area.x, 2);
    assert!(frame.columns[0][0].area.x < frame.columns[1][0].area.x);
    assert!(frame.columns[1][0].area.x < frame.columns[2][0].area.x);
    for column in &frame.columns {
        assert_eq!(column[0].area.width, 10);
    }
}

#[test]
fn the_layout_counts_headers_whatever_the_room() {
    let mut db = Database::new();
    db.create_table();
    let grid = State::new(DatabaseView::Schema(TableSchemaView { table_idx: 0 }), &db);
    let frame = grid.frame(&db, area(0, 0, 20, 5));
    assert_eq!(frame.columns.len(), 2);
    let navigator = Navigator::new(DatabaseView::Main(MainView {}), &db);
    let frame = navigator.frame(&db, area(0, 0, 0, 0));
    assert_eq!(frame.columns.len(), 3);
}

#[test]
fn equal_columns_have_one_share_each() {
    assert_eq!(equal_shares(0), Vec::<u16>::new());
    assert_eq!(equal_shares(1), vec![1]);
    assert_eq!(equal_shares(4), vec![1, 1, 1, 1]);
}
