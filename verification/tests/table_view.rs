use jdbrowser::app::{Db, SchemaEntry};
use jdbrowser::page::PageResult;
use jdbrowser::ui::cursor::{CursorMove, CursorPosition};
use jdbrowser::ui::input::{Action, Direction, Intent, Key};
use jdbrowser::ui::table_view::{PageInfo, TableView};
use jdbrowser::ui::tabs::{NavigationTab, SelectedTableTab};

fn entry(type_id: &str, name: &str, sql: Option<&str>) -> SchemaEntry {
    SchemaEntry {
        type_id: type_id.to_string(),
        name: name.to_string(),
        sql: sql.map(|text| text.to_string()),
    }
}

fn users_and_orders() -> Db {
    Db::new(
        "shop.db".to_string(),
        &vec![
            entry("table", "users", Some("CREATE TABLE users (id INTEGER)")),
            entry("table", "orders", Some("CREATE TABLE orders (id INTEGER)")),
        ],
    )
}

fn shop_with_view() -> Db {
    Db::new(
        "shop.db".to_string(),
        &vec![
            entry("table", "users", Some("CREATE TABLE users (id INTEGER)")),
            entry("view", "recent", Some("CREATE VIEW recent AS SELECT * FROM orders")),
            entry("table", "orders", Some("CREATE TABLE orders (id INTEGER)")),
        ],
    )
}

fn page(rows: usize, columns: usize, tag: &str) -> PageResult {
    let names: Vec<String> = (0..columns).map(|c| format!("c{}", c)).collect();
    let rows: Vec<Vec<String>> =
        (0..rows).map(|r| (0..columns).map(|c| format!("{}{}:{}", tag, r, c)).collect()).collect();
    PageResult::new(names, rows).unwrap()
}

fn request_of(action: &Action) -> (String, usize, usize) {
    match action {
        Action::Fetch(request) => {
            (request.relation.name.clone(), request.page_size, request.offset)
        },
        other => panic!("a read was expected, not {:?}", other),
    }
}

fn is_nothing(action: &Action) -> bool {
    matches!(action, Action::Nothing)
}

/// A screen that shows the first page of `users`, which has `total` rows.
fn opened(db: &Db, total: usize) -> TableView {
    let mut view = TableView::default();
    let action = view.load_nav(db);
    assert_eq!(request_of(&action), ("users".to_string(), 50, 0));
    assert!(view.load_table_data(Ok((page(total.min(50), 3, "a"), total))).is_ok());
    view
}

fn cell_texts(view: &TableView) -> Vec<Vec<String>> {
    view.data().unwrap().rows().clone()
}

#[test]
fn screen_starts_empty() {
    let view = TableView::default();
    assert_eq!(view.page_size(), 50);
    assert_eq!(view.offset(), 0);
    assert_eq!(view.total_rows(), None);
    assert!(view.data().is_none());
    assert_eq!(view.selected_table_tab(), SelectedTableTab::Browse);
    assert_eq!(view.table_nav_tab(), NavigationTab::Tables);
    assert_eq!(view.cursor(), CursorPosition { row: 0, column: 0 });
    assert_eq!(view.tables_list().len(), 0);
    assert_eq!(view.tables_list().selected(), None);
    assert!(!view.is_loading());
    assert!(view.page_info().is_none());
}

#[test]
fn screen_needs_rows_on_its_pages() {
    assert!(TableView::new(0).is_none());
    let view = TableView::new(7).unwrap();
    assert_eq!(view.page_size(), 7);
}

#[test]
fn opening_selects_first_table_and_asks_for_its_first_page() {
    let db = users_and_orders();
    let mut view = TableView::default();
    let action = view.load_nav(&db);
    assert_eq!(request_of(&action), ("users".to_string(), 50, 0));
    assert!(view.is_loading());
    assert_eq!(view.tables_list().items(), &vec!["users".to_string(), "orders".to_string()]);
    assert_eq!(view.tables_list().selected(), Some(0));
    assert_eq!(view.view_list().len(), 0);
    assert_eq!(view.view_list().selected(), None);
    assert!(view.data().is_none());
    assert!(view.load_table_data(Ok((page(2, 2, "a"), 2))).is_ok());
    assert!(!view.is_loading());
    assert_eq!(view.total_rows(), Some(2));
    assert_eq!(view.data().unwrap().row_count(), 2);
    assert_eq!(view.get_selected_table(&db).unwrap().name, "users");
}

#[test]
fn opening_a_database_without_tables_asks_for_nothing() {
    let db = Db::new("empty.db".to_string(), &vec![entry("view", "v", None)]);
    let mut view = TableView::default();
    assert!(is_nothing(&view.load_nav(&db)));
    assert!(!view.is_loading());
    assert_eq!(view.tables_list().selected(), None);
    assert_eq!(view.view_list().selected(), Some(0));
    assert!(view.get_selected_table(&db).is_none());
}

#[test]
fn views_with_empty_list_keep_tables_selection_and_ask_for_nothing() {
    let db = users_and_orders();
    let mut view = opened(&db, 10);
    let action = view.apply(Intent::MoveSelection(Direction::Next), &db);
    assert_eq!(request_of(&action), ("orders".to_string(), 50, 0));
    assert!(view.load_table_data(Ok((page(4, 2, "o"), 4))).is_ok());
    assert_eq!(view.tables_list().selected(), Some(1));

    let action = view.apply(Intent::SwitchRelationKind(Direction::Next), &db);
    assert!(is_nothing(&action));
    assert!(!view.is_loading());
    assert_eq!(view.table_nav_tab(), NavigationTab::Views);
    assert_eq!(view.tables_list().selected(), Some(1));
    assert_eq!(view.view_list().selected(), None);
    assert_eq!(view.offset(), 0);
    assert_eq!(view.cursor(), CursorPosition { row: 0, column: 0 });
    assert!(view.get_selected_table(&db).is_none());
}

#[test]
fn three_next_pages_of_120_rows() {
    let db = users_and_orders();
    let mut view = opened(&db, 120);
    let mut offsets = Vec::new();
    for _ in 0..3 {
        match view.handle_input(&Key::Char('n'), &db) {
            Action::Fetch(request) => {
                assert_eq!(request.page_size, 50);
                let left = 120 - request.offset;
                assert!(view.load_table_data(Ok((page(left.min(50), 3, "p"), 120))).is_ok());
            },
            Action::Nothing => {},
            other => panic!("unexpected {:?}", other),
        }
        offsets.push(view.offset());
    }
    assert_eq!(offsets, vec![50, 100, 100]);
}

#[test]
fn failed_read_during_next_page_keeps_page_count_and_offset() {
    let db = users_and_orders();
    let mut view = opened(&db, 120);
    assert!(is_nothing(&view.apply(Intent::MoveCursor(CursorMove::Down), &db)));
    let rows_before = cell_texts(&view);
    let cursor_before = view.cursor();

    let action = view.apply(Intent::NextPage, &db);
    assert_eq!(request_of(&action), ("users".to_string(), 50, 50));
    assert_eq!(view.offset(), 0);
    let outcome = view.load_table_data(Err("disk I/O error".to_string()));
    match outcome {
        Err(jdbrowser::error::BrowseError::QueryFailure(message)) => {
            assert_eq!(message, "disk I/O error")
        },
        other => panic!("unexpected {:?}", other),
    }
    assert_eq!(view.offset(), 0);
    assert_eq!(view.total_rows(), Some(120));
    assert_eq!(cell_texts(&view), rows_before);
    assert_eq!(view.cursor(), cursor_before);
    assert!(!view.is_loading());

    let action = view.apply(Intent::NextPage, &db);
    assert_eq!(request_of(&action), ("users".to_string(), 50, 50));
}

#[test]
fn previous_page_stops_at_the_first_row() {
    let db = users_and_orders();
    let mut view = opened(&db, 120);
    assert!(is_nothing(&view.apply(Intent::PrevPage, &db)));
    assert_eq!(view.offset(), 0);

    let _ = view.apply(Intent::NextPage, &db);
    assert!(view.load_table_data(Ok((page(50, 3, "b"), 120))).is_ok());
    let _ = view.apply(Intent::NextPage, &db);
    assert!(view.load_table_data(Ok((page(20, 3, "c"), 120))).is_ok());
    assert_eq!(view.offset(), 100);

    let action = view.handle_input(&Key::Char('p'), &db);
    assert_eq!(request_of(&action), ("users".to_string(), 50, 50));
    assert!(view.load_table_data(Ok((page(50, 3, "b"), 120))).is_ok());
    assert_eq!(view.offset(), 50);
    let action = view.apply(Intent::PrevPage, &db);
    assert_eq!(request_of(&action), ("users".to_string(), 50, 0));
    assert!(view.load_table_data(Ok((page(50, 3, "a"), 120))).is_ok());
    assert_eq!(view.offset(), 0);
    assert!(is_nothing(&view.apply(Intent::PrevPage, &db)));
}

#[test]
fn paging_keeps_offset_a_multiple_of_page_size_and_below_row_count() {
    let db = users_and_orders();
    let mut view = TableView::new(7).unwrap();
    let _ = view.load_nav(&db);
    assert!(view.load_table_data(Ok((page(7, 2, "a"), 30))).is_ok());
    let steps = [true, true, false, true, true, true, true, true, false, false, true, false];
    for forward in steps {
        let intent = if forward { Intent::NextPage } else { Intent::PrevPage };
        if let Action::Fetch(request) = view.apply(intent, &db) {
            let left = 30 - request.offset;
            assert!(view.load_table_data(Ok((page(left.min(7), 2, "p"), 30))).is_ok());
        }
        assert_eq!(view.offset() % 7, 0);
        assert!(view.offset() < 30);
    }
    assert_eq!(view.offset(), 14);
}

#[test]
fn paging_does_nothing_while_the_schema_is_shown() {
    let db = users_and_orders();
    let mut view = opened(&db, 120);
    assert!(is_nothing(&view.apply(Intent::SwitchBodyMode(Direction::Next), &db)));
    assert_eq!(view.selected_table_tab(), SelectedTableTab::Schema);
    assert!(is_nothing(&view.apply(Intent::NextPage, &db)));
    assert!(is_nothing(&view.apply(Intent::PrevPage, &db)));
    assert_eq!(view.offset(), 0);
}

#[test]
fn next_page_needs_a_known_row_count() {
    let db = users_and_orders();
    let mut view = TableView::default();
    let _ = view.load_nav(&db);
    assert!(view.load_table_data(Err("locked".to_string())).is_err());
    assert_eq!(view.total_rows(), None);
    assert!(is_nothing(&view.apply(Intent::NextPage, &db)));
    assert_eq!(view.offset(), 0);
}

#[test]
fn schema_and_back_keeps_offset_cursor_and_page() {
    let db = users_and_orders();
    let mut view = opened(&db, 120);
    let _ = view.apply(Intent::NextPage, &db);
    assert!(view.load_table_data(Ok((page(50, 3, "b"), 120))).is_ok());
    let _ = view.apply(Intent::MoveCursor(CursorMove::Down), &db);
    let _ = view.apply(Intent::MoveCursor(CursorMove::Down), &db);
    let _ = view.apply(Intent::MoveCursor(CursorMove::Right), &db);
    let rows_before = cell_texts(&view);
    assert_eq!(view.cursor(), CursorPosition { row: 2, column: 1 });

    assert!(is_nothing(&view.handle_input(&Key::Char('L'), &db)));
    assert_eq!(view.selected_table_tab(), SelectedTableTab::Schema);
    assert_eq!(view.offset(), 50);
    assert_eq!(view.cursor(), CursorPosition { row: 2, column: 1 });
    assert_eq!(cell_texts(&view), rows_before);

    let action = view.handle_input(&Key::Char('H'), &db);
    assert_eq!(request_of(&action), ("users".to_string(), 50, 50));
    assert_eq!(view.selected_table_tab(), SelectedTableTab::Schema);
    assert!(view.load_table_data(Ok((page(50, 3, "b"), 120))).is_ok());
    assert_eq!(view.selected_table_tab(), SelectedTableTab::Browse);
    assert_eq!(view.offset(), 50);
    assert_eq!(view.cursor(), CursorPosition { row: 2, column: 1 });
    assert_eq!(cell_texts(&view), rows_before);
}

#[test]
fn coming_back_to_a_shorter_page_holds_the_cursor_inside() {
    let db = users_and_orders();
    let mut view = opened(&db, 120);
    view.set_viewport_height(40);
    let _ = view.apply(Intent::MoveCursor(CursorMove::HalfPageDown), &db);
    let _ = view.apply(Intent::MoveCursor(CursorMove::Right), &db);
    let _ = view.apply(Intent::MoveCursor(CursorMove::Right), &db);
    assert_eq!(view.cursor(), CursorPosition { row: 20, column: 2 });
    let _ = view.apply(Intent::SwitchBodyMode(Direction::Previous), &db);
    let _ = view.apply(Intent::SwitchBodyMode(Direction::Previous), &db);
    assert!(view.load_table_data(Ok((page(5, 2, "s"), 5))).is_ok());
    assert_eq!(view.cursor(), CursorPosition { row: 4, column: 1 });
    assert_eq!(view.total_rows(), Some(5));
}

#[test]
fn new_page_puts_the_cursor_on_its_first_cell() {
    let db = users_and_orders();
    let mut view = opened(&db, 120);
    let _ = view.apply(Intent::MoveCursor(CursorMove::Down), &db);
    let _ = view.apply(Intent::MoveCursor(CursorMove::Right), &db);
    assert_eq!(view.cursor(), CursorPosition { row: 1, column: 1 });
    let _ = view.apply(Intent::NextPage, &db);
    assert_eq!(view.cursor(), CursorPosition { row: 1, column: 1 });
    assert!(view.load_table_data(Ok((page(50, 3, "b"), 120))).is_ok());
    assert_eq!(view.cursor(), CursorPosition { row: 0, column: 0 });
}

#[test]
fn empty_page_keeps_the_cursor_at_the_origin() {
    let db = users_and_orders();
    let mut view = opened(&db, 0);
    assert_eq!(view.data().unwrap().row_count(), 0);
    for step in [CursorMove::Down, CursorMove::HalfPageDown, CursorMove::Up, CursorMove::Left] {
        let _ = view.apply(Intent::MoveCursor(step), &db);
        assert_eq!(view.cursor(), CursorPosition { row: 0, column: 0 });
        assert!(view.current_cell_value().is_none());
    }
    let _ = view.apply(Intent::MoveCursor(CursorMove::Right), &db);
    assert_eq!(view.cursor().row, 0);
    assert!(view.current_cell_value().is_none());
    assert!(is_nothing(&view.apply(Intent::Yank, &db)));
}

#[test]
fn cursor_moves_one_cell_and_stops_at_the_edges() {
    let db = users_and_orders();
    let mut view = opened(&db, 3);
    assert_eq!(view.data().unwrap().row_count(), 3);
    let walk = [
        ('k', (0, 0)),
        ('h', (0, 0)),
        ('j', (1, 0)),
        ('j', (2, 0)),
        ('j', (2, 0)),
        ('l', (2, 1)),
        ('l', (2, 2)),
        ('l', (2, 2)),
        ('k', (1, 2)),
        ('h', (1, 1)),
    ];
    for (key, (row, column)) in walk {
        assert!(is_nothing(&view.handle_input(&Key::Char(key), &db)));
        assert_eq!(view.cursor(), CursorPosition { row, column });
    }
    assert_eq!(view.current_cell_value().unwrap(), "a1:1");
}

#[test]
fn half_page_steps_cover_half_the_viewport() {
    let db = users_and_orders();
    let mut view = opened(&db, 120);
    view.set_viewport_height(21);
    assert_eq!(view.table_scroll_height(), 10);
    let _ = view.handle_input(&Key::Char('d'), &db);
    assert_eq!(view.cursor(), CursorPosition { row: 10, column: 0 });
    let _ = view.handle_input(&Key::Char('d'), &db);
    let _ = view.handle_input(&Key::Char('d'), &db);
    let _ = view.handle_input(&Key::Char('d'), &db);
    let _ = view.handle_input(&Key::Char('d'), &db);
    assert_eq!(view.cursor(), CursorPosition { row: 49, column: 0 });
    let _ = view.handle_input(&Key::Char('u'), &db);
    assert_eq!(view.cursor(), CursorPosition { row: 39, column: 0 });
    view.set_viewport_height(200);
    let _ = view.handle_input(&Key::Char('u'), &db);
    assert_eq!(view.cursor(), CursorPosition { row: 0, column: 0 });
}

#[test]
fn yank_hands_out_the_text_under_the_cursor() {
    let db = users_and_orders();
    let mut view = opened(&db, 3);
    let _ = view.apply(Intent::MoveCursor(CursorMove::Down), &db);
    let _ = view.apply(Intent::MoveCursor(CursorMove::Right), &db);
    match view.handle_input(&Key::Char('y'), &db) {
        Action::Yank(text) => assert_eq!(text, "a1:1"),
        other => panic!("unexpected {:?}", other),
    }
    assert_eq!(view.cursor(), CursorPosition { row: 1, column: 1 });
}

#[test]
fn selection_moves_within_the_list_and_does_not_wrap() {
    let db = users_and_orders();
    let mut view = opened(&db, 120);
    let _ = view.apply(Intent::NextPage, &db);
    assert!(view.load_table_data(Ok((page(50, 3, "b"), 120))).is_ok());
    assert!(is_nothing(&view.handle_input(&Key::Char('K'), &db)));
    assert_eq!(view.tables_list().selected(), Some(0));
    assert_eq!(view.offset(), 50);

    let action = view.handle_input(&Key::Char('J'), &db);
    assert_eq!(request_of(&action), ("orders".to_string(), 50, 0));
    assert_eq!(view.tables_list().selected(), Some(0));
    assert!(view.load_table_data(Ok((page(9, 1, "o"), 9))).is_ok());
    assert_eq!(view.tables_list().selected(), Some(1));
    assert_eq!(view.offset(), 0);
    assert_eq!(view.total_rows(), Some(9));
    assert_eq!(view.get_selected_table(&db).unwrap().name, "orders");

    assert!(is_nothing(&view.handle_input(&Key::Char('J'), &db)));
    assert_eq!(view.tables_list().selected(), Some(1));
}

#[test]
fn failed_read_keeps_the_selection_where_it_was() {
    let db = users_and_orders();
    let mut view = opened(&db, 120);
    let _ = view.apply(Intent::MoveSelection(Direction::Next), &db);
    assert!(view.load_table_data(Err("no such table".to_string())).is_err());
    assert_eq!(view.tables_list().selected(), Some(0));
    assert_eq!(view.total_rows(), Some(120));
    assert_eq!(view.get_selected_table(&db).unwrap().name, "users");
}

#[test]
fn select_relation_by_position() {
    let db = users_and_orders();
    let mut view = opened(&db, 120);
    assert!(is_nothing(&view.apply(Intent::SelectRelation(0), &db)));
    assert!(is_nothing(&view.apply(Intent::SelectRelation(2), &db)));
    let action = view.apply(Intent::SelectRelation(1), &db);
    assert_eq!(request_of(&action), ("orders".to_string(), 50, 0));
    assert!(view.load_table_data(Ok((page(1, 1, "o"), 1))).is_ok());
    assert_eq!(view.tables_list().selected(), Some(1));
}

#[test]
fn selection_change_under_the_schema_needs_no_read() {
    let db = users_and_orders();
    let mut view = opened(&db, 120);
    let _ = view.apply(Intent::NextPage, &db);
    assert!(view.load_table_data(Ok((page(50, 3, "b"), 120))).is_ok());
    let _ = view.apply(Intent::SwitchBodyMode(Direction::Next), &db);
    assert!(is_nothing(&view.apply(Intent::MoveSelection(Direction::Next), &db)));
    assert_eq!(view.tables_list().selected(), Some(1));
    assert_eq!(view.offset(), 0);
    assert_eq!(view.get_selected_table(&db).unwrap().sql, "CREATE TABLE orders (id INTEGER)");
    let action = view.apply(Intent::SwitchBodyMode(Direction::Next), &db);
    assert_eq!(request_of(&action), ("orders".to_string(), 50, 0));
}

#[test]
fn switching_to_views_selects_the_first_view() {
    let db = shop_with_view();
    let mut view = opened(&db, 120);
    let _ = view.apply(Intent::MoveSelection(Direction::Next), &db);
    assert!(view.load_table_data(Ok((page(3, 1, "o"), 3))).is_ok());
    let action = view.handle_input(&Key::Char('e'), &db);
    let (name, size, offset) = request_of(&action);
    assert_eq!((name.as_str(), size, offset), ("recent", 50, 0));
    assert_eq!(view.table_nav_tab(), NavigationTab::Tables);
    assert!(view.load_table_data(Ok((page(2, 2, "v"), 2))).is_ok());
    assert_eq!(view.table_nav_tab(), NavigationTab::Views);
    assert_eq!(view.view_list().selected(), Some(0));
    assert_eq!(view.tables_list().selected(), Some(1));

    let action = view.handle_input(&Key::Char('q'), &db);
    assert_eq!(request_of(&action), ("users".to_string(), 50, 0));
    assert!(view.load_table_data(Ok((page(2, 2, "u"), 2))).is_ok());
    assert_eq!(view.table_nav_tab(), NavigationTab::Tables);
    assert_eq!(view.tables_list().selected(), Some(0));
}

#[test]
fn a_new_input_gives_up_what_was_waiting() {
    let db = users_and_orders();
    let mut view = opened(&db, 120);
    let _ = view.apply(Intent::NextPage, &db);
    assert!(view.is_loading());
    let _ = view.apply(Intent::MoveCursor(CursorMove::Down), &db);
    assert!(!view.is_loading());
    assert!(view.load_table_data(Ok((page(50, 3, "b"), 120))).is_ok());
    assert_eq!(view.offset(), 0);
    assert_eq!(cell_texts(&view)[0][0], "a0:0");
}

#[test]
fn keys_that_ask_nothing_change_nothing() {
    let db = users_and_orders();
    let mut view = opened(&db, 120);
    let _ = view.apply(Intent::NextPage, &db);
    for key in [Key::Char('x'), Key::Char('?'), Key::Enter, Key::Other] {
        assert!(is_nothing(&view.handle_input(&key, &db)));
    }
    assert!(view.is_loading());
    assert_eq!(view.offset(), 0);
}

#[test]
fn keys_and_what_they_ask() {
    let pairs = [
        ('h', Intent::MoveCursor(CursorMove::Left)),
        ('l', Intent::MoveCursor(CursorMove::Right)),
        ('k', Intent::MoveCursor(CursorMove::Up)),
        ('j', Intent::MoveCursor(CursorMove::Down)),
        ('u', Intent::MoveCursor(CursorMove::HalfPageUp)),
        ('d', Intent::MoveCursor(CursorMove::HalfPageDown)),
        ('e', Intent::SwitchRelationKind(Direction::Next)),
        ('q', Intent::SwitchRelationKind(Direction::Previous)),
        ('L', Intent::SwitchBodyMode(Direction::Next)),
        ('H', Intent::SwitchBodyMode(Direction::Previous)),
        ('J', Intent::MoveSelection(Direction::Next)),
        ('K', Intent::MoveSelection(Direction::Previous)),
        ('n', Intent::NextPage),
        ('p', Intent::PrevPage),
        ('y', Intent::Yank),
    ];
    for (key, intent) in pairs {
        assert_eq!(Key::Char(key).to_intent(), Some(intent));
    }
    assert_eq!(Key::Char('z').to_intent(), None);
    assert_eq!(Key::Enter.to_intent(), None);
    assert_eq!(Key::Esc.to_intent(), None);
    assert_eq!(Key::Other.to_intent(), None);
}

#[test]
fn footer_of_the_second_of_three_pages() {
    let db = users_and_orders();
    let mut view = opened(&db, 120);
    let _ = view.apply(Intent::NextPage, &db);
    assert!(view.load_table_data(Ok((page(50, 3, "b"), 120))).is_ok());
    let info = view.page_info().unwrap();
    assert_eq!(info, PageInfo { start: 51, end: 100, total: 120, page: 2, last_page: 3 });
    assert_eq!(info.to_text(), "displaying records 51-100 of 120  (page 2/3)");
}

#[test]
fn footer_of_the_last_page_and_of_an_empty_relation() {
    let db = users_and_orders();
    let mut view = opened(&db, 120);
    let _ = view.apply(Intent::NextPage, &db);
    assert!(view.load_table_data(Ok((page(50, 3, "b"), 120))).is_ok());
    let _ = view.apply(Intent::NextPage, &db);
    assert!(view.load_table_data(Ok((page(20, 3, "c"), 120))).is_ok());
    assert_eq!(
        view.page_info().unwrap(),
        PageInfo { start: 101, end: 120, total: 120, page: 3, last_page: 3 }
    );

    let empty = opened(&db, 0);
    let info = empty.page_info().unwrap();
    assert_eq!(info, PageInfo { start: 1, end: 0, total: 0, page: 1, last_page: 1 });
    assert_eq!(info.to_text(), "displaying records 1-0 of 0  (page 1/1)");

    let exact = opened(&db, 100);
    assert_eq!(
        exact.page_info().unwrap(),
        PageInfo { start: 1, end: 50, total: 100, page: 1, last_page: 2 }
    );
}

#[test]
fn selected_relation_is_the_first_of_its_name() {
    let db = Db::new(
        "twice.db".to_string(),
        &vec![entry("table", "t", Some("first")), entry("table", "t", Some("second"))],
    );
    let mut view = TableView::default();
    let _ = view.load_nav(&db);
    assert!(view.load_table_data(Ok((page(1, 1, "a"), 1))).is_ok());
    let _ = view.apply(Intent::MoveSelection(Direction::Next), &db);
    assert!(view.load_table_data(Ok((page(1, 1, "a"), 1))).is_ok());
    assert_eq!(view.tables_list().selected(), Some(1));
    assert_eq!(view.get_selected_table(&db).unwrap().sql, "first");
}

#[test]
fn a_screen_of_another_database_finds_no_relation() {
    let db = users_and_orders();
    let other = Db::new("other.db".to_string(), &vec![entry("table", "items", None)]);
    let mut view = opened(&db, 120);
    assert!(view.get_selected_table(&other).is_none());
    assert!(is_nothing(&view.apply(Intent::NextPage, &other)));
    assert_eq!(view.offset(), 0);
}
