use jdbrowser::app::{App, SchemaEntry};
use jdbrowser::error::BrowseError;
use jdbrowser::page::PageResult;
use jdbrowser::ui::input::{Action, Key};
use jdbrowser::ui::string_list::StringList;
use jdbrowser::ui::Ui;

fn files() -> Vec<String> {
    vec!["./a.db".to_string(), "./b.db".to_string(), "./c.db".to_string()]
}

fn open_app() -> App {
    let mut app = App::new();
    let rows = vec![SchemaEntry {
        type_id: "table".to_string(),
        name: "t".to_string(),
        sql: Some("CREATE TABLE t (x)".to_string()),
    }];
    assert!(app.load_db("./a.db", Ok(rows)).is_ok());
    app
}

fn one_page() -> PageResult {
    PageResult::new(
        vec!["x".to_string()],
        vec![vec!["1".to_string()], vec!["2".to_string()], vec!["3".to_string()]],
    )
    .unwrap()
}

#[test]
fn interface_starts_with_the_first_file_selected() {
    let ui = Ui::new(files());
    assert_eq!(ui.file_list().items(), &files());
    assert_eq!(ui.file_list().selected(), Some(0));
    assert_eq!(ui.file_list().get_selected().unwrap(), "./a.db");
    assert!(!ui.show_help());
    assert_eq!(ui.table_view().page_size(), 50);

    let none = Ui::new(Vec::new());
    assert_eq!(none.file_list().selected(), None);
    assert!(none.file_list().get_selected().is_none());
}

#[test]
fn file_list_moves_with_j_and_k_and_does_not_wrap() {
    let app = App::new();
    let mut ui = Ui::new(files());
    assert!(matches!(ui.handle_input(&Key::Char('k'), &app), Action::Nothing));
    assert_eq!(ui.file_list().selected(), Some(0));
    assert!(matches!(ui.handle_input(&Key::Char('j'), &app), Action::Nothing));
    assert_eq!(ui.file_list().selected(), Some(1));
    let _ = ui.handle_input(&Key::Char('j'), &app);
    let _ = ui.handle_input(&Key::Char('j'), &app);
    assert_eq!(ui.file_list().selected(), Some(2));
    let _ = ui.handle_input(&Key::Char('k'), &app);
    assert_eq!(ui.file_list().selected(), Some(1));
}

#[test]
fn enter_asks_to_open_the_selected_file() {
    let app = App::new();
    let mut ui = Ui::new(files());
    let _ = ui.handle_input(&Key::Char('j'), &app);
    match ui.handle_input(&Key::Enter, &app) {
        Action::Open(path) => assert_eq!(path, "./b.db"),
        other => panic!("unexpected {:?}", other),
    }
    let mut none = Ui::new(Vec::new());
    assert!(matches!(none.handle_input(&Key::Enter, &app), Action::Nothing));
}

#[test]
fn escape_asks_to_quit_and_changes_nothing() {
    let mut ui = Ui::new(files());
    assert!(matches!(ui.handle_input(&Key::Esc, &App::new()), Action::Quit));
    assert_eq!(ui.file_list().selected(), Some(0));
    let app = open_app();
    let _ = ui.load_nav(app.current_db.as_ref().unwrap());
    assert!(matches!(ui.handle_input(&Key::Esc, &app), Action::Quit));
    assert!(ui.table_view().is_loading());
}

#[test]
fn question_mark_opens_and_closes_the_help() {
    let mut ui = Ui::new(files());
    assert!(matches!(ui.handle_input(&Key::Char('?'), &App::new()), Action::Nothing));
    assert!(ui.show_help());
    let app = open_app();
    assert!(matches!(ui.handle_input(&Key::Char('?'), &app), Action::Nothing));
    assert!(!ui.show_help());
}

#[test]
fn keys_go_to_the_table_screen_once_a_database_is_open() {
    let app = open_app();
    let mut ui = Ui::new(files());
    match ui.load_nav(app.current_db.as_ref().unwrap()) {
        Action::Fetch(request) => {
            assert_eq!(request.relation.name, "t");
            assert_eq!((request.page_size, request.offset), (50, 0));
        },
        other => panic!("unexpected {:?}", other),
    }
    assert!(ui.load_table_data(Ok((one_page(), 3))).is_ok());
    ui.set_viewport_height(4);
    assert_eq!(ui.table_view().table_scroll_height(), 2);
    let _ = ui.handle_input(&Key::Char('j'), &app);
    assert_eq!(ui.file_list().selected(), Some(0));
    assert_eq!(ui.table_view().cursor().row, 1);
    match ui.handle_input(&Key::Char('y'), &app) {
        Action::Yank(text) => assert_eq!(text, "2"),
        other => panic!("unexpected {:?}", other),
    }
    assert!(matches!(ui.handle_input(&Key::Enter, &app), Action::Nothing));
}

#[test]
fn failed_read_is_a_query_failure() {
    let app = open_app();
    let mut ui = Ui::new(files());
    let _ = ui.load_nav(app.current_db.as_ref().unwrap());
    match ui.load_table_data(Err("database is locked".to_string())) {
        Err(error) => {
            assert!(matches!(error, BrowseError::QueryFailure(_)));
            assert_eq!(error.message(), "database is locked");
            assert!(error.is_recoverable());
            assert_eq!(error.to_text(), "could not read from the database: database is locked");
        },
        Ok(()) => panic!("the failure was lost"),
    }
    assert!(ui.table_view().data().is_none());
}

#[test]
fn failed_clipboard_is_a_clipboard_failure() {
    assert!(BrowseError::clipboard(Ok(())).is_ok());
    match BrowseError::clipboard(Err("no display".to_string())) {
        Err(error) => {
            assert!(matches!(error, BrowseError::ClipboardFailure(_)));
            assert!(error.is_recoverable());
            assert_eq!(error.to_text(), "could not reach the clipboard: no display");
        },
        Ok(()) => panic!("the failure was lost"),
    }
}

#[test]
fn open_failure_ends_the_attempt() {
    let error = BrowseError::OpenFailure("not a database".to_string());
    assert!(!error.is_recoverable());
    assert_eq!(error.message(), "not a database");
    assert_eq!(error.to_text(), "could not open the database: not a database");
}

#[test]
fn string_list_selects_within_its_items() {
    let mut list = StringList::default();
    assert_eq!(list.len(), 0);
    assert_eq!(list.selected(), None);
    list.select_next();
    list.select_previous();
    list.select(0);
    assert_eq!(list.selected(), None);
    assert!(list.get_selected().is_none());

    list.load_items(vec!["a".to_string(), "b".to_string(), "c".to_string()]);
    assert_eq!(list.selected(), Some(0));
    assert_eq!(list.next_index(), Some(1));
    assert_eq!(list.previous_index(), Some(0));
    assert_eq!(list.chosen_index(2), Some(2));
    assert_eq!(list.chosen_index(3), Some(0));
    list.select(2);
    assert_eq!(list.get_selected().unwrap(), "c");
    list.select_next();
    assert_eq!(list.selected(), Some(2));
    list.select(7);
    assert_eq!(list.selected(), Some(2));
    list.select_previous();
    assert_eq!(list.get_selected().unwrap(), "b");
    list.set_selected(Some(0));
    assert_eq!(list.get_selected().unwrap(), "a");

    list.load_items(Vec::new());
    assert_eq!(list.selected(), None);
}

#[test]
fn opening_a_database_shows_it_at_once() {
    let mut app = App::new();
    let mut ui = Ui::new(files());
    let rows = vec![
        SchemaEntry { type_id: "view".to_string(), name: "v".to_string(), sql: None },
        SchemaEntry { type_id: "table".to_string(), name: "t".to_string(), sql: None },
    ];
    match ui.open_database(&mut app, "./b.db", Ok(rows)) {
        Ok(Action::Fetch(request)) => {
            assert_eq!(request.relation.name, "t");
            assert_eq!((request.page_size, request.offset), (50, 0));
        },
        other => panic!("unexpected {:?}", other),
    }
    assert_eq!(app.current_db.as_ref().unwrap().path(), "./b.db");
    assert_eq!(ui.table_view().tables_list().items(), &vec!["t".to_string()]);
    assert_eq!(ui.table_view().view_list().items(), &vec!["v".to_string()]);
    assert!(ui.table_view().is_loading());
}

#[test]
fn failed_open_leaves_session_and_screen_as_they_were() {
    let mut app = App::new();
    let mut ui = Ui::new(files());
    let _ = ui.handle_input(&Key::Char('j'), &app);
    match ui.open_database(&mut app, "./b.db", Err("file is not a database".to_string())) {
        Err(BrowseError::OpenFailure(message)) => assert_eq!(message, "file is not a database"),
        other => panic!("unexpected {:?}", other),
    }
    assert!(app.current_db.is_none());
    assert_eq!(ui.file_list().selected(), Some(1));
    assert_eq!(ui.table_view().tables_list().len(), 0);
    assert!(!ui.table_view().is_loading());
    match ui.handle_input(&Key::Enter, &app) {
        Action::Open(path) => assert_eq!(path, "./b.db"),
        other => panic!("unexpected {:?}", other),
    }
}

#[test]
fn opening_another_database_starts_the_screen_afresh() {
    let mut app = open_app();
    let mut ui = Ui::new(files());
    let _ = ui.load_nav(app.current_db.as_ref().unwrap());
    assert!(ui.load_table_data(Ok((one_page(), 3))).is_ok());
    let _ = ui.handle_input(&Key::Char('j'), &app);
    let _ = ui.handle_input(&Key::Char('L'), &app);
    assert_eq!(ui.table_view().cursor().row, 1);

    let action = ui.open_database(&mut app, "./c.db", Ok(Vec::new())).unwrap();
    assert!(matches!(action, Action::Nothing));
    assert_eq!(app.current_db.as_ref().unwrap().path(), "./c.db");
    let view = ui.table_view();
    assert_eq!(view.tables_list().len(), 0);
    assert!(view.data().is_none());
    assert_eq!(view.total_rows(), None);
    assert_eq!(view.offset(), 0);
    assert_eq!(view.cursor().row, 0);
    assert_eq!(view.selected_table_tab(), jdbrowser::ui::tabs::SelectedTableTab::Browse);
    assert_eq!(view.table_nav_tab(), jdbrowser::ui::tabs::NavigationTab::Tables);
}
