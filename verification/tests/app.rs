use sqlide::app::{Action, App, FocusElement, InputMode, Key, PSQLConnectionOptions};
use sqlide::postgres::error::{ConnectError, QueryError};

fn options() -> PSQLConnectionOptions {
    PSQLConnectionOptions::from_environment(None, None, None)
}

fn names(list: &[&str]) -> Vec<String> {
    list.iter().map(|name| name.to_string()).collect()
}

fn started() -> App {
    App::new(options(), names(&["shop", "postgres", "archive"]))
}

fn connected_flags(app: &App) -> Vec<bool> {
    app.cluster.databases().iter().map(|database| database.is_connected).collect()
}

fn press(app: &mut App, text: &str) {
    for c in text.chars() {
        let action = app.register_keybinds(Key::Char(c));
        assert!(matches!(action, Action::Idle));
    }
}

#[test]
fn unset_variables_give_the_default_target() {
    let options = PSQLConnectionOptions::from_environment(None, None, None);
    assert_eq!(options.user, "postgres");
    assert_eq!(options.host, "localhost");
    assert_eq!(options.db_name, "postgres");
}

#[test]
fn empty_variables_give_the_default_target() {
    let options = PSQLConnectionOptions::from_environment(
        Some(String::new()),
        Some(String::new()),
        Some(String::new()),
    );
    assert_eq!(options.user, "postgres");
    assert_eq!(options.host, "localhost");
    assert_eq!(options.db_name, "postgres");
}

#[test]
fn set_variables_are_taken_as_they_are() {
    let options = PSQLConnectionOptions::from_environment(
        Some("alice".to_string()),
        Some("db.example.org".to_string()),
        None,
    );
    assert_eq!(options.user, "alice");
    assert_eq!(options.host, "db.example.org");
    assert_eq!(options.db_name, "postgres");
}

#[test]
fn the_application_starts_in_normal_mode_on_the_explorer() {
    let app = started();
    assert_eq!(app.input_mode, InputMode::Normal);
    assert_eq!(app.focused_element, FocusElement::Explorer);
    assert!(!app.should_quit);
    assert!(!app.show_debug);
    assert!(app.show_keybinds);
    assert_eq!(app.input, "");
    assert!(app.input_history.is_empty());
    assert_eq!(app.debug_message, "test");
    assert_eq!(app.user, "postgres");
    assert_eq!(app.host, "localhost");
    assert_eq!(app.db_name, "postgres");
    assert_eq!(
        app.connection_manager.current_connection(),
        "host=localhost user=postgres dbname=postgres"
    );
}

#[test]
fn the_databases_are_listed_in_ascending_order() {
    let app = started();
    let listed: Vec<&str> =
        app.cluster.databases().iter().map(|database| database.name.as_str()).collect();
    assert_eq!(listed, vec!["archive", "postgres", "shop"]);
    assert_eq!(connected_flags(&app), vec![false, false, false]);
    assert!(app.cluster.databases().iter().all(|database| database.tables.is_empty()));
    assert_eq!(app.cluster.focus(), (0, None));
}

#[test]
fn q_sets_the_quit_flag_from_every_focus() {
    for focus in ['1', '2', '3'] {
        let mut app = started();
        press(&mut app, &focus.to_string());
        let focused = app.focused_element;
        let action = app.register_keybinds(Key::Char('q'));
        assert!(matches!(action, Action::Idle));
        assert!(app.should_quit);
        assert_eq!(app.focused_element, focused);
        assert_eq!(app.input_mode, InputMode::Normal);
        assert_eq!(app.input, "");
        assert!(app.input_history.is_empty());
        assert!(app.show_keybinds);
        assert!(!app.show_debug);
        assert_eq!(app.debug_message, "test");
        assert_eq!(connected_flags(&app), vec![false, false, false]);
        assert_eq!(app.cluster.focus(), (0, None));
    }
}

#[test]
fn no_key_is_taken_after_quit() {
    let mut app = started();
    press(&mut app, "q");
    press(&mut app, "2i?d");
    let action = app.register_keybinds(Key::Enter);
    assert!(matches!(action, Action::Idle));
    assert!(app.should_quit);
    assert_eq!(app.focused_element, FocusElement::Explorer);
    assert_eq!(app.input_mode, InputMode::Normal);
    assert!(app.show_keybinds);
    assert!(!app.show_debug);
    assert_eq!(connected_flags(&app), vec![false, false, false]);
}

#[test]
fn the_digits_select_the_focus() {
    let mut app = started();
    press(&mut app, "2");
    assert_eq!(app.focused_element, FocusElement::SearchBar);
    press(&mut app, "3");
    assert_eq!(app.focused_element, FocusElement::Main);
    press(&mut app, "1");
    assert_eq!(app.focused_element, FocusElement::Explorer);
}

#[test]
fn the_popups_are_toggled() {
    let mut app = started();
    press(&mut app, "?");
    assert!(!app.show_keybinds);
    press(&mut app, "?");
    assert!(app.show_keybinds);
    press(&mut app, "d");
    assert!(app.show_debug);
    press(&mut app, "d");
    assert!(!app.show_debug);
}

#[test]
fn i_starts_editing_only_in_the_search_bar() {
    let mut app = started();
    press(&mut app, "i");
    assert_eq!(app.input_mode, InputMode::Normal);
    assert_eq!(app.focused_element, FocusElement::Explorer);
    press(&mut app, "3i");
    assert_eq!(app.input_mode, InputMode::Normal);
    assert_eq!(app.focused_element, FocusElement::Main);
    press(&mut app, "2i");
    assert_eq!(app.input_mode, InputMode::Editing);
    assert_eq!(app.focused_element, FocusElement::SearchBar);
    assert_eq!(app.input, "");
}

#[test]
fn a_typed_line_is_committed_by_enter() {
    let mut app = started();
    press(&mut app, "2i");
    press(&mut app, "abc");
    assert_eq!(app.input, "abc");
    let action = app.register_keybinds(Key::Enter);
    assert!(matches!(action, Action::Idle));
    assert_eq!(app.input_history, vec!["abc".to_string()]);
    assert_eq!(app.input, "");
    assert_eq!(app.input_mode, InputMode::Editing);
}

#[test]
fn editing_takes_the_command_keys_as_text() {
    let mut app = started();
    press(&mut app, "2i");
    press(&mut app, "q1?d");
    assert_eq!(app.input, "q1?d");
    assert!(!app.should_quit);
    assert_eq!(app.focused_element, FocusElement::SearchBar);
    assert!(app.show_keybinds);
    assert!(!app.show_debug);
}

#[test]
fn backspace_removes_the_last_character() {
    let mut app = started();
    press(&mut app, "2i");
    press(&mut app, "ab");
    app.register_keybinds(Key::Backspace);
    assert_eq!(app.input, "a");
    app.register_keybinds(Key::Backspace);
    assert_eq!(app.input, "");
    app.register_keybinds(Key::Backspace);
    assert_eq!(app.input, "");
    assert_eq!(app.input_mode, InputMode::Editing);
}

#[test]
fn esc_leaves_editing_without_committing() {
    let mut app = started();
    press(&mut app, "2i");
    press(&mut app, "draft");
    app.register_keybinds(Key::Esc);
    assert_eq!(app.input_mode, InputMode::Normal);
    assert_eq!(app.input, "draft");
    assert!(app.input_history.is_empty());
    app.register_keybinds(Key::Esc);
    assert_eq!(app.input_mode, InputMode::Normal);
}

#[test]
fn other_keys_change_nothing() {
    let mut app = started();
    app.register_keybinds(Key::Other);
    press(&mut app, "2");
    app.register_keybinds(Key::Other);
    app.register_keybinds(Key::Enter);
    press(&mut app, "i");
    app.register_keybinds(Key::Other);
    assert_eq!(app.input, "");
    assert!(app.input_history.is_empty());
    assert_eq!(app.input_mode, InputMode::Editing);
    assert_eq!(connected_flags(&app), vec![false, false, false]);
}

#[test]
fn the_main_pane_has_no_bindings() {
    let mut app = started();
    press(&mut app, "3");
    press(&mut app, "jkoi");
    let action = app.register_keybinds(Key::Enter);
    assert!(matches!(action, Action::Idle));
    assert_eq!(app.cluster.focus(), (0, None));
    assert_eq!(connected_flags(&app), vec![false, false, false]);
    assert_eq!(app.input_mode, InputMode::Normal);
}

#[test]
fn enter_in_the_explorer_asks_for_a_session_on_the_focused_database() {
    let mut app = started();
    press(&mut app, "j");
    let action = app.register_keybinds(Key::Enter);
    match action {
        Action::Connect(options) => {
            assert_eq!(options.host, "localhost");
            assert_eq!(options.user, "postgres");
            assert_eq!(options.db_name, "postgres");
        }
        _ => panic!("a session was to be asked for"),
    }
    assert_eq!(connected_flags(&app), vec![false, true, false]);
}

#[test]
fn enter_on_the_connected_database_disconnects_it() {
    let mut app = started();
    assert!(matches!(app.register_keybinds(Key::Enter), Action::Connect(_)));
    assert_eq!(connected_flags(&app), vec![true, false, false]);
    assert!(matches!(app.register_keybinds(Key::Enter), Action::Idle));
    assert_eq!(connected_flags(&app), vec![false, false, false]);
}

#[test]
fn at_most_one_database_is_connected_after_any_enters() {
    let mut app = started();
    let keys = [
        Key::Enter,
        Key::Char('j'),
        Key::Enter,
        Key::Char('j'),
        Key::Enter,
        Key::Enter,
        Key::Char('k'),
        Key::Enter,
        Key::Char('j'),
        Key::Char('j'),
        Key::Enter,
    ];
    for key in keys {
        app.register_keybinds(key);
        let connected = connected_flags(&app).into_iter().filter(|flag| *flag).count();
        assert!(connected <= 1);
    }
    assert_eq!(connected_flags(&app), vec![true, false, false]);
}

#[test]
fn the_tables_listed_for_a_database_are_sorted() {
    let mut app = started();
    app.register_keybinds(Key::Enter);
    app.update_connection(
        &"archive".to_string(),
        Ok(()),
        Ok(names(&["orders", "customers", "Items"])),
    );
    let tables: Vec<&str> =
        app.cluster.databases()[0].tables.iter().map(|table| table.name.as_str()).collect();
    assert_eq!(tables, vec!["Items", "customers", "orders"]);
    assert!(app.cluster.databases()[1].tables.is_empty());
    assert!(!app.show_debug);
    assert_eq!(app.debug_message, "test");
    assert_eq!(
        app.connection_manager.current_connection(),
        "host=localhost user=postgres dbname=archive"
    );
    assert_eq!(connected_flags(&app), vec![true, false, false]);
}

#[test]
fn a_failed_connection_is_shown_and_changes_no_flag() {
    let mut app = started();
    app.register_keybinds(Key::Char('j'));
    app.register_keybinds(Key::Enter);
    let before = connected_flags(&app);
    app.update_connection(
        &"postgres".to_string(),
        Err(ConnectError { message: "connection refused".to_string() }),
        Ok(names(&["t"])),
    );
    assert!(app.show_debug);
    assert_eq!(app.debug_message, "Error encountered: connection refused");
    assert_eq!(connected_flags(&app), before);
    assert_eq!(
        app.connection_manager.current_connection(),
        "host=localhost user=postgres dbname=postgres"
    );
}

#[test]
fn a_failed_listing_is_shown_and_leaves_no_tables() {
    let mut app = started();
    app.register_keybinds(Key::Enter);
    app.update_connection(&"archive".to_string(), Ok(()), Ok(names(&["a"])));
    app.update_connection(
        &"archive".to_string(),
        Err(ConnectError { message: "first".to_string() }),
        Err(QueryError::Failed("second".to_string())),
    );
    assert!(app.show_debug);
    assert_eq!(app.debug_message, "Error encountered: second");
    assert!(app.cluster.databases()[0].tables.is_empty());
}

#[test]
fn tables_for_an_unknown_database_go_nowhere() {
    let mut app = started();
    app.update_connection(&"missing".to_string(), Ok(()), Ok(names(&["a"])));
    assert!(app.cluster.databases().iter().all(|database| database.tables.is_empty()));
}

fn with_tables() -> App {
    let mut app = started();
    app.register_keybinds(Key::Enter);
    app.update_connection(&"archive".to_string(), Ok(()), Ok(names(&["orders", "customers"])));
    app
}

#[test]
fn o_asks_for_the_focused_table() {
    let mut app = with_tables();
    assert!(matches!(app.register_keybinds(Key::Char('o')), Action::Idle));
    press(&mut app, "jj");
    assert_eq!(app.cluster.focus(), (0, Some(1)));
    match app.register_keybinds(Key::Char('o')) {
        Action::OpenTable(name) => assert_eq!(name, "orders"),
        _ => panic!("a table was to be asked for"),
    }
}

#[test]
fn an_opened_table_gets_its_columns_and_rows() {
    let mut app = with_tables();
    press(&mut app, "j");
    app.open_table(Ok(names(&["id", "name"])), Ok(names(&["1", "2", "3"])));
    let table = &app.cluster.databases()[0].tables[0];
    assert_eq!(table.name, "customers");
    assert_eq!(table.columns, names(&["id", "name"]));
    assert_eq!(table.rows, names(&["1", "2", "3"]));
    let other = &app.cluster.databases()[0].tables[1];
    assert!(other.columns.is_empty());
    assert!(other.rows.is_empty());
    assert!(!app.show_debug);
}

#[test]
fn errors_of_opening_a_table_are_shown() {
    let mut app = with_tables();
    press(&mut app, "j");
    app.open_table(Err(QueryError::Failed("no columns".to_string())), Ok(names(&["1"])));
    assert!(app.show_debug);
    assert_eq!(app.debug_message, "Error: no columns");
    assert_eq!(app.cluster.databases()[0].tables[0].rows, names(&["1"]));
    app.open_table(
        Ok(names(&["id"])),
        Err(QueryError::InvalidIdentifier("x".to_string())),
    );
    assert_eq!(app.debug_message, "Got an error: invalid identifier: x");
    assert_eq!(app.cluster.databases()[0].tables[0].columns, names(&["id"]));
    assert_eq!(app.cluster.databases()[0].tables[0].rows, names(&["1"]));
}

#[test]
fn opening_without_a_focused_table_changes_nothing() {
    let mut app = with_tables();
    app.open_table(Ok(names(&["id"])), Err(QueryError::Failed("lost".to_string())));
    assert!(!app.show_debug);
    assert_eq!(app.debug_message, "test");
    assert!(app.cluster.databases()[0].tables[0].columns.is_empty());
}

#[test]
fn a_reported_error_replaces_the_value() {
    let mut app = started();
    let value = app.handle_error_with_debug(Ok::<u8, String>(7));
    assert_eq!(value, Some(7));
    assert!(!app.show_debug);
    let value = app.handle_error_with_debug(Err::<u8, String>("lost".to_string()));
    assert_eq!(value, None);
    assert!(app.show_debug);
    assert_eq!(app.debug_message, "Error encountered: lost");
    app.show_debug_message("seen".to_string());
    assert_eq!(app.debug_message, "seen");
    assert!(app.show_debug);
}
