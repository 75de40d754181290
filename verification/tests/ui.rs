use sqlide::app::{App, Key, PSQLConnectionOptions};
use sqlide::ui::help_window::KeybindsPopup;
use sqlide::ui::{layout, Constraint, Direction, Popup};

fn started() -> App {
    App::new(PSQLConnectionOptions::from_environment(None, None, None), Vec::new())
}

#[test]
fn the_screen_is_divided_into_the_panes() {
    let screen = layout(&started());
    assert_eq!(screen.columns.direction, Direction::Horizontal);
    assert_eq!(
        screen.columns.constraints,
        vec![Constraint::Percentage(30), Constraint::Percentage(70)]
    );
    assert_eq!(screen.status.direction, Direction::Vertical);
    assert_eq!(screen.status.constraints, vec![Constraint::Ratio(23, 24), Constraint::Ratio(1, 24)]);
    assert_eq!(screen.left.direction, Direction::Vertical);
    assert_eq!(screen.left.constraints, vec![Constraint::Ratio(23, 24), Constraint::Ratio(1, 24)]);
    assert_eq!(screen.right.direction, Direction::Vertical);
    assert_eq!(
        screen.right.constraints,
        vec![Constraint::Ratio(2, 24), Constraint::Ratio(21, 24), Constraint::Ratio(1, 24)]
    );
}

#[test]
fn the_help_is_shown_at_the_start() {
    let screen = layout(&started());
    assert_eq!(screen.popups.len(), 1);
    match &screen.popups[0] {
        Popup::Keybinds(popup) => assert_eq!(popup.size(), (60, 40)),
        _ => panic!("the key bindings were to be shown"),
    }
}

#[test]
fn the_debug_popup_lies_over_the_help() {
    let mut app = started();
    app.show_debug_message("lost".to_string());
    let screen = layout(&app);
    assert_eq!(screen.popups.len(), 2);
    assert!(matches!(&screen.popups[0], Popup::Keybinds(_)));
    match &screen.popups[1] {
        Popup::Debug { percent_x, percent_y, message } => {
            assert_eq!((*percent_x, *percent_y), (60, 40));
            assert_eq!(message, "lost");
        }
        _ => panic!("the debug message was to be shown"),
    }
    app.register_keybinds(Key::Char('?'));
    app.register_keybinds(Key::Char('d'));
    assert!(layout(&app).popups.is_empty());
}

#[test]
fn a_popup_lies_in_the_middle() {
    let popup = KeybindsPopup::new(60, 40);
    let rows = popup.rows();
    assert_eq!(rows.direction, Direction::Vertical);
    assert_eq!(
        rows.constraints,
        vec![Constraint::Percentage(30), Constraint::Percentage(40), Constraint::Percentage(30)]
    );
    let columns = popup.columns();
    assert_eq!(columns.direction, Direction::Horizontal);
    assert_eq!(
        columns.constraints,
        vec![Constraint::Percentage(20), Constraint::Percentage(60), Constraint::Percentage(20)]
    );
}

#[test]
fn an_odd_rest_is_halved_downwards() {
    let popup = KeybindsPopup::new(100, 45);
    assert_eq!(
        popup.rows().constraints,
        vec![Constraint::Percentage(27), Constraint::Percentage(45), Constraint::Percentage(27)]
    );
    assert_eq!(
        popup.columns().constraints,
        vec![Constraint::Percentage(0), Constraint::Percentage(100), Constraint::Percentage(0)]
    );
}

#[test]
fn the_help_lists_every_binding() {
    let text = KeybindsPopup::new(60, 40).text();
    for line in [
        "1: Focus Side Bar",
        "2: Focus Main View",
        "3: Focus Search",
        "j: Move down",
        "k: Move up",
        "i: In Normal Mode => Edit Mode",
        "esc: In Edit Mode => Normal Mode",
        "?: Show Binds",
        "d: Show debug window",
        "q: quit",
    ] {
        assert!(text.lines().any(|shown| shown.trim() == line));
    }
}
