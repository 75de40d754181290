//! What a frame shows, computed from the state: how the screen is divided
//! into panes, and which popups lie over them.
//!
//! Painting is left to the program around this library. It divides the area
//! of the terminal as the [`Screen`] says and paints each pane from the
//! state.

pub mod help_window;

use vstd::prelude::*;
use crate::app::App;
use crate::ui::help_window::KeybindsPopup;

verus! {

/// The share of an area that one part of a division gets.
#[derive(Debug, Clone, Copy, PartialEq, Eq, Structural)]
pub enum Constraint {
    /// So many hundredths of the area.
    Percentage(u16),
    /// The first number out of the second, as a fraction of the area.
    Ratio(u32, u32),
}

/// Whether the parts of a division lie side by side or one above the other.
#[derive(Debug, Clone, Copy, PartialEq, Eq, Structural)]
pub enum Direction {
    Horizontal,
    Vertical,
}

/// A division of an area into parts, first part first.
pub struct Split {
    pub direction: Direction,
    pub constraints: Vec<Constraint>,
}

/// What a [`Split`] holds.
pub struct SplitView {
    pub direction: Direction,
    pub constraints: Seq<Constraint>,
}

impl View for Split {
    type V = SplitView;

    open spec fn view(&self) -> SplitView {
        SplitView { direction: self.direction, constraints: self.constraints@ }
    }
}

/// A popup over the panes.
pub enum Popup {
    /// The list of key bindings.
    Keybinds(KeybindsPopup),
    /// The debug message, in a popup of the given width and height in
    /// hundredths of the screen.
    Debug { percent_x: u16, percent_y: u16, message: String },
}

/// What a [`Popup`] holds.
pub enum PopupView {
    Keybinds { percent_x: u16, percent_y: u16 },
    Debug { percent_x: u16, percent_y: u16, message: Seq<char> },
}

impl DeepView for Popup {
    type V = PopupView;

    open spec fn deep_view(&self) -> PopupView {
        match self {
            Popup::Keybinds(popup) => PopupView::Keybinds {
                percent_x: popup@.0,
                percent_y: popup@.1,
            },
            Popup::Debug { percent_x, percent_y, message } => PopupView::Debug {
                percent_x: *percent_x,
                percent_y: *percent_y,
                message: message@,
            },
        }
    }
}

/// What a frame shows.
pub struct Screen {
    /// The screen divided into the explorer's column and the column of the
    /// search bar and the table.
    pub columns: Split,
    /// The screen divided into everything else and the status line, which
    /// is the second part.
    pub status: Split,
    /// The left column divided into the explorer and a spare last line.
    pub left: Split,
    /// The right column divided into the search bar, the table and a spare
    /// last line.
    pub right: Split,
    /// The popups, the lowest first.
    pub popups: Vec<Popup>,
}

/// What a [`Screen`] holds.
pub struct ScreenView {
    pub columns: SplitView,
    pub status: SplitView,
    pub left: SplitView,
    pub right: SplitView,
    pub popups: Seq<PopupView>,
}

impl View for Screen {
    type V = ScreenView;

    open spec fn view(&self) -> ScreenView {
        ScreenView {
            columns: self.columns@,
            status: self.status@,
            left: self.left@,
            right: self.right@,
            popups: self.popups.deep_view(),
        }
    }
}

/// The popups that lie over the panes: the key bindings where the help is
/// shown, and over them the debug message where that is shown.
pub open spec fn popups_shown(show_keybinds: bool, show_debug: bool, message: Seq<char>) -> Seq<
    PopupView,
> {
    let keybinds = if show_keybinds {
        seq![PopupView::Keybinds { percent_x: 60, percent_y: 40 }]
    } else {
        Seq::empty()
    };
    let debug = if show_debug {
        seq![PopupView::Debug { percent_x: 60, percent_y: 40, message }]
    } else {
        Seq::empty()
    };
    keybinds + debug
}

/// The screen for the given popups: columns of 30 and 70 hundredths, the
/// status line on the last of 24 lines, the explorer on the first 23 of the
/// left column, the search bar on the first two and the table on the next 21
/// of the right column.
pub open spec fn screen_with(popups: Seq<PopupView>) -> ScreenView {
    ScreenView {
        columns: SplitView {
            direction: Direction::Horizontal,
            constraints: seq![Constraint::Percentage(30), Constraint::Percentage(70)],
        },
        status: SplitView {
            direction: Direction::Vertical,
            constraints: seq![Constraint::Ratio(23, 24), Constraint::Ratio(1, 24)],
        },
        left: SplitView {
            direction: Direction::Vertical,
            constraints: seq![Constraint::Ratio(23, 24), Constraint::Ratio(1, 24)],
        },
        right: SplitView {
            direction: Direction::Vertical,
            constraints: seq![
                Constraint::Ratio(2, 24),
                Constraint::Ratio(21, 24),
                Constraint::Ratio(1, 24),
            ],
        },
        popups,
    }
}

/// A division into two parts.
fn split_in_two(direction: Direction, first: Constraint, second: Constraint) -> (split: Split)
    ensures
        split@ == (SplitView { direction, constraints: seq![first, second] }),
{
    let mut constraints: Vec<Constraint> = Vec::new();
    constraints.push(first);
    constraints.push(second);
    assert(constraints@ =~= seq![first, second]);
    Split { direction, constraints }
}

/// A division into three parts.
pub(crate) fn split_in_three(direction: Direction, first: Constraint, second: Constraint, third: Constraint) -> (split:
    Split)
    ensures
        split@ == (SplitView { direction, constraints: seq![first, second, third] }),
{
    let mut constraints: Vec<Constraint> = Vec::new();
    constraints.push(first);
    constraints.push(second);
    constraints.push(third);
    assert(constraints@ =~= seq![first, second, third]);
    Split { direction, constraints }
}

/// What the frame shows for the state `app`.
pub fn layout(app: &App) -> (screen: Screen)
    ensures
        screen@ == screen_with(popups_shown(app.show_keybinds, app.show_debug, app.debug_message@)),
{
    let mut popups: Vec<Popup> = Vec::new();
    if app.show_keybinds {
        popups.push(Popup::Keybinds(KeybindsPopup::new(60, 40)));
    }
    if app.show_debug {
        popups.push(
            Popup::Debug { percent_x: 60, percent_y: 40, message: app.debug_message.clone() },
        );
    }
    assert(popups.deep_view() =~= popups_shown(
        app.show_keybinds,
        app.show_debug,
        app.debug_message@,
    ));
    Screen {
        columns: split_in_two(
            Direction::Horizontal,
            Constraint::Percentage(30),
            Constraint::Percentage(70),
        ),
        status: split_in_two(
            Direction::Vertical,
            Constraint::Ratio(23, 24),
            Constraint::Ratio(1, 24),
        ),
        left: split_in_two(Direction::Vertical, Constraint::Ratio(23, 24), Constraint::Ratio(1, 24)),
        right: split_in_three(
            Direction::Vertical,
            Constraint::Ratio(2, 24),
            Constraint::Ratio(21, 24),
            Constraint::Ratio(1, 24),
        ),
        popups,
    }
}

} // verus!
