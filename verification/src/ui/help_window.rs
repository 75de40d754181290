//! The popup that lists the key bindings.

use vstd::prelude::*;
use crate::ui::{split_in_three, Constraint, Direction, Split, SplitView};

verus! {

/// A popup in the middle of the screen, as wide and as high as the given
/// hundredths of the screen.
pub struct KeybindsPopup {
    percent_x: u16,
    percent_y: u16,
}

impl View for KeybindsPopup {
    type V = (u16, u16);

    /// The width and the height, in hundredths of the screen.
    closed spec fn view(&self) -> (u16, u16) {
        (self.percent_x, self.percent_y)
    }
}

/// The division that puts a part of `percent` hundredths in the middle: a
/// margin of half the rest, rounded down, before it and after it.
pub open spec fn centered(direction: Direction, percent: u16) -> SplitView {
    let margin = ((100 - percent) / 2) as u16;
    SplitView {
        direction,
        constraints: seq![
            Constraint::Percentage(margin),
            Constraint::Percentage(percent),
            Constraint::Percentage(margin),
        ],
    }
}

/// The division that puts a part of `percent` hundredths in the middle.
fn center(direction: Direction, percent: u16) -> (split: Split)
    requires
        percent <= 100,
    ensures
        split@ == centered(direction, percent),
{
    let margin: u16 = (100 - percent) / 2;
    split_in_three(
        direction,
        Constraint::Percentage(margin),
        Constraint::Percentage(percent),
        Constraint::Percentage(margin),
    )
}

impl KeybindsPopup {
    /// The text of the popup, one binding a line.
    pub open spec fn help() -> Seq<char> {
        "
            1: Focus Side Bar
            2: Focus Main View
            3: Focus Search
            j: Move down
            k: Move up
            i: In Normal Mode => Edit Mode
            esc: In Edit Mode => Normal Mode
            ?: Show Binds
            d: Show debug window
            q: quit"@
    }

    /// A popup of the given width and height, in hundredths of the screen.
    pub fn new(percent_x: u16, percent_y: u16) -> (popup: KeybindsPopup)
        ensures
            popup@ == (percent_x, percent_y),
    {
        KeybindsPopup { percent_x, percent_y }
    }

    /// The width and the height, in hundredths of the screen.
    pub fn size(&self) -> (size: (u16, u16))
        ensures
            size == self@,
    {
        (self.percent_x, self.percent_y)
    }

    /// The text of the popup.
    pub fn text(&self) -> (text: &'static str)
        ensures
            text@ == Self::help(),
    {
        "
            1: Focus Side Bar
            2: Focus Main View
            3: Focus Search
            j: Move down
            k: Move up
            i: In Normal Mode => Edit Mode
            esc: In Edit Mode => Normal Mode
            ?: Show Binds
            d: Show debug window
            q: quit"
    }

    /// The division of the screen into the rows above the popup, the rows
    /// of the popup and the rows below it.
    pub fn rows(&self) -> (split: Split)
        requires
            self@.1 <= 100,
        ensures
            split@ == centered(Direction::Vertical, self@.1),
    {
        center(Direction::Vertical, self.percent_y)
    }

    /// The division of the popup's rows into the columns left of the popup,
    /// the columns of the popup and the columns right of it.
    pub fn columns(&self) -> (split: Split)
        requires
            self@.0 <= 100,
        ensures
            split@ == centered(Direction::Horizontal, self@.0),
    {
        center(Direction::Horizontal, self.percent_x)
    }
}

/// A centred division fills the area but for at most one hundredth, with
/// equal margins.
pub proof fn lemma_centered_fills(direction: Direction, percent: u16)
    requires
        percent <= 100,
    ensures
        centered(direction, percent).constraints.len() == 3,
        centered(direction, percent).constraints[0] == centered(direction, percent).constraints[2],
        centered(direction, percent).constraints[1] == Constraint::Percentage(percent),
        centered(direction, percent).constraints[0] matches Constraint::Percentage(margin) && 99
            <= margin + percent + margin <= 100,
{
}

} // verus!
