//! What comes into the table screen and what it asks for in return.

use crate::page::{PageRequest, PageRequestModel};
use crate::ui::cursor::CursorMove;
use vstd::prelude::*;

verus! {

/// A key press as the terminal reports it.
#[derive(Clone, Copy, Debug, PartialEq, Eq, Structural)]
pub enum Key {
    /// A key that types a character.
    Char(char),
    /// The enter key.
    Enter,
    /// The escape key.
    Esc,
    /// Any other key.
    Other,
}

/// One of two ways to go round a bar or along a list.
#[derive(Clone, Copy, Debug, PartialEq, Eq, Structural)]
pub enum Direction {
    /// To the right in a bar, towards the end of a list.
    Next,
    /// To the left in a bar, towards the start of a list.
    Previous,
}

/// What the user wants of the table screen.
#[derive(Clone, Copy, Debug, PartialEq, Eq, Structural)]
pub enum Intent {
    /// Show the other list of relations: tables or views.
    SwitchRelationKind(Direction),
    /// Show the other body: the rows or the defining text.
    SwitchBodyMode(Direction),
    /// Select the neighbour of the selected relation.
    MoveSelection(Direction),
    /// Select the relation at a position of the list on screen.
    SelectRelation(usize),
    /// Show the next page of rows.
    NextPage,
    /// Show the previous page of rows.
    PrevPage,
    /// Move the cursor over the grid.
    MoveCursor(CursorMove),
    /// Copy the text under the cursor.
    Yank,
}

impl Key {
    /// What a key asks of the table screen, if anything.
    pub open spec fn intent(self) -> Option<Intent> {
        match self {
            Key::Char(c) => {
                if c == 'h' {
                    Some(Intent::MoveCursor(CursorMove::Left))
                } else if c == 'l' {
                    Some(Intent::MoveCursor(CursorMove::Right))
                } else if c == 'k' {
                    Some(Intent::MoveCursor(CursorMove::Up))
                } else if c == 'j' {
                    Some(Intent::MoveCursor(CursorMove::Down))
                } else if c == 'u' {
                    Some(Intent::MoveCursor(CursorMove::HalfPageUp))
                } else if c == 'd' {
                    Some(Intent::MoveCursor(CursorMove::HalfPageDown))
                } else if c == 'e' {
                    Some(Intent::SwitchRelationKind(Direction::Next))
                } else if c == 'q' {
                    Some(Intent::SwitchRelationKind(Direction::Previous))
                } else if c == 'L' {
                    Some(Intent::SwitchBodyMode(Direction::Next))
                } else if c == 'H' {
                    Some(Intent::SwitchBodyMode(Direction::Previous))
                } else if c == 'J' {
                    Some(Intent::MoveSelection(Direction::Next))
                } else if c == 'K' {
                    Some(Intent::MoveSelection(Direction::Previous))
                } else if c == 'n' {
                    Some(Intent::NextPage)
                } else if c == 'p' {
                    Some(Intent::PrevPage)
                } else if c == 'y' {
                    Some(Intent::Yank)
                } else {
                    None
                }
            },
            _ => None,
        }
    }

    /// What the key asks of the table screen, if anything.
    pub fn to_intent(&self) -> (res: Option<Intent>)
        ensures
            res == self.intent(),
    {
        match self {
            Key::Char(c) => {
                let c = *c;
                if c == 'h' {
                    Some(Intent::MoveCursor(CursorMove::Left))
                } else if c == 'l' {
                    Some(Intent::MoveCursor(CursorMove::Right))
                } else if c == 'k' {
                    Some(Intent::MoveCursor(CursorMove::Up))
                } else if c == 'j' {
                    Some(Intent::MoveCursor(CursorMove::Down))
                } else if c == 'u' {
                    Some(Intent::MoveCursor(CursorMove::HalfPageUp))
                } else if c == 'd' {
                    Some(Intent::MoveCursor(CursorMove::HalfPageDown))
                } else if c == 'e' {
                    Some(Intent::SwitchRelationKind(Direction::Next))
                } else if c == 'q' {
                    Some(Intent::SwitchRelationKind(Direction::Previous))
                } else if c == 'L' {
                    Some(Intent::SwitchBodyMode(Direction::Next))
                } else if c == 'H' {
                    Some(Intent::SwitchBodyMode(Direction::Previous))
                } else if c == 'J' {
                    Some(Intent::MoveSelection(Direction::Next))
                } else if c == 'K' {
                    Some(Intent::MoveSelection(Direction::Previous))
                } else if c == 'n' {
                    Some(Intent::NextPage)
                } else if c == 'p' {
                    Some(Intent::PrevPage)
                } else if c == 'y' {
                    Some(Intent::Yank)
                } else {
                    None
                }
            },
            _ => None,
        }
    }
}

/// What the session asks its surroundings to do after an input.
#[derive(Debug)]
pub enum Action {
    /// Nothing.
    Nothing,
    /// Read a page of rows and the number of rows of its relation, and
    /// report how that went.
    Fetch(PageRequest),
    /// Put a text on the clipboard.
    Yank(String),
    /// Open the database at a path and read its schema table.
    Open(String),
    /// End the session.
    Quit,
}

/// What an [`Action`] stands for.
#[verifier::ext_equal]
pub enum ActionModel {
    Nothing,
    Fetch(PageRequestModel),
    Yank(Seq<char>),
    Open(Seq<char>),
    Quit,
}

impl View for Action {
    type V = ActionModel;

    open spec fn view(&self) -> ActionModel {
        match self {
            Action::Nothing => ActionModel::Nothing,
            Action::Fetch(request) => ActionModel::Fetch(request@),
            Action::Yank(text) => ActionModel::Yank(text@),
            Action::Open(path) => ActionModel::Open(path@),
            Action::Quit => ActionModel::Quit,
        }
    }
}

} // verus!
