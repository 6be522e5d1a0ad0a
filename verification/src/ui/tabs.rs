//! The two tab bars of the table screen.
//!
//! Each bar has two entries and moves cyclically: stepping past the last
//! entry lands on the first one, and stepping back from the first lands on
//! the last.

use vstd::prelude::*;

verus! {

/// What the body of the table screen shows for the selected relation.
#[derive(Clone, Copy, Debug, PartialEq, Eq, Structural)]
pub enum SelectedTableTab {
    /// One page of the relation's rows.
    Browse,
    /// The text that defines the relation.
    Schema,
}

impl SelectedTableTab {
    /// The tab to the right, wrapping around at the end of the bar.
    pub open spec fn successor(self) -> SelectedTableTab {
        match self {
            SelectedTableTab::Browse => SelectedTableTab::Schema,
            SelectedTableTab::Schema => SelectedTableTab::Browse,
        }
    }

    /// The tab to the left, wrapping around at the start of the bar.
    pub open spec fn predecessor(self) -> SelectedTableTab {
        match self {
            SelectedTableTab::Browse => SelectedTableTab::Schema,
            SelectedTableTab::Schema => SelectedTableTab::Browse,
        }
    }

    /// Position of the tab in the bar, counted from the left.
    pub open spec fn position(self) -> nat {
        match self {
            SelectedTableTab::Browse => 0,
            SelectedTableTab::Schema => 1,
        }
    }

    /// The caption shown for the tab.
    pub open spec fn caption(self) -> Seq<char> {
        match self {
            SelectedTableTab::Browse => "Browse"@,
            SelectedTableTab::Schema => "Schema"@,
        }
    }

    /// The tab to the right of this one.
    pub fn next(&self) -> (res: SelectedTableTab)
        ensures
            res == self.successor(),
    {
        match self {
            SelectedTableTab::Browse => SelectedTableTab::Schema,
            SelectedTableTab::Schema => SelectedTableTab::Browse,
        }
    }

    /// The tab to the left of this one.
    pub fn previous(&self) -> (res: SelectedTableTab)
        ensures
            res == self.predecessor(),
    {
        match self {
            SelectedTableTab::Browse => SelectedTableTab::Schema,
            SelectedTableTab::Schema => SelectedTableTab::Browse,
        }
    }

    /// Position of the tab in the bar, counted from the left.
    pub fn index(&self) -> (res: usize)
        ensures
            res == self.position(),
    {
        match self {
            SelectedTableTab::Browse => 0,
            SelectedTableTab::Schema => 1,
        }
    }

    /// The caption shown for the tab.
    pub fn title(&self) -> (res: String)
        ensures
            res@ == self.caption(),
    {
        match self {
            SelectedTableTab::Browse => "Browse".to_owned(),
            SelectedTableTab::Schema => "Schema".to_owned(),
        }
    }

    /// Walking the bar in either direction is a cycle of length two, and the
    /// two directions undo each other.
    pub proof fn lemma_cycle(self)
        ensures
            self.successor().successor() == self,
            self.predecessor().predecessor() == self,
            self.successor().predecessor() == self,
            self.predecessor().successor() == self,
            self.successor() != self,
    {
    }
}

impl Default for SelectedTableTab {
    fn default() -> (res: SelectedTableTab)
        ensures
            res == SelectedTableTab::Browse,
    {
        SelectedTableTab::Browse
    }
}

/// Which of the two relation lists the navigation pane shows.
#[derive(Clone, Copy, Debug, PartialEq, Eq, Structural)]
pub enum NavigationTab {
    /// The tables of the database.
    Tables,
    /// The views of the database.
    Views,
}

impl NavigationTab {
    /// The tab to the right, wrapping around at the end of the bar.
    pub open spec fn successor(self) -> NavigationTab {
        match self {
            NavigationTab::Tables => NavigationTab::Views,
            NavigationTab::Views => NavigationTab::Tables,
        }
    }

    /// The tab to the left, wrapping around at the start of the bar.
    pub open spec fn predecessor(self) -> NavigationTab {
        match self {
            NavigationTab::Tables => NavigationTab::Views,
            NavigationTab::Views => NavigationTab::Tables,
        }
    }

    /// Position of the tab in the bar, counted from the left.
    pub open spec fn position(self) -> nat {
        match self {
            NavigationTab::Tables => 0,
            NavigationTab::Views => 1,
        }
    }

    /// The caption shown for the tab.
    pub open spec fn caption(self) -> Seq<char> {
        match self {
            NavigationTab::Tables => "Tables"@,
            NavigationTab::Views => "Views"@,
        }
    }

    /// The tab to the right of this one.
    pub fn next(&self) -> (res: NavigationTab)
        ensures
            res == self.successor(),
    {
        match self {
            NavigationTab::Tables => NavigationTab::Views,
            NavigationTab::Views => NavigationTab::Tables,
        }
    }

    /// The tab to the left of this one.
    pub fn previous(&self) -> (res: NavigationTab)
        ensures
            res == self.predecessor(),
    {
        match self {
            NavigationTab::Tables => NavigationTab::Views,
            NavigationTab::Views => NavigationTab::Tables,
        }
    }

    /// Position of the tab in the bar, counted from the left.
    pub fn index(&self) -> (res: usize)
        ensures
            res == self.position(),
    {
        match self {
            NavigationTab::Tables => 0,
            NavigationTab::Views => 1,
        }
    }

    /// The caption shown for the tab.
    pub fn title(&self) -> (res: String)
        ensures
            res@ == self.caption(),
    {
        match self {
            NavigationTab::Tables => "Tables".to_owned(),
            NavigationTab::Views => "Views".to_owned(),
        }
    }

    /// Walking the bar in either direction is a cycle of length two, and the
    /// two directions undo each other.
    pub proof fn lemma_cycle(self)
        ensures
            self.successor().successor() == self,
            self.predecessor().predecessor() == self,
            self.successor().predecessor() == self,
            self.predecessor().successor() == self,
            self.successor() != self,
    {
    }
}

impl Default for NavigationTab {
    fn default() -> (res: NavigationTab)
        ensures
            res == NavigationTab::Tables,
    {
        NavigationTab::Tables
    }
}

} // verus!
