//! The table screen as a mathematical object, and the rules by which it
//! changes.
//!
//! The screen never reads the database itself. An input that needs a page
//! makes it ask for one; the change of navigation that the input stands
//! for waits until the page is delivered, and is given up if the read
//! fails. So the page, the row count and the offset on screen always
//! belong together.

use crate::app::{first_named, DbModel, TableModel};
use crate::decimal::digits;
use crate::page::{PageModel, PageRequestModel};
use crate::ui::cursor::CursorModel;
use crate::ui::input::{ActionModel, Direction, Intent};
use crate::ui::string_list::ListModel;
use crate::ui::tabs::{NavigationTab, SelectedTableTab};
use vstd::arithmetic::div_mod::{lemma_mod_add_multiples_vanish, lemma_mod_sub_multiples_vanish};
use vstd::prelude::*;

verus! {

/// Where a change of navigation leads: the tabs, the selection in the list
/// of the navigation tab, and the offset of the page.
#[verifier::ext_equal]
pub struct Destination {
    pub nav: NavigationTab,
    pub body: SelectedTableTab,
    pub selected: Option<int>,
    pub offset: int,
    /// Whether the cursor stays where it is as far as the new page allows.
    /// Otherwise it goes to the top left cell.
    pub keep_cursor: bool,
}

/// What a read of a page brought: the page and the number of rows of the
/// whole relation.
#[verifier::ext_equal]
pub struct FetchedModel {
    pub page: PageModel,
    pub total: int,
}

impl FetchedModel {
    /// The page is well formed and the row count is one that a machine
    /// word holds.
    pub open spec fn wf(self) -> bool {
        self.page.wf() && 0 <= self.total <= usize::MAX
    }
}

/// What the footer of the grid says: which rows are shown, of how many,
/// and which page that is, of how many. Rows and pages count from one.
#[verifier::ext_equal]
pub struct PageInfoModel {
    /// The first row of the page.
    pub start: int,
    /// The last row that the page can hold and the relation has.
    pub end: int,
    /// The number of rows of the relation.
    pub total: int,
    /// The number of the page.
    pub page: int,
    /// The number of the last page.
    pub last_page: int,
}

impl PageInfoModel {
    /// The footer as one line of text, all numbers in decimal.
    pub open spec fn text(self) -> Seq<char> {
        "displaying records "@ + digits(self.start as nat) + "-"@ + digits(self.end as nat)
            + " of "@ + digits(self.total as nat) + "  (page "@ + digits(self.page as nat) + "/"@
            + digits(self.last_page as nat) + ")"@
    }
}

/// The lesser of two numbers.
pub open spec fn lesser(a: int, b: int) -> int {
    if a <= b {
        a
    } else {
        b
    }
}

/// The greater of two numbers.
pub open spec fn greater(a: int, b: int) -> int {
    if a >= b {
        a
    } else {
        b
    }
}

/// What a [`TableView`](crate::ui::table_view::TableView) stands for.
#[verifier::ext_equal]
pub struct TableViewModel {
    /// The names of the tables, one of them selected.
    pub tables: ListModel,
    /// The names of the views, one of them selected.
    pub views: ListModel,
    /// What the body shows.
    pub body: SelectedTableTab,
    /// Which list the navigation pane shows.
    pub nav: NavigationTab,
    /// The page on screen, once one was read.
    pub page: Option<PageModel>,
    /// The number of rows of the relation, as of the read of the page.
    pub total: Option<int>,
    /// The highlighted cell.
    pub cursor: CursorModel,
    /// Rows that a half page step of the cursor covers.
    pub scroll: int,
    /// Rows per page.
    pub page_size: int,
    /// Rows of the relation that precede the page.
    pub offset: int,
    /// The change of navigation that waits for its page.
    pub pending: Option<Destination>,
}

impl TableViewModel {
    /// The list that a navigation tab shows.
    pub open spec fn list(self, nav: NavigationTab) -> ListModel {
        match nav {
            NavigationTab::Tables => self.tables,
            NavigationTab::Views => self.views,
        }
    }

    /// The list on screen.
    pub open spec fn active(self) -> ListModel {
        self.list(self.nav)
    }

    /// Rows of the page on screen.
    pub open spec fn rows(self) -> int {
        match self.page {
            Some(page) => page.rows.len() as int,
            None => 0,
        }
    }

    /// Columns of the page on screen.
    pub open spec fn columns(self) -> int {
        match self.page {
            Some(page) => page.columns.len() as int,
            None => 0,
        }
    }

    /// Whether a destination is one that this screen can go to: its
    /// selection fits its list and its offset is a whole number of pages.
    pub open spec fn admits(self, d: Destination) -> bool {
        &&& self.list(d.nav).with_selected(d.selected).wf()
        &&& 0 <= d.offset < usize::MAX
        &&& d.offset % self.page_size == 0
    }

    /// What holds of every screen: selections fit their lists, the offset
    /// is a whole number of pages, page and row count are there together,
    /// and the cursor is on a cell of the page.
    pub open spec fn wf(self) -> bool {
        &&& self.tables.wf()
        &&& self.views.wf()
        &&& 0 < self.page_size <= usize::MAX
        &&& 0 <= self.offset < usize::MAX
        &&& self.offset % self.page_size == 0
        &&& 0 <= self.scroll <= u16::MAX
        &&& (self.page is Some <==> self.total is Some)
        &&& (self.page matches Some(page) ==> page.wf())
        &&& (self.total matches Some(total) ==> 0 <= total <= usize::MAX)
        &&& self.cursor.within(self.rows(), self.columns())
        &&& (self.pending matches Some(d) ==> self.admits(d))
    }

    /// The screen as it is before any database was opened.
    pub open spec fn initial(page_size: int) -> TableViewModel {
        TableViewModel {
            tables: ListModel::loaded(Seq::empty()),
            views: ListModel::loaded(Seq::empty()),
            body: SelectedTableTab::Browse,
            nav: NavigationTab::Tables,
            page: None,
            total: None,
            cursor: CursorModel::origin(),
            scroll: 0,
            page_size,
            offset: 0,
            pending: None,
        }
    }

    /// The same screen with nothing waiting.
    pub open spec fn settled(self) -> TableViewModel {
        TableViewModel { pending: None, ..self }
    }

    /// The relation of `db` that the selected name stands for: the first
    /// one of that name in the list on screen.
    pub open spec fn selected_relation(self, db: DbModel) -> Option<TableModel> {
        match self.active().selected_item() {
            Some(name) => match first_named(db.relations(self.nav), name) {
                Some(i) => Some(db.relations(self.nav)[i]),
                None => None,
            },
            None => None,
        }
    }

    /// The text under the cursor, if the page has a cell there.
    pub open spec fn current_cell(self) -> Option<Seq<char>> {
        match self.page {
            Some(page) => page.cell(self.cursor.row, self.cursor.column),
            None => None,
        }
    }

    /// The tab that a step along a bar of navigation tabs leads to.
    pub open spec fn nav_after(self, direction: Direction) -> NavigationTab {
        match direction {
            Direction::Next => self.nav.successor(),
            Direction::Previous => self.nav.predecessor(),
        }
    }

    /// The tab that a step along the bar of body tabs leads to.
    pub open spec fn body_after(self, direction: Direction) -> SelectedTableTab {
        match direction {
            Direction::Next => self.body.successor(),
            Direction::Previous => self.body.predecessor(),
        }
    }

    /// Where an intent leads, if it changes the navigation at all.
    ///
    /// - Switching the list selects the first relation of the other list,
    ///   if it has one, and goes back to the first page.
    /// - Switching the body keeps selection and offset.
    /// - Selecting another relation goes back to the first page. A step
    ///   past either end of the list, and a request for a relation that is
    ///   not there or is selected already, lead nowhere.
    /// - The next page is one page further, and is there only while rows
    ///   are known to follow the page on screen. The previous page is one
    ///   page back, never before the first row. Both lead nowhere unless
    ///   the body shows rows.
    pub open spec fn destination(self, intent: Intent) -> Option<Destination> {
        match intent {
            Intent::SwitchRelationKind(direction) => {
                let nav = self.nav_after(direction);
                Some(
                    Destination {
                        nav,
                        body: self.body,
                        selected: ListModel::loaded(self.list(nav).items).selected,
                        offset: 0,
                        keep_cursor: false,
                    },
                )
            },
            Intent::SwitchBodyMode(direction) => Some(
                Destination {
                    nav: self.nav,
                    body: self.body_after(direction),
                    selected: self.active().selected,
                    offset: self.offset,
                    keep_cursor: true,
                },
            ),
            Intent::MoveSelection(direction) => {
                let selected = match direction {
                    Direction::Next => self.active().next_index(),
                    Direction::Previous => self.active().previous_index(),
                };
                self.reselected(selected)
            },
            Intent::SelectRelation(index) => self.reselected(
                self.active().chosen_index(index as int),
            ),
            Intent::NextPage => {
                if self.body == SelectedTableTab::Browse && self.total is Some && self.offset
                    + self.page_size < self.total->0 {
                    Some(self.paged(self.offset + self.page_size))
                } else {
                    None
                }
            },
            Intent::PrevPage => {
                if self.body == SelectedTableTab::Browse && self.offset > 0 {
                    Some(
                        self.paged(
                            if self.offset >= self.page_size {
                                self.offset - self.page_size
                            } else {
                                0
                            },
                        ),
                    )
                } else {
                    None
                }
            },
            Intent::MoveCursor(_) => None,
            Intent::Yank => None,
        }
    }

    /// Where a new selection in the list on screen leads: to the first
    /// page of the selected relation, or nowhere if the selection is the
    /// one that is there already.
    pub open spec fn reselected(self, selected: Option<int>) -> Option<Destination> {
        if selected == self.active().selected {
            None
        } else {
            Some(
                Destination {
                    nav: self.nav,
                    body: self.body,
                    selected,
                    offset: 0,
                    keep_cursor: false,
                },
            )
        }
    }

    /// The destination that differs from where the screen is by the offset
    /// alone.
    pub open spec fn paged(self, offset: int) -> Destination {
        Destination {
            nav: self.nav,
            body: self.body,
            selected: self.active().selected,
            offset,
            keep_cursor: false,
        }
    }

    /// The screen after it went to a destination, the page on screen left
    /// as it is.
    pub open spec fn arrived(self, d: Destination) -> TableViewModel {
        TableViewModel {
            tables: if d.nav == NavigationTab::Tables {
                self.tables.with_selected(d.selected)
            } else {
                self.tables
            },
            views: if d.nav == NavigationTab::Views {
                self.views.with_selected(d.selected)
            } else {
                self.views
            },
            body: d.body,
            nav: d.nav,
            cursor: if d.keep_cursor {
                self.cursor
            } else {
                CursorModel::origin()
            },
            offset: d.offset,
            pending: None,
            ..self
        }
    }

    /// The read that going to a destination needs: none unless the body
    /// there shows rows and the selection there names a relation of `db`.
    pub open spec fn request(self, d: Destination, db: DbModel) -> Option<PageRequestModel> {
        if d.body == SelectedTableTab::Browse {
            match self.arrived(d).selected_relation(db) {
                Some(relation) => Some(
                    PageRequestModel {
                        relation,
                        page_size: self.page_size as nat,
                        offset: d.offset as nat,
                    },
                ),
                None => None,
            }
        } else {
            None
        }
    }

    /// Whether the intent asks for another page of the same relation.
    pub open spec fn is_paging(intent: Intent) -> bool {
        intent is NextPage || intent is PrevPage
    }

    /// The screen after an intent was handled.
    ///
    /// Whatever was waiting is given up. An intent that leads somewhere
    /// and needs a read leaves the screen as it is, with the destination
    /// waiting. One that leads somewhere without a read takes the screen
    /// there at once, unless it asks for another page: there is no other
    /// page without a read. A step of the cursor moves the cursor.
    pub open spec fn handled(self, intent: Intent, db: DbModel) -> TableViewModel {
        let s = self.settled();
        match s.destination(intent) {
            Some(d) => {
                if s.request(d, db) is Some {
                    TableViewModel { pending: Some(d), ..s }
                } else if Self::is_paging(intent) {
                    s
                } else {
                    s.arrived(d)
                }
            },
            None => match intent {
                Intent::MoveCursor(step) => TableViewModel {
                    cursor: s.cursor.moved(step, s.scroll, s.rows(), s.columns()),
                    ..s
                },
                _ => s,
            },
        }
    }

    /// What the screen asks for when it handles an intent: a read where
    /// the intent leads somewhere that needs one, the text under the
    /// cursor for the clipboard where the intent is to copy it, and
    /// nothing otherwise.
    pub open spec fn action(self, intent: Intent, db: DbModel) -> ActionModel {
        let s = self.settled();
        match s.destination(intent) {
            Some(d) => match s.request(d, db) {
                Some(request) => ActionModel::Fetch(request),
                None => ActionModel::Nothing,
            },
            None => match intent {
                Intent::Yank => match s.current_cell() {
                    Some(text) => ActionModel::Yank(text),
                    None => ActionModel::Nothing,
                },
                _ => ActionModel::Nothing,
            },
        }
    }

    /// The screen after the outcome of a read was delivered; `None` stands
    /// for a read that failed.
    ///
    /// With nothing waiting the outcome is dropped. A failed read gives up
    /// what was waiting and changes nothing else. A page takes the screen
    /// to the waiting destination and replaces page and row count
    /// together; the cursor is held inside the new page.
    pub open spec fn delivered(self, outcome: Option<FetchedModel>) -> TableViewModel {
        match self.pending {
            Some(d) => match outcome {
                Some(fetched) => {
                    let s = self.arrived(d);
                    TableViewModel {
                        page: Some(fetched.page),
                        total: Some(fetched.total),
                        cursor: s.cursor.clamped(
                            fetched.page.rows.len() as int,
                            fetched.page.columns.len() as int,
                        ),
                        ..s
                    }
                },
                None => self.settled(),
            },
            None => self,
        }
    }

    /// The names of a run of relations, in order.
    pub open spec fn names(relations: Seq<TableModel>) -> Seq<Seq<char>> {
        relations.map_values(|relation: TableModel| relation.name)
    }

    /// Where the screen goes when a database is opened: to the first page
    /// of the first table.
    pub open spec fn entrance(db: DbModel) -> Destination {
        Destination {
            nav: NavigationTab::Tables,
            body: SelectedTableTab::Browse,
            selected: ListModel::loaded(Self::names(db.tables)).selected,
            offset: 0,
            keep_cursor: false,
        }
    }

    /// The screen right after `db` was opened, before any page of it was
    /// read: its relations listed, nothing on screen.
    pub open spec fn reset(self, db: DbModel) -> TableViewModel {
        TableViewModel {
            tables: ListModel::loaded(Self::names(db.tables)),
            views: ListModel::loaded(Self::names(db.views)),
            body: SelectedTableTab::Browse,
            nav: NavigationTab::Tables,
            page: None,
            total: None,
            cursor: CursorModel::origin(),
            offset: 0,
            pending: None,
            ..self
        }
    }

    /// The screen after `db` was opened: reset, and waiting for the first
    /// page of the first table if there is a table.
    pub open spec fn opened(self, db: DbModel) -> TableViewModel {
        let s = self.reset(db);
        if s.request(Self::entrance(db), db) is Some {
            TableViewModel { pending: Some(Self::entrance(db)), ..s }
        } else {
            s
        }
    }

    /// What the screen asks for when `db` is opened.
    pub open spec fn opening_action(self, db: DbModel) -> ActionModel {
        match self.reset(db).request(Self::entrance(db), db) {
            Some(request) => ActionModel::Fetch(request),
            None => ActionModel::Nothing,
        }
    }

    /// What the footer of the grid says, once the row count is known. An
    /// empty relation still has one page.
    pub open spec fn page_info(self) -> Option<PageInfoModel> {
        match self.total {
            Some(total) => Some(
                PageInfoModel {
                    start: self.offset + 1,
                    end: lesser(self.offset + self.page_size, total),
                    total,
                    page: self.offset / self.page_size + 1,
                    last_page: greater((total + self.page_size - 1) / self.page_size, 1),
                },
            ),
            None => None,
        }
    }

    /// The screen after the height of the grid on the terminal became
    /// known: a half page step covers half of it.
    pub open spec fn resized(self, height: int) -> TableViewModel {
        TableViewModel { scroll: height / 2, ..self }
    }
}

impl TableViewModel {
    /// A well formed screen admits every destination that an intent leads
    /// to.
    pub proof fn lemma_destination_admitted(self, intent: Intent)
        requires
            self.wf(),
        ensures
            self.destination(intent) matches Some(d) ==> self.admits(d),
    {
        self.active().lemma_moves_wf(0);
        match intent {
            Intent::SelectRelation(index) => {
                self.active().lemma_moves_wf(index as int);
                assert(self.destination(intent) == self.reselected(
                    self.active().chosen_index(index as int),
                ));
            },
            Intent::NextPage => {
                lemma_mod_add_multiples_vanish(self.offset, self.page_size);
            },
            Intent::PrevPage => {
                lemma_mod_sub_multiples_vanish(self.offset, self.page_size);
            },
            _ => {},
        }
    }

    /// Going to an admitted destination keeps the screen well formed.
    pub proof fn lemma_arrived_wf(self, d: Destination)
        requires
            self.wf(),
            self.admits(d),
        ensures
            self.arrived(d).wf(),
    {
        self.cursor.lemma_clamped(self.rows(), self.columns());
    }

    /// Handling an intent keeps the screen well formed.
    pub proof fn lemma_handled_wf(self, intent: Intent, db: DbModel)
        requires
            self.wf(),
        ensures
            self.handled(intent, db).wf(),
    {
        let s = self.settled();
        s.lemma_destination_admitted(intent);
        match s.destination(intent) {
            Some(d) => {
                s.lemma_arrived_wf(d);
            },
            None => {
                match intent {
                    Intent::MoveCursor(step) => {
                        s.cursor.aimed(step, s.scroll).lemma_clamped(s.rows(), s.columns());
                    },
                    _ => {},
                }
            },
        }
    }

    /// Delivering the outcome of a read keeps the screen well formed.
    pub proof fn lemma_delivered_wf(self, outcome: Option<FetchedModel>)
        requires
            self.wf(),
            outcome matches Some(fetched) ==> fetched.wf(),
        ensures
            self.delivered(outcome).wf(),
    {
        match (self.pending, outcome) {
            (Some(d), Some(fetched)) => {
                self.lemma_arrived_wf(d);
                self.arrived(d).cursor.lemma_clamped(
                    fetched.page.rows.len() as int,
                    fetched.page.columns.len() as int,
                );
            },
            _ => {},
        }
    }

    /// Opening a database leaves a well formed screen.
    pub proof fn lemma_opened_wf(self, db: DbModel)
        requires
            self.wf(),
        ensures
            self.reset(db).wf(),
            self.reset(db).admits(Self::entrance(db)),
            self.opened(db).wf(),
    {
    }
}

} // verus!
