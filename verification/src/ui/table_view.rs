//! The table screen: two lists of relations, two tab bars, one page of rows
//! and a cursor over it.
//!
//! What the screen stands for, and how it changes, is laid down in
//! [`crate::ui::table_model`]; the functions here carry it out.

use crate::app::{find_relation, relation_models, Db, Table};
use crate::decimal::push_unsigned;
use crate::error::{BrowseError, BrowseErrorModel};
use crate::page::{texts, PageRequest, PageRequestModel, PageResult};
use crate::ui::cursor::CursorPosition;
use crate::ui::input::{Action, Direction, Intent, Key};
use crate::ui::string_list::{number_model, StringList};
use crate::ui::table_model::{Destination, FetchedModel, PageInfoModel, TableViewModel};
use crate::ui::tabs::{NavigationTab, SelectedTableTab};
use vstd::arithmetic::div_mod::{
    lemma_div_nonincreasing, lemma_fundamental_div_mod, lemma_fundamental_div_mod_converse,
};
use vstd::prelude::*;
use vstd::string::StringExecFns;

verus! {

/// Rows per page of a screen that was not told otherwise.
pub const DEFAULT_PAGE_SIZE: usize = 50;

/// A change of navigation that waits for its page.
#[derive(Clone, Copy, Debug)]
struct Pending {
    nav: NavigationTab,
    body: SelectedTableTab,
    selected: Option<usize>,
    offset: usize,
    keep_cursor: bool,
}

impl View for Pending {
    type V = Destination;

    closed spec fn view(&self) -> Destination {
        Destination {
            nav: self.nav,
            body: self.body,
            selected: number_model(self.selected),
            offset: self.offset as int,
            keep_cursor: self.keep_cursor,
        }
    }
}

/// What the footer of the grid says: which rows are shown, of how many,
/// and which page that is, of how many. Rows and pages count from one.
#[derive(Clone, Copy, Debug, PartialEq, Eq, Structural)]
pub struct PageInfo {
    /// The first row of the page.
    pub start: usize,
    /// The last row that the page can hold and the relation has.
    pub end: usize,
    /// The number of rows of the relation.
    pub total: usize,
    /// The number of the page.
    pub page: usize,
    /// The number of the last page.
    pub last_page: usize,
}

impl View for PageInfo {
    type V = PageInfoModel;

    open spec fn view(&self) -> PageInfoModel {
        PageInfoModel {
            start: self.start as int,
            end: self.end as int,
            total: self.total as int,
            page: self.page as int,
            last_page: self.last_page as int,
        }
    }
}

impl PageInfo {
    /// The footer as one line of text.
    pub fn to_text(&self) -> (res: String)
        ensures
            res@ == self@.text(),
    {
        let mut text = "displaying records ".to_owned();
        push_unsigned(&mut text, self.start as u64);
        text.append("-");
        push_unsigned(&mut text, self.end as u64);
        text.append(" of ");
        push_unsigned(&mut text, self.total as u64);
        text.append("  (page ");
        push_unsigned(&mut text, self.page as u64);
        text.append("/");
        push_unsigned(&mut text, self.last_page as u64);
        text.append(")");
        text
    }
}

/// How many pages of `page_size` rows it takes to hold `total` rows.
fn pages_for(total: usize, page_size: usize) -> (res: usize)
    requires
        page_size > 0,
    ensures
        res == (total + page_size - 1) / (page_size as int),
{
    let full = total / page_size;
    let rest = total % page_size;
    proof {
        lemma_fundamental_div_mod(total as int, page_size as int);
    }
    if rest == 0 {
        proof {
            lemma_fundamental_div_mod_converse(
                total + page_size - 1,
                page_size as int,
                full as int,
                page_size - 1,
            );
        }
        full
    } else {
        proof {
            assert((full + 1) * page_size == page_size * full + page_size) by (nonlinear_arith);
            lemma_fundamental_div_mod_converse(
                total + page_size - 1,
                page_size as int,
                full + 1,
                rest - 1,
            );
            assert(full + 1 <= usize::MAX) by (nonlinear_arith)
                requires
                    total == page_size * full + rest,
                    0 < rest < page_size,
                    0 <= full,
                    total <= usize::MAX,
            ;
        }
        full + 1
    }
}

/// The table screen.
#[derive(Debug)]
pub struct TableView {
    tables_list: StringList,
    view_list: StringList,
    selected_table_tab: SelectedTableTab,
    table_nav_tab: NavigationTab,
    data: Option<PageResult>,
    cursor: CursorPosition,
    table_scroll_height: u16,
    page_size: usize,
    offset: usize,
    total_rows: Option<usize>,
    pending: Option<Pending>,
}

/// What the outcome of a read stands for; a failed read stands for `None`.
pub open spec fn outcome_model(outcome: Result<(PageResult, usize), String>) -> Option<
    FetchedModel,
> {
    match outcome {
        Ok((page, total)) => Some(FetchedModel { page: page@, total: total as int }),
        Err(_) => None,
    }
}

/// What a request stands for, if there is one.
pub open spec fn request_model(request: Option<PageRequest>) -> Option<PageRequestModel> {
    match request {
        Some(request) => Some(request@),
        None => None,
    }
}

/// The names of `relations`, in order.
fn relation_names(relations: &Vec<Table>) -> (res: Vec<String>)
    ensures
        texts(res@) == TableViewModel::names(relation_models(relations@)),
{
    let mut names: Vec<String> = Vec::new();
    let mut i: usize = 0;
    while i < relations.len()
        invariant
            i <= relations.len(),
            names.len() == i,
            forall|k: int| 0 <= k < i ==> (#[trigger] names[k])@ == relations[k].name@,
        decreases relations.len() - i,
    {
        names.push(relations[i].name.clone());
        i += 1;
    }
    names
}

impl View for TableView {
    type V = TableViewModel;

    closed spec fn view(&self) -> TableViewModel {
        TableViewModel {
            tables: self.tables_list@,
            views: self.view_list@,
            body: self.selected_table_tab,
            nav: self.table_nav_tab,
            page: match self.data {
                Some(page) => Some(page@),
                None => None,
            },
            total: match self.total_rows {
                Some(total) => Some(total as int),
                None => None,
            },
            cursor: self.cursor@,
            scroll: self.table_scroll_height as int,
            page_size: self.page_size as int,
            offset: self.offset as int,
            pending: match self.pending {
                Some(d) => Some(d@),
                None => None,
            },
        }
    }
}

impl TableView {
    /// What holds of every screen; see [`TableViewModel::wf`].
    pub open spec fn wf(&self) -> bool {
        self@.wf()
    }

    /// A screen that shows `page_size` rows per page, as it is before any
    /// database was opened. There is no screen with empty pages.
    pub fn new(page_size: usize) -> (res: Option<TableView>)
        ensures
            match res {
                Some(view) => page_size > 0 && view.wf() && view@ == TableViewModel::initial(
                    page_size as int,
                ),
                None => page_size == 0,
            },
    {
        if page_size == 0 {
            return None;
        }
        Some(
            TableView {
                tables_list: StringList::new(),
                view_list: StringList::new(),
                selected_table_tab: SelectedTableTab::Browse,
                table_nav_tab: NavigationTab::Tables,
                data: None,
                cursor: CursorPosition::origin(),
                table_scroll_height: 0,
                page_size,
                offset: 0,
                total_rows: None,
                pending: None,
            },
        )
    }

    /// What the body shows.
    pub fn selected_table_tab(&self) -> (res: SelectedTableTab)
        ensures
            res == self@.body,
    {
        self.selected_table_tab
    }

    /// Which list the navigation pane shows.
    pub fn table_nav_tab(&self) -> (res: NavigationTab)
        ensures
            res == self@.nav,
    {
        self.table_nav_tab
    }

    /// The names of the tables, one of them selected.
    pub fn tables_list(&self) -> (res: &StringList)
        ensures
            res@ == self@.tables,
    {
        &self.tables_list
    }

    /// The names of the views, one of them selected.
    pub fn view_list(&self) -> (res: &StringList)
        ensures
            res@ == self@.views,
    {
        &self.view_list
    }

    /// The list that a navigation tab shows.
    pub fn list(&self, nav: NavigationTab) -> (res: &StringList)
        ensures
            res@ == self@.list(nav),
    {
        match nav {
            NavigationTab::Tables => &self.tables_list,
            NavigationTab::Views => &self.view_list,
        }
    }

    /// The page on screen, once one was read.
    pub fn data(&self) -> (res: Option<&PageResult>)
        ensures
            match res {
                Some(page) => self@.page == Some(page@),
                None => self@.page is None,
            },
    {
        match &self.data {
            Some(page) => Some(page),
            None => None,
        }
    }

    /// The number of rows of the relation, as of the read of the page.
    pub fn total_rows(&self) -> (res: Option<usize>)
        ensures
            number_model(res) == self@.total,
    {
        self.total_rows
    }

    /// Rows per page.
    pub fn page_size(&self) -> (res: usize)
        ensures
            res == self@.page_size,
    {
        self.page_size
    }

    /// Rows of the relation that precede the page.
    pub fn offset(&self) -> (res: usize)
        ensures
            res == self@.offset,
    {
        self.offset
    }

    /// The highlighted cell.
    pub fn cursor(&self) -> (res: CursorPosition)
        ensures
            res@ == self@.cursor,
    {
        self.cursor
    }

    /// Rows that a half page step of the cursor covers.
    pub fn table_scroll_height(&self) -> (res: u16)
        ensures
            res == self@.scroll,
    {
        self.table_scroll_height
    }

    /// Whether a change of navigation waits for its page.
    pub fn is_loading(&self) -> (res: bool)
        ensures
            res == self@.pending is Some,
    {
        self.pending.is_some()
    }

    /// Takes note of the height that the grid has on the terminal: a half
    /// page step of the cursor covers half of it.
    pub fn set_viewport_height(&mut self, height: u16)
        requires
            old(self).wf(),
        ensures
            final(self).wf(),
            final(self)@ == old(self)@.resized(height as int),
    {
        self.table_scroll_height = height / 2;
    }

    /// The relation of `db` that the selected name stands for.
    pub fn get_selected_table<'a>(&self, db: &'a Db) -> (res: Option<&'a Table>)
        ensures
            match res {
                Some(relation) => self@.selected_relation(db@) == Some(relation@),
                None => self@.selected_relation(db@) is None,
            },
    {
        let relations = db.relations(self.table_nav_tab);
        match self.list(self.table_nav_tab).get_selected() {
            Some(name) => match find_relation(relations, name) {
                Some(i) => Some(&relations[i]),
                None => None,
            },
            None => None,
        }
    }

    /// The text under the cursor, if the page has a cell there.
    pub fn current_cell_value(&self) -> (res: Option<&String>)
        ensures
            match res {
                Some(text) => self@.current_cell() == Some(text@),
                None => self@.current_cell() is None,
            },
    {
        match &self.data {
            Some(page) => page.cell(self.cursor.row, self.cursor.column),
            None => None,
        }
    }

    /// What the footer of the grid says, once the row count is known.
    pub fn page_info(&self) -> (res: Option<PageInfo>)
        requires
            self.wf(),
        ensures
            match res {
                Some(info) => self@.page_info() == Some(info@),
                None => self@.page_info() is None,
            },
    {
        match self.total_rows {
            Some(total) => {
                proof {
                    lemma_div_nonincreasing(self.offset as int, self.page_size as int);
                }
                let end = match self.offset.checked_add(self.page_size) {
                    Some(reach) => if reach <= total {
                        reach
                    } else {
                        total
                    },
                    None => total,
                };
                let pages = pages_for(total, self.page_size);
                Some(
                    PageInfo {
                        start: self.offset + 1,
                        end,
                        total,
                        page: self.offset / self.page_size + 1,
                        last_page: if pages >= 1 {
                            pages
                        } else {
                            1
                        },
                    },
                )
            },
            None => None,
        }
    }

    /// The destination that differs from where the screen is by the offset
    /// alone.
    fn paged(&self, offset: usize) -> (res: Pending)
        ensures
            res@ == self@.paged(offset as int),
    {
        Pending {
            nav: self.table_nav_tab,
            body: self.selected_table_tab,
            selected: self.list(self.table_nav_tab).selected(),
            offset,
            keep_cursor: false,
        }
    }

    /// Where a new selection in the list on screen leads.
    fn reselected(&self, selected: Option<usize>) -> (res: Option<Pending>)
        ensures
            pending_model(res) == self@.reselected(number_model(selected)),
    {
        let unchanged = match (selected, self.list(self.table_nav_tab).selected()) {
            (Some(a), Some(b)) => a == b,
            (None, None) => true,
            _ => false,
        };
        if unchanged {
            None
        } else {
            Some(
                Pending {
                    nav: self.table_nav_tab,
                    body: self.selected_table_tab,
                    selected,
                    offset: 0,
                    keep_cursor: false,
                },
            )
        }
    }

    /// Where an intent leads, if it changes the navigation at all.
    fn destination(&self, intent: Intent) -> (res: Option<Pending>)
        ensures
            pending_model(res) == self@.destination(intent),
    {
        match intent {
            Intent::SwitchRelationKind(direction) => {
                let nav = match direction {
                    Direction::Next => self.table_nav_tab.next(),
                    Direction::Previous => self.table_nav_tab.previous(),
                };
                let selected = if self.list(nav).len() > 0 {
                    Some(0)
                } else {
                    None
                };
                Some(
                    Pending {
                        nav,
                        body: self.selected_table_tab,
                        selected,
                        offset: 0,
                        keep_cursor: false,
                    },
                )
            },
            Intent::SwitchBodyMode(direction) => {
                let body = match direction {
                    Direction::Next => self.selected_table_tab.next(),
                    Direction::Previous => self.selected_table_tab.previous(),
                };
                Some(
                    Pending {
                        nav: self.table_nav_tab,
                        body,
                        selected: self.list(self.table_nav_tab).selected(),
                        offset: self.offset,
                        keep_cursor: true,
                    },
                )
            },
            Intent::MoveSelection(direction) => {
                let list = self.list(self.table_nav_tab);
                let selected = match direction {
                    Direction::Next => list.next_index(),
                    Direction::Previous => list.previous_index(),
                };
                self.reselected(selected)
            },
            Intent::SelectRelation(index) => {
                let selected = self.list(self.table_nav_tab).chosen_index(index);
                self.reselected(selected)
            },
            Intent::NextPage => {
                match (self.selected_table_tab, self.total_rows) {
                    (SelectedTableTab::Browse, Some(total)) => {
                        match self.offset.checked_add(self.page_size) {
                            Some(next) => {
                                if next < total {
                                    Some(self.paged(next))
                                } else {
                                    None
                                }
                            },
                            None => None,
                        }
                    },
                    _ => None,
                }
            },
            Intent::PrevPage => {
                match self.selected_table_tab {
                    SelectedTableTab::Browse => {
                        if self.offset == 0 {
                            None
                        } else if self.offset >= self.page_size {
                            Some(self.paged(self.offset - self.page_size))
                        } else {
                            Some(self.paged(0))
                        }
                    },
                    SelectedTableTab::Schema => None,
                }
            },
            Intent::MoveCursor(_) => None,
            Intent::Yank => None,
        }
    }

    /// The read that going to a destination needs.
    fn request(&self, d: &Pending, db: &Db) -> (res: Option<PageRequest>)
        ensures
            request_model(res) == self@.request(d@, db@),
    {
        match d.body {
            SelectedTableTab::Schema => None,
            SelectedTableTab::Browse => {
                let list = self.list(d.nav);
                let relations = db.relations(d.nav);
                match d.selected {
                    Some(i) => {
                        if i < list.len() {
                            let name = &list.items()[i];
                            match find_relation(relations, name) {
                                Some(k) => Some(
                                    PageRequest {
                                        relation: relations[k].duplicate(),
                                        page_size: self.page_size,
                                        offset: d.offset,
                                    },
                                ),
                                None => None,
                            }
                        } else {
                            None
                        }
                    },
                    None => None,
                }
            },
        }
    }

    /// Takes the screen to a destination, the page on screen left as it
    /// is.
    fn arrive(&mut self, d: Pending)
        requires
            old(self).wf(),
            old(self)@.admits(d@),
        ensures
            final(self).wf(),
            final(self)@ == old(self)@.arrived(d@),
    {
        proof {
            self@.lemma_arrived_wf(d@);
        }
        match d.nav {
            NavigationTab::Tables => self.tables_list.set_selected(d.selected),
            NavigationTab::Views => self.view_list.set_selected(d.selected),
        }
        self.table_nav_tab = d.nav;
        self.selected_table_tab = d.body;
        if !d.keep_cursor {
            self.cursor = CursorPosition::origin();
        }
        self.offset = d.offset;
        self.pending = None;
    }

    /// Handles what the user wants: changes the screen and says what to do
    /// for it. A [`Action::Fetch`] asks for a read whose outcome goes to
    /// [`TableView::load_table_data`]; until then the screen shows what it
    /// showed before.
    pub fn apply(&mut self, intent: Intent, db: &Db) -> (action: Action)
        requires
            old(self).wf(),
        ensures
            final(self).wf(),
            final(self)@ == old(self)@.handled(intent, db@),
            action@ == old(self)@.action(intent, db@),
    {
        proof {
            self@.lemma_handled_wf(intent, db@);
            self@.settled().lemma_destination_admitted(intent);
        }
        self.pending = None;
        match self.destination(intent) {
            Some(d) => {
                match self.request(&d, db) {
                    Some(request) => {
                        self.pending = Some(d);
                        Action::Fetch(request)
                    },
                    None => {
                        match intent {
                            Intent::NextPage => {},
                            Intent::PrevPage => {},
                            _ => {
                                self.arrive(d);
                            },
                        }
                        Action::Nothing
                    },
                }
            },
            None => {
                match intent {
                    Intent::MoveCursor(step) => {
                        let (rows, columns) = match &self.data {
                            Some(page) => (page.row_count(), page.column_count()),
                            None => (0, 0),
                        };
                        self.cursor = self.cursor.step(
                            step,
                            self.table_scroll_height,
                            rows,
                            columns,
                        );
                        Action::Nothing
                    },
                    Intent::Yank => {
                        match self.current_cell_value() {
                            Some(text) => Action::Yank(text.clone()),
                            None => Action::Nothing,
                        }
                    },
                    _ => Action::Nothing,
                }
            },
        }
    }

    /// Handles a key press. Keys that ask nothing of the screen change
    /// nothing.
    pub fn handle_input(&mut self, key: &Key, db: &Db) -> (action: Action)
        requires
            old(self).wf(),
        ensures
            final(self).wf(),
            match key.intent() {
                Some(intent) => {
                    &&& final(self)@ == old(self)@.handled(intent, db@)
                    &&& action@ == old(self)@.action(intent, db@)
                },
                None => final(self)@ == old(self)@ && action@ is Nothing,
            },
    {
        match key.to_intent() {
            Some(intent) => self.apply(intent, db),
            None => Action::Nothing,
        }
    }

    /// Takes the outcome of the read that the screen asked for.
    ///
    /// A page takes the screen to where the input led, with page and row
    /// count replaced together. A failed read leaves on screen what was
    /// there and is reported as a [`BrowseError::QueryFailure`] with the
    /// words of the failure.
    pub fn load_table_data(&mut self, outcome: Result<(PageResult, usize), String>) -> (res: Result<
        (),
        BrowseError,
    >)
        requires
            old(self).wf(),
            outcome matches Ok((page, _)) ==> page.wf(),
        ensures
            final(self).wf(),
            final(self)@ == old(self)@.delivered(outcome_model(outcome)),
            match res {
                Ok(_) => outcome is Ok,
                Err(error) => outcome matches Err(message) && error@
                    == BrowseErrorModel::QueryFailure(message@),
            },
    {
        proof {
            self@.lemma_delivered_wf(outcome_model(outcome));
        }
        match outcome {
            Ok((page, total)) => {
                match self.pending {
                    Some(d) => {
                        self.arrive(d);
                        self.cursor = self.cursor.clamp(page.row_count(), page.column_count());
                        self.data = Some(page);
                        self.total_rows = Some(total);
                    },
                    None => {},
                }
                Ok(())
            },
            Err(message) => {
                self.pending = None;
                Err(BrowseError::QueryFailure(message))
            },
        }
    }

    /// Shows a database that was just opened: lists its relations, selects
    /// the first table, and asks for its first page if there is a table.
    pub fn load_nav(&mut self, db: &Db) -> (action: Action)
        requires
            old(self).wf(),
        ensures
            final(self).wf(),
            final(self)@ == old(self)@.opened(db@),
            action@ == old(self)@.opening_action(db@),
    {
        proof {
            self@.lemma_opened_wf(db@);
        }
        self.tables_list.load_items(relation_names(db.tables()));
        self.view_list.load_items(relation_names(db.views()));
        self.selected_table_tab = SelectedTableTab::Browse;
        self.table_nav_tab = NavigationTab::Tables;
        self.data = None;
        self.total_rows = None;
        self.cursor = CursorPosition::origin();
        self.offset = 0;
        self.pending = None;
        let d = Pending {
            nav: NavigationTab::Tables,
            body: SelectedTableTab::Browse,
            selected: self.tables_list.selected(),
            offset: 0,
            keep_cursor: false,
        };
        match self.request(&d, db) {
            Some(request) => {
                self.pending = Some(d);
                Action::Fetch(request)
            },
            None => Action::Nothing,
        }
    }
}

/// What a waiting change of navigation stands for, if there is one.
spec fn pending_model(pending: Option<Pending>) -> Option<Destination> {
    match pending {
        Some(d) => Some(d@),
        None => None,
    }
}

impl Default for TableView {
    fn default() -> (res: TableView)
        ensures
            res.wf(),
            res@ == TableViewModel::initial(DEFAULT_PAGE_SIZE as int),
    {
        TableView {
            tables_list: StringList::new(),
            view_list: StringList::new(),
            selected_table_tab: SelectedTableTab::Browse,
            table_nav_tab: NavigationTab::Tables,
            data: None,
            cursor: CursorPosition::origin(),
            table_scroll_height: 0,
            page_size: DEFAULT_PAGE_SIZE,
            offset: 0,
            total_rows: None,
            pending: None,
        }
    }
}

} // verus!
