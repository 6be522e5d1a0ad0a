//! State of the user interface: the list of files to pick a database from,
//! the table screen of the open database, and the help window.

pub mod cursor;
pub mod input;
pub mod string_list;
pub mod table_laws;
pub mod table_model;
pub mod table_view;
pub mod tabs;
pub mod widths;

use crate::app::{entry_models, App, Db, DbModel, SchemaEntry};
use crate::error::{BrowseError, BrowseErrorModel};
use crate::page::{texts, PageResult};
use crate::ui::input::{Action, ActionModel, Key};
use crate::ui::string_list::{ListModel, StringList};
use crate::ui::table_model::TableViewModel;
use crate::ui::table_view::{outcome_model, TableView, DEFAULT_PAGE_SIZE};
use vstd::prelude::*;

verus! {

/// The user interface of a session.
#[derive(Debug)]
pub struct Ui {
    file_list: StringList,
    table_view: TableView,
    show_help: bool,
}

/// What a [`Ui`] stands for.
#[verifier::ext_equal]
pub struct UiModel {
    /// The files that are offered as databases, one of them selected.
    pub files: ListModel,
    /// The table screen.
    pub table: TableViewModel,
    /// Whether the help window is open.
    pub show_help: bool,
}

impl UiModel {
    /// Both the list of files and the table screen are well formed.
    pub open spec fn wf(self) -> bool {
        self.files.wf() && self.table.wf()
    }

    /// The interface as it starts out, offering `files`.
    pub open spec fn initial(files: Seq<Seq<char>>) -> UiModel {
        UiModel {
            files: ListModel::loaded(files),
            table: TableViewModel::initial(DEFAULT_PAGE_SIZE as int),
            show_help: false,
        }
    }

    /// The list of files after a key press while no database is open: `k`
    /// and `j` move the selection up and down.
    pub open spec fn files_after(self, key: Key) -> ListModel {
        if key == Key::Char('k') {
            self.files.with_selected(self.files.previous_index())
        } else if key == Key::Char('j') {
            self.files.with_selected(self.files.next_index())
        } else {
            self.files
        }
    }

    /// The interface after a key press; `db` is the open database, if one
    /// is open.
    ///
    /// The escape key changes nothing. Any other key goes to the table
    /// screen if a database is open and to the list of files if none is,
    /// and `?` opens or closes the help window on top of that.
    pub open spec fn handled(self, key: Key, db: Option<DbModel>) -> UiModel {
        if key == Key::Esc {
            self
        } else {
            UiModel {
                files: match db {
                    Some(_) => self.files,
                    None => self.files_after(key),
                },
                table: match (db, key.intent()) {
                    (Some(db), Some(intent)) => self.table.handled(intent, db),
                    _ => self.table,
                },
                show_help: if key == Key::Char('?') {
                    !self.show_help
                } else {
                    self.show_help
                },
            }
        }
    }

    /// What the interface asks for after a key press: to end the session
    /// on the escape key; what the table screen asks for if a database is
    /// open; and to open the selected file on the enter key if none is.
    pub open spec fn action(self, key: Key, db: Option<DbModel>) -> ActionModel {
        if key == Key::Esc {
            ActionModel::Quit
        } else {
            match db {
                Some(db) => match key.intent() {
                    Some(intent) => self.table.action(intent, db),
                    None => ActionModel::Nothing,
                },
                None => match self.files.selected_item() {
                    Some(path) => if key == Key::Enter {
                        ActionModel::Open(path)
                    } else {
                        ActionModel::Nothing
                    },
                    None => ActionModel::Nothing,
                },
            }
        }
    }

    /// A key press keeps the interface well formed.
    pub proof fn lemma_handled_wf(self, key: Key, db: Option<DbModel>)
        requires
            self.wf(),
        ensures
            self.handled(key, db).wf(),
    {
        self.files.lemma_moves_wf(0);
        match (db, key.intent()) {
            (Some(db), Some(intent)) => {
                self.table.lemma_handled_wf(intent, db);
            },
            _ => {},
        }
    }
}

impl View for Ui {
    type V = UiModel;

    closed spec fn view(&self) -> UiModel {
        UiModel { files: self.file_list@, table: self.table_view@, show_help: self.show_help }
    }
}

impl Ui {
    /// Both the list of files and the table screen are well formed.
    pub open spec fn wf(&self) -> bool {
        self@.wf()
    }

    /// The interface as it starts out, offering `files` to pick a database
    /// from.
    pub fn new(files: Vec<String>) -> (res: Ui)
        ensures
            res.wf(),
            res@ == UiModel::initial(texts(files@)),
    {
        let mut file_list = StringList::new();
        file_list.load_items(files);
        Ui { file_list, table_view: TableView::default(), show_help: false }
    }

    /// The files that are offered as databases.
    pub fn file_list(&self) -> (res: &StringList)
        ensures
            res@ == self@.files,
    {
        &self.file_list
    }

    /// The table screen.
    pub fn table_view(&self) -> (res: &TableView)
        ensures
            res@ == self@.table,
    {
        &self.table_view
    }

    /// Whether the help window is open.
    pub fn show_help(&self) -> (res: bool)
        ensures
            res == self@.show_help,
    {
        self.show_help
    }

    /// Handles a key press while no database is open: `k` and `j` move the
    /// selection in the list of files, and the enter key asks to open the
    /// selected file.
    fn handle_flist_input(&mut self, key: &Key) -> (action: Action)
        requires
            old(self).wf(),
            *key != Key::Esc,
        ensures
            final(self).wf(),
            final(self)@.files == old(self)@.files_after(*key),
            final(self)@.table == old(self)@.table,
            final(self)@.show_help == old(self)@.show_help,
            action@ == old(self)@.action(*key, None),
    {
        proof {
            self@.files.lemma_moves_wf(0);
        }
        match key {
            Key::Enter => match self.file_list.get_selected() {
                Some(path) => Action::Open(path.clone()),
                None => Action::Nothing,
            },
            Key::Char(c) => {
                if *c == 'k' {
                    self.file_list.select_previous();
                } else if *c == 'j' {
                    self.file_list.select_next();
                }
                Action::Nothing
            },
            _ => Action::Nothing,
        }
    }

    /// Handles a key press and says what to do for it.
    pub fn handle_input(&mut self, key: &Key, app: &App) -> (action: Action)
        requires
            old(self).wf(),
        ensures
            final(self).wf(),
            final(self)@ == old(self)@.handled(*key, app@),
            action@ == old(self)@.action(*key, app@),
    {
        proof {
            self@.lemma_handled_wf(*key, app@);
        }
        match key {
            Key::Esc => {
                return Action::Quit;
            },
            _ => {},
        }
        let action = match &app.current_db {
            Some(db) => self.table_view.handle_input(key, db),
            None => self.handle_flist_input(key),
        };
        match key {
            Key::Char(c) => {
                if *c == '?' {
                    self.show_help = !self.show_help;
                }
            },
            _ => {},
        }
        action
    }

    /// Takes the outcome of an attempt to open the database at `path` and
    /// to read its schema table.
    ///
    /// With the rows of the schema table the database becomes the open
    /// one and the table screen shows it, both at once; what comes back
    /// is what the table screen asks for. A failed attempt changes
    /// nothing, neither in the session nor on screen, and is reported as
    /// a [`BrowseError::OpenFailure`](crate::error::BrowseError) with the
    /// words of the failure.
    pub fn open_database(
        &mut self,
        app: &mut App,
        path: &str,
        outcome: Result<Vec<SchemaEntry>, String>,
    ) -> (res: Result<Action, BrowseError>)
        requires
            old(self).wf(),
        ensures
            final(self).wf(),
            match outcome {
                Ok(entries) => {
                    let db = DbModel::of_entries(path@, entry_models(entries@));
                    &&& res matches Ok(action)
                    &&& action@ == old(self)@.table.opening_action(db)
                    &&& final(app)@ == Some(db)
                    &&& final(app).current_db->0.wf()
                    &&& final(self)@ == (UiModel {
                        table: old(self)@.table.opened(db),
                        ..old(self)@
                    })
                },
                Err(message) => {
                    &&& res matches Err(error)
                    &&& error@ == BrowseErrorModel::OpenFailure(message@)
                    &&& *final(app) == *old(app)
                    &&& final(self)@ == old(self)@
                },
            },
    {
        match app.load_db(path, outcome) {
            Ok(_) => match &app.current_db {
                Some(db) => Ok(self.table_view.load_nav(db)),
                None => Ok(Action::Nothing),
            },
            Err(error) => Err(error),
        }
    }

    /// Shows a database that was just opened; see [`TableView::load_nav`].
    pub fn load_nav(&mut self, db: &Db) -> (action: Action)
        requires
            old(self).wf(),
        ensures
            final(self).wf(),
            final(self)@ == (UiModel { table: old(self)@.table.opened(db@), ..old(self)@ }),
            action@ == old(self)@.table.opening_action(db@),
    {
        self.table_view.load_nav(db)
    }

    /// Takes the outcome of the read that the table screen asked for; see
    /// [`TableView::load_table_data`].
    pub fn load_table_data(&mut self, outcome: Result<(PageResult, usize), String>) -> (res: Result<
        (),
        BrowseError,
    >)
        requires
            old(self).wf(),
            outcome matches Ok((page, _)) ==> page.wf(),
        ensures
            final(self).wf(),
            final(self)@ == (UiModel {
                table: old(self)@.table.delivered(outcome_model(outcome)),
                ..old(self)@
            }),
            match res {
                Ok(_) => outcome is Ok,
                Err(error) => outcome matches Err(message) && error@
                    == BrowseErrorModel::QueryFailure(message@),
            },
    {
        self.table_view.load_table_data(outcome)
    }

    /// Takes note of the height that the grid has on the terminal; see
    /// [`TableView::set_viewport_height`].
    pub fn set_viewport_height(&mut self, height: u16)
        requires
            old(self).wf(),
        ensures
            final(self).wf(),
            final(self)@ == (UiModel {
                table: old(self)@.table.resized(height as int),
                ..old(self)@
            }),
    {
        self.table_view.set_viewport_height(height);
    }
}

} // verus!
