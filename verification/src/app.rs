//! The open database: its path and its catalog of tables and views.

use crate::cell::CellValue;
use crate::error::{BrowseError, BrowseErrorModel};
use crate::page::{cell_grid, shown, texts, PageModel, PageResult};
use crate::ui::tabs::NavigationTab;
use vstd::prelude::*;

verus! {

/// Whether a relation is a table or a view.
#[derive(Clone, Copy, Debug, PartialEq, Eq, Structural)]
pub enum RelationKind {
    Table,
    View,
}

impl RelationKind {
    /// The word by which the schema table of a database marks relations of
    /// this kind.
    pub open spec fn type_word(self) -> Seq<char> {
        match self {
            RelationKind::Table => "table"@,
            RelationKind::View => "view"@,
        }
    }
}

impl NavigationTab {
    /// The kind of relation that the tab lists.
    pub open spec fn kind(self) -> RelationKind {
        match self {
            NavigationTab::Tables => RelationKind::Table,
            NavigationTab::Views => RelationKind::View,
        }
    }
}

/// A table or a view of the open database.
#[derive(Debug)]
pub struct Table {
    /// Name of the relation.
    pub name: String,
    /// The text that defines it; empty where the database holds none.
    pub sql: String,
    /// Whether it is a table or a view.
    pub kind: RelationKind,
}

/// What a [`Table`] stands for.
#[verifier::ext_equal]
pub struct TableModel {
    pub name: Seq<char>,
    pub sql: Seq<char>,
    pub kind: RelationKind,
}

impl View for Table {
    type V = TableModel;

    open spec fn view(&self) -> TableModel {
        TableModel { name: self.name@, sql: self.sql@, kind: self.kind }
    }
}

impl Table {
    /// A copy of the relation.
    pub fn duplicate(&self) -> (res: Table)
        ensures
            res@ == self@,
    {
        Table { name: self.name.clone(), sql: self.sql.clone(), kind: self.kind }
    }
}

/// The models of a run of relations, in order.
pub open spec fn relation_models(relations: Seq<Table>) -> Seq<TableModel> {
    Seq::new(relations.len(), |i: int| relations[i]@)
}

/// Whether `i` is the position of the first relation called `name`.
pub open spec fn is_first_named(relations: Seq<TableModel>, name: Seq<char>, i: int) -> bool {
    &&& 0 <= i < relations.len()
    &&& relations[i].name == name
    &&& forall|j: int| 0 <= j < i ==> (#[trigger] relations[j]).name != name
}

/// The position of the first relation called `name`, if there is one.
pub open spec fn first_named(relations: Seq<TableModel>, name: Seq<char>) -> Option<int> {
    if exists|i: int| is_first_named(relations, name, i) {
        Some(choose|i: int| is_first_named(relations, name, i))
    } else {
        None
    }
}

/// At most one position is the first one with a given name, and
/// [`first_named`] finds it.
pub proof fn lemma_first_named_found(relations: Seq<TableModel>, name: Seq<char>, i: int)
    requires
        is_first_named(relations, name, i),
    ensures
        first_named(relations, name) == Some(i),
{
    let k = choose|k: int| is_first_named(relations, name, k);
    assert(is_first_named(relations, name, k));
    if k < i {
        assert(relations[k].name != name);
    } else if i < k {
        assert(relations[i].name != name);
    }
}

/// Where no relation has the name, [`first_named`] finds none.
pub proof fn lemma_first_named_missing(relations: Seq<TableModel>, name: Seq<char>)
    requires
        forall|j: int| 0 <= j < relations.len() ==> (#[trigger] relations[j]).name != name,
    ensures
        first_named(relations, name) is None,
{
}

/// The first relation of `relations` called `name`, if there is one.
pub fn find_relation(relations: &Vec<Table>, name: &String) -> (res: Option<usize>)
    ensures
        match res {
            Some(i) => first_named(relation_models(relations@), name@) == Some(i as int),
            None => first_named(relation_models(relations@), name@) is None,
        },
{
    let ghost models = relation_models(relations@);
    let mut i: usize = 0;
    while i < relations.len()
        invariant
            i <= relations.len(),
            models == relation_models(relations@),
            forall|j: int| 0 <= j < i ==> (#[trigger] models[j]).name != name@,
        decreases relations.len() - i,
    {
        if relations[i].name == *name {
            proof {
                lemma_first_named_found(models, name@, i as int);
            }
            return Some(i);
        }
        i += 1;
    }
    proof {
        lemma_first_named_missing(models, name@);
    }
    None
}

/// The statement that reads the schema table of a database: for each
/// object the word for what it is, its name and the text that defines it.
pub const SQL_TABLES: &'static str = "SELECT type,name,sql FROM main.sqlite_master;";

/// One row of the schema table of a database.
#[derive(Debug)]
pub struct SchemaEntry {
    /// The word that says what the row describes: a table, a view, an index.
    pub type_id: String,
    /// Name of the described object.
    pub name: String,
    /// The text that defines it, where the database holds one.
    pub sql: Option<String>,
}

/// What a [`SchemaEntry`] stands for.
#[verifier::ext_equal]
pub struct SchemaEntryModel {
    pub type_id: Seq<char>,
    pub name: Seq<char>,
    pub sql: Option<Seq<char>>,
}

impl View for SchemaEntry {
    type V = SchemaEntryModel;

    open spec fn view(&self) -> SchemaEntryModel {
        SchemaEntryModel {
            type_id: self.type_id@,
            name: self.name@,
            sql: match self.sql {
                Some(text) => Some(text@),
                None => None,
            },
        }
    }
}

impl SchemaEntryModel {
    /// The relation of kind `kind` that the row describes.
    pub open spec fn relation(self, kind: RelationKind) -> TableModel {
        TableModel {
            name: self.name,
            sql: match self.sql {
                Some(text) => text,
                None => Seq::empty(),
            },
            kind,
        }
    }
}

/// The models of a run of schema rows, in order.
pub open spec fn entry_models(entries: Seq<SchemaEntry>) -> Seq<SchemaEntryModel> {
    Seq::new(entries.len(), |i: int| entries[i]@)
}

/// The relations of kind `kind` among the rows of a schema table, in the
/// order of the rows.
pub open spec fn relations_of(entries: Seq<SchemaEntryModel>, kind: RelationKind) -> Seq<
    TableModel,
> {
    entries.filter(|e: SchemaEntryModel| e.type_id == kind.type_word()).map_values(
        |e: SchemaEntryModel| e.relation(kind),
    )
}

/// Appending a row to a schema table appends its relation to the list of
/// its kind and leaves the other list as it was.
pub proof fn lemma_relations_of_push(
    entries: Seq<SchemaEntryModel>,
    entry: SchemaEntryModel,
    kind: RelationKind,
)
    ensures
        relations_of(entries.push(entry), kind) == if entry.type_id == kind.type_word() {
            relations_of(entries, kind).push(entry.relation(kind))
        } else {
            relations_of(entries, kind)
        },
{
    let keep = |e: SchemaEntryModel| e.type_id == kind.type_word();
    assert(entries.push(entry).drop_last() == entries);
    reveal(Seq::filter);
    assert(entries.push(entry).filter(keep) == if keep(entry) {
        entries.filter(keep).push(entry)
    } else {
        entries.filter(keep)
    });
}

/// An open database: where it lies and what it holds.
#[derive(Debug)]
pub struct Db {
    path: String,
    tables: Vec<Table>,
    views: Vec<Table>,
}

/// What a [`Db`] stands for.
#[verifier::ext_equal]
pub struct DbModel {
    pub path: Seq<char>,
    pub tables: Seq<TableModel>,
    pub views: Seq<TableModel>,
}

impl DbModel {
    /// The list of relations that a navigation tab shows.
    pub open spec fn relations(self, tab: NavigationTab) -> Seq<TableModel> {
        match tab {
            NavigationTab::Tables => self.tables,
            NavigationTab::Views => self.views,
        }
    }

    /// Every relation is of the kind of the list that holds it.
    pub open spec fn wf(self) -> bool {
        &&& forall|i: int|
            0 <= i < self.tables.len() ==> (#[trigger] self.tables[i]).kind == RelationKind::Table
        &&& forall|i: int|
            0 <= i < self.views.len() ==> (#[trigger] self.views[i]).kind == RelationKind::View
    }

    /// The catalog that the rows of a schema table describe.
    pub open spec fn of_entries(path: Seq<char>, entries: Seq<SchemaEntryModel>) -> DbModel {
        DbModel {
            path,
            tables: relations_of(entries, RelationKind::Table),
            views: relations_of(entries, RelationKind::View),
        }
    }

    /// A catalog built from the rows of a schema table is well formed.
    pub proof fn lemma_of_entries_wf(path: Seq<char>, entries: Seq<SchemaEntryModel>)
        ensures
            DbModel::of_entries(path, entries).wf(),
    {
    }
}

impl View for Db {
    type V = DbModel;

    closed spec fn view(&self) -> DbModel {
        DbModel {
            path: self.path@,
            tables: relation_models(self.tables@),
            views: relation_models(self.views@),
        }
    }
}

impl Db {
    /// Every relation is of the kind of the list that holds it.
    pub open spec fn wf(&self) -> bool {
        self@.wf()
    }

    /// The database at `path` whose schema table holds `entries`: the rows
    /// marked as tables become its tables, those marked as views its views,
    /// each list in the order of the rows; all other rows are left out.
    pub fn new(path: String, entries: &Vec<SchemaEntry>) -> (db: Db)
        ensures
            db.wf(),
            db@ == DbModel::of_entries(path@, entry_models(entries@)),
    {
        let ghost rows = entry_models(entries@);
        let table_word = "table".to_owned();
        let view_word = "view".to_owned();
        let mut tables: Vec<Table> = Vec::new();
        let mut views: Vec<Table> = Vec::new();
        proof {
            reveal_strlit("table");
            reveal_strlit("view");
            assert("table"@.len() == 5 && "view"@.len() == 4);
            reveal(Seq::filter);
        }
        let mut i: usize = 0;
        while i < entries.len()
            invariant
                i <= entries.len(),
                rows == entry_models(entries@),
                table_word@ == RelationKind::Table.type_word(),
                view_word@ == RelationKind::View.type_word(),
                RelationKind::Table.type_word() != RelationKind::View.type_word(),
                relation_models(tables@) == relations_of(rows.take(i as int), RelationKind::Table),
                relation_models(views@) == relations_of(rows.take(i as int), RelationKind::View),
            decreases entries.len() - i,
        {
            let entry = &entries[i];
            proof {
                assert(rows.take(i + 1) == rows.take(i as int).push(rows[i as int]));
                lemma_relations_of_push(rows.take(i as int), rows[i as int], RelationKind::Table);
                lemma_relations_of_push(rows.take(i as int), rows[i as int], RelationKind::View);
            }
            if entry.type_id == table_word {
                let relation = Table {
                    name: entry.name.clone(),
                    sql: text_or_empty(&entry.sql),
                    kind: RelationKind::Table,
                };
                tables.push(relation);
            } else if entry.type_id == view_word {
                let relation = Table {
                    name: entry.name.clone(),
                    sql: text_or_empty(&entry.sql),
                    kind: RelationKind::View,
                };
                views.push(relation);
            }
            i += 1;
        }
        proof {
            assert(rows.take(i as int) == rows);
            DbModel::lemma_of_entries_wf(path@, rows);
        }
        Db { path, tables, views }
    }

    /// Where the database lies.
    pub fn path(&self) -> (res: &String)
        ensures
            res@ == self@.path,
    {
        &self.path
    }

    /// The tables of the database.
    pub fn tables(&self) -> (res: &Vec<Table>)
        ensures
            relation_models(res@) == self@.tables,
    {
        &self.tables
    }

    /// The views of the database.
    pub fn views(&self) -> (res: &Vec<Table>)
        ensures
            relation_models(res@) == self@.views,
    {
        &self.views
    }

    /// The list of relations that a navigation tab shows.
    pub fn relations(&self, tab: NavigationTab) -> (res: &Vec<Table>)
        ensures
            relation_models(res@) == self@.relations(tab),
    {
        match tab {
            NavigationTab::Tables => &self.tables,
            NavigationTab::Views => &self.views,
        }
    }
}

/// The text held by `text`, or the empty text where it holds none.
fn text_or_empty(text: &Option<String>) -> (res: String)
    ensures
        res@ == match *text {
            Some(held) => held@,
            None => Seq::<char>::empty(),
        },
{
    match text {
        Some(held) => held.clone(),
        None => String::new(),
    }
}

/// A browsing session: the database that is open, if one is.
#[derive(Debug)]
pub struct App {
    pub current_db: Option<Db>,
}

impl View for App {
    type V = Option<DbModel>;

    open spec fn view(&self) -> Option<DbModel> {
        match self.current_db {
            Some(db) => Some(db@),
            None => None,
        }
    }
}

impl App {
    /// A session without a database.
    pub fn new() -> (res: App)
        ensures
            res@ is None,
    {
        App { current_db: None }
    }

    /// Takes the outcome of an attempt to open the database at `path` and
    /// to read its schema table.
    ///
    /// With the rows of the schema table the database becomes the open
    /// one, its catalog built from the rows. A failed attempt changes
    /// nothing and is reported as a [`BrowseError::OpenFailure`] with the
    /// words of the failure.
    pub fn load_db(&mut self, path: &str, outcome: Result<Vec<SchemaEntry>, String>) -> (res:
        Result<(), BrowseError>)
        ensures
            match outcome {
                Ok(entries) => {
                    &&& res is Ok
                    &&& final(self)@ == Some(DbModel::of_entries(path@, entry_models(entries@)))
                    &&& final(self).current_db->0.wf()
                },
                Err(message) => {
                    &&& res matches Err(error)
                    &&& error@ == BrowseErrorModel::OpenFailure(message@)
                    &&& *final(self) == *old(self)
                },
            },
    {
        match outcome {
            Ok(entries) => {
                self.current_db = Some(Db::new(path.to_owned(), &entries));
                Ok(())
            },
            Err(message) => Err(BrowseError::OpenFailure(message)),
        }
    }

    /// Makes a page of what a read brought: the names of the columns and,
    /// row by row, the values of the cells, each put into the text in which
    /// it is shown.
    ///
    /// Without an open database there is nothing to show, and the page is
    /// empty. A row that does not have one value for each column is
    /// reported as a [`BrowseError::QueryFailure`].
    pub fn select(&self, column_names: Vec<String>, rows: &Vec<Vec<CellValue>>) -> (res: Result<
        PageResult,
        BrowseError,
    >)
        ensures
            match res {
                Ok(page) => {
                    &&& page.wf()
                    &&& self@ is None ==> page@.columns.len() == 0 && page@.rows.len() == 0
                    &&& self@ is Some ==> page@ == (PageModel {
                        columns: texts(column_names@),
                        rows: shown(cell_grid(rows@)),
                    })
                },
                Err(error) => {
                    &&& self@ is Some
                    &&& !(PageModel {
                        columns: texts(column_names@),
                        rows: shown(cell_grid(rows@)),
                    }).wf()
                    &&& error@ == BrowseErrorModel::QueryFailure(
                        "a row does not match the columns"@,
                    )
                },
            },
    {
        match &self.current_db {
            None => Ok(PageResult::empty()),
            Some(_) => match PageResult::from_cells(column_names, rows) {
                Some(page) => Ok(page),
                None => Err(
                    BrowseError::QueryFailure("a row does not match the columns".to_owned()),
                ),
            },
        }
    }
}

impl Default for App {
    fn default() -> (res: App)
        ensures
            res@ is None,
    {
        App::new()
    }
}

} // verus!
