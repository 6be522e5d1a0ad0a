//! One page of a relation's rows, and the request that asks for it.

use crate::app::{Table, TableModel};
use crate::cell::{cell_models, map_row, row_texts, CellModel, CellValue};
use crate::decimal::{digits, push_unsigned};
use vstd::prelude::*;
use vstd::string::{StrSliceExecFns, StringExecFns};

verus! {

/// What to read: a window of `page_size` rows of `relation`, the first
/// `offset` rows skipped.
#[derive(Debug)]
pub struct PageRequest {
    pub relation: Table,
    pub page_size: usize,
    pub offset: usize,
}

/// What a [`PageRequest`] stands for.
#[verifier::ext_equal]
pub struct PageRequestModel {
    pub relation: TableModel,
    pub page_size: nat,
    pub offset: nat,
}

impl View for PageRequest {
    type V = PageRequestModel;

    open spec fn view(&self) -> PageRequestModel {
        PageRequestModel {
            relation: self.relation@,
            page_size: self.page_size as nat,
            offset: self.offset as nat,
        }
    }
}

/// A text with each double quote in it written twice.
pub open spec fn quotes_doubled(text: Seq<char>) -> Seq<char>
    decreases text.len(),
{
    if text.len() == 0 {
        Seq::empty()
    } else if text.last() == '"' {
        quotes_doubled(text.drop_last()) + seq!['"', '"']
    } else {
        quotes_doubled(text.drop_last()).push(text.last())
    }
}

/// A name as SQL takes it whatever characters it holds: between double
/// quotes, each double quote in it written twice.
pub open spec fn quoted(name: Seq<char>) -> Seq<char> {
    seq!['"'] + quotes_doubled(name) + seq!['"']
}

impl PageRequestModel {
    /// The statement that reads the page: all columns of the relation, at
    /// most `page_size` rows, the first `offset` rows skipped, in the
    /// order in which the database hands out the rows.
    pub open spec fn select_text(self) -> Seq<char> {
        "SELECT * FROM "@ + quoted(self.relation.name) + " LIMIT "@ + digits(self.page_size)
            + " OFFSET "@ + digits(self.offset) + ";"@
    }

    /// The statement that counts the rows of the relation.
    pub open spec fn count_text(self) -> Seq<char> {
        "SELECT COUNT(*) FROM "@ + quoted(self.relation.name) + ";"@
    }
}

/// Appends `name` to `text` as SQL takes it whatever characters it holds.
pub fn push_quoted(text: &mut String, name: &str)
    ensures
        final(text)@ == old(text)@ + quoted(name@),
{
    proof {
        reveal_strlit("\"");
    }
    let length = name.unicode_len();
    text.append("\"");
    let mut i: usize = 0;
    while i < length
        invariant
            i <= length,
            length == name@.len(),
            text@ == old(text)@ + seq!['"'] + quotes_doubled(name@.take(i as int)),
        decreases length - i,
    {
        proof {
            assert(name@.take(i + 1).drop_last() == name@.take(i as int));
        }
        if name.get_char(i) == '"' {
            proof {
                reveal_strlit("\"\"");
            }
            text.append("\"\"");
        } else {
            let piece = name.substring_char(i, i + 1);
            text.append(piece);
        }
        i += 1;
    }
    assert(name@.take(i as int) == name@);
    text.append("\"");
}

impl PageRequest {
    /// The statement that reads the page.
    pub fn select_query(&self) -> (res: String)
        ensures
            res@ == self@.select_text(),
    {
        let mut text = "SELECT * FROM ".to_owned();
        push_quoted(&mut text, self.relation.name.as_str());
        text.append(" LIMIT ");
        push_unsigned(&mut text, self.page_size as u64);
        text.append(" OFFSET ");
        push_unsigned(&mut text, self.offset as u64);
        text.append(";");
        text
    }

    /// The statement that counts the rows of the relation.
    pub fn count_query(&self) -> (res: String)
        ensures
            res@ == self@.count_text(),
    {
        let mut text = "SELECT COUNT(*) FROM ".to_owned();
        push_quoted(&mut text, self.relation.name.as_str());
        text.append(";");
        text
    }
}

/// The texts that a run of strings holds, in order.
pub open spec fn texts(strings: Seq<String>) -> Seq<Seq<char>> {
    Seq::new(strings.len(), |i: int| strings[i]@)
}

/// The texts that a run of rows of strings holds, row by row.
pub open spec fn grid(rows: Seq<Vec<String>>) -> Seq<Seq<Seq<char>>> {
    Seq::new(rows.len(), |i: int| texts(rows[i]@))
}

/// The models of a run of rows of cell values, row by row.
pub open spec fn cell_grid(rows: Seq<Vec<CellValue>>) -> Seq<Seq<CellModel>> {
    Seq::new(rows.len(), |i: int| cell_models(rows[i]@))
}

/// The texts in which rows of cell values are shown, row by row.
pub open spec fn shown(rows: Seq<Seq<CellModel>>) -> Seq<Seq<Seq<char>>> {
    rows.map_values(|row: Seq<CellModel>| row_texts(row))
}

/// What a [`PageResult`] stands for: the names of the columns and the rows
/// of cell texts.
#[verifier::ext_equal]
pub struct PageModel {
    pub columns: Seq<Seq<char>>,
    pub rows: Seq<Seq<Seq<char>>>,
}

impl PageModel {
    /// Every row has one cell for each column.
    pub open spec fn wf(self) -> bool {
        forall|r: int|
            0 <= r < self.rows.len() ==> (#[trigger] self.rows[r]).len() == self.columns.len()
    }

    /// The text of the cell in row `row` and column `column`, if the page
    /// has such a cell.
    pub open spec fn cell(self, row: int, column: int) -> Option<Seq<char>> {
        if 0 <= row < self.rows.len() && 0 <= column < self.rows[row].len() {
            Some(self.rows[row][column])
        } else {
            None
        }
    }
}

/// One page of rows. All cells are texts, and every row has one cell for
/// each column. Two columns may share a name.
#[derive(Debug)]
pub struct PageResult {
    column_names: Vec<String>,
    rows: Vec<Vec<String>>,
}

impl View for PageResult {
    type V = PageModel;

    closed spec fn view(&self) -> PageModel {
        PageModel { columns: texts(self.column_names@), rows: grid(self.rows@) }
    }
}

impl PageResult {
    /// Every row has one cell for each column.
    pub open spec fn wf(&self) -> bool {
        self@.wf()
    }

    /// The page with the given column names and rows, if every row has one
    /// cell for each column.
    pub fn new(column_names: Vec<String>, rows: Vec<Vec<String>>) -> (res: Option<PageResult>)
        ensures
            match res {
                Some(page) => page.wf() && page@ == (PageModel {
                    columns: texts(column_names@),
                    rows: grid(rows@),
                }),
                None => !(PageModel { columns: texts(column_names@), rows: grid(rows@) }).wf(),
            },
    {
        let ghost model = PageModel { columns: texts(column_names@), rows: grid(rows@) };
        let mut r: usize = 0;
        while r < rows.len()
            invariant
                r <= rows.len(),
                model == (PageModel { columns: texts(column_names@), rows: grid(rows@) }),
                forall|k: int|
                    0 <= k < r ==> (#[trigger] model.rows[k]).len() == model.columns.len(),
            decreases rows.len() - r,
        {
            if rows[r].len() != column_names.len() {
                assert(model.rows[r as int].len() != model.columns.len());
                return None;
            }
            r += 1;
        }
        Some(PageResult { column_names, rows })
    }

    /// The page that shows the given rows of cell values under the given
    /// column names, if every row has one value for each column.
    pub fn from_cells(column_names: Vec<String>, rows: &Vec<Vec<CellValue>>) -> (res: Option<
        PageResult,
    >)
        ensures
            match res {
                Some(page) => page.wf() && page@ == (PageModel {
                    columns: texts(column_names@),
                    rows: shown(cell_grid(rows@)),
                }),
                None => !(PageModel {
                    columns: texts(column_names@),
                    rows: shown(cell_grid(rows@)),
                }).wf(),
            },
    {
        let ghost model = PageModel {
            columns: texts(column_names@),
            rows: shown(cell_grid(rows@)),
        };
        let mut lines: Vec<Vec<String>> = Vec::new();
        let mut r: usize = 0;
        while r < rows.len()
            invariant
                r <= rows.len(),
                lines.len() == r,
                model == (PageModel {
                    columns: texts(column_names@),
                    rows: shown(cell_grid(rows@)),
                }),
                forall|k: int| 0 <= k < r ==> texts((#[trigger] lines[k])@) == model.rows[k],
            decreases rows.len() - r,
        {
            lines.push(map_row(&rows[r]));
            r += 1;
        }
        PageResult::new(column_names, lines)
    }

    /// The page without columns and without rows.
    pub fn empty() -> (res: PageResult)
        ensures
            res.wf(),
            res@.columns.len() == 0,
            res@.rows.len() == 0,
    {
        PageResult { column_names: Vec::new(), rows: Vec::new() }
    }

    /// The names of the columns, in order.
    pub fn column_names(&self) -> (res: &Vec<String>)
        ensures
            texts(res@) == self@.columns,
    {
        &self.column_names
    }

    /// The rows of the page, in order.
    pub fn rows(&self) -> (res: &Vec<Vec<String>>)
        ensures
            grid(res@) == self@.rows,
    {
        &self.rows
    }

    /// How many columns the page has.
    pub fn column_count(&self) -> (res: usize)
        ensures
            res == self@.columns.len(),
    {
        self.column_names.len()
    }

    /// How many rows the page has.
    pub fn row_count(&self) -> (res: usize)
        ensures
            res == self@.rows.len(),
    {
        self.rows.len()
    }

    /// The text of the cell in row `row` and column `column`, if the page
    /// has such a cell.
    pub fn cell(&self, row: usize, column: usize) -> (res: Option<&String>)
        ensures
            match res {
                Some(text) => self@.cell(row as int, column as int) == Some(text@),
                None => self@.cell(row as int, column as int) is None,
            },
    {
        if row < self.rows.len() {
            let cells = &self.rows[row];
            if column < cells.len() {
                return Some(&cells[column]);
            }
        }
        None
    }
}

} // verus!
