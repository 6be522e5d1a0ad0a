//! The values that a database holds in its cells, and the texts in which
//! they are shown.

use crate::decimal::{decimal, integer_text};
use crate::page::texts;
use vstd::prelude::*;
use vstd::utf8::{decode_utf8, valid_utf8};

verus! {

/// The value of one cell as the database hands it out.
#[derive(Debug)]
pub enum CellValue {
    /// No value.
    Null,
    /// A whole number.
    Integer(i64),
    /// A number with a fraction, already written out in decimal.
    Real(String),
    /// The bytes of a text; they may or may not be UTF-8.
    Text(Vec<u8>),
    /// Binary content, which is never shown.
    Blob,
}

/// What a [`CellValue`] stands for.
#[verifier::ext_equal]
pub enum CellModel {
    Null,
    Integer(int),
    Real(Seq<char>),
    Text(Seq<u8>),
    Blob,
}

impl View for CellValue {
    type V = CellModel;

    open spec fn view(&self) -> CellModel {
        match self {
            CellValue::Null => CellModel::Null,
            CellValue::Integer(v) => CellModel::Integer(*v as int),
            CellValue::Real(text) => CellModel::Real(text@),
            CellValue::Text(bytes) => CellModel::Text(bytes@),
            CellValue::Blob => CellModel::Blob,
        }
    }
}

impl CellModel {
    /// The text in which the value is shown.
    ///
    /// - no value: the word `null`
    /// - a whole number: the number in decimal
    /// - a number with a fraction: its decimal text as it came
    /// - a text: the characters that its bytes encode in UTF-8, or the word
    ///   `unreadable` if they are not UTF-8
    /// - binary content: the word `Blob`
    pub open spec fn text(self) -> Seq<char> {
        match self {
            CellModel::Null => "null"@,
            CellModel::Integer(v) => decimal(v),
            CellModel::Real(text) => text,
            CellModel::Text(bytes) => if valid_utf8(bytes) {
                decode_utf8(bytes)
            } else {
                "unreadable"@
            },
            CellModel::Blob => "Blob"@,
        }
    }
}

/// The models of a run of cell values, in order.
pub open spec fn cell_models(cells: Seq<CellValue>) -> Seq<CellModel> {
    Seq::new(cells.len(), |i: int| cells[i]@)
}

/// The texts in which a row of cell values is shown, in order.
pub open spec fn row_texts(cells: Seq<CellModel>) -> Seq<Seq<char>> {
    cells.map_values(|cell: CellModel| cell.text())
}

/// `String::from_utf8` of the standard library, on a copy of `bytes`: the
/// text that the bytes encode, if and only if they are valid UTF-8.
#[verifier::external_body]
fn text_from_utf8(bytes: &Vec<u8>) -> (res: Option<String>)
    ensures
        match res {
            Some(text) => valid_utf8(bytes@) && text@ == decode_utf8(bytes@),
            None => !valid_utf8(bytes@),
        },
{
    match String::from_utf8(bytes.clone()) {
        Ok(text) => Some(text),
        Err(_) => None,
    }
}

/// The text in which a cell value is shown.
pub fn cell_text(cell: &CellValue) -> (res: String)
    ensures
        res@ == cell@.text(),
{
    match cell {
        CellValue::Null => "null".to_owned(),
        CellValue::Integer(v) => integer_text(*v),
        CellValue::Real(text) => text.clone(),
        CellValue::Text(bytes) => match text_from_utf8(bytes) {
            Some(text) => text,
            None => "unreadable".to_owned(),
        },
        CellValue::Blob => "Blob".to_owned(),
    }
}

/// The texts in which a row of cell values is shown, in order.
pub fn map_row(cells: &Vec<CellValue>) -> (res: Vec<String>)
    ensures
        texts(res@) == row_texts(cell_models(cells@)),
{
    let mut row: Vec<String> = Vec::new();
    let mut i: usize = 0;
    while i < cells.len()
        invariant
            i <= cells.len(),
            row.len() == i,
            forall|k: int| 0 <= k < i ==> (#[trigger] row[k])@ == cells[k]@.text(),
        decreases cells.len() - i,
    {
        row.push(cell_text(&cells[i]));
        i += 1;
    }
    row
}

} // verus!
