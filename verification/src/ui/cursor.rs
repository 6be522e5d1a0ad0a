//! The highlighted cell of the grid.

use vstd::prelude::*;

verus! {

/// A step of the cursor.
#[derive(Clone, Copy, Debug, PartialEq, Eq, Structural)]
pub enum CursorMove {
    /// One cell to the left.
    Left,
    /// One cell to the right.
    Right,
    /// One row up.
    Up,
    /// One row down.
    Down,
    /// Half of the visible rows up.
    HalfPageUp,
    /// Half of the visible rows down.
    HalfPageDown,
}

/// The cell of the grid that is highlighted: a row and a column, both
/// counted from zero.
#[derive(Clone, Copy, Debug, PartialEq, Eq, Structural)]
pub struct CursorPosition {
    pub row: usize,
    pub column: usize,
}

/// The index nearest to `i` that a run of `count` items has; zero where it
/// has none.
pub open spec fn clamp_index(i: int, count: int) -> int {
    if count <= 0 || i < 0 {
        0
    } else if i >= count {
        count - 1
    } else {
        i
    }
}

/// What a [`CursorPosition`] stands for.
pub struct CursorModel {
    pub row: int,
    pub column: int,
}

impl CursorModel {
    /// The top left cell.
    pub open spec fn origin() -> CursorModel {
        CursorModel { row: 0, column: 0 }
    }

    /// Whether the position is a cell of a grid of `rows` rows and
    /// `columns` columns. On an axis without cells only zero is accepted.
    pub open spec fn within(self, rows: int, columns: int) -> bool {
        &&& self.row == clamp_index(self.row, rows)
        &&& self.column == clamp_index(self.column, columns)
    }

    /// The cell of the grid that is nearest to the position.
    pub open spec fn clamped(self, rows: int, columns: int) -> CursorModel {
        CursorModel {
            row: clamp_index(self.row, rows),
            column: clamp_index(self.column, columns),
        }
    }

    /// The position that a step aims at, before the bounds of the grid are
    /// looked at. `half` is the length of a half page step.
    pub open spec fn aimed(self, step: CursorMove, half: int) -> CursorModel {
        match step {
            CursorMove::Left => CursorModel { row: self.row, column: self.column - 1 },
            CursorMove::Right => CursorModel { row: self.row, column: self.column + 1 },
            CursorMove::Up => CursorModel { row: self.row - 1, column: self.column },
            CursorMove::Down => CursorModel { row: self.row + 1, column: self.column },
            CursorMove::HalfPageUp => CursorModel { row: self.row - half, column: self.column },
            CursorMove::HalfPageDown => CursorModel { row: self.row + half, column: self.column },
        }
    }

    /// The position after a step on a grid of `rows` rows and `columns`
    /// columns: the cell nearest to where the step aims. A step never
    /// leaves the grid and never wraps around.
    pub open spec fn moved(
        self,
        step: CursorMove,
        half: int,
        rows: int,
        columns: int,
    ) -> CursorModel {
        self.aimed(step, half).clamped(rows, columns)
    }

    /// Clamping lands inside the grid, and leaves a position that is inside
    /// where it is.
    pub proof fn lemma_clamped(self, rows: int, columns: int)
        ensures
            self.clamped(rows, columns).within(rows, columns),
            self.within(rows, columns) ==> self.clamped(rows, columns) == self,
            CursorModel::origin().within(rows, columns),
    {
    }

    /// On a grid that has cells, a position that is accepted lies inside
    /// its bounds.
    pub proof fn lemma_within_bounds(self, rows: int, columns: int)
        requires
            self.within(rows, columns),
            rows > 0,
            columns > 0,
        ensures
            0 <= self.row < rows,
            0 <= self.column < columns,
    {
    }
}

impl View for CursorPosition {
    type V = CursorModel;

    open spec fn view(&self) -> CursorModel {
        CursorModel { row: self.row as int, column: self.column as int }
    }
}

/// The index `by` places after `i`, held inside a run of `count` items.
fn advance(i: usize, by: usize, count: usize) -> (res: usize)
    ensures
        res == clamp_index(i + by, count as int),
{
    if count == 0 {
        0
    } else if i >= count - 1 || by >= count - 1 - i {
        count - 1
    } else {
        i + by
    }
}

/// The index `by` places before `i`, held inside a run of `count` items.
fn retreat(i: usize, by: usize, count: usize) -> (res: usize)
    ensures
        res == clamp_index(i - by, count as int),
{
    if count == 0 || by >= i {
        0
    } else if i - by >= count {
        count - 1
    } else {
        i - by
    }
}

impl CursorPosition {
    /// The top left cell.
    pub fn origin() -> (res: CursorPosition)
        ensures
            res@ == CursorModel::origin(),
    {
        CursorPosition { row: 0, column: 0 }
    }

    /// The cell of a grid of `rows` rows and `columns` columns that is
    /// nearest to the position.
    pub fn clamp(self, rows: usize, columns: usize) -> (res: CursorPosition)
        ensures
            res@ == self@.clamped(rows as int, columns as int),
            res@.within(rows as int, columns as int),
    {
        CursorPosition { row: advance(self.row, 0, rows), column: advance(self.column, 0, columns) }
    }

    /// The position after a step on a grid of `rows` rows and `columns`
    /// columns, where a half page step is `half` rows long.
    pub fn step(self, step: CursorMove, half: u16, rows: usize, columns: usize) -> (res:
        CursorPosition)
        ensures
            res@ == self@.moved(step, half as int, rows as int, columns as int),
            res@.within(rows as int, columns as int),
    {
        let row = match step {
            CursorMove::Up => retreat(self.row, 1, rows),
            CursorMove::Down => advance(self.row, 1, rows),
            CursorMove::HalfPageUp => retreat(self.row, half as usize, rows),
            CursorMove::HalfPageDown => advance(self.row, half as usize, rows),
            _ => advance(self.row, 0, rows),
        };
        let column = match step {
            CursorMove::Left => retreat(self.column, 1, columns),
            CursorMove::Right => advance(self.column, 1, columns),
            _ => advance(self.column, 0, columns),
        };
        CursorPosition { row, column }
    }
}

} // verus!
