//! How wide the columns of the grid and the entries of a list are on the
//! terminal.
//!
//! The width of a text on the terminal is measured by the `ratatui` crate.
//! What is done with the measures is this module's own: the greatest of a
//! run of them, and the greatest of each column of a grid of them.

use crate::page::{texts, PageModel, PageResult};
use vstd::prelude::*;

verus! {

/// The number of terminal cells that `ratatui` finds `text` to span: the
/// width of its widest line.
pub uninterp spec fn display_width(text: Seq<char>) -> nat;

/// `ratatui::text::Text::width` of the text made from `text`. The result
/// depends on the characters of `text` alone; the contract gives it its
/// name and claims nothing else of it.
#[verifier::external_body]
fn text_width(text: &str) -> (res: usize)
    ensures
        res == display_width(text@),
{
    ratatui::text::Text::from(text).width()
}

/// The widths of a run of texts on the terminal, in order.
pub open spec fn measured(items: Seq<Seq<char>>) -> Seq<nat> {
    items.map_values(|item: Seq<char>| display_width(item))
}

/// The numbers that a run of machine words holds, in order.
pub open spec fn numbers(words: Seq<usize>) -> Seq<nat> {
    words.map_values(|word: usize| word as nat)
}

/// The numbers that a run of lines of machine words holds, line by line.
pub open spec fn number_lines(lines: Seq<Vec<usize>>) -> Seq<Seq<nat>> {
    Seq::new(lines.len(), |i: int| numbers(lines[i]@))
}

/// The larger of two numbers.
pub open spec fn larger(a: nat, b: nat) -> nat {
    if a >= b {
        a
    } else {
        b
    }
}

/// The greatest of a run of numbers; zero where there is none.
pub open spec fn greatest(run: Seq<nat>) -> nat
    decreases run.len(),
{
    if run.len() == 0 {
        0
    } else {
        larger(greatest(run.drop_last()), run.last())
    }
}

/// The number at place `c` of a line; zero where the line ends before.
pub open spec fn at(line: Seq<nat>, c: int) -> nat {
    if 0 <= c < line.len() {
        line[c]
    } else {
        0
    }
}

/// Place by place the larger number of two lines, as long as the longer
/// of them.
pub open spec fn merged(a: Seq<nat>, b: Seq<nat>) -> Seq<nat> {
    Seq::new(larger(a.len(), b.len()), |c: int| larger(at(a, c), at(b, c)))
}

/// Place by place the greatest number of several lines, as long as the
/// longest of them.
pub open spec fn maxima(lines: Seq<Seq<nat>>) -> Seq<nat>
    decreases lines.len(),
{
    if lines.len() == 0 {
        Seq::empty()
    } else {
        merged(maxima(lines.drop_last()), lines.last())
    }
}

/// The width that the widest of `items` has on the terminal; zero where
/// there is none.
pub open spec fn widest(items: Seq<Seq<char>>) -> nat {
    greatest(measured(items))
}

/// The width that each column of a page needs on the terminal to show its
/// name and all of its cells.
pub open spec fn column_widths(page: PageModel) -> Seq<nat> {
    maxima(
        seq![measured(page.columns)] + page.rows.map_values(|row: Seq<Seq<char>>| measured(row)),
    )
}

/// No number of a run is above the greatest, and where there are numbers
/// the greatest is one of them.
pub proof fn lemma_greatest(run: Seq<nat>)
    ensures
        forall|i: int| 0 <= i < run.len() ==> (#[trigger] run[i]) <= greatest(run),
        run.len() > 0 ==> exists|i: int| 0 <= i < run.len() && (#[trigger] run[i]) == greatest(run),
    decreases run.len(),
{
    if run.len() > 0 {
        let front = run.drop_last();
        lemma_greatest(front);
        assert forall|i: int| 0 <= i < run.len() implies (#[trigger] run[i]) <= greatest(run) by {
            if i < front.len() {
                assert(run[i] == front[i]);
            }
        }
        if run.last() >= greatest(front) {
            assert(run[run.len() - 1] == greatest(run));
        } else {
            let i = choose|i: int| 0 <= i < front.len() && (#[trigger] front[i]) == greatest(front);
            assert(run[i] == front[i]);
        }
    }
}

/// Whether one of `lines` has `value` at place `c`.
pub open spec fn occurs(lines: Seq<Seq<nat>>, c: int, value: nat) -> bool {
    exists|r: int|
        0 <= r < lines.len() && 0 <= c < (#[trigger] lines[r]).len() && lines[r][c] == value
}

/// The maxima of several lines are as many as the longest line has
/// numbers; at no place a line has a number above them; and each of them
/// is a number that a line has at its place.
pub proof fn lemma_maxima(lines: Seq<Seq<nat>>)
    ensures
        forall|r: int| 0 <= r < lines.len() ==> (#[trigger] lines[r]).len() <= maxima(lines).len(),
        forall|r: int, c: int|
            0 <= r < lines.len() && 0 <= c < lines[r].len() ==> #[trigger] lines[r][c] <= maxima(
                lines,
            )[c],
        forall|c: int|
            0 <= c < maxima(lines).len() ==> occurs(lines, c, #[trigger] maxima(lines)[c]),
    decreases lines.len(),
{
    if lines.len() > 0 {
        let front = lines.drop_last();
        let last = lines.last();
        lemma_maxima(front);
        assert forall|r: int| 0 <= r < lines.len() implies (#[trigger] lines[r]).len() <= maxima(
            lines,
        ).len() by {
            if r < front.len() {
                assert(lines[r] == front[r]);
            }
        }
        assert forall|r: int, c: int|
            0 <= r < lines.len() && 0 <= c < lines[r].len() implies #[trigger] lines[r][c]
            <= maxima(lines)[c] by {
            if r < front.len() {
                assert(lines[r] == front[r]);
                assert(front[r][c] <= maxima(front)[c]);
            }
        }
        assert forall|c: int| 0 <= c < maxima(lines).len() implies occurs(
            lines,
            c,
            #[trigger] maxima(lines)[c],
        ) by {
            if c < last.len() && at(last, c) >= at(maxima(front), c) {
                assert(lines[lines.len() - 1][c] == maxima(lines)[c]);
            } else {
                assert(occurs(front, c, maxima(front)[c]));
                let r = choose|r: int|
                    0 <= r < front.len() && 0 <= c < (#[trigger] front[r]).len() && front[r][c]
                        == maxima(front)[c];
                assert(lines[r] == front[r]);
                assert(lines[r][c] == maxima(lines)[c]);
            }
        }
    }
}

/// The widths of a well formed page are one for each column; none of
/// them is less than the width of the name of its column or of a cell in
/// it.
pub proof fn lemma_column_widths(page: PageModel)
    requires
        page.wf(),
    ensures
        column_widths(page).len() == page.columns.len(),
        forall|c: int|
            0 <= c < page.columns.len() ==> display_width(#[trigger] page.columns[c])
                <= column_widths(page)[c],
        forall|r: int, c: int|
            0 <= r < page.rows.len() && 0 <= c < page.columns.len() ==> display_width(
                #[trigger] page.rows[r][c],
            ) <= column_widths(page)[c],
{
    let lines = seq![measured(page.columns)] + page.rows.map_values(
        |row: Seq<Seq<char>>| measured(row),
    );
    lemma_maxima(lines);
    assert(lines[0] == measured(page.columns));
    assert forall|r: int| 0 <= r < page.rows.len() implies (#[trigger] lines[r + 1]) == measured(
        page.rows[r],
    ) by {}
    assert(lines[0].len() <= maxima(lines).len());
    if maxima(lines).len() > page.columns.len() {
        let c = page.columns.len() as int;
        assert(occurs(lines, c, maxima(lines)[c]));
        let r = choose|r: int|
            0 <= r < lines.len() && 0 <= c < (#[trigger] lines[r]).len() && lines[r][c] == maxima(
                lines,
            )[c];
        if r > 0 {
            assert(lines[r] == measured(page.rows[r - 1]));
        }
        assert(false);
    }
    assert forall|c: int| 0 <= c < page.columns.len() implies display_width(
        #[trigger] page.columns[c],
    ) <= column_widths(page)[c] by {
        assert(lines[0][c] == display_width(page.columns[c]));
    }
    assert forall|r: int, c: int|
        0 <= r < page.rows.len() && 0 <= c < page.columns.len() implies display_width(
        #[trigger] page.rows[r][c],
    ) <= column_widths(page)[c] by {
        assert(lines[r + 1] == measured(page.rows[r]));
        assert(lines[r + 1][c] == display_width(page.rows[r][c]));
    }
}

/// The widths of `items` on the terminal, in order.
pub fn measure(items: &Vec<String>) -> (res: Vec<usize>)
    ensures
        numbers(res@) == measured(texts(items@)),
{
    let mut widths: Vec<usize> = Vec::new();
    let mut i: usize = 0;
    while i < items.len()
        invariant
            i <= items.len(),
            widths.len() == i,
            forall|k: int| 0 <= k < i ==> (#[trigger] widths[k]) == display_width(items[k]@),
        decreases items.len() - i,
    {
        widths.push(text_width(items[i].as_str()));
        i += 1;
    }
    widths
}

/// The greatest of `run`; zero where it is empty.
pub fn greatest_of(run: &Vec<usize>) -> (res: usize)
    ensures
        res == greatest(numbers(run@)),
{
    let ghost all = numbers(run@);
    let mut best: usize = 0;
    let mut i: usize = 0;
    while i < run.len()
        invariant
            i <= run.len(),
            all == numbers(run@),
            best == greatest(all.take(i as int)),
        decreases run.len() - i,
    {
        assert(all.take(i + 1).drop_last() == all.take(i as int));
        if run[i] > best {
            best = run[i];
        }
        i += 1;
    }
    assert(all.take(i as int) == all);
    best
}

/// Place by place the greatest number of `lines`, as long as the longest
/// of them.
pub fn column_maxima(lines: &Vec<Vec<usize>>) -> (res: Vec<usize>)
    ensures
        numbers(res@) == maxima(number_lines(lines@)),
{
    let ghost all = number_lines(lines@);
    let mut best: Vec<usize> = Vec::new();
    let mut r: usize = 0;
    while r < lines.len()
        invariant
            r <= lines.len(),
            all == number_lines(lines@),
            numbers(best@) == maxima(all.take(r as int)),
        decreases lines.len() - r,
    {
        let line = &lines[r];
        let ghost before = numbers(best@);
        let ghost now = numbers(line@);
        assert(all.take(r + 1).drop_last() == all.take(r as int));
        let mut c: usize = 0;
        while c < line.len()
            invariant
                c <= line.len(),
                now == numbers(line@),
                best.len() == larger(before.len(), c as nat),
                forall|k: int| 0 <= k < c ==> (#[trigger] best[k]) == larger(at(before, k), now[k]),
                forall|k: int| c <= k < before.len() ==> (#[trigger] best[k]) == before[k],
            decreases line.len() - c,
        {
            if c < best.len() {
                if line[c] > best[c] {
                    best.set(c, line[c]);
                }
            } else {
                best.push(line[c]);
            }
            c += 1;
        }
        r += 1;
    }
    assert(all.take(r as int) == all);
    best
}

/// The width that the widest of `items` has on the terminal; zero where
/// there is none.
pub fn max_width(items: &Vec<String>) -> (res: usize)
    ensures
        res == widest(texts(items@)),
{
    let widths = measure(items);
    greatest_of(&widths)
}

/// The width that each column of a page needs on the terminal to show its
/// name and all of its cells.
pub fn page_column_widths(page: &PageResult) -> (res: Vec<usize>)
    ensures
        numbers(res@) == column_widths(page@),
{
    let rows = page.rows();
    let ghost wanted = seq![measured(page@.columns)] + page@.rows.map_values(
        |row: Seq<Seq<char>>| measured(row),
    );
    let mut lines: Vec<Vec<usize>> = Vec::new();
    lines.push(measure(page.column_names()));
    let mut r: usize = 0;
    while r < rows.len()
        invariant
            r <= rows.len(),
            crate::page::grid(rows@) == page@.rows,
            lines.len() == r + 1,
            wanted == seq![measured(page@.columns)] + page@.rows.map_values(
                |row: Seq<Seq<char>>| measured(row),
            ),
            forall|k: int| 0 <= k <= r ==> numbers((#[trigger] lines[k])@) == wanted[k],
        decreases rows.len() - r,
    {
        lines.push(measure(&rows[r]));
        r += 1;
    }
    assert(number_lines(lines@) =~= wanted);
    column_maxima(&lines)
}

} // verus!
