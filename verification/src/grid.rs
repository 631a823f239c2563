//! Rows and grids of cells.

use crate::cell::{Cell, CellView};
use vstd::prelude::*;

verus! {

/// One row of a grid: its cells, by column position.
#[derive(Clone, Debug, PartialEq, Eq)]
pub struct Row {
    pub cells: Vec<Cell>,
}

/// A grid: its rows, the header row first.
#[derive(Clone, Debug, PartialEq, Eq)]
pub struct Grid {
    pub rows: Vec<Row>,
}

impl View for Row {
    type V = Seq<CellView>;

    open spec fn view(&self) -> Seq<CellView> {
        self.cells@.map_values(|cell: Cell| cell@)
    }
}

impl View for Grid {
    type V = Seq<Seq<CellView>>;

    open spec fn view(&self) -> Seq<Seq<CellView>> {
        self.rows@.map_values(|row: Row| row@)
    }
}

/// A row is blank when none of its cells is populated.
pub open spec fn is_blank(row: Seq<CellView>) -> bool {
    forall|j: int| 0 <= j < row.len() ==> (#[trigger] row[j]).raw_value is None
}

impl Row {
    /// The number of cells.
    pub fn len(&self) -> (n: usize)
        ensures
            n == self@.len(),
    {
        self.cells.len()
    }

    /// The cell at `column`, if the row reaches that far.
    pub fn get(&self, column: usize) -> (cell: Option<&Cell>)
        ensures
            column < self@.len() ==> cell is Some && cell->0@ == self@[column as int],
            column >= self@.len() ==> cell is None,
    {
        if column < self.cells.len() {
            Some(&self.cells[column])
        } else {
            None
        }
    }

    /// Whether no cell of the row is populated.
    pub fn is_blank(&self) -> (blank: bool)
        ensures
            blank == is_blank(self@),
    {
        let mut j: usize = 0;
        while j < self.cells.len()
            invariant
                j <= self.cells.len(),
                forall|k: int| 0 <= k < j ==> (#[trigger] self@[k]).raw_value is None,
            decreases self.cells.len() - j,
        {
            if self.cells[j].is_populated() {
                assert(self@[j as int].raw_value is Some);
                return false;
            }
            j += 1;
        }
        true
    }
}

/// The grid whose rows hold the given cells.
pub fn grid_data(cells: Vec<Vec<Cell>>) -> (grid: Grid)
    ensures
        grid@ == cells@.map_values(|row: Vec<Cell>| row@.map_values(|cell: Cell| cell@)),
{
    let mut rows: Vec<Row> = Vec::new();
    for row in it: cells
        invariant
            rows@.len() == it.index(),
            forall|i: int|
                0 <= i < rows@.len() ==> (#[trigger] rows@[i])@ == it.seq()[i]@.map_values(
                    |cell: Cell| cell@,
                ),
    {
        rows.push(Row { cells: row });
    }
    Grid { rows }
}

} // verus!
