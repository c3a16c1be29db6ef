//! Full rows and what clearing them does to a grid.

use crate::cell::{
    create_row, empty_grid, empty_row, grid_of, rectangular, row_is_full, without_row, Cell, Field,
};
use vstd::prelude::*;

verus! {

/// The rows that are not full, in their order from top to bottom.
pub open spec fn kept_rows(grid: Seq<Seq<Cell>>) -> Seq<Seq<Cell>>
    decreases grid.len(),
{
    if grid.len() == 0 {
        Seq::empty()
    } else if row_is_full(grid.last()) {
        kept_rows(grid.drop_last())
    } else {
        kept_rows(grid.drop_last()).push(grid.last())
    }
}

/// How many rows of the grid are full.
pub open spec fn full_row_count(grid: Seq<Seq<Cell>>) -> int {
    grid.len() - kept_rows(grid).len()
}

/// The grid after every full row is cleared: the rows that are not full
/// drop to the bottom in their order, under as many empty rows as were
/// cleared.
pub open spec fn cleared(grid: Seq<Seq<Cell>>, width: int) -> Seq<Seq<Cell>> {
    empty_grid(width, full_row_count(grid)) + kept_rows(grid)
}

/// No more rows are kept than there are.
pub proof fn lemma_kept_rows_len(grid: Seq<Seq<Cell>>)
    ensures
        kept_rows(grid).len() <= grid.len(),
        0 <= full_row_count(grid) <= grid.len(),
    decreases grid.len(),
{
    if grid.len() > 0 {
        lemma_kept_rows_len(grid.drop_last());
    }
}

/// Every kept row is a row of the grid that is not full, and a grid without
/// full rows is kept as it is.
pub proof fn lemma_kept_rows_are_not_full(grid: Seq<Seq<Cell>>)
    ensures
        forall|i: int|
            0 <= i < kept_rows(grid).len() ==> !row_is_full(#[trigger] kept_rows(grid)[i])
                && grid.contains(kept_rows(grid)[i]),
        (forall|y: int| 0 <= y < grid.len() ==> !row_is_full(#[trigger] grid[y])) ==> kept_rows(grid)
            == grid,
    decreases grid.len(),
{
    if grid.len() > 0 {
        let shorter = grid.drop_last();
        lemma_kept_rows_are_not_full(shorter);
        assert forall|i: int| 0 <= i < kept_rows(grid).len() implies !row_is_full(
            #[trigger] kept_rows(grid)[i],
        ) && grid.contains(kept_rows(grid)[i]) by {
            if i < kept_rows(shorter).len() {
                let row = kept_rows(shorter)[i];
                assert(shorter.contains(row));
                let j = choose|j: int| 0 <= j < shorter.len() && shorter[j] == row;
                assert(grid[j] == row);
            } else {
                assert(kept_rows(grid)[i] == grid[grid.len() - 1]);
            }
        }
        if forall|y: int| 0 <= y < grid.len() ==> !row_is_full(#[trigger] grid[y]) {
            assert forall|y: int| 0 <= y < shorter.len() implies !row_is_full(
                #[trigger] shorter[y],
            ) by {
                assert(shorter[y] == grid[y]);
            }
            assert(!row_is_full(grid[grid.len() - 1]));
            assert(kept_rows(grid) =~= grid);
        }
    } else {
        assert(kept_rows(grid) =~= grid);
    }
}

/// Takes row `index` out of the field: the rows above it move down by one and
/// an empty row of `width` cells appears on top.
pub fn delete_row(field: &mut Field, index: usize, width: usize)
    requires
        index < old(field).len(),
    ensures
        grid_of(final(field)) == without_row(grid_of(old(field)), index as int, width as int),
{
    let row = create_row(Cell::Empty, width);
    assert(row@ =~= empty_row(width as int));
    field.remove(index);
    field.insert(0, row);
    assert(grid_of(field) =~= without_row(grid_of(old(field)), index as int, width as int));
}

/// Clearing the full rows of a rectangular grid leaves a rectangular grid of
/// the same size.
pub proof fn lemma_cleared_keeps_shape(grid: Seq<Seq<Cell>>, width: int, height: int)
    requires
        rectangular(grid, width, height),
        0 <= width,
    ensures
        rectangular(cleared(grid, width), width, height),
{
    lemma_kept_rows_len(grid);
    lemma_kept_rows_are_not_full(grid);
    let after = cleared(grid, width);
    let count = full_row_count(grid);
    assert forall|y: int| 0 <= y < after.len() implies (#[trigger] after[y]).len() == width by {
        if y >= count {
            let row = kept_rows(grid)[y - count];
            assert(grid.contains(row));
        }
    }
}

} // verus!
