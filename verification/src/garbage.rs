//! Garbage rows: what an attack puts under the field.

use crate::cell::{create_row, grid_of, rectangular, Cell, Field};
use vstd::prelude::*;

verus! {

/// A garbage row that waits to be put under the field.
#[derive(Clone, Debug, PartialEq, Eq)]
pub struct AttackedLine {
    /// The columns that stay empty.
    pub hole_indexes: Option<Vec<usize>>,
    /// Whether the row may be cleared once it is full.
    pub can_be_cleared: bool,
}

/// What a waiting garbage line stands for in contracts.
pub struct AttackedLineView {
    /// The columns that stay empty; none if no list is given.
    pub holes: Seq<usize>,
    /// Whether the row may be cleared once it is full.
    pub can_be_cleared: bool,
}

impl View for AttackedLine {
    type V = AttackedLineView;

    open spec fn view(&self) -> AttackedLineView {
        AttackedLineView {
            holes: match self.hole_indexes {
                Some(indexes) => indexes@,
                None => Seq::empty(),
            },
            can_be_cleared: self.can_be_cleared,
        }
    }
}

impl AttackedLineView {
    /// Every hole lies within a row of `width` cells.
    pub open spec fn fits_width(self, width: int) -> bool {
        forall|i: int| 0 <= i < self.holes.len() ==> #[trigger] self.holes[i] < width
    }

    /// The row of `width` cells that the line stands for: garbage everywhere
    /// but at the holes.
    pub open spec fn row(self, width: int) -> Seq<Cell> {
        Seq::new(
            width as nat,
            |x: int|
                if self.holes.contains(x as usize) {
                    Cell::Empty
                } else {
                    Cell::Obstruction(self.can_be_cleared)
                },
        )
    }

    /// The row with only the first `count` holes made.
    spec fn row_with_holes(self, width: int, count: int) -> Seq<Cell> {
        Seq::new(
            width as nat,
            |x: int|
                if self.holes.take(count).contains(x as usize) {
                    Cell::Empty
                } else {
                    Cell::Obstruction(self.can_be_cleared)
                },
        )
    }
}

impl AttackedLine {
    /// Whether every hole lies within a row of `width` cells.
    pub fn has_holes_within(&self, width: usize) -> (within: bool)
        ensures
            within == self@.fits_width(width as int),
    {
        match &self.hole_indexes {
            Some(indexes) => {
                let mut i: usize = 0;
                while i < indexes.len()
                    invariant
                        i <= indexes.len(),
                        indexes@ == self@.holes,
                        forall|k: int| 0 <= k < i ==> #[trigger] self@.holes[k] < width,
                    decreases indexes.len() - i,
                {
                    if indexes[i] >= width {
                        return false;
                    }
                    i += 1;
                }
                true
            },
            None => true,
        }
    }

    /// A copy of the line.
    pub fn duplicate(&self) -> (copy: AttackedLine)
        ensures
            copy@ == self@,
    {
        AttackedLine {
            hole_indexes: match &self.hole_indexes {
                Some(indexes) => Some(indexes.clone()),
                None => None,
            },
            can_be_cleared: self.can_be_cleared,
        }
    }

    /// Builds the row of `width` cells that the line stands for.
    pub fn build_row(&self, width: usize) -> (row: Vec<Cell>)
        requires
            self@.fits_width(width as int),
        ensures
            row@ == self@.row(width as int),
    {
        let mut row = create_row(Cell::Obstruction(self.can_be_cleared), width);
        assert(self@.holes.take(0) =~= Seq::<usize>::empty());
        assert(row@ =~= self@.row_with_holes(width as int, 0));
        match &self.hole_indexes {
            Some(indexes) => {
                let mut i: usize = 0;
                while i < indexes.len()
                    invariant
                        i <= indexes.len(),
                        indexes@ == self@.holes,
                        self@.fits_width(width as int),
                        row@ == self@.row_with_holes(width as int, i as int),
                    decreases indexes.len() - i,
                {
                    let hole = indexes[i];
                    assert(self@.holes[i as int] < width);
                    row[hole] = Cell::Empty;
                    proof {
                        let before = self@.holes.take(i as int);
                        let after = self@.holes.take(i + 1);
                        assert(after =~= before.push(hole));
                        assert forall|x: int| 0 <= x < width implies (#[trigger] after.contains(
                            x as usize,
                        )) == (before.contains(x as usize) || x == hole) by {
                            if before.contains(x as usize) {
                                let k = choose|k: int|
                                    0 <= k < before.len() && before[k] == x as usize;
                                assert(after[k] == x as usize);
                            }
                            if x == hole {
                                assert(after[i as int] == hole);
                            }
                        }
                        assert(row@ =~= self@.row_with_holes(width as int, i + 1));
                    }
                    i += 1;
                }
                assert(self@.holes.take(i as int) =~= self@.holes);
            },
            None => {},
        }
        assert(row@ =~= self@.row(width as int));
        row
    }
}

/// The grid after one garbage row is put under it: the top row leaves, every
/// other row moves up by one, and the line's row is the new bottom row.
pub open spec fn with_garbage(grid: Seq<Seq<Cell>>, line: AttackedLineView, width: int) -> Seq<
    Seq<Cell>,
> {
    grid.drop_first().push(line.row(width))
}

/// The grid after the waiting lines are put under it, first come first.
pub open spec fn garbage_released(
    grid: Seq<Seq<Cell>>,
    stock: Seq<AttackedLineView>,
    width: int,
) -> Seq<Seq<Cell>>
    decreases stock.len(),
{
    if stock.len() == 0 {
        grid
    } else {
        with_garbage(garbage_released(grid, stock.drop_last(), width), stock.last(), width)
    }
}

/// What a list of waiting lines stands for in contracts.
pub open spec fn stock_view(stock: Seq<AttackedLine>) -> Seq<AttackedLineView> {
    Seq::new(stock.len(), |i: int| stock[i]@)
}

/// Every waiting line has its holes within a row of `width` cells.
pub open spec fn stock_fits_width(stock: Seq<AttackedLineView>, width: int) -> bool {
    forall|i: int| 0 <= i < stock.len() ==> (#[trigger] stock[i]).fits_width(width)
}

/// Putting garbage under a grid keeps its number of rows, and keeps it
/// rectangular if the rows are as wide as the garbage.
pub proof fn lemma_garbage_keeps_shape(
    grid: Seq<Seq<Cell>>,
    stock: Seq<AttackedLineView>,
    width: int,
    height: int,
)
    requires
        rectangular(grid, width, height),
        0 <= width,
        stock.len() > 0 ==> height > 0,
    ensures
        rectangular(garbage_released(grid, stock, width), width, height),
    decreases stock.len(),
{
    if stock.len() > 0 {
        lemma_garbage_keeps_shape(grid, stock.drop_last(), width, height);
        let before = garbage_released(grid, stock.drop_last(), width);
        let after = garbage_released(grid, stock, width);
        assert forall|y: int| 0 <= y < after.len() implies (#[trigger] after[y]).len()
            == width by {
            if y < after.len() - 1 {
                assert(after[y] == before[y + 1]);
            }
        }
    }
}

/// Puts one garbage row under the field.
pub fn inject_garbage(field: &mut Field, line: &AttackedLine, width: usize)
    requires
        old(field).len() > 0,
        line@.fits_width(width as int),
    ensures
        grid_of(final(field)) == with_garbage(grid_of(old(field)), line@, width as int),
{
    let row = line.build_row(width);
    field.remove(0);
    field.push(row);
    assert(grid_of(field) =~= with_garbage(grid_of(old(field)), line@, width as int));
}

} // verus!
