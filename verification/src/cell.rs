//! Cells, and the playfield as a grid of cells.
//!
//! A field is a vector of rows, row 0 on top. Contracts speak of its grid:
//! the sequence of its rows, each a sequence of cells.

use crate::shape::{occupies, rotation, MinoDirection, MinoType};
use vstd::prelude::*;

verus! {

/// One square of the playfield.
#[derive(Clone, Copy, Debug, PartialEq, Eq, Hash, Structural)]
pub enum Cell {
    Empty,
    Wall,
    /// Garbage; the flag says whether a full row of it may be cleared.
    Obstruction(bool),
    MinoBlock(MinoType),
    MinoInMotion(MinoType),
    /// Where the falling piece would land.
    MinoGhost(MinoType),
}

impl Cell {
    /// A cell blocks a piece when it is a wall, garbage or a locked block.
    pub open spec fn collides(self) -> bool {
        self is Wall || self is Obstruction || self is MinoBlock
    }

    /// A cell counts towards a full row when it is a wall, clearable garbage
    /// or a locked block.
    pub open spec fn clearable(self) -> bool {
        self is Wall || self == Cell::Obstruction(true) || self is MinoBlock
    }

    /// Whether the cell blocks a piece.
    pub fn has_collision(&self) -> (hit: bool)
        ensures
            hit == self.collides(),
    {
        match self {
            Cell::Wall => true,
            Cell::Obstruction(_) => true,
            Cell::MinoBlock(_) => true,
            _ => false,
        }
    }

    /// Whether the cell counts towards a full row.
    pub fn can_be_cleared(&self) -> (yes: bool)
        ensures
            yes == self.clearable(),
    {
        match self {
            Cell::Wall => true,
            Cell::Obstruction(true) => true,
            Cell::MinoBlock(_) => true,
            _ => false,
        }
    }
}

impl MinoType {
    /// The cell that a picture of the shape shows at row `iy`, column `ix`
    /// of its box: a locked block where the shape, facing north, has a block,
    /// and an empty cell elsewhere.
    pub open spec fn pictured(self, iy: int, ix: int) -> Cell {
        if occupies(self, MinoDirection::North, iy, ix) {
            Cell::MinoBlock(self)
        } else {
            Cell::Empty
        }
    }

    fn picture_cell(&self, bit: u8) -> (cell: Cell)
        ensures
            cell == if bit == 1 {
                Cell::MinoBlock(*self)
            } else {
                Cell::Empty
            },
    {
        if bit == 1 {
            Cell::MinoBlock(*self)
        } else {
            Cell::Empty
        }
    }

    fn picture_row(&self, row: [u8; 4]) -> (cells: [Cell; 4])
        ensures
            forall|ix: int|
                0 <= ix < 4 ==> #[trigger] cells[ix] == if row[ix] == 1 {
                    Cell::MinoBlock(*self)
                } else {
                    Cell::Empty
                },
    {
        [
            self.picture_cell(row[0]),
            self.picture_cell(row[1]),
            self.picture_cell(row[2]),
            self.picture_cell(row[3]),
        ]
    }

    /// A picture of the shape facing north, as the 4×4 cells of its box.
    pub fn get_field_to_draw(&self) -> (cells: [[Cell; 4]; 4])
        ensures
            forall|iy: int, ix: int|
                0 <= iy < 4 && 0 <= ix < 4 ==> #[trigger] cells[iy][ix] == self.pictured(iy, ix),
    {
        let mask = rotation(*self, MinoDirection::North);
        [
            self.picture_row(mask[0]),
            self.picture_row(mask[1]),
            self.picture_row(mask[2]),
            self.picture_row(mask[3]),
        ]
    }
}

/// The playfield: rows from top to bottom, each a row of cells.
pub type Field = Vec<Vec<Cell>>;

/// The grid that a field holds.
pub open spec fn grid_of(field: &Field) -> Seq<Seq<Cell>> {
    Seq::new(field@.len(), |y: int| field@[y]@)
}

/// The cell at column `x` of row `y`, if the grid has one there.
pub open spec fn cell_at(grid: Seq<Seq<Cell>>, x: int, y: int) -> Option<Cell> {
    if 0 <= y < grid.len() && 0 <= x < grid[y].len() {
        Some(grid[y][x])
    } else {
        None
    }
}

/// A piece cannot stand on `(x, y)`: the grid has no cell there, or the cell
/// collides.
pub open spec fn blocked(grid: Seq<Seq<Cell>>, x: int, y: int) -> bool {
    match cell_at(grid, x, y) {
        Some(cell) => cell.collides(),
        None => true,
    }
}

/// Whether the grid has `height` rows of `width` cells each.
pub open spec fn rectangular(grid: Seq<Seq<Cell>>, width: int, height: int) -> bool {
    &&& grid.len() == height
    &&& forall|y: int| 0 <= y < grid.len() ==> (#[trigger] grid[y]).len() == width
}

/// A row of `width` empty cells.
pub open spec fn empty_row(width: int) -> Seq<Cell> {
    Seq::new(width as nat, |x: int| Cell::Empty)
}

/// A grid of `height` empty rows.
pub open spec fn empty_grid(width: int, height: int) -> Seq<Seq<Cell>> {
    Seq::new(height as nat, |y: int| empty_row(width))
}

/// A row is full when every cell of it is clearable.
pub open spec fn row_is_full(row: Seq<Cell>) -> bool {
    forall|x: int| 0 <= x < row.len() ==> (#[trigger] row[x]).clearable()
}

/// No cell of the row collides.
pub open spec fn row_is_free(row: Seq<Cell>) -> bool {
    forall|x: int| 0 <= x < row.len() ==> !(#[trigger] row[x]).collides()
}

/// No cell of the grid collides.
pub open spec fn grid_is_free(grid: Seq<Seq<Cell>>) -> bool {
    forall|y: int| 0 <= y < grid.len() ==> row_is_free(#[trigger] grid[y])
}

/// The grid after row `index` is taken out: the rows above it move down by
/// one and an empty row appears on top.
pub open spec fn without_row(grid: Seq<Seq<Cell>>, index: int, width: int) -> Seq<Seq<Cell>> {
    seq![empty_row(width)] + grid.subrange(0, index) + grid.subrange(index + 1, grid.len() as int)
}

/// Builds a row of `width` copies of `cell`.
pub fn create_row(cell: Cell, width: usize) -> (row: Vec<Cell>)
    ensures
        row@ == Seq::new(width as nat, |x: int| cell),
{
    let mut row: Vec<Cell> = Vec::new();
    let mut x: usize = 0;
    while x < width
        invariant
            x <= width,
            row@ == Seq::new(x as nat, |i: int| cell),
        decreases width - x,
    {
        row.push(cell);
        x += 1;
        assert(row@ =~= Seq::new(x as nat, |i: int| cell));
    }
    row
}

/// Builds a field of `height` rows of `width` empty cells.
pub fn create_empty_field(width: usize, height: usize) -> (field: Field)
    ensures
        grid_of(&field) == empty_grid(width as int, height as int),
        rectangular(grid_of(&field), width as int, height as int),
{
    let mut field: Field = Vec::new();
    let mut y: usize = 0;
    while y < height
        invariant
            y <= height,
            grid_of(&field) == empty_grid(width as int, y as int),
        decreases height - y,
    {
        let row = create_row(Cell::Empty, width);
        assert(row@ =~= empty_row(width as int));
        let ghost before = grid_of(&field);
        field.push(row);
        y += 1;
        assert(before.len() == y - 1);
        assert forall|j: int| 0 <= j < y implies #[trigger] grid_of(&field)[j] == empty_row(
            width as int,
        ) by {
            if j < y - 1 {
                assert(grid_of(&field)[j] == before[j]);
            }
        }
        assert(grid_of(&field) =~= empty_grid(width as int, y as int));
    }
    field
}

/// Whether every cell of the row is clearable.
pub fn is_full_row(row: &Vec<Cell>) -> (full: bool)
    ensures
        full == row_is_full(row@),
{
    let mut x: usize = 0;
    while x < row.len()
        invariant
            x <= row.len(),
            forall|i: int| 0 <= i < x ==> (#[trigger] row@[i]).clearable(),
        decreases row.len() - x,
    {
        if !row[x].can_be_cleared() {
            return false;
        }
        x += 1;
    }
    true
}

/// Whether no cell of the field collides.
pub fn is_free_field(field: &Field) -> (free: bool)
    ensures
        free == grid_is_free(grid_of(field)),
{
    let mut y: usize = 0;
    while y < field.len()
        invariant
            y <= field.len(),
            forall|j: int| 0 <= j < y ==> row_is_free(#[trigger] grid_of(field)[j]),
        decreases field.len() - y,
    {
        let row = &field[y];
        let mut x: usize = 0;
        while x < row.len()
            invariant
                x <= row.len(),
                y < field.len(),
                row@ == grid_of(field)[y as int],
                forall|i: int| 0 <= i < x ==> !(#[trigger] row@[i]).collides(),
            decreases row.len() - x,
        {
            if row[x].has_collision() {
                assert(!row_is_free(grid_of(field)[y as int]));
                return false;
            }
            x += 1;
        }
        y += 1;
    }
    true
}

/// Overwrites the cell at column `x` of row `y`.
pub fn put_cell(field: &mut Field, x: usize, y: usize, cell: Cell)
    requires
        y < old(field).len(),
        x < old(field)[y as int].len(),
    ensures
        grid_of(final(field)) == grid_of(old(field)).update(
            y as int,
            grid_of(old(field))[y as int].update(x as int, cell),
        ),
{
    field[y][x] = cell;
    assert(grid_of(field) =~= grid_of(old(field)).update(
        y as int,
        grid_of(old(field))[y as int].update(x as int, cell),
    ));
}

/// Copies a field cell by cell.
pub fn copy_field(field: &Field) -> (copy: Field)
    ensures
        grid_of(&copy) == grid_of(field),
{
    let mut copy: Field = Vec::new();
    let mut y: usize = 0;
    while y < field.len()
        invariant
            y <= field.len(),
            copy@.len() == y,
            forall|j: int| 0 <= j < y ==> (#[trigger] copy@[j])@ == field@[j]@,
        decreases field.len() - y,
    {
        let row = &field[y];
        let mut row_copy: Vec<Cell> = Vec::new();
        let mut x: usize = 0;
        while x < row.len()
            invariant
                x <= row.len(),
                row_copy@ == row@.take(x as int),
            decreases row.len() - x,
        {
            row_copy.push(row[x]);
            x += 1;
            assert(row_copy@ =~= row@.take(x as int));
        }
        assert(row@.take(row.len() as int) =~= row@);
        copy.push(row_copy);
        y += 1;
    }
    assert(grid_of(&copy) =~= grid_of(field));
    copy
}

} // verus!
