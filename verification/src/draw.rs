//! Writing a piece onto a field: the lock, the ghost and the preview.

use crate::cell::{blocked, cell_at, grid_of, put_cell, Cell, Field};
use crate::mino::Mino;
use crate::placement::{addressable, fits, landing_row, lemma_fitting_box_is_near};
use crate::shape::{occupies, rotation, rotation_mask};
use vstd::prelude::*;

verus! {

/// The field with a flag on every cell: whether the next piece will appear
/// there.
pub type FieldWithNextMinoWillSpawn = Vec<Vec<(bool, Cell)>>;

/// The flagged grid that a flagged field holds.
pub open spec fn flagged_grid_of(field: &FieldWithNextMinoWillSpawn) -> Seq<Seq<(bool, Cell)>> {
    Seq::new(field@.len(), |y: int| field@[y]@)
}

impl Mino {
    /// Whether the piece has a block on cell `(x, y)` of the field.
    pub open spec fn covers(self, x: int, y: int) -> bool {
        occupies(self.mino_type, self.mino_direction, y - self.y, x - self.x)
    }

    /// The grid with `cell` written on those covered cells whose place in
    /// the box, counted row by row, is below `count`.
    spec fn stamped_upto(self, grid: Seq<Seq<Cell>>, cell: Cell, count: int) -> Seq<
        Seq<Cell>,
    > {
        Seq::new(
            grid.len(),
            |y: int|
                Seq::new(
                    grid[y].len(),
                    |x: int|
                        if self.covers(x, y) && 4 * (y - self.y) + (x - self.x) < count {
                            cell
                        } else {
                            grid[y][x]
                        },
                ),
        )
    }

    /// The grid with `cell` written on every cell that the piece covers, and
    /// every other cell as it was.
    pub open spec fn stamped(self, grid: Seq<Seq<Cell>>, cell: Cell) -> Seq<Seq<Cell>> {
        Seq::new(
            grid.len(),
            |y: int|
                Seq::new(
                    grid[y].len(),
                    |x: int|
                        if self.covers(x, y) {
                            cell
                        } else {
                            grid[y][x]
                        },
                ),
        )
    }

    /// The grid with every cell flagged that the piece covers.
    pub open spec fn flagged(self, grid: Seq<Seq<Cell>>) -> Seq<Seq<(bool, Cell)>> {
        Seq::new(
            grid.len(),
            |y: int| Seq::new(grid[y].len(), |x: int| (self.covers(x, y), grid[y][x])),
        )
    }

    /// The piece moved straight down to the row it lands on.
    pub open spec fn landed(self, grid: Seq<Seq<Cell>>) -> Mino {
        Mino {
            y: landing_row(
                grid,
                self.mino_type,
                self.mino_direction,
                self.x as int,
                self.y as int,
            ) as i64,
            ..self
        }
    }

    /// Whether the piece has a block on cell `(x, y)` of the field.
    pub fn is_covering(&self, x: usize, y: usize) -> (yes: bool)
        ensures
            yes == self.covers(x as int, y as int),
    {
        let ix: i128 = x as i128 - self.x as i128;
        let iy: i128 = y as i128 - self.y as i128;
        if ix < 0 || ix >= 4 || iy < 0 || iy >= 4 {
            return false;
        }
        let mask = rotation(self.mino_type, self.mino_direction);
        mask[iy as usize][ix as usize] == 1
    }

    /// Writes `cell` on every cell of the field that the piece covers.
    pub fn draw(&self, field: &mut Field, cell: Cell)
        ensures
            grid_of(final(field)) == self.stamped(grid_of(old(field)), cell),
    {
        let mask = rotation(self.mino_type, self.mino_direction);
        let ghost before = grid_of(field);
        assert(grid_of(field) =~~= self.stamped_upto(before, cell, 0));
        let mut iy: usize = 0;
        while iy < 4
            invariant
                iy <= 4,
                mask == rotation_mask(self.mino_type, self.mino_direction),
                grid_of(field) == self.stamped_upto(before, cell, 4 * iy),
            decreases 4 - iy,
        {
            let mut ix: usize = 0;
            while ix < 4
                invariant
                    iy < 4,
                    ix <= 4,
                    mask == rotation_mask(self.mino_type, self.mino_direction),
                    grid_of(field) == self.stamped_upto(before, cell, 4 * iy + ix),
                decreases 4 - ix,
            {
                let ghost done = 4 * iy + ix;
                let xx: i128 = self.x as i128 + ix as i128;
                let yy: i128 = self.y as i128 + iy as i128;
                if mask[iy][ix] == 1 && 0 <= yy && yy < field.len() as i128 && 0 <= xx && xx
                    < field[yy as usize].len() as i128 {
                    put_cell(field, xx as usize, yy as usize, cell);
                    assert(grid_of(field) =~~= self.stamped_upto(before, cell, done + 1)) by {
                        assert(self.covers(xx as int, yy as int));
                    }
                } else {
                    assert(grid_of(field) =~~= self.stamped_upto(before, cell, done + 1));
                }
                ix += 1;
            }
            iy += 1;
        }
        assert(self.stamped_upto(before, cell, 16) =~~= self.stamped(before, cell));
    }

    /// Makes the piece part of the field: every cell it covers becomes a
    /// locked block of its shape, and no other cell changes.
    pub fn lock(&self, field: &mut Field)
        ensures
            grid_of(final(field)) == self.stamped(
                grid_of(old(field)),
                Cell::MinoBlock(self.mino_type),
            ),
    {
        self.draw(field, Cell::MinoBlock(self.mino_type));
    }

    /// Marks where the piece would land if it fell straight down.
    pub fn draw_ghost(&self, field: &mut Field)
        requires
            addressable(grid_of(old(field))),
        ensures
            grid_of(final(field)) == self.landed(grid_of(old(field))).stamped(
                grid_of(old(field)),
                Cell::MinoGhost(self.mino_type),
            ),
    {
        let mut drawer = *self;
        let ghost grid = grid_of(field);
        loop
            invariant
                grid == grid_of(field),
                addressable(grid),
                drawer.x == self.x,
                drawer.mino_type == self.mino_type,
                drawer.mino_direction == self.mino_direction,
                landing_row(
                    grid,
                    self.mino_type,
                    self.mino_direction,
                    self.x as int,
                    drawer.y as int,
                ) == landing_row(
                    grid,
                    self.mino_type,
                    self.mino_direction,
                    self.x as int,
                    self.y as int,
                ),
            ensures
                drawer.y == landing_row(
                    grid,
                    self.mino_type,
                    self.mino_direction,
                    self.x as int,
                    self.y as int,
                ),
            decreases grid.len() - drawer.y,
        {
            proof {
                if fits(grid, drawer.mino_type, drawer.mino_direction, drawer.x as int, drawer.y + 1) {
                    lemma_fitting_box_is_near(
                        grid,
                        drawer.mino_type,
                        drawer.mino_direction,
                        drawer.x as int,
                        drawer.y + 1,
                    );
                }
            }
            if !drawer.down(field) {
                break ;
            }
        }
        drawer.draw(field, Cell::MinoGhost(self.mino_type));
        assert(drawer.stamped(grid, Cell::MinoGhost(self.mino_type)) =~~= self.landed(grid).stamped(
            grid,
            Cell::MinoGhost(self.mino_type),
        ));
    }

    /// The field with a flag on every cell that the piece covers.
    pub fn draw_next_mino(&self, field: &Field) -> (flagged: FieldWithNextMinoWillSpawn)
        ensures
            flagged_grid_of(&flagged) == self.flagged(grid_of(field)),
    {
        let mut flagged: FieldWithNextMinoWillSpawn = Vec::new();
        let mut y: usize = 0;
        while y < field.len()
            invariant
                y <= field.len(),
                flagged@.len() == y,
                forall|j: int|
                    0 <= j < y ==> (#[trigger] flagged@[j])@ == self.flagged(grid_of(field))[j],
            decreases field.len() - y,
        {
            let row = &field[y];
            let mut flagged_row: Vec<(bool, Cell)> = Vec::new();
            let mut x: usize = 0;
            while x < row.len()
                invariant
                    y < field.len(),
                    row@ == grid_of(field)[y as int],
                    x <= row.len(),
                    flagged_row@.len() == x,
                    forall|i: int|
                        0 <= i < x ==> #[trigger] flagged_row@[i] == (
                            self.covers(i, y as int),
                            row@[i],
                        ),
                decreases row.len() - x,
            {
                flagged_row.push((self.is_covering(x, y), row[x]));
                x += 1;
            }
            assert(flagged_row@ =~= self.flagged(grid_of(field))[y as int]);
            flagged.push(flagged_row);
            y += 1;
        }
        assert(flagged_grid_of(&flagged) =~= self.flagged(grid_of(field)));
        flagged
    }
}

/// Reading the grid after a lock shows a locked block of the piece's shape on
/// every cell that the piece covers, and every other cell as it was. The
/// grid keeps its shape.
pub proof fn lemma_lock_round_trip(mino: Mino, grid: Seq<Seq<Cell>>)
    ensures
        ({
            let locked = mino.stamped(grid, Cell::MinoBlock(mino.mino_type));
            &&& locked.len() == grid.len()
            &&& forall|y: int|
                0 <= y < grid.len() ==> (#[trigger] locked[y]).len() == grid[y].len()
            &&& forall|x: int, y: int|
                0 <= y < grid.len() && 0 <= x < grid[y].len() ==> #[trigger] locked[y][x] == (
                if mino.covers(x, y) {
                    Cell::MinoBlock(mino.mino_type)
                } else {
                    grid[y][x]
                })
        }),
{
}

/// A piece that fits covers four cells of the grid, none of which collides.
pub proof fn lemma_fitting_piece_covers_free_cells(mino: Mino, grid: Seq<Seq<Cell>>, x: int, y: int)
    requires
        fits(grid, mino.mino_type, mino.mino_direction, mino.x as int, mino.y as int),
        mino.covers(x, y),
    ensures
        cell_at(grid, x, y) is Some,
        !grid[y][x].collides(),
{
    assert(occupies(mino.mino_type, mino.mino_direction, y - mino.y, x - mino.x));
    assert(!blocked(grid, mino.x + (x - mino.x), mino.y + (y - mino.y)));
}

} // verus!
