//! Where a piece fits: the legality of a placement on a grid.
//!
//! A placement names a shape, a facing and the top-left corner `(x, y)` of the
//! shape's 4×4 box. Coordinates are plain integers in contracts, so a box may
//! lie anywhere, also off the grid.

use crate::cell::{blocked, cell_at, empty_grid, grid_of, Cell, Field};
use crate::shape::{occupies, rotation, rotation_mask, MinoDirection, MinoType};
use vstd::prelude::*;

verus! {

/// The largest width or height of a field on which a piece is moved. Every
/// field that fits in memory is smaller.
pub const FIELD_SIDE_LIMIT: i64 = 0x3FFF_FFFF_FFFF_FFFF;

/// Whether the rows and columns of the grid can be counted in piece
/// coordinates.
pub open spec fn addressable(grid: Seq<Seq<Cell>>) -> bool {
    &&& grid.len() <= FIELD_SIDE_LIMIT
    &&& forall|y: int| 0 <= y < grid.len() ==> (#[trigger] grid[y]).len() <= FIELD_SIDE_LIMIT
}

/// A placement is legal when every block of the piece stands on a cell that
/// exists and does not collide.
pub open spec fn fits(
    grid: Seq<Seq<Cell>>,
    mino_type: MinoType,
    direction: MinoDirection,
    x: int,
    y: int,
) -> bool {
    forall|iy: int, ix: int| #[trigger]
        occupies(mino_type, direction, iy, ix) ==> !blocked(grid, x + ix, y + iy)
}

/// The row that a piece lands on when it falls straight down from row `y`.
pub open spec fn landing_row(
    grid: Seq<Seq<Cell>>,
    mino_type: MinoType,
    direction: MinoDirection,
    x: int,
    y: int,
) -> int
    decreases grid.len() - y,
{
    if y + 1 < grid.len() && fits(grid, mino_type, direction, x, y + 1) {
        landing_row(grid, mino_type, direction, x, y + 1)
    } else {
        y
    }
}

/// Whether a piece cannot stand on `(x, y)`, for coordinates of any size.
pub(crate) fn is_blocked(field: &Field, x: i128, y: i128) -> (hit: bool)
    ensures
        hit == blocked(grid_of(field), x as int, y as int),
{
    if x < 0 || y < 0 {
        return true;
    }
    if y >= field.len() as i128 {
        return true;
    }
    let row = &field[y as usize];
    if x >= row.len() as i128 {
        return true;
    }
    row[x as usize].has_collision()
}

/// Whether shape `mino_type` in facing `direction` fits with its box at
/// `(x, y)`, for coordinates of any size.
pub(crate) fn placement_fits(
    field: &Field,
    mino_type: MinoType,
    direction: MinoDirection,
    x: i128,
    y: i128,
) -> (free: bool)
    requires
        i64::MIN - 4 <= x <= i64::MAX + 4,
        i64::MIN - 4 <= y <= i64::MAX + 4,
    ensures
        free == fits(grid_of(field), mino_type, direction, x as int, y as int),
{
    let mask = rotation(mino_type, direction);
    let mut iy: usize = 0;
    while iy < 4
        invariant
            iy <= 4,
            mask == rotation_mask(mino_type, direction),
            i64::MIN - 4 <= x <= i64::MAX + 4,
            i64::MIN - 4 <= y <= i64::MAX + 4,
            forall|jy: int, jx: int| #[trigger]
                occupies(mino_type, direction, jy, jx) && jy < iy ==> !blocked(
                    grid_of(field),
                    x + jx,
                    y + jy,
                ),
        decreases 4 - iy,
    {
        let mut ix: usize = 0;
        while ix < 4
            invariant
                iy < 4,
                ix <= 4,
                mask == rotation_mask(mino_type, direction),
                i64::MIN - 4 <= x <= i64::MAX + 4,
                i64::MIN - 4 <= y <= i64::MAX + 4,
                forall|jy: int, jx: int| #[trigger]
                    occupies(mino_type, direction, jy, jx) && (jy < iy || (jy == iy && jx < ix))
                        ==> !blocked(grid_of(field), x + jx, y + jy),
            decreases 4 - ix,
        {
            if mask[iy][ix] == 1 {
                assert(occupies(mino_type, direction, iy as int, ix as int));
                if is_blocked(field, x + ix as i128, y + iy as i128) {
                    return false;
                }
            }
            ix += 1;
        }
        iy += 1;
    }
    true
}

/// One block of every shape in every facing: a witness that no mask is empty.
pub open spec fn anchor_block(mino_type: MinoType, direction: MinoDirection) -> (int, int) {
    if mino_type == MinoType::MinoI && direction == MinoDirection::East {
        (1, 2)
    } else if mino_type == MinoType::MinoI && direction == MinoDirection::South {
        (2, 1)
    } else {
        (1, 1)
    }
}

/// Every shape has a block at its anchor.
pub proof fn lemma_anchor_is_occupied(mino_type: MinoType, direction: MinoDirection)
    ensures
        occupies(
            mino_type,
            direction,
            anchor_block(mino_type, direction).0,
            anchor_block(mino_type, direction).1,
        ),
{
}

/// A piece that fits has its box within three cells of the grid: the box
/// starts no more than three cells before the first row and column, and
/// before the last ones.
pub proof fn lemma_fitting_box_is_near(
    grid: Seq<Seq<Cell>>,
    mino_type: MinoType,
    direction: MinoDirection,
    x: int,
    y: int,
)
    requires
        fits(grid, mino_type, direction, x, y),
        addressable(grid),
    ensures
        -3 <= x < FIELD_SIDE_LIMIT,
        -3 <= y < grid.len(),
        y < FIELD_SIDE_LIMIT,
        grid.len() > 0,
{
    lemma_anchor_is_occupied(mino_type, direction);
    let (iy, ix) = anchor_block(mino_type, direction);
    assert(!blocked(grid, x + ix, y + iy));
    assert(cell_at(grid, x + ix, y + iy) is Some);
}

/// On an empty grid a piece fits wherever its whole box lies on the grid.
pub proof fn lemma_box_on_empty_grid_fits(
    width: int,
    height: int,
    mino_type: MinoType,
    direction: MinoDirection,
    x: int,
    y: int,
)
    requires
        0 <= x,
        x + 4 <= width,
        0 <= y,
        y + 4 <= height,
    ensures
        fits(empty_grid(width, height), mino_type, direction, x, y),
{
    let grid = empty_grid(width, height);
    assert forall|iy: int, ix: int| #[trigger]
        occupies(mino_type, direction, iy, ix) implies !blocked(
        grid,
        x + ix,
        y + iy,
    ) by {
        assert(grid[y + iy][x + ix] == Cell::Empty);
    }
}

} // verus!
