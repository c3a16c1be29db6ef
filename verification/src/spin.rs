//! Spins: how a turn of a T piece is told from a plain turn.
//!
//! After a committed turn, the four diagonal corners of the 3×3 centre of the
//! piece's box are probed. Three hits make a spin. Two of the corners, picked
//! by the facing, tell a full spin from a mini spin.

use crate::cell::{blocked, grid_of, Cell, Field};
use crate::mino::Mino;
use crate::placement::{is_blocked, FIELD_SIDE_LIMIT};
use crate::shape::{MinoDirection, MinoType};
use vstd::prelude::*;

verus! {

/// Whether a corner probe at `(x, y)` counts as a hit. Beyond the right and
/// bottom edges it does; left of the first column and above the first row it
/// does not.
pub open spec fn corner_hit(grid: Seq<Seq<Cell>>, x: int, y: int) -> bool {
    x >= 0 && y >= 0 && blocked(grid, x, y)
}

/// How many of the four diagonal corners of the 3×3 centre of a box at
/// `(x, y)` are hit.
pub open spec fn corner_hits(grid: Seq<Seq<Cell>>, x: int, y: int) -> int {
    (if corner_hit(grid, x, y) {
        1int
    } else {
        0int
    }) + (if corner_hit(grid, x + 2, y) {
        1int
    } else {
        0int
    }) + (if corner_hit(grid, x, y + 2) {
        1int
    } else {
        0int
    }) + (if corner_hit(grid, x + 2, y + 2) {
        1int
    } else {
        0int
    })
}

/// The two corners that tell a full spin from a mini spin, as offsets from
/// the top-left corner of the box. The table is fixed per facing.
pub open spec fn certain_corner_offsets(direction: MinoDirection) -> ((int, int), (int, int)) {
    match direction {
        MinoDirection::North => ((0, 0), (2, 0)),
        MinoDirection::East => ((2, 0), (2, 2)),
        MinoDirection::South => ((0, 2), (2, 2)),
        MinoDirection::West => ((2, 0), (2, 2)),
    }
}

/// Whether both corners that `certain_corner_offsets` names are hit, for a
/// box at `(x, y)`.
pub open spec fn certain_corners_hit(
    grid: Seq<Seq<Cell>>,
    direction: MinoDirection,
    x: int,
    y: int,
) -> bool {
    let (first, second) = certain_corner_offsets(direction);
    corner_hit(grid, x + first.0, y + first.1) && corner_hit(grid, x + second.0, y + second.1)
}

fn certain_corners(direction: MinoDirection) -> (offsets: [(i64, i64); 2])
    ensures
        (
            (offsets[0].0 as int, offsets[0].1 as int),
            (offsets[1].0 as int, offsets[1].1 as int),
        ) == certain_corner_offsets(direction),
{
    match direction {
        MinoDirection::North => [(0, 0), (2, 0)],
        MinoDirection::East => [(2, 0), (2, 2)],
        MinoDirection::South => [(0, 2), (2, 2)],
        MinoDirection::West => [(2, 0), (2, 2)],
    }
}

impl Mino {
    /// The piece with the marks that its placement earns: a T piece with at
    /// least three of the four diagonal corners hit has spun, and the spin is
    /// a mini spin unless both of the facing's two designated corners are hit.
    pub open spec fn spin_marked(self, grid: Seq<Seq<Cell>>) -> Mino {
        if self.mino_type == MinoType::MinoT && corner_hits(grid, self.x as int, self.y as int)
            >= 3 {
            Mino {
                is_last_move_spin: true,
                is_last_move_mini_spin: !certain_corners_hit(
                    grid,
                    self.mino_direction,
                    self.x as int,
                    self.y as int,
                ),
                ..self
            }
        } else {
            self.without_spin()
        }
    }

    /// Whether a corner probe at `(x, y)` counts as a hit.
    pub fn has_collision(&self, field: &Field, x: i64, y: i64) -> (hit: bool)
        ensures
            hit == corner_hit(grid_of(field), x as int, y as int),
    {
        if x < 0 || y < 0 {
            return false;
        }
        is_blocked(field, x as i128, y as i128)
    }

    /// Sets the spin marks that the placement of the piece earns.
    pub(crate) fn mark_spin(&mut self, field: &Field)
        requires
            -4 <= old(self).x <= FIELD_SIDE_LIMIT,
            -4 <= old(self).y <= FIELD_SIDE_LIMIT,
        ensures
            *final(self) == old(self).spin_marked(grid_of(field)),
    {
        if self.mino_type == MinoType::MinoT {
            let center: (i64, i64) = (self.x + 1, self.y + 1);
            let mut corner_count: usize = 0;
            if self.has_collision(field, center.0 - 1, center.1 - 1) {
                corner_count += 1;
            }
            if self.has_collision(field, center.0 + 1, center.1 - 1) {
                corner_count += 1;
            }
            if self.has_collision(field, center.0 - 1, center.1 + 1) {
                corner_count += 1;
            }
            if self.has_collision(field, center.0 + 1, center.1 + 1) {
                corner_count += 1;
            }
            if corner_count >= 3 {
                self.is_last_move_spin = true;
                let offsets = certain_corners(self.mino_direction);
                let mut certain_corner_count: usize = 0;
                if self.has_collision(field, self.x + offsets[0].0, self.y + offsets[0].1) {
                    certain_corner_count += 1;
                }
                if self.has_collision(field, self.x + offsets[1].0, self.y + offsets[1].1) {
                    certain_corner_count += 1;
                }
                self.is_last_move_mini_spin = certain_corner_count != 2;
            } else {
                self.last_move_is_not_spin();
            }
        } else {
            self.last_move_is_not_spin();
        }
    }
}

} // verus!
