//! The rules that a host may tune, and where pieces appear.

use crate::cell::{empty_grid, Cell};
use crate::placement::{fits, lemma_box_on_empty_grid_fits};
use crate::shape::{MinoDirection, MinoType};
use vstd::prelude::*;

verus! {

/// The rules that a host may tune.
#[derive(Clone, Copy, Debug, PartialEq, Eq)]
pub struct TetrisConfig {
    /// How many placements a piece may commit without reaching a new lowest
    /// row before it asks for a lock; `None` for no limit.
    pub move_reset_limit: Option<usize>,
    /// Where the box of a new piece appears. The square appears one row
    /// higher.
    pub appearance_position: (i64, i64),
    /// Whether a piece may be held again before the next lock.
    pub can_hold_infinity: bool,
}

impl Default for TetrisConfig {
    fn default() -> (config: TetrisConfig)
        ensures
            config == TetrisConfig::standard(),
    {
        TetrisConfig {
            move_reset_limit: Some(15),
            appearance_position: (3, 19),
            can_hold_infinity: false,
        }
    }
}

impl TetrisConfig {
    /// The rules of a default session.
    pub open spec fn standard() -> TetrisConfig {
        TetrisConfig {
            move_reset_limit: Some(15usize),
            appearance_position: (3i64, 19i64),
            can_hold_infinity: false,
        }
    }

    /// Where the box of a new piece of shape `mino_type` appears.
    pub open spec fn spawn_point(self, mino_type: MinoType) -> (int, int) {
        (
            self.appearance_position.0 as int,
            if mino_type == MinoType::MinoO {
                self.appearance_position.1 - 1
            } else {
                self.appearance_position.1 as int
            },
        )
    }

    /// Every shape fits on the grid where it appears.
    pub open spec fn spawns_on(self, grid: Seq<Seq<Cell>>) -> bool {
        forall|mino_type: MinoType|
            fits(
                grid,
                mino_type,
                MinoDirection::North,
                (#[trigger] self.spawn_point(mino_type)).0,
                self.spawn_point(mino_type).1,
            )
    }
}

/// With the box of a new piece on the grid, and a row to spare above it for
/// the square, every shape fits on the empty grid where it appears.
pub proof fn lemma_spawns_on_empty_grid(config: TetrisConfig, width: int, height: int)
    requires
        0 <= config.appearance_position.0,
        config.appearance_position.0 + 4 <= width,
        1 <= config.appearance_position.1,
        config.appearance_position.1 + 4 <= height,
    ensures
        config.spawns_on(empty_grid(width, height)),
{
    assert forall|mino_type: MinoType|
        fits(
            empty_grid(width, height),
            mino_type,
            MinoDirection::North,
            (#[trigger] config.spawn_point(mino_type)).0,
            config.spawn_point(mino_type).1,
        ) by {
        lemma_box_on_empty_grid_fits(
            width,
            height,
            mino_type,
            MinoDirection::North,
            config.spawn_point(mino_type).0,
            config.spawn_point(mino_type).1,
        );
    }
}

} // verus!
