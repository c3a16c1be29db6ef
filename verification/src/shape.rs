//! The seven tetromino shapes, their four facings and their occupancy masks.
//!
//! A shape in a facing occupies cells of a 4×4 box. The masks below are the
//! single source of truth for both collision checks and drawing.

use vstd::prelude::*;

verus! {

/// The facing of a falling piece.
#[derive(Clone, Copy, Debug, PartialEq, Eq, Hash, Structural)]
pub enum MinoDirection {
    North,
    East,
    South,
    West,
}

/// A rotation request, as a number of quarter turns clockwise.
#[derive(Clone, Copy, Debug, PartialEq, Eq, Hash, Structural)]
pub enum RotationType {
    Clockwise,
    Rotate180,
    CounterClockwise,
}

/// The seven tetromino shapes.
#[derive(Clone, Copy, Debug, PartialEq, Eq, Hash, Structural)]
pub enum MinoType {
    MinoI,
    MinoO,
    MinoS,
    MinoZ,
    MinoJ,
    MinoL,
    MinoT,
}

/// A sideways step.
#[derive(Clone, Copy, Debug, PartialEq, Eq, Hash, Structural)]
pub enum HorizontalDirection {
    Left,
    Right,
}

impl RotationType {
    /// How many clockwise quarter turns the rotation amounts to.
    pub open spec fn quarter_turns(self) -> int {
        match self {
            RotationType::Clockwise => 1,
            RotationType::Rotate180 => 2,
            RotationType::CounterClockwise => 3,
        }
    }
}

impl MinoDirection {
    /// Position of the facing on the compass, counted clockwise from north.
    pub open spec fn index(self) -> int {
        match self {
            MinoDirection::North => 0,
            MinoDirection::East => 1,
            MinoDirection::South => 2,
            MinoDirection::West => 3,
        }
    }

    /// The facing that stands at compass position `i` (taken modulo four).
    pub open spec fn from_index(i: int) -> MinoDirection {
        let k = i % 4;
        if k == 0 {
            MinoDirection::North
        } else if k == 1 {
            MinoDirection::East
        } else if k == 2 {
            MinoDirection::South
        } else {
            MinoDirection::West
        }
    }

    /// The facing reached from `self` by `turns` clockwise quarter turns.
    pub open spec fn turned(self, turns: int) -> MinoDirection {
        MinoDirection::from_index(self.index() + turns)
    }

    /// The facing one quarter turn clockwise from `self`.
    pub fn next_direction(&self) -> (next: MinoDirection)
        ensures
            next == self.turned(1),
    {
        match self {
            MinoDirection::North => MinoDirection::East,
            MinoDirection::East => MinoDirection::South,
            MinoDirection::South => MinoDirection::West,
            MinoDirection::West => MinoDirection::North,
        }
    }

    /// The facing after the requested rotation: one quarter turn clockwise for
    /// each turn the rotation stands for.
    pub fn rotate(&self, rotation_type: RotationType) -> (facing: MinoDirection)
        ensures
            facing == self.turned(rotation_type.quarter_turns()),
    {
        match rotation_type {
            RotationType::Clockwise => self.next_direction(),
            RotationType::Rotate180 => self.next_direction().next_direction(),
            RotationType::CounterClockwise => {
                self.next_direction().next_direction().next_direction()
            },
        }
    }
}

/// The occupancy mask of shape `mino_type` in facing `direction`: row `iy`,
/// column `ix` of the 4×4 box holds 1 where the piece has a block, else 0.
pub open spec fn rotation_mask(mino_type: MinoType, direction: MinoDirection) -> [[u8; 4]; 4] {
    match mino_type {
        MinoType::MinoT => match direction {
            MinoDirection::North => [[0, 1, 0, 0], [1, 1, 1, 0], [0, 0, 0, 0], [0, 0, 0, 0]],
            MinoDirection::East => [[0, 1, 0, 0], [0, 1, 1, 0], [0, 1, 0, 0], [0, 0, 0, 0]],
            MinoDirection::South => [[0, 0, 0, 0], [1, 1, 1, 0], [0, 1, 0, 0], [0, 0, 0, 0]],
            MinoDirection::West => [[0, 1, 0, 0], [1, 1, 0, 0], [0, 1, 0, 0], [0, 0, 0, 0]],
        },
        MinoType::MinoS => match direction {
            MinoDirection::North => [[0, 1, 1, 0], [1, 1, 0, 0], [0, 0, 0, 0], [0, 0, 0, 0]],
            MinoDirection::East => [[0, 1, 0, 0], [0, 1, 1, 0], [0, 0, 1, 0], [0, 0, 0, 0]],
            MinoDirection::South => [[0, 0, 0, 0], [0, 1, 1, 0], [1, 1, 0, 0], [0, 0, 0, 0]],
            MinoDirection::West => [[1, 0, 0, 0], [1, 1, 0, 0], [0, 1, 0, 0], [0, 0, 0, 0]],
        },
        MinoType::MinoZ => match direction {
            MinoDirection::North => [[1, 1, 0, 0], [0, 1, 1, 0], [0, 0, 0, 0], [0, 0, 0, 0]],
            MinoDirection::East => [[0, 0, 1, 0], [0, 1, 1, 0], [0, 1, 0, 0], [0, 0, 0, 0]],
            MinoDirection::South => [[0, 0, 0, 0], [1, 1, 0, 0], [0, 1, 1, 0], [0, 0, 0, 0]],
            MinoDirection::West => [[0, 1, 0, 0], [1, 1, 0, 0], [1, 0, 0, 0], [0, 0, 0, 0]],
        },
        MinoType::MinoL => match direction {
            MinoDirection::North => [[0, 0, 1, 0], [1, 1, 1, 0], [0, 0, 0, 0], [0, 0, 0, 0]],
            MinoDirection::East => [[0, 1, 0, 0], [0, 1, 0, 0], [0, 1, 1, 0], [0, 0, 0, 0]],
            MinoDirection::South => [[0, 0, 0, 0], [1, 1, 1, 0], [1, 0, 0, 0], [0, 0, 0, 0]],
            MinoDirection::West => [[1, 1, 0, 0], [0, 1, 0, 0], [0, 1, 0, 0], [0, 0, 0, 0]],
        },
        MinoType::MinoJ => match direction {
            MinoDirection::North => [[1, 0, 0, 0], [1, 1, 1, 0], [0, 0, 0, 0], [0, 0, 0, 0]],
            MinoDirection::East => [[0, 1, 1, 0], [0, 1, 0, 0], [0, 1, 0, 0], [0, 0, 0, 0]],
            MinoDirection::South => [[0, 0, 0, 0], [1, 1, 1, 0], [0, 0, 1, 0], [0, 0, 0, 0]],
            MinoDirection::West => [[0, 1, 0, 0], [0, 1, 0, 0], [1, 1, 0, 0], [0, 0, 0, 0]],
        },
        MinoType::MinoO => match direction {
            MinoDirection::North => [[0, 0, 0, 0], [0, 1, 1, 0], [0, 1, 1, 0], [0, 0, 0, 0]],
            MinoDirection::East => [[0, 0, 0, 0], [0, 1, 1, 0], [0, 1, 1, 0], [0, 0, 0, 0]],
            MinoDirection::South => [[0, 0, 0, 0], [0, 1, 1, 0], [0, 1, 1, 0], [0, 0, 0, 0]],
            MinoDirection::West => [[0, 0, 0, 0], [0, 1, 1, 0], [0, 1, 1, 0], [0, 0, 0, 0]],
        },
        MinoType::MinoI => match direction {
            MinoDirection::North => [[0, 0, 0, 0], [1, 1, 1, 1], [0, 0, 0, 0], [0, 0, 0, 0]],
            MinoDirection::East => [[0, 0, 1, 0], [0, 0, 1, 0], [0, 0, 1, 0], [0, 0, 1, 0]],
            MinoDirection::South => [[0, 0, 0, 0], [0, 0, 0, 0], [1, 1, 1, 1], [0, 0, 0, 0]],
            MinoDirection::West => [[0, 1, 0, 0], [0, 1, 0, 0], [0, 1, 0, 0], [0, 1, 0, 0]],
        },
    }
}

/// Whether shape `mino_type` in facing `direction` has a block at row `iy`,
/// column `ix` of its 4×4 box. Nothing lies outside the box.
pub open spec fn occupies(mino_type: MinoType, direction: MinoDirection, iy: int, ix: int) -> bool {
    0 <= iy < 4 && 0 <= ix < 4 && rotation_mask(mino_type, direction)[iy][ix] == 1
}

/// The number of blocks in one mask row.
pub open spec fn row_block_count(row: [u8; 4]) -> int {
    row[0] + row[1] + row[2] + row[3]
}

/// The number of blocks in a whole mask.
pub open spec fn mask_block_count(mask: [[u8; 4]; 4]) -> int {
    row_block_count(mask[0]) + row_block_count(mask[1]) + row_block_count(mask[2])
        + row_block_count(mask[3])
}

/// Looks up the occupancy mask of a shape in a facing.
pub fn rotation(mino_type: MinoType, direction: MinoDirection) -> (mask: [[u8; 4]; 4])
    ensures
        mask == rotation_mask(mino_type, direction),
{
    match mino_type {
        MinoType::MinoT => match direction {
            MinoDirection::North => [[0, 1, 0, 0], [1, 1, 1, 0], [0, 0, 0, 0], [0, 0, 0, 0]],
            MinoDirection::East => [[0, 1, 0, 0], [0, 1, 1, 0], [0, 1, 0, 0], [0, 0, 0, 0]],
            MinoDirection::South => [[0, 0, 0, 0], [1, 1, 1, 0], [0, 1, 0, 0], [0, 0, 0, 0]],
            MinoDirection::West => [[0, 1, 0, 0], [1, 1, 0, 0], [0, 1, 0, 0], [0, 0, 0, 0]],
        },
        MinoType::MinoS => match direction {
            MinoDirection::North => [[0, 1, 1, 0], [1, 1, 0, 0], [0, 0, 0, 0], [0, 0, 0, 0]],
            MinoDirection::East => [[0, 1, 0, 0], [0, 1, 1, 0], [0, 0, 1, 0], [0, 0, 0, 0]],
            MinoDirection::South => [[0, 0, 0, 0], [0, 1, 1, 0], [1, 1, 0, 0], [0, 0, 0, 0]],
            MinoDirection::West => [[1, 0, 0, 0], [1, 1, 0, 0], [0, 1, 0, 0], [0, 0, 0, 0]],
        },
        MinoType::MinoZ => match direction {
            MinoDirection::North => [[1, 1, 0, 0], [0, 1, 1, 0], [0, 0, 0, 0], [0, 0, 0, 0]],
            MinoDirection::East => [[0, 0, 1, 0], [0, 1, 1, 0], [0, 1, 0, 0], [0, 0, 0, 0]],
            MinoDirection::South => [[0, 0, 0, 0], [1, 1, 0, 0], [0, 1, 1, 0], [0, 0, 0, 0]],
            MinoDirection::West => [[0, 1, 0, 0], [1, 1, 0, 0], [1, 0, 0, 0], [0, 0, 0, 0]],
        },
        MinoType::MinoL => match direction {
            MinoDirection::North => [[0, 0, 1, 0], [1, 1, 1, 0], [0, 0, 0, 0], [0, 0, 0, 0]],
            MinoDirection::East => [[0, 1, 0, 0], [0, 1, 0, 0], [0, 1, 1, 0], [0, 0, 0, 0]],
            MinoDirection::South => [[0, 0, 0, 0], [1, 1, 1, 0], [1, 0, 0, 0], [0, 0, 0, 0]],
            MinoDirection::West => [[1, 1, 0, 0], [0, 1, 0, 0], [0, 1, 0, 0], [0, 0, 0, 0]],
        },
        MinoType::MinoJ => match direction {
            MinoDirection::North => [[1, 0, 0, 0], [1, 1, 1, 0], [0, 0, 0, 0], [0, 0, 0, 0]],
            MinoDirection::East => [[0, 1, 1, 0], [0, 1, 0, 0], [0, 1, 0, 0], [0, 0, 0, 0]],
            MinoDirection::South => [[0, 0, 0, 0], [1, 1, 1, 0], [0, 0, 1, 0], [0, 0, 0, 0]],
            MinoDirection::West => [[0, 1, 0, 0], [0, 1, 0, 0], [1, 1, 0, 0], [0, 0, 0, 0]],
        },
        MinoType::MinoO => match direction {
            MinoDirection::North => [[0, 0, 0, 0], [0, 1, 1, 0], [0, 1, 1, 0], [0, 0, 0, 0]],
            MinoDirection::East => [[0, 0, 0, 0], [0, 1, 1, 0], [0, 1, 1, 0], [0, 0, 0, 0]],
            MinoDirection::South => [[0, 0, 0, 0], [0, 1, 1, 0], [0, 1, 1, 0], [0, 0, 0, 0]],
            MinoDirection::West => [[0, 0, 0, 0], [0, 1, 1, 0], [0, 1, 1, 0], [0, 0, 0, 0]],
        },
        MinoType::MinoI => match direction {
            MinoDirection::North => [[0, 0, 0, 0], [1, 1, 1, 1], [0, 0, 0, 0], [0, 0, 0, 0]],
            MinoDirection::East => [[0, 0, 1, 0], [0, 0, 1, 0], [0, 0, 1, 0], [0, 0, 1, 0]],
            MinoDirection::South => [[0, 0, 0, 0], [0, 0, 0, 0], [1, 1, 1, 1], [0, 0, 0, 0]],
            MinoDirection::West => [[0, 1, 0, 0], [0, 1, 0, 0], [0, 1, 0, 0], [0, 1, 0, 0]],
        },
    }
}

/// Every shape has exactly four blocks, whichever way it faces.
pub proof fn lemma_mask_has_four_blocks(mino_type: MinoType, direction: MinoDirection)
    ensures
        mask_block_count(rotation_mask(mino_type, direction)) == 4,
{
    match direction {
        MinoDirection::North => lemma_four_blocks_facing_north(mino_type),
        MinoDirection::East => lemma_four_blocks_facing_east(mino_type),
        MinoDirection::South => lemma_four_blocks_facing_south(mino_type),
        MinoDirection::West => lemma_four_blocks_facing_west(mino_type),
    }
}

proof fn lemma_four_blocks_facing_north(mino_type: MinoType)
    ensures
        mask_block_count(rotation_mask(mino_type, MinoDirection::North)) == 4,
{
}

proof fn lemma_four_blocks_facing_east(mino_type: MinoType)
    ensures
        mask_block_count(rotation_mask(mino_type, MinoDirection::East)) == 4,
{
}

proof fn lemma_four_blocks_facing_south(mino_type: MinoType)
    ensures
        mask_block_count(rotation_mask(mino_type, MinoDirection::South)) == 4,
{
}

proof fn lemma_four_blocks_facing_west(mino_type: MinoType)
    ensures
        mask_block_count(rotation_mask(mino_type, MinoDirection::West)) == 4,
{
}

/// The square is the same in all four facings.
pub proof fn lemma_square_is_rotation_invariant(a: MinoDirection, b: MinoDirection)
    ensures
        rotation_mask(MinoType::MinoO, a) == rotation_mask(MinoType::MinoO, b),
{
}

/// Four quarter turns bring a facing back to itself, and a half turn is two
/// quarter turns.
pub proof fn lemma_turns_compose(facing: MinoDirection, a: int, b: int)
    requires
        0 <= a,
        0 <= b,
    ensures
        facing.turned(a).turned(b) == facing.turned(a + b),
        facing.turned(4) == facing,
        facing.turned(0) == facing,
{
}

} // verus!
