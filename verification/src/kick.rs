//! Wall-kick candidates: the offsets a rotation tries, in order of priority.
//!
//! An offset `(dx, dy)` moves the piece `dx` columns to the right and `dy`
//! rows up. The I piece has a table of its own; all other shapes share one.
//! Every list starts with the identity offset.

use crate::shape::{MinoDirection, MinoType, RotationType};
use vstd::prelude::*;

verus! {

/// Candidates for every shape but the I piece, by facing before the rotation.
pub open spec fn common_kick_offsets(direction: MinoDirection, rotation_type: RotationType) -> Seq<
    (int, int),
> {
    match direction {
        MinoDirection::North => match rotation_type {
            RotationType::Clockwise => seq![(0, 0), (-1, 0), (-1, 1), (0, -2), (-1, -2)],
            RotationType::CounterClockwise => seq![(0, 0), (1, 0), (1, 1), (0, -2), (1, -2)],
            RotationType::Rotate180 => seq![
                (0, 0),
                (1, 0),
                (2, 0),
                (1, 1),
                (2, 1),
                (-1, 0),
                (-2, 0),
                (-1, 1),
                (-2, 1),
                (0, -1),
                (3, 0),
                (-3, 0),
            ],
        },
        MinoDirection::East => match rotation_type {
            RotationType::Clockwise => seq![(0, 0), (1, 0), (1, -1), (0, 2), (1, 2)],
            RotationType::CounterClockwise => seq![(0, 0), (1, 0), (1, -1), (0, 2), (1, 2)],
            RotationType::Rotate180 => seq![
                (0, 0),
                (0, 1),
                (0, 2),
                (-1, 1),
                (-1, 2),
                (0, -1),
                (0, -2),
                (-1, -1),
                (-1, -2),
                (1, 0),
                (0, 3),
                (0, -3),
            ],
        },
        MinoDirection::South => match rotation_type {
            RotationType::Clockwise => seq![(0, 0), (1, 0), (1, 1), (0, -2), (1, -2)],
            RotationType::CounterClockwise => seq![(0, 0), (-1, 0), (-1, 1), (0, -2), (-1, -2)],
            RotationType::Rotate180 => seq![
                (0, 0),
                (-1, 0),
                (-2, 0),
                (-1, -1),
                (-2, -1),
                (1, 0),
                (2, 0),
                (1, -1),
                (2, -1),
                (0, 1),
                (-3, 0),
                (3, 0),
            ],
        },
        MinoDirection::West => match rotation_type {
            RotationType::Clockwise => seq![(0, 0), (-1, 0), (-1, -1), (0, 2), (-1, 2)],
            RotationType::CounterClockwise => seq![(0, 0), (-1, 0), (-1, -1), (0, 2), (-1, 2)],
            RotationType::Rotate180 => seq![
                (0, 0),
                (0, 1),
                (0, 2),
                (1, 1),
                (1, 2),
                (0, -1),
                (0, -2),
                (1, -1),
                (1, -2),
                (-1, 0),
                (0, 3),
                (0, -3),
            ],
        },
    }
}

/// Candidates for the I piece, by facing before the rotation.
pub open spec fn long_bar_kick_offsets(
    direction: MinoDirection,
    rotation_type: RotationType,
) -> Seq<(int, int)> {
    match direction {
        MinoDirection::North => match rotation_type {
            RotationType::Clockwise => seq![(0, 0), (-2, 0), (1, 0), (-2, -1), (1, 2)],
            RotationType::CounterClockwise => seq![(0, 0), (-1, 0), (2, 0), (-1, 2), (2, -1)],
            RotationType::Rotate180 => seq![(0, 0), (-1, 0), (-2, 0), (1, 0), (2, 0), (0, 1)],
        },
        MinoDirection::East => match rotation_type {
            RotationType::Clockwise => seq![(0, 0), (-1, 0), (2, 0), (-1, 2), (2, -1)],
            RotationType::CounterClockwise => seq![(0, 0), (2, 0), (-1, 0), (2, 1), (-1, -2)],
            RotationType::Rotate180 => seq![(0, 0), (0, 1), (0, 2), (0, -1), (0, -2), (-1, 0)],
        },
        MinoDirection::South => match rotation_type {
            RotationType::Clockwise => seq![(0, 0), (2, 0), (-1, 0), (2, 1), (-1, -2)],
            RotationType::CounterClockwise => seq![(0, 0), (1, 0), (-2, 0), (1, -2), (-2, 1)],
            RotationType::Rotate180 => seq![(0, 0), (1, 0), (2, 0), (-1, 0), (-2, 0), (0, -1)],
        },
        MinoDirection::West => match rotation_type {
            RotationType::Clockwise => seq![(0, 0), (1, 0), (-2, 0), (1, -2), (-2, 1)],
            RotationType::CounterClockwise => seq![(0, 0), (-2, 0), (1, 0), (-2, -1), (1, 2)],
            RotationType::Rotate180 => seq![(0, 0), (0, 1), (0, 2), (0, -1), (0, -2), (1, 0)],
        },
    }
}

/// The candidates that a rotation of `mino_type` out of facing `direction`
/// tries, first to last.
pub open spec fn kick_offsets(
    mino_type: MinoType,
    direction: MinoDirection,
    rotation_type: RotationType,
) -> Seq<(int, int)> {
    if mino_type == MinoType::MinoI {
        long_bar_kick_offsets(direction, rotation_type)
    } else {
        common_kick_offsets(direction, rotation_type)
    }
}

/// The largest distance, per axis, that any candidate moves a piece.
pub const MAX_KICK: i64 = 3;

/// A list of offsets read as pairs of integers.
pub open spec fn offset_seq(offsets: Seq<(i64, i64)>) -> Seq<(int, int)> {
    Seq::new(offsets.len(), |i: int| (offsets[i].0 as int, offsets[i].1 as int))
}

fn common_offsets(direction: MinoDirection, rotation_type: RotationType) -> (offsets: Vec<
    (i64, i64),
>)
    ensures
        offset_seq(offsets@) == common_kick_offsets(direction, rotation_type),
{
    match direction {
        MinoDirection::North => match rotation_type {
            RotationType::Clockwise => vec![(0, 0), (-1, 0), (-1, 1), (0, -2), (-1, -2)],
            RotationType::CounterClockwise => vec![(0, 0), (1, 0), (1, 1), (0, -2), (1, -2)],
            RotationType::Rotate180 => vec![
                (0, 0),
                (1, 0),
                (2, 0),
                (1, 1),
                (2, 1),
                (-1, 0),
                (-2, 0),
                (-1, 1),
                (-2, 1),
                (0, -1),
                (3, 0),
                (-3, 0),
            ],
        },
        MinoDirection::East => match rotation_type {
            RotationType::Clockwise => vec![(0, 0), (1, 0), (1, -1), (0, 2), (1, 2)],
            RotationType::CounterClockwise => vec![(0, 0), (1, 0), (1, -1), (0, 2), (1, 2)],
            RotationType::Rotate180 => vec![
                (0, 0),
                (0, 1),
                (0, 2),
                (-1, 1),
                (-1, 2),
                (0, -1),
                (0, -2),
                (-1, -1),
                (-1, -2),
                (1, 0),
                (0, 3),
                (0, -3),
            ],
        },
        MinoDirection::South => match rotation_type {
            RotationType::Clockwise => vec![(0, 0), (1, 0), (1, 1), (0, -2), (1, -2)],
            RotationType::CounterClockwise => vec![(0, 0), (-1, 0), (-1, 1), (0, -2), (-1, -2)],
            RotationType::Rotate180 => vec![
                (0, 0),
                (-1, 0),
                (-2, 0),
                (-1, -1),
                (-2, -1),
                (1, 0),
                (2, 0),
                (1, -1),
                (2, -1),
                (0, 1),
                (-3, 0),
                (3, 0),
            ],
        },
        MinoDirection::West => match rotation_type {
            RotationType::Clockwise => vec![(0, 0), (-1, 0), (-1, -1), (0, 2), (-1, 2)],
            RotationType::CounterClockwise => vec![(0, 0), (-1, 0), (-1, -1), (0, 2), (-1, 2)],
            RotationType::Rotate180 => vec![
                (0, 0),
                (0, 1),
                (0, 2),
                (1, 1),
                (1, 2),
                (0, -1),
                (0, -2),
                (1, -1),
                (1, -2),
                (-1, 0),
                (0, 3),
                (0, -3),
            ],
        },
    }
}

fn long_bar_offsets(direction: MinoDirection, rotation_type: RotationType) -> (offsets: Vec<
    (i64, i64),
>)
    ensures
        offset_seq(offsets@) == long_bar_kick_offsets(direction, rotation_type),
{
    match direction {
        MinoDirection::North => match rotation_type {
            RotationType::Clockwise => vec![(0, 0), (-2, 0), (1, 0), (-2, -1), (1, 2)],
            RotationType::CounterClockwise => vec![(0, 0), (-1, 0), (2, 0), (-1, 2), (2, -1)],
            RotationType::Rotate180 => vec![(0, 0), (-1, 0), (-2, 0), (1, 0), (2, 0), (0, 1)],
        },
        MinoDirection::East => match rotation_type {
            RotationType::Clockwise => vec![(0, 0), (-1, 0), (2, 0), (-1, 2), (2, -1)],
            RotationType::CounterClockwise => vec![(0, 0), (2, 0), (-1, 0), (2, 1), (-1, -2)],
            RotationType::Rotate180 => vec![(0, 0), (0, 1), (0, 2), (0, -1), (0, -2), (-1, 0)],
        },
        MinoDirection::South => match rotation_type {
            RotationType::Clockwise => vec![(0, 0), (2, 0), (-1, 0), (2, 1), (-1, -2)],
            RotationType::CounterClockwise => vec![(0, 0), (1, 0), (-2, 0), (1, -2), (-2, 1)],
            RotationType::Rotate180 => vec![(0, 0), (1, 0), (2, 0), (-1, 0), (-2, 0), (0, -1)],
        },
        MinoDirection::West => match rotation_type {
            RotationType::Clockwise => vec![(0, 0), (1, 0), (-2, 0), (1, -2), (-2, 1)],
            RotationType::CounterClockwise => vec![(0, 0), (-2, 0), (1, 0), (-2, -1), (1, 2)],
            RotationType::Rotate180 => vec![(0, 0), (0, 1), (0, 2), (0, -1), (0, -2), (1, 0)],
        },
    }
}

/// Looks up the candidates that a rotation tries, first to last.
pub fn offsets_for(
    mino_type: MinoType,
    direction: MinoDirection,
    rotation_type: RotationType,
) -> (offsets: Vec<(i64, i64)>)
    ensures
        offset_seq(offsets@) == kick_offsets(mino_type, direction, rotation_type),
{
    match mino_type {
        MinoType::MinoI => long_bar_offsets(direction, rotation_type),
        _ => common_offsets(direction, rotation_type),
    }
}

/// Every list of candidates starts with the identity offset, and no candidate
/// moves a piece further than `MAX_KICK` along either axis.
pub proof fn lemma_kick_offsets_shape(
    mino_type: MinoType,
    direction: MinoDirection,
    rotation_type: RotationType,
)
    ensures
        kick_offsets(mino_type, direction, rotation_type).len() > 0,
        kick_offsets(mino_type, direction, rotation_type)[0] == (0int, 0int),
        forall|i: int|
            0 <= i < kick_offsets(mino_type, direction, rotation_type).len() ==> {
                let offset = #[trigger] kick_offsets(mino_type, direction, rotation_type)[i];
                -MAX_KICK <= offset.0 <= MAX_KICK && -MAX_KICK <= offset.1 <= MAX_KICK
            },
{
}

} // verus!
