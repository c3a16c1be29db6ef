//! What holds of every session: laws of the command rules.

use crate::garbage::{garbage_released, AttackedLine};
use crate::lines::{cleared, full_row_count};
use crate::manager::{LineClear, MovementCommand, TetrisManagerView};
use crate::mino::MinoState;
use crate::mino_laws::{lemma_move_keeps_fit, lemma_rotation_keeps_fit};
use crate::placement::fits;
use crate::queue::MinoQueueView;
use crate::shape::{MinoDirection, RotationType};
use vstd::prelude::*;

verus! {

/// After a move or a turn the piece in play still stands on the grid.
#[verifier::rlimit(40)]
pub proof fn lemma_piece_action_leaves_piece_standing(
    view: TetrisManagerView,
    command: MovementCommand,
)
    requires
        view.wf(),
        view.piece_stands(),
    ensures
        (TetrisManagerView { mino: view.moved(command), ..view }).piece_stands(),
{
    let limit = view.config.move_reset_limit;
    let mino = view.mino;
    let grid = view.grid;
    match command {
        MovementCommand::Left => {
            lemma_move_keeps_fit(mino, grid, mino.x - 1, mino.y as int, limit);
        },
        MovementCommand::Right => {
            lemma_move_keeps_fit(mino, grid, mino.x + 1, mino.y as int, limit);
        },
        MovementCommand::Down => {
            lemma_move_keeps_fit(mino, grid, mino.x as int, mino.y + 1, None);
        },
        MovementCommand::RotateClockWise => {
            lemma_rotation_keeps_fit(mino, grid, RotationType::Clockwise, limit);
        },
        MovementCommand::RotateCounterClockWise => {
            lemma_rotation_keeps_fit(mino, grid, RotationType::CounterClockwise, limit);
        },
        MovementCommand::Rotate180 => {
            lemma_rotation_keeps_fit(mino, grid, RotationType::Rotate180, limit);
        },
        _ => {},
    }
}

/// A hold that follows a hold, with no lock between them, changes nothing
/// unless the rules allow any number of holds: the piece in play, the hold
/// slot and the queue stay as they are.
pub proof fn lemma_second_hold_changes_nothing(view: TetrisManagerView, queue: MinoQueueView)
    requires
        view.playable(),
        view.has_held,
        !view.config.can_hold_infinity,
        view.queue_follows(MovementCommand::Hold, queue),
    ensures
        queue == view.queue,
        view.command_result(MovementCommand::Hold, queue) == (
            view,
            (Ok::<MinoState, ()>(view.mino.mino_state), None::<LineClear>),
        ),
{
}

/// A garbage line that comes in waits for the next lock: the field stays as
/// it is and the line joins the end of the waiting lines.
pub proof fn lemma_garbage_waits_for_the_lock(
    view: TetrisManagerView,
    line: AttackedLine,
    queue: MinoQueueView,
)
    requires
        view.playable(),
        view.queue_follows(MovementCommand::Attacked(line), queue),
    ensures
        queue == view.queue,
        view.command_result(MovementCommand::Attacked(line), queue) == (
            TetrisManagerView { stock: view.stock.push(line@), ..view },
            (Ok::<MinoState, ()>(view.mino.mino_state), None::<LineClear>),
        ),
{
}

/// A lock leaves no garbage waiting and allows the next hold. What it
/// reports names the locked shape and counts the rows that were full with the
/// piece on the grid; the waiting garbage comes in under the cleared grid.
pub proof fn lemma_lock_settles_the_field(view: TetrisManagerView, queue: MinoQueueView)
    ensures
        ({
            let (after, outcome) = view.lock_result(queue);
            let full = full_row_count(view.grid_with_piece());
            &&& after.stock.len() == 0
            &&& !after.has_held
            &&& after.queue == queue
            &&& after.grid == garbage_released(
                cleared(view.grid_with_piece(), view.width as int),
                view.stock,
                view.width as int,
            )
            &&& outcome.1 matches Some(clear)
            &&& clear.mino_type == view.mino.mino_type
            &&& clear.cleared_line_count is None <==> full == 0
            &&& clear.cleared_line_count matches Some(count) ==> count == full as usize
            &&& outcome.0 is Ok <==> fits(
                after.grid,
                queue.current,
                MinoDirection::North,
                view.config.spawn_point(queue.current).0,
                view.config.spawn_point(queue.current).1,
            )
        }),
{
}

} // verus!
