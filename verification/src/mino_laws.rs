//! What holds of every piece: laws of placement, kicks and lock delay.

use crate::cell::Cell;
use crate::mino::{Mino, MinoState};
use crate::placement::{addressable, fits, landing_row, lemma_fitting_box_is_near};
use crate::shape::{HorizontalDirection, MinoDirection, MinoType, RotationType};
use vstd::prelude::*;

verus! {

impl Mino {
    /// A piece is frozen when it is not airborne and one more placement
    /// would exceed its move budget. A piece that is not airborne with its
    /// budget exceeded is frozen.
    pub open spec fn frozen(self, move_reset_limit: Option<usize>) -> bool {
        self.counted().budget_exceeded(move_reset_limit) && self.mino_state != MinoState::AirBorne
    }

    /// The state of the piece tells the truth about the grid: the piece is
    /// airborne exactly if it fits one row further down.
    pub open spec fn state_agrees(self, grid: Seq<Seq<Cell>>) -> bool {
        self.mino_state == MinoState::AirBorne <==> fits(
            grid,
            self.mino_type,
            self.mino_direction,
            self.x as int,
            self.y + 1,
        )
    }

    /// Whether two pieces stand at the same place, have the same shape and
    /// have reached the same lowest row.
    pub open spec fn rests_like(self, other: Mino) -> bool {
        &&& self.x == other.x
        &&& self.y == other.y
        &&& self.mino_direction == other.mino_direction
        &&& self.mino_type == other.mino_type
        &&& self.does_rotate == other.does_rotate
        &&& self.maximum_y == other.maximum_y
    }
}

/// Whether the piece stands on a legal placement of the grid and its state
/// tells whether it can fall.
pub open spec fn stands_on(mino: Mino, grid: Seq<Seq<Cell>>) -> bool {
    &&& fits(grid, mino.mino_type, mino.mino_direction, mino.x as int, mino.y as int)
    &&& mino.state_agrees(grid)
}

/// A status check never changes a piece twice in a row: after one check a
/// second one leaves the piece as it is, so `JustLanded` turns into
/// `Grounded` at most once.
pub proof fn lemma_status_check_is_idempotent(mino: Mino)
    ensures
        mino.status_checked().status_checked() == mino.status_checked(),
        mino.status_checked().mino_state != MinoState::JustLanded,
        mino.mino_state != MinoState::JustLanded ==> mino.status_checked() == mino,
{
}

/// A committed placement is legal, keeps the piece well formed, and leaves the
/// piece airborne exactly if it can fall further. A placement below the
/// lowest row reached so far starts a fresh move budget.
pub proof fn lemma_committed_placement(
    mino: Mino,
    grid: Seq<Seq<Cell>>,
    x: int,
    y: int,
    direction: MinoDirection,
    move_reset_limit: Option<usize>,
)
    requires
        addressable(grid),
        mino.replace_result(grid, x, y, direction, move_reset_limit).1,
    ensures
        ({
            let after = mino.replace_result(grid, x, y, direction, move_reset_limit).0;
            &&& fits(grid, mino.mino_type, direction, x, y)
            &&& after.x == x && after.y == y && after.mino_direction == direction
            &&& after.wf()
            &&& after.mino_state == MinoState::AirBorne <==> fits(
                grid,
                mino.mino_type,
                direction,
                x,
                y + 1,
            )
            &&& mino.maximum_y < y ==> after.move_reset_count == 0 && !after.should_be_locked
        }),
{
    lemma_fitting_box_is_near(grid, mino.mino_type, direction, x, y);
}

/// A placement that is not committed leaves the piece where it was; only its
/// state, its counter and its lock flag may differ, and the counter never
/// goes down.
pub proof fn lemma_failed_placement(
    mino: Mino,
    grid: Seq<Seq<Cell>>,
    x: int,
    y: int,
    direction: MinoDirection,
    move_reset_limit: Option<usize>,
)
    requires
        !mino.replace_result(grid, x, y, direction, move_reset_limit).1,
    ensures
        ({
            let after = mino.replace_result(grid, x, y, direction, move_reset_limit).0;
            &&& after.rests_like(mino)
            &&& after.mino_state == mino.status_checked().mino_state
            &&& after.is_last_move_spin == mino.is_last_move_spin
            &&& after.is_last_move_mini_spin == mino.is_last_move_mini_spin
            &&& after.move_reset_count >= mino.move_reset_count
            &&& mino.should_be_locked ==> after.should_be_locked
        }),
{
}

/// A piece that was just spawned stands on a legal placement and its state
/// tells whether it can fall.
pub proof fn lemma_spawned_piece_stands(
    grid: Seq<Seq<Cell>>,
    mino_type: MinoType,
    x: int,
    y: int,
)
    requires
        addressable(grid),
        fits(grid, mino_type, MinoDirection::North, x, y),
    ensures
        ({
            let mino = Mino::spawned(grid, mino_type, x, y);
            &&& fits(grid, mino.mino_type, mino.mino_direction, mino.x as int, mino.y as int)
            &&& mino.state_agrees(grid)
            &&& mino.wf()
        }),
{
    lemma_fitting_box_is_near(grid, mino_type, MinoDirection::North, x, y);
}

/// A placement, committed or not, leaves a piece that stands on the grid
/// standing on it.
pub proof fn lemma_placement_keeps_fit(
    mino: Mino,
    grid: Seq<Seq<Cell>>,
    x: int,
    y: int,
    direction: MinoDirection,
    move_reset_limit: Option<usize>,
)
    requires
        addressable(grid),
        stands_on(mino, grid),
    ensures
        stands_on(mino.replace_result(grid, x, y, direction, move_reset_limit).0, grid),
        mino.replace_result(grid, x, y, direction, move_reset_limit).0.mino_type == mino.mino_type,
{
    if mino.replace_result(grid, x, y, direction, move_reset_limit).1 {
        lemma_committed_placement(mino, grid, x, y, direction, move_reset_limit);
    } else {
        lemma_failed_placement(mino, grid, x, y, direction, move_reset_limit);
    }
}

/// A move leaves a piece that stands on the grid standing on it.
pub proof fn lemma_move_keeps_fit(
    mino: Mino,
    grid: Seq<Seq<Cell>>,
    x: int,
    y: int,
    move_reset_limit: Option<usize>,
)
    requires
        addressable(grid),
        stands_on(mino, grid),
    ensures
        stands_on(mino.move_result(grid, x, y, move_reset_limit).0, grid),
{
    lemma_placement_keeps_fit(mino, grid, x, y, mino.mino_direction, move_reset_limit);
}

/// A search through kick candidates leaves a piece that stands on the grid
/// standing on it.
pub proof fn lemma_kick_search_keeps_fit(
    mino: Mino,
    grid: Seq<Seq<Cell>>,
    target: MinoDirection,
    move_reset_limit: Option<usize>,
    candidates: Seq<(int, int)>,
)
    requires
        addressable(grid),
        stands_on(mino, grid),
    ensures
        stands_on(mino.kick_search(grid, target, move_reset_limit, candidates).0, grid),
    decreases candidates.len(),
{
    if candidates.len() > 0 {
        let x = mino.x + candidates[0].0;
        let y = mino.y - candidates[0].1;
        lemma_placement_keeps_fit(mino, grid, x, y, target, move_reset_limit);
        let (tried, committed) = mino.replace_result(grid, x, y, target, move_reset_limit);
        if !committed {
            lemma_kick_search_keeps_fit(
                tried,
                grid,
                target,
                move_reset_limit,
                candidates.drop_first(),
            );
        }
    }
}

/// A rotation leaves a piece that stands on the grid standing on it.
pub proof fn lemma_rotation_keeps_fit(
    mino: Mino,
    grid: Seq<Seq<Cell>>,
    rotation_type: RotationType,
    move_reset_limit: Option<usize>,
)
    requires
        addressable(grid),
        stands_on(mino, grid),
    ensures
        stands_on(mino.rotate_result(grid, rotation_type, move_reset_limit).0, grid),
{
    lemma_kick_search_keeps_fit(
        mino,
        grid,
        mino.mino_direction.turned(rotation_type.quarter_turns()),
        move_reset_limit,
        mino.kick_candidates(rotation_type),
    );
}

/// On a piece that is not frozen, a placement is committed exactly if it is
/// legal; the budget never stops a piece that is airborne. A failed placement
/// leaves the piece not frozen.
pub proof fn lemma_free_piece_goes_where_it_fits(
    mino: Mino,
    grid: Seq<Seq<Cell>>,
    x: int,
    y: int,
    direction: MinoDirection,
    move_reset_limit: Option<usize>,
)
    requires
        !mino.frozen(move_reset_limit),
    ensures
        ({
            let (after, committed) = mino.replace_result(grid, x, y, direction, move_reset_limit);
            &&& committed <==> fits(grid, mino.mino_type, direction, x, y)
            &&& !committed ==> !after.frozen(move_reset_limit) && after == mino.status_checked()
        }),
{
}

/// On a piece that is not frozen, a search through kick candidates commits
/// the first candidate whose placement is legal, and marks the spin that the
/// placement earns.
pub proof fn lemma_kick_search_takes_first_fit(
    mino: Mino,
    grid: Seq<Seq<Cell>>,
    target: MinoDirection,
    move_reset_limit: Option<usize>,
    candidates: Seq<(int, int)>,
    first: int,
)
    requires
        !mino.frozen(move_reset_limit),
        0 <= first < candidates.len(),
        fits(
            grid,
            mino.mino_type,
            target,
            mino.x + candidates[first].0,
            mino.y - candidates[first].1,
        ),
        forall|k: int|
            0 <= k < first ==> !fits(
                grid,
                mino.mino_type,
                target,
                mino.x + (#[trigger] candidates[k]).0,
                mino.y - candidates[k].1,
            ),
    ensures
        mino.kick_search(grid, target, move_reset_limit, candidates) == (
            mino.replace_result(
                grid,
                mino.x + candidates[first].0,
                mino.y - candidates[first].1,
                target,
                move_reset_limit,
            ).0.spin_marked(grid),
            true,
        ),
    decreases candidates.len(),
{
    let x = mino.x + candidates[0].0;
    let y = mino.y - candidates[0].1;
    lemma_free_piece_goes_where_it_fits(mino, grid, x, y, target, move_reset_limit);
    if first > 0 {
        let tried = mino.replace_result(grid, x, y, target, move_reset_limit).0;
        let rest = candidates.drop_first();
        assert(rest[first - 1] == candidates[first]);
        assert forall|k: int| 0 <= k < first - 1 implies !fits(
            grid,
            tried.mino_type,
            target,
            tried.x + (#[trigger] rest[k]).0,
            tried.y - rest[k].1,
        ) by {
            assert(rest[k] == candidates[k + 1]);
        }
        lemma_kick_search_takes_first_fit(tried, grid, target, move_reset_limit, rest, first - 1);
        lemma_status_check_is_idempotent(mino);
        assert(tried.replace_result(
            grid,
            tried.x + rest[first - 1].0,
            tried.y - rest[first - 1].1,
            target,
            move_reset_limit,
        ) == mino.replace_result(
            grid,
            mino.x + candidates[first].0,
            mino.y - candidates[first].1,
            target,
            move_reset_limit,
        ));
    }
}

/// Where no candidate's placement is legal, a search through kick candidates
/// commits nothing: the piece stays as it is but for the status check.
pub proof fn lemma_kick_search_fails_without_fit(
    mino: Mino,
    grid: Seq<Seq<Cell>>,
    target: MinoDirection,
    move_reset_limit: Option<usize>,
    candidates: Seq<(int, int)>,
)
    requires
        candidates.len() > 0,
        forall|k: int|
            0 <= k < candidates.len() ==> !fits(
                grid,
                mino.mino_type,
                target,
                mino.x + (#[trigger] candidates[k]).0,
                mino.y - candidates[k].1,
            ),
    ensures
        mino.kick_search(grid, target, move_reset_limit, candidates) == (
            mino.status_checked(),
            false,
        ),
    decreases candidates.len(),
{
    let rest = candidates.drop_first();
    let tried = mino.status_checked();
    assert(mino.replace_result(
        grid,
        mino.x + candidates[0].0,
        mino.y - candidates[0].1,
        target,
        move_reset_limit,
    ) == (tried, false));
    lemma_status_check_is_idempotent(mino);
    if rest.len() > 0 {
        assert forall|k: int| 0 <= k < rest.len() implies !fits(
            grid,
            tried.mino_type,
            target,
            tried.x + (#[trigger] rest[k]).0,
            tried.y - rest[k].1,
        ) by {
            assert(rest[k] == candidates[k + 1]);
        }
        lemma_kick_search_fails_without_fit(tried, grid, target, move_reset_limit, rest);
    } else {
        assert(tried.kick_search(grid, target, move_reset_limit, rest) == (tried, false));
    }
}

/// A piece whose move budget is exceeded while it is not airborne is frozen.
pub proof fn lemma_exceeded_budget_freezes(mino: Mino, move_reset_limit: Option<usize>)
    requires
        mino.budget_exceeded(move_reset_limit),
        mino.mino_state != MinoState::AirBorne,
    ensures
        mino.frozen(move_reset_limit),
{
}

/// On a frozen piece no placement at or above the lowest row reached so far
/// is committed, and the piece stays frozen where it is.
pub proof fn lemma_frozen_piece_stays(
    mino: Mino,
    grid: Seq<Seq<Cell>>,
    x: int,
    y: int,
    direction: MinoDirection,
    move_reset_limit: Option<usize>,
)
    requires
        mino.frozen(move_reset_limit),
        y <= mino.maximum_y,
    ensures
        ({
            let (after, committed) = mino.replace_result(grid, x, y, direction, move_reset_limit);
            &&& !committed
            &&& after.frozen(move_reset_limit)
            &&& after.rests_like(mino)
        }),
{
}

/// Once the move budget is exceeded on a piece that is not airborne, no step
/// to the side succeeds, and the piece is as frozen afterwards as before.
pub proof fn lemma_frozen_piece_cannot_shift(
    mino: Mino,
    grid: Seq<Seq<Cell>>,
    horizontal_direction: HorizontalDirection,
    move_reset_limit: Option<usize>,
)
    requires
        mino.wf(),
        mino.frozen(move_reset_limit),
    ensures
        ({
            let (after, moved) = mino.horizontal_move_result(
                grid,
                horizontal_direction,
                move_reset_limit,
            );
            &&& !moved
            &&& after.frozen(move_reset_limit)
            &&& after.rests_like(mino)
            &&& after.wf()
        }),
{
    lemma_frozen_piece_stays(
        mino,
        grid,
        mino.x + horizontal_direction.delta(),
        mino.y as int,
        mino.mino_direction,
        move_reset_limit,
    );
}

/// On a frozen piece a search through kick candidates either commits a
/// placement below the lowest row that the piece had reached, or commits
/// nothing and leaves the piece frozen where it is.
pub proof fn lemma_frozen_kick_search(
    mino: Mino,
    grid: Seq<Seq<Cell>>,
    target: MinoDirection,
    move_reset_limit: Option<usize>,
    candidates: Seq<(int, int)>,
)
    requires
        addressable(grid),
        mino.frozen(move_reset_limit),
    ensures
        ({
            let (after, rotated) = mino.kick_search(grid, target, move_reset_limit, candidates);
            &&& rotated ==> after.y > mino.maximum_y
            &&& !rotated ==> after.frozen(move_reset_limit) && after.rests_like(mino)
        }),
    decreases candidates.len(),
{
    if candidates.len() > 0 {
        let x = mino.x + candidates[0].0;
        let y = mino.y - candidates[0].1;
        let (tried, committed) = mino.replace_result(grid, x, y, target, move_reset_limit);
        if committed {
            lemma_committed_placement(mino, grid, x, y, target, move_reset_limit);
            if y <= mino.maximum_y {
                lemma_frozen_piece_stays(mino, grid, x, y, target, move_reset_limit);
            }
        } else {
            lemma_failed_placement(mino, grid, x, y, target, move_reset_limit);
            assert(tried.frozen(move_reset_limit));
            lemma_frozen_kick_search(
                tried,
                grid,
                target,
                move_reset_limit,
                candidates.drop_first(),
            );
        }
    }
}

/// Once the move budget is exceeded on a piece that is not airborne, a
/// rotation succeeds only by a kick that takes the piece below the lowest row
/// it had reached; otherwise it fails and the piece stays frozen where it is.
pub proof fn lemma_frozen_piece_cannot_turn_in_place(
    mino: Mino,
    grid: Seq<Seq<Cell>>,
    rotation_type: RotationType,
    move_reset_limit: Option<usize>,
)
    requires
        addressable(grid),
        mino.frozen(move_reset_limit),
    ensures
        ({
            let (after, rotated) = mino.rotate_result(grid, rotation_type, move_reset_limit);
            &&& rotated ==> after.y > mino.maximum_y
            &&& !rotated ==> after.frozen(move_reset_limit) && after.rests_like(mino)
        }),
{
    lemma_frozen_kick_search(
        mino,
        grid,
        mino.mino_direction.turned(rotation_type.quarter_turns()),
        move_reset_limit,
        mino.kick_candidates(rotation_type),
    );
}

/// A step that is not committed leaves a piece that fits where it fits, and
/// a step down that is committed puts it on a row where it fits.
pub proof fn lemma_step_down_keeps_fit(mino: Mino, grid: Seq<Seq<Cell>>)
    requires
        addressable(grid),
        fits(grid, mino.mino_type, mino.mino_direction, mino.x as int, mino.y as int),
    ensures
        ({
            let (after, moved) = mino.down_result(grid);
            &&& fits(grid, after.mino_type, after.mino_direction, after.x as int, after.y as int)
            &&& after.mino_type == mino.mino_type
            &&& after.mino_direction == mino.mino_direction
            &&& after.x == mino.x
            &&& moved <==> fits(grid, mino.mino_type, mino.mino_direction, mino.x as int, mino.y + 1)
            &&& after.y == if moved {
                mino.y + 1
            } else {
                mino.y as int
            }
        }),
{
    if mino.down_result(grid).1 {
        lemma_committed_placement(
            mino,
            grid,
            mino.x as int,
            mino.y + 1,
            mino.mino_direction,
            None,
        );
    }
}

/// A hard drop takes a piece that fits straight down to the row it lands
/// on. There it fits, it cannot go further down, and it is not airborne.
pub proof fn lemma_hard_drop_lands(mino: Mino, grid: Seq<Seq<Cell>>)
    requires
        addressable(grid),
        fits(grid, mino.mino_type, mino.mino_direction, mino.x as int, mino.y as int),
    ensures
        ({
            let after = mino.dropped(grid);
            &&& after.x == mino.x
            &&& after.mino_type == mino.mino_type
            &&& after.mino_direction == mino.mino_direction
            &&& after.y == landing_row(
                grid,
                mino.mino_type,
                mino.mino_direction,
                mino.x as int,
                mino.y as int,
            )
            &&& fits(grid, after.mino_type, after.mino_direction, after.x as int, after.y as int)
            &&& !fits(grid, after.mino_type, after.mino_direction, after.x as int, after.y + 1)
            &&& mino.state_agrees(grid) ==> after.state_agrees(grid)
        }),
    decreases grid.len() - mino.y,
{
    lemma_step_down_keeps_fit(mino, grid);
    lemma_fitting_box_is_near(grid, mino.mino_type, mino.mino_direction, mino.x as int, mino.y as int);
    let (after, moved) = mino.down_result(grid);
    if moved {
        lemma_fitting_box_is_near(
            grid,
            mino.mino_type,
            mino.mino_direction,
            mino.x as int,
            mino.y + 1,
        );
        lemma_hard_drop_lands(after, grid);
    } else {
        assert(mino.dropped(grid) == after);
    }
}

} // verus!
