//! The falling piece: where it is, which way it faces, and the rules by which
//! it moves, turns, lands and locks.
//!
//! A piece never holds a reference to the field. Every operation is handed the
//! field it is played on, and its contract is stated over that field's grid.

use crate::cell::{grid_of, Cell, Field};
use crate::kick::{kick_offsets, lemma_kick_offsets_shape, offset_seq, offsets_for};
use crate::mino_laws::lemma_committed_placement;
use crate::placement::{
    addressable, fits, lemma_fitting_box_is_near, placement_fits, FIELD_SIDE_LIMIT,
};
use crate::shape::{HorizontalDirection, MinoDirection, MinoType, RotationType};
use vstd::prelude::*;

verus! {

/// How the falling piece stands with respect to the ground.
#[derive(Clone, Copy, Debug, PartialEq, Eq, Structural)]
pub enum MinoState {
    /// It can still move down.
    AirBorne,
    /// It touched down with the last committed placement.
    JustLanded,
    /// It has been resting since before the last action.
    Grounded,
}

/// The falling piece. `(x, y)` is the top-left corner of its 4×4 box; rows grow
/// downwards.
#[derive(Clone, Copy, Debug, PartialEq, Eq, Structural)]
pub struct Mino {
    pub x: i64,
    pub y: i64,
    /// The lowest row (largest `y`) the piece has reached so far.
    pub maximum_y: i64,
    pub mino_direction: MinoDirection,
    pub mino_type: MinoType,
    /// Whether a rotation tries the kick table; false for the square.
    pub does_rotate: bool,
    /// Placements committed since the piece last reached a new lowest row.
    pub move_reset_count: usize,
    pub mino_state: MinoState,
    pub should_be_locked: bool,
    pub is_last_move_spin: bool,
    pub is_last_move_mini_spin: bool,
}

/// The state of a piece just placed at `(x, y)`: airborne exactly if it could
/// go one row further down.
pub open spec fn landing_state(
    grid: Seq<Seq<Cell>>,
    mino_type: MinoType,
    direction: MinoDirection,
    x: int,
    y: int,
) -> MinoState {
    if fits(grid, mino_type, direction, x, y + 1) {
        MinoState::AirBorne
    } else {
        MinoState::JustLanded
    }
}

impl Mino {
    /// A piece remembers the lowest row it reached, which is never above the
    /// row it stands on.
    pub open spec fn wf(self) -> bool {
        self.y <= self.maximum_y
    }

    /// The piece after a status check: a piece that had just landed counts as
    /// grounded from now on.
    pub open spec fn status_checked(self) -> Mino {
        if self.mino_state == MinoState::JustLanded {
            Mino { mino_state: MinoState::Grounded, ..self }
        } else {
            self
        }
    }

    /// The piece with the marks of a spin taken off.
    pub open spec fn without_spin(self) -> Mino {
        Mino { is_last_move_spin: false, is_last_move_mini_spin: false, ..self }
    }

    /// Whether the move budget is exceeded: a limit is set and the counter is
    /// above it.
    pub open spec fn budget_exceeded(self, move_reset_limit: Option<usize>) -> bool {
        move_reset_limit matches Some(limit) && limit < self.move_reset_count
    }

    /// The piece with one more placement counted.
    pub open spec fn counted(self) -> Mino {
        Mino { move_reset_count: self.counted_once_more(), ..self }
    }

    /// The counter after one more placement; it stops at the largest value a
    /// `usize` holds.
    pub open spec fn counted_once_more(self) -> usize {
        if self.move_reset_count < usize::MAX {
            (self.move_reset_count + 1) as usize
        } else {
            self.move_reset_count
        }
    }

    /// The piece placed at `(x, y)` in facing `direction`, with the given
    /// counter and lock flag; its state says whether it can fall further.
    pub open spec fn placed(
        self,
        grid: Seq<Seq<Cell>>,
        x: int,
        y: int,
        direction: MinoDirection,
        move_reset_count: usize,
        should_be_locked: bool,
    ) -> Mino {
        Mino {
            x: x as i64,
            y: y as i64,
            mino_direction: direction,
            maximum_y: if self.maximum_y < y {
                y as i64
            } else {
                self.maximum_y
            },
            move_reset_count,
            should_be_locked,
            mino_state: landing_state(grid, self.mino_type, direction, x, y),
            ..self
        }
    }

    /// What an attempt to place the piece at `(x, y)` in facing `direction`
    /// leads to: the piece afterwards, and whether the placement was committed.
    ///
    /// The status check comes first and stays, whatever follows. An illegal
    /// placement fails and counts for nothing. A placement below the lowest
    /// row reached so far resets the counter and the lock flag. Any other
    /// placement is counted; if the counter then exceeds the limit, the piece
    /// asks for a lock, and the placement fails unless the piece is airborne.
    pub open spec fn replace_result(
        self,
        grid: Seq<Seq<Cell>>,
        x: int,
        y: int,
        direction: MinoDirection,
        move_reset_limit: Option<usize>,
    ) -> (Mino, bool) {
        let checked = self.status_checked();
        let counted = checked.counted();
        if !fits(grid, self.mino_type, direction, x, y) {
            (checked, false)
        } else if self.maximum_y < y {
            (checked.placed(grid, x, y, direction, 0, false), true)
        } else if counted.budget_exceeded(move_reset_limit) && counted.mino_state
            != MinoState::AirBorne {
            (Mino { should_be_locked: true, ..counted }, false)
        } else {
            (
                counted.placed(
                    grid,
                    x,
                    y,
                    direction,
                    counted.move_reset_count,
                    self.should_be_locked || counted.budget_exceeded(move_reset_limit),
                ),
                true,
            )
        }
    }

    /// Turns a stale `JustLanded` into `Grounded`.
    pub fn check_mino_status(&mut self)
        ensures
            *final(self) == old(self).status_checked(),
    {
        if self.mino_state == MinoState::JustLanded {
            self.mino_state = MinoState::Grounded;
        }
    }

    /// Takes the marks of a spin off the piece.
    pub fn last_move_is_not_spin(&mut self)
        ensures
            *final(self) == old(self).without_spin(),
    {
        self.is_last_move_spin = false;
        self.is_last_move_mini_spin = false;
    }

    /// Whether the piece would fit at `(x, y)` in facing `mino_direction`.
    pub fn can_replace(&self, x: i64, y: i64, mino_direction: MinoDirection, field: &Field) -> (free:
        bool)
        ensures
            free == fits(grid_of(field), self.mino_type, mino_direction, x as int, y as int),
    {
        placement_fits(field, self.mino_type, mino_direction, x as i128, y as i128)
    }

    /// Whether the piece could go one row further down.
    pub fn can_down(&self, field: &Field) -> (free: bool)
        ensures
            free == fits(
                grid_of(field),
                self.mino_type,
                self.mino_direction,
                self.x as int,
                self.y + 1,
            ),
    {
        placement_fits(
            field,
            self.mino_type,
            self.mino_direction,
            self.x as i128,
            self.y as i128 + 1,
        )
    }

    /// Tries to place the piece at `(x, y)` in facing `mino_direction`, and
    /// says whether the placement was committed.
    fn replace(
        &mut self,
        x: i128,
        y: i128,
        mino_direction: MinoDirection,
        field: &Field,
        move_reset_limit: Option<usize>,
    ) -> (committed: bool)
        requires
            addressable(grid_of(field)),
            i64::MIN - 4 <= x <= i64::MAX + 4,
            i64::MIN - 4 <= y <= i64::MAX + 4,
        ensures
            (*final(self), committed) == old(self).replace_result(
                grid_of(field),
                x as int,
                y as int,
                mino_direction,
                move_reset_limit,
            ),
    {
        self.check_mino_status();
        if !placement_fits(field, self.mino_type, mino_direction, x, y) {
            return false;
        }
        proof {
            lemma_fitting_box_is_near(grid_of(field), self.mino_type, mino_direction, x as int, y as int);
        }
        if (self.maximum_y as i128) < y {
            self.move_reset_count = 0;
            self.should_be_locked = false;
        } else {
            if self.move_reset_count < usize::MAX {
                self.move_reset_count += 1;
            }
            if let Some(limit) = move_reset_limit {
                if limit < self.move_reset_count {
                    self.should_be_locked = true;
                    if self.mino_state != MinoState::AirBorne {
                        return false;
                    }
                }
            }
        }
        self.x = x as i64;
        self.y = y as i64;
        self.mino_direction = mino_direction;
        if self.maximum_y < self.y {
            self.maximum_y = self.y;
        }
        self.mino_state = if self.can_down(field) {
            MinoState::AirBorne
        } else {
            MinoState::JustLanded
        };
        true
    }
}

impl HorizontalDirection {
    /// The change of column that the step makes.
    pub open spec fn delta(self) -> int {
        match self {
            HorizontalDirection::Left => -1,
            HorizontalDirection::Right => 1,
        }
    }
}

impl Mino {
    /// The piece as it is spawned at `(x, y)`: facing north, counters at zero,
    /// its state says whether it can fall.
    pub open spec fn spawned(grid: Seq<Seq<Cell>>, mino_type: MinoType, x: int, y: int) -> Mino {
        Mino {
            x: x as i64,
            y: y as i64,
            maximum_y: y as i64,
            mino_direction: MinoDirection::North,
            mino_type,
            does_rotate: mino_type != MinoType::MinoO,
            move_reset_count: 0,
            mino_state: landing_state(grid, mino_type, MinoDirection::North, x, y),
            should_be_locked: false,
            is_last_move_spin: false,
            is_last_move_mini_spin: false,
        }
    }

    /// A piece that only marks where a shape would appear: it faces north at
    /// `(x, y)` and nothing is known of the field around it.
    pub open spec fn preview(mino_type: MinoType, x: int, y: int) -> Mino {
        Mino {
            x: x as i64,
            y: y as i64,
            maximum_y: y as i64,
            mino_direction: MinoDirection::North,
            mino_type,
            does_rotate: false,
            move_reset_count: 0,
            mino_state: MinoState::AirBorne,
            should_be_locked: false,
            is_last_move_spin: false,
            is_last_move_mini_spin: false,
        }
    }

    /// What a move to `(x, y)` without a turn leads to: a placement that, if
    /// committed, takes the marks of a spin off.
    pub open spec fn move_result(
        self,
        grid: Seq<Seq<Cell>>,
        x: int,
        y: int,
        move_reset_limit: Option<usize>,
    ) -> (Mino, bool) {
        let (moved, committed) = self.replace_result(
            grid,
            x,
            y,
            self.mino_direction,
            move_reset_limit,
        );
        if committed {
            (moved.without_spin(), true)
        } else {
            (moved, false)
        }
    }

    /// What a step to the side leads to.
    pub open spec fn horizontal_move_result(
        self,
        grid: Seq<Seq<Cell>>,
        horizontal_direction: HorizontalDirection,
        move_reset_limit: Option<usize>,
    ) -> (Mino, bool) {
        self.move_result(grid, self.x + horizontal_direction.delta(), self.y as int, move_reset_limit)
    }

    /// What a step down leads to. No budget applies to it.
    pub open spec fn down_result(self, grid: Seq<Seq<Cell>>) -> (Mino, bool) {
        self.move_result(grid, self.x as int, self.y + 1, None)
    }

    /// The offsets that a rotation of this piece tries: those of the kick
    /// table, or the identity alone for a piece that does not rotate.
    pub open spec fn kick_candidates(self, rotation_type: RotationType) -> Seq<(int, int)> {
        if self.does_rotate {
            kick_offsets(self.mino_type, self.mino_direction, rotation_type)
        } else {
            seq![(0int, 0int)]
        }
    }

    /// What trying the candidates in order leads to. The first candidate whose
    /// placement is committed ends the search, and the piece gets its spin
    /// marks. A candidate that fails leaves the piece where it is, with what
    /// the failed placement did to its state and lock flag.
    pub open spec fn kick_search(
        self,
        grid: Seq<Seq<Cell>>,
        target: MinoDirection,
        move_reset_limit: Option<usize>,
        candidates: Seq<(int, int)>,
    ) -> (Mino, bool)
        decreases candidates.len(),
    {
        if candidates.len() == 0 {
            (self, false)
        } else {
            let (tried, committed) = self.replace_result(
                grid,
                self.x + candidates[0].0,
                self.y - candidates[0].1,
                target,
                move_reset_limit,
            );
            if committed {
                (tried.spin_marked(grid), true)
            } else {
                tried.kick_search(grid, target, move_reset_limit, candidates.drop_first())
            }
        }
    }

    /// What a rotation leads to.
    pub open spec fn rotate_result(
        self,
        grid: Seq<Seq<Cell>>,
        rotation_type: RotationType,
        move_reset_limit: Option<usize>,
    ) -> (Mino, bool) {
        self.kick_search(
            grid,
            self.mino_direction.turned(rotation_type.quarter_turns()),
            move_reset_limit,
            self.kick_candidates(rotation_type),
        )
    }

    /// The piece after a hard drop: it steps down for as long as a step is
    /// committed, and the step that fails leaves its status check behind.
    pub open spec fn dropped(self, grid: Seq<Seq<Cell>>) -> Mino
        decreases grid.len() - self.y,
    {
        let (after, moved) = self.down_result(grid);
        if moved && self.y + 1 < grid.len() && grid.len() <= FIELD_SIDE_LIMIT {
            after.dropped(grid)
        } else {
            after
        }
    }

    /// Spawns a piece of shape `mino_type` with its box at `(x, y)`, or fails
    /// if it does not fit there.
    pub fn new(mino_type: MinoType, x: i64, y: i64, field: &Field) -> (made: Result<Mino, ()>)
        ensures
            made is Ok <==> fits(grid_of(field), mino_type, MinoDirection::North, x as int, y as int),
            made is Ok ==> made->Ok_0 == Mino::spawned(grid_of(field), mino_type, x as int, y as int),
    {
        let mut template = Mino::new_for_preview_next_mino(mino_type, x, y);
        if !template.can_replace(x, y, template.mino_direction, field) {
            return Err(());
        }
        template.mino_state = if template.can_down(field) {
            MinoState::AirBorne
        } else {
            MinoState::JustLanded
        };
        match mino_type {
            MinoType::MinoO => {},
            _ => {
                template.does_rotate = true;
            },
        }
        Ok(template)
    }

    /// A piece that only marks where a shape would appear.
    pub fn new_for_preview_next_mino(mino_type: MinoType, x: i64, y: i64) -> (made: Mino)
        ensures
            made == Mino::preview(mino_type, x as int, y as int),
    {
        Mino {
            x,
            y,
            maximum_y: y,
            mino_direction: MinoDirection::North,
            mino_type,
            does_rotate: false,
            move_reset_count: 0,
            mino_state: MinoState::AirBorne,
            should_be_locked: false,
            is_last_move_spin: false,
            is_last_move_mini_spin: false,
        }
    }

    /// Steps one column to the side, if the rules allow it.
    pub fn horizontal_move(
        &mut self,
        horizontal_direction: HorizontalDirection,
        field: &Field,
        move_reset_limit: Option<usize>,
    ) -> (moved: bool)
        requires
            addressable(grid_of(field)),
        ensures
            (*final(self), moved) == old(self).horizontal_move_result(
                grid_of(field),
                horizontal_direction,
                move_reset_limit,
            ),
    {
        let step: i128 = match horizontal_direction {
            HorizontalDirection::Left => -1,
            HorizontalDirection::Right => 1,
        };
        let moved = self.replace(
            self.x as i128 + step,
            self.y as i128,
            self.mino_direction,
            field,
            move_reset_limit,
        );
        if moved {
            self.last_move_is_not_spin();
        }
        moved
    }

    /// Steps one row down, if the placement is legal.
    pub fn down(&mut self, field: &Field) -> (moved: bool)
        requires
            addressable(grid_of(field)),
        ensures
            (*final(self), moved) == old(self).down_result(grid_of(field)),
    {
        let moved = self.replace(
            self.x as i128,
            self.y as i128 + 1,
            self.mino_direction,
            field,
            None,
        );
        if moved {
            self.last_move_is_not_spin();
        }
        moved
    }

    /// Drops the piece as far as it goes, one step at a time.
    pub fn hard_drop(&mut self, field: &Field)
        requires
            addressable(grid_of(field)),
        ensures
            *final(self) == old(self).dropped(grid_of(field)),
    {
        loop
            invariant
                addressable(grid_of(field)),
                old(self).dropped(grid_of(field)) == self.dropped(grid_of(field)),
            ensures
                *self == old(self).dropped(grid_of(field)),
            decreases grid_of(field).len() - self.y,
        {
            proof {
                if self.down_result(grid_of(field)).1 {
                    lemma_committed_placement(
                        *self,
                        grid_of(field),
                        self.x as int,
                        self.y + 1,
                        self.mino_direction,
                        None,
                    );
                    lemma_fitting_box_is_near(
                        grid_of(field),
                        self.mino_type,
                        self.mino_direction,
                        self.x as int,
                        self.y + 1,
                    );
                }
            }
            if !self.down(field) {
                break ;
            }
        }
    }

    /// Turns the piece, trying the kick candidates in order, and says whether
    /// one of them was committed.
    pub fn rotate(
        &mut self,
        rotation_type: RotationType,
        field: &Field,
        move_reset_limit: Option<usize>,
    ) -> (rotated: bool)
        requires
            addressable(grid_of(field)),
        ensures
            (*final(self), rotated) == old(self).rotate_result(
                grid_of(field),
                rotation_type,
                move_reset_limit,
            ),
    {
        let offsets: Vec<(i64, i64)> = if self.does_rotate {
            offsets_for(self.mino_type, self.mino_direction, rotation_type)
        } else {
            vec![(0, 0)]
        };
        let target = self.mino_direction.rotate(rotation_type);
        let ghost candidates = old(self).kick_candidates(rotation_type);
        proof {
            lemma_kick_offsets_shape(self.mino_type, self.mino_direction, rotation_type);
            assert(offset_seq(offsets@) =~= candidates);
            assert(candidates.skip(0) =~= candidates);
        }
        let mut i: usize = 0;
        while i < offsets.len()
            invariant
                i <= offsets.len(),
                addressable(grid_of(field)),
                offset_seq(offsets@) == candidates,
                forall|k: int|
                    0 <= k < candidates.len() ==> -3 <= (#[trigger] candidates[k]).0 <= 3 && -3
                        <= candidates[k].1 <= 3,
                old(self).rotate_result(grid_of(field), rotation_type, move_reset_limit)
                    == self.kick_search(
                    grid_of(field),
                    target,
                    move_reset_limit,
                    candidates.skip(i as int),
                ),
            decreases offsets.len() - i,
        {
            let offset = offsets[i];
            proof {
                assert(candidates[i as int] == (offset.0 as int, offset.1 as int));
                assert(candidates.skip(i as int)[0] == candidates[i as int]);
                assert(candidates.skip(i as int).drop_first() =~= candidates.skip(i + 1));
            }
            if self.replace(
                self.x as i128 + offset.0 as i128,
                self.y as i128 - offset.1 as i128,
                target,
                field,
                move_reset_limit,
            ) {
                proof {
                    lemma_fitting_box_is_near(
                        grid_of(field),
                        self.mino_type,
                        self.mino_direction,
                        self.x as int,
                        self.y as int,
                    );
                }
                self.mark_spin(field);
                return true;
            }
            i += 1;
        }
        false
    }
}

impl Default for Mino {
    /// A square at the top-left corner, airborne, with nothing counted.
    fn default() -> (made: Mino)
        ensures
            made == Mino::preview(MinoType::MinoO, 0, 0),
    {
        Mino::new_for_preview_next_mino(MinoType::MinoO, 0, 0)
    }
}

} // verus!
