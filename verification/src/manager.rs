//! The game session: one field, one falling piece, one queue, and the
//! commands that drive them.
//!
//! Contracts speak of the session's view. What a command does to the field and
//! to the piece is a function of the view before it. Which pieces the queue
//! deals is not; there the contracts take the queue as it came out and say how
//! it follows from the queue before.

use crate::cell::{
    copy_field, create_empty_field, empty_grid, grid_is_free, grid_of, is_free_field, is_full_row,
    rectangular, row_is_free, without_row, Cell, Field,
};
use crate::config::TetrisConfig;
use crate::draw::{flagged_grid_of, lemma_lock_round_trip, FieldWithNextMinoWillSpawn};
use crate::garbage::{
    garbage_released, inject_garbage, lemma_garbage_keeps_shape, stock_fits_width, stock_view,
    AttackedLine, AttackedLineView,
};
use crate::lines::{
    cleared, delete_row, full_row_count, kept_rows, lemma_cleared_keeps_shape, lemma_kept_rows_len,
};
use crate::mino::{Mino, MinoState};
use crate::mino_laws::{lemma_hard_drop_lands, lemma_spawned_piece_stands, stands_on};
use crate::placement::{
    addressable, fits, lemma_box_on_empty_grid_fits, lemma_fitting_box_is_near, FIELD_SIDE_LIMIT,
};
use crate::queue::{MinoQueue, MinoQueueView};
use crate::session_laws::lemma_piece_action_leaves_piece_standing;
use crate::shape::{HorizontalDirection, MinoDirection, MinoType, RotationType};
use std::hash::Hash;
use vstd::prelude::*;

verus! {

/// The width and height of the field of a default session.
pub const DEFAULT_BOARD_SIZE: (usize, usize) = (10, 42);

/// What a host asks of a session.
#[derive(Clone, Debug, PartialEq, Eq)]
pub enum MovementCommand {
    Left,
    Right,
    Down,
    RotateClockWise,
    Rotate180,
    RotateCounterClockWise,
    Hold,
    Lock,
    HardDrop,
    Attacked(AttackedLine),
}

/// What a lock brought about.
#[derive(Clone, Copy, Debug, PartialEq, Eq)]
pub struct LineClear {
    /// How many rows were cleared; `None` for no row.
    pub cleared_line_count: Option<usize>,
    /// Whether nothing that collides is left on the field after the clear.
    pub is_perfect: bool,
    /// The shape of the piece that was locked.
    pub mino_type: MinoType,
    pub is_spin: bool,
    pub is_spin_mini: bool,
}

/// What a command hands back: the state of the piece in play, or the failure
/// to spawn one, and what a lock brought about, if the command locked.
pub type CommandOutcome = (Result<MinoState, ()>, Option<LineClear>);

/// What a session stands for in contracts.
pub struct TetrisManagerView {
    pub width: usize,
    pub height: usize,
    pub grid: Seq<Seq<Cell>>,
    pub config: TetrisConfig,
    pub queue: MinoQueueView,
    /// The piece in play.
    pub mino: Mino,
    /// The garbage lines that wait for the next lock, first come first.
    pub stock: Seq<AttackedLineView>,
    /// Whether a piece was held since the last lock.
    pub has_held: bool,
}

impl MovementCommand {
    /// Whether the command moves or turns the piece and does nothing else.
    pub open spec fn is_piece_action(self) -> bool {
        self is Left || self is Right || self is Down || self is RotateClockWise
            || self is Rotate180 || self is RotateCounterClockWise
    }
}

impl TetrisManagerView {
    /// The field has the session's width and height, which fit in piece
    /// coordinates; the queue is well formed; the holes of every waiting line
    /// lie within the field; and the row where the square appears can be
    /// named.
    pub open spec fn wf(self) -> bool {
        &&& rectangular(self.grid, self.width as int, self.height as int)
        &&& self.width <= FIELD_SIDE_LIMIT
        &&& self.height <= FIELD_SIDE_LIMIT
        &&& self.queue.wf()
        &&& stock_fits_width(self.stock, self.width as int)
        &&& self.config.appearance_position.1 > i64::MIN
    }

    /// The piece in play stands on a legal placement, and its state tells
    /// whether it can fall.
    pub open spec fn piece_stands(self) -> bool {
        stands_on(self.mino, self.grid)
    }

    /// The session can take a command: the piece in play stands on the grid
    /// and no lock is due.
    pub open spec fn playable(self) -> bool {
        self.piece_stands() && !self.lock_is_due()
    }

    /// The piece after the move or turn that `command` asks for; the piece as
    /// it is for every other command.
    pub open spec fn moved(self, command: MovementCommand) -> Mino {
        let limit = self.config.move_reset_limit;
        match command {
            MovementCommand::Left => self.mino.horizontal_move_result(
                self.grid,
                HorizontalDirection::Left,
                limit,
            ).0,
            MovementCommand::Right => self.mino.horizontal_move_result(
                self.grid,
                HorizontalDirection::Right,
                limit,
            ).0,
            MovementCommand::Down => self.mino.down_result(self.grid).0,
            MovementCommand::RotateClockWise => self.mino.rotate_result(
                self.grid,
                RotationType::Clockwise,
                limit,
            ).0,
            MovementCommand::RotateCounterClockWise => self.mino.rotate_result(
                self.grid,
                RotationType::CounterClockwise,
                limit,
            ).0,
            MovementCommand::Rotate180 => self.mino.rotate_result(
                self.grid,
                RotationType::Rotate180,
                limit,
            ).0,
            _ => self.mino,
        }
    }

    /// Whether a hold is allowed: no piece was held since the last lock, or
    /// the rules allow any number of holds.
    pub open spec fn may_hold(self) -> bool {
        !self.has_held || self.config.can_hold_infinity
    }

    /// Whether the piece asks for a lock and is not airborne.
    pub open spec fn lock_is_due(self) -> bool {
        self.mino.should_be_locked && self.mino.mino_state != MinoState::AirBorne
    }

    /// Whether `command` ends with a lock: it asks for one, or it leaves a
    /// piece that asks for a lock and is not airborne.
    pub open spec fn locks_on(self, command: MovementCommand) -> bool {
        match command {
            MovementCommand::Lock => true,
            MovementCommand::HardDrop => true,
            MovementCommand::Hold => !self.may_hold() && self.lock_is_due(),
            _ => TetrisManagerView { mino: self.moved(command), ..self }.lock_is_due(),
        }
    }

    /// How the queue after `command` follows from the queue before it: by
    /// one draw if the command ends with a lock, by a hold if it is an
    /// allowed hold, and else it is the same queue.
    pub open spec fn queue_follows(self, command: MovementCommand, queue: MinoQueueView) -> bool {
        if self.locks_on(command) {
            self.queue.advanced_to(queue)
        } else if command is Hold && self.may_hold() {
            self.queue.held_to(queue)
        } else {
            queue == self.queue
        }
    }

    /// The session after an attempt to spawn the current piece of the queue,
    /// and whether the piece fits where it appears. If it does not, nothing
    /// changes.
    pub open spec fn spawn_result(self) -> (TetrisManagerView, bool) {
        let mino_type = self.queue.current;
        let (x, y) = self.config.spawn_point(mino_type);
        if fits(self.grid, mino_type, MinoDirection::North, x, y) {
            (TetrisManagerView { mino: Mino::spawned(self.grid, mino_type, x, y), ..self }, true)
        } else {
            (self, false)
        }
    }

    /// The grid with the piece in play made part of it.
    pub open spec fn grid_with_piece(self) -> Seq<Seq<Cell>> {
        self.mino.stamped(self.grid, Cell::MinoBlock(self.mino.mino_type))
    }

    /// What a lock of the piece in play reports.
    pub open spec fn line_clear(self) -> LineClear {
        let count = full_row_count(self.grid_with_piece());
        LineClear {
            cleared_line_count: if count == 0 {
                None
            } else {
                Some(count as usize)
            },
            is_perfect: grid_is_free(cleared(self.grid_with_piece(), self.width as int)),
            mino_type: self.mino.mino_type,
            is_spin: self.mino.is_last_move_spin,
            is_spin_mini: self.mino.is_last_move_mini_spin,
        }
    }

    /// What a lock leads to, given the queue as it is after its draw.
    ///
    /// The piece becomes part of the grid and every full row is cleared. Then
    /// the waiting garbage lines come in under the grid, first come first, and
    /// the next piece is spawned. If it does not fit, the command fails and
    /// the locked piece stays the piece in play, as many rows lower as were
    /// cleared.
    pub open spec fn lock_result(self, queue: MinoQueueView) -> (TetrisManagerView, CommandOutcome) {
        let count = full_row_count(self.grid_with_piece());
        let settled = TetrisManagerView {
            grid: garbage_released(
                cleared(self.grid_with_piece(), self.width as int),
                self.stock,
                self.width as int,
            ),
            mino: Mino { y: (self.mino.y + count) as i64, ..self.mino },
            queue,
            stock: Seq::empty(),
            has_held: false,
            ..self
        };
        let (after, spawned) = settled.spawn_result();
        if spawned {
            (after, (Ok(after.mino.mino_state), Some(self.line_clear())))
        } else {
            (after, (Err(()), Some(self.line_clear())))
        }
    }

    /// What the check at the end of a command leads to: a lock if one is due,
    /// and else the session as it is.
    pub open spec fn lock_check_result(self, queue: MinoQueueView) -> (
        TetrisManagerView,
        CommandOutcome,
    ) {
        if self.lock_is_due() {
            self.lock_result(queue)
        } else {
            (self, (Ok(self.mino.mino_state), None))
        }
    }

    /// What `command` leads to, given the queue as it is after the command.
    pub open spec fn command_result(self, command: MovementCommand, queue: MinoQueueView) -> (
        TetrisManagerView,
        CommandOutcome,
    ) {
        match command {
            MovementCommand::Hold => {
                if self.may_hold() {
                    let (after, spawned) = TetrisManagerView {
                        has_held: true,
                        queue,
                        ..self
                    }.spawn_result();
                    if spawned {
                        (after, (Ok(after.mino.mino_state), None))
                    } else {
                        (after, (Err(()), None))
                    }
                } else {
                    self.lock_check_result(queue)
                }
            },
            MovementCommand::HardDrop => TetrisManagerView {
                mino: self.mino.dropped(self.grid),
                ..self
            }.lock_result(queue),
            MovementCommand::Lock => self.lock_result(queue),
            MovementCommand::Attacked(line) => TetrisManagerView {
                stock: self.stock.push(line@),
                ..self
            }.lock_check_result(queue),
            _ => TetrisManagerView { mino: self.moved(command), ..self }.lock_check_result(queue),
        }
    }
}

/// A game session.
pub struct TetrisManager {
    width: usize,
    height: usize,
    field: Field,
    tetris_config: TetrisConfig,
    mino_queue: MinoQueue,
    current_mino: Mino,
    attacked_lines_stock: Vec<AttackedLine>,
    has_held: bool,
}

impl View for TetrisManager {
    type V = TetrisManagerView;

    closed spec fn view(&self) -> TetrisManagerView {
        TetrisManagerView {
            width: self.width,
            height: self.height,
            grid: grid_of(&self.field),
            config: self.tetris_config,
            queue: self.mino_queue@,
            mino: self.current_mino,
            stock: stock_view(self.attacked_lines_stock@),
            has_held: self.has_held,
        }
    }
}

impl TetrisManager {
    /// Where the box of a new piece of shape `mino_type` appears.
    pub fn get_spawn_point(&self, mino_type: MinoType) -> (point: (i64, i64))
        requires
            self@.config.appearance_position.1 > i64::MIN,
        ensures
            (point.0 as int, point.1 as int) == self@.config.spawn_point(mino_type),
    {
        (
            self.tetris_config.appearance_position.0,
            self.tetris_config.appearance_position.1 + match mino_type {
                MinoType::MinoO => -1,
                _ => 0,
            },
        )
    }

    /// Spawns the current piece of the queue where it appears, or fails and
    /// changes nothing if it does not fit there.
    pub fn spawn_current_mino(&mut self) -> (spawned: Result<(), ()>)
        requires
            old(self)@.config.appearance_position.1 > i64::MIN,
        ensures
            (*final(self))@ == old(self)@.spawn_result().0,
            spawned is Ok <==> old(self)@.spawn_result().1,
    {
        let mino_type = self.mino_queue.get_current();
        let next_pos = self.get_spawn_point(mino_type);
        match Mino::new(mino_type, next_pos.0, next_pos.1, &self.field) {
            Ok(mino) => {
                self.current_mino = mino;
                Ok(())
            },
            Err(_) => Err(()),
        }
    }

    /// Runs the status check on the piece in play and gives its state.
    pub fn get_mino_state(&mut self) -> (state: MinoState)
        ensures
            (*final(self))@ == (TetrisManagerView {
                mino: old(self)@.mino.status_checked(),
                ..old(self)@
            }),
            state == old(self)@.mino.status_checked().mino_state,
    {
        self.current_mino.check_mino_status();
        self.current_mino.mino_state
    }

    /// Takes row `index` out of the field: the rows above it move down by one
    /// and an empty row appears on top.
    fn delete_line(&mut self, index: usize)
        requires
            index < old(self)@.grid.len(),
        ensures
            (*final(self))@ == (TetrisManagerView {
                grid: without_row(old(self)@.grid, index as int, old(self)@.width as int),
                ..old(self)@
            }),
    {
        delete_row(&mut self.field, index, self.width);
    }

    /// Puts every waiting garbage line under the field, first come first, and
    /// forgets them.
    pub fn release_stock_attacked_line(&mut self)
        requires
            stock_fits_width(old(self)@.stock, old(self)@.width as int),
            old(self)@.stock.len() > 0 ==> old(self)@.grid.len() > 0,
        ensures
            (*final(self))@ == (TetrisManagerView {
                grid: garbage_released(
                    old(self)@.grid,
                    old(self)@.stock,
                    old(self)@.width as int,
                ),
                stock: Seq::empty(),
                ..old(self)@
            }),
            old(self)@.wf() ==> (*final(self))@.wf(),
    {
        let ghost start = self@;
        proof {
            if start.wf() {
                lemma_garbage_keeps_shape(
                    start.grid,
                    start.stock,
                    start.width as int,
                    start.height as int,
                );
            }
        }
        let mut i: usize = 0;
        assert(start.stock.take(0) =~= Seq::<AttackedLineView>::empty());
        while i < self.attacked_lines_stock.len()
            invariant
                i <= self.attacked_lines_stock.len(),
                start == old(self)@,
                stock_fits_width(start.stock, start.width as int),
                start.stock.len() > 0 ==> start.grid.len() > 0,
                self@ == (TetrisManagerView {
                    grid: garbage_released(
                        start.grid,
                        start.stock.take(i as int),
                        start.width as int,
                    ),
                    ..start
                }),
                self@.grid.len() == start.grid.len(),
            decreases self.attacked_lines_stock.len() - i,
        {
            assert(start.stock[i as int].fits_width(start.width as int));
            inject_garbage(&mut self.field, &self.attacked_lines_stock[i], self.width);
            proof {
                assert(start.stock.take(i + 1).drop_last() =~= start.stock.take(i as int));
                assert(start.stock.take(i + 1).last() == start.stock[i as int]);
            }
            i += 1;
        }
        assert(start.stock.take(i as int) =~= start.stock);
        self.attacked_lines_stock.clear();
        assert(self@.stock =~= Seq::<AttackedLineView>::empty());
    }

    /// Clears every full row, from top to bottom, and moves the piece in play
    /// down by one row for each. Gives the number of rows cleared.
    fn clear_lines(&mut self) -> (count: usize)
        requires
            old(self)@.grid.len() <= FIELD_SIDE_LIMIT,
            -4 <= old(self)@.mino.y <= FIELD_SIDE_LIMIT,
        ensures
            count == full_row_count(old(self)@.grid),
            (*final(self))@ == (TetrisManagerView {
                grid: cleared(old(self)@.grid, old(self)@.width as int),
                mino: Mino { y: (old(self)@.mino.y + count) as i64, ..old(self)@.mino },
                ..old(self)@
            }),
    {
        let ghost start = self@;
        let mut count: usize = 0;
        let mut y: usize = 0;
        assert(start.grid.take(0) =~= Seq::<Seq<Cell>>::empty());
        assert(self@.grid =~= empty_grid(start.width as int, 0) + kept_rows(start.grid.take(0))
            + start.grid.skip(0));
        while y < self.field.len()
            invariant
                start == old(self)@,
                start.grid.len() <= FIELD_SIDE_LIMIT,
                -4 <= start.mino.y <= FIELD_SIDE_LIMIT,
                y <= start.grid.len(),
                self@.grid.len() == start.grid.len(),
                count == full_row_count(start.grid.take(y as int)),
                count <= y,
                self@ == (TetrisManagerView {
                    grid: empty_grid(start.width as int, count as int) + kept_rows(
                        start.grid.take(y as int),
                    ) + start.grid.skip(y as int),
                    mino: Mino { y: (start.mino.y + count) as i64, ..start.mino },
                    ..start
                }),
            decreases start.grid.len() - y,
        {
            let ghost upto = start.grid.take(y as int);
            let ghost next = start.grid.take(y + 1);
            proof {
                lemma_kept_rows_len(upto);
                assert(next.drop_last() =~= upto);
                assert(next.last() == start.grid[y as int]);
                assert(self@.grid[y as int] == start.grid[y as int]);
            }
            if is_full_row(&self.field[y]) {
                self.delete_line(y);
                self.current_mino.y += 1;
                count += 1;
                assert(self@.grid =~= empty_grid(start.width as int, count as int) + kept_rows(next)
                    + start.grid.skip(y + 1));
            } else {
                assert(self@.grid =~= empty_grid(start.width as int, count as int) + kept_rows(next)
                    + start.grid.skip(y + 1));
            }
            y += 1;
        }
        assert(start.grid.take(y as int) =~= start.grid);
        assert(self@.grid =~= cleared(start.grid, start.width as int));
        count
    }

    /// Locks the piece in play, clears the full rows, lets the waiting garbage
    /// in and spawns the next piece.
    fn lock_current_mino(&mut self) -> (outcome: CommandOutcome)
        requires
            old(self)@.wf(),
            old(self)@.piece_stands(),
        ensures
            (*final(self))@.wf(),
            outcome.0 is Ok ==> (*final(self))@.playable(),
            old(self)@.queue.advanced_to((*final(self))@.queue),
            ((*final(self))@, outcome) == old(self)@.lock_result((*final(self))@.queue),
    {
        let ghost start = self@;
        proof {
            lemma_fitting_box_is_near(
                start.grid,
                start.mino.mino_type,
                start.mino.mino_direction,
                start.mino.x as int,
                start.mino.y as int,
            );
            lemma_lock_round_trip(start.mino, start.grid);
        }
        self.current_mino.lock(&mut self.field);
        self.has_held = false;
        let cleared_line_count = self.clear_lines();
        let line_clear = LineClear {
            cleared_line_count: if cleared_line_count == 0 {
                None
            } else {
                Some(cleared_line_count)
            },
            is_perfect: is_free_field(&self.field),
            mino_type: self.current_mino.mino_type,
            is_spin: self.current_mino.is_last_move_spin,
            is_spin_mini: self.current_mino.is_last_move_mini_spin,
        };
        self.mino_queue.next();
        proof {
            lemma_cleared_keeps_shape(
                start.grid_with_piece(),
                start.width as int,
                start.height as int,
            );
            lemma_garbage_keeps_shape(
                cleared(start.grid_with_piece(), start.width as int),
                start.stock,
                start.width as int,
                start.height as int,
            );
        }
        self.release_stock_attacked_line();
        let spawned = self.spawn_current_mino();
        proof {
            if spawned is Ok {
                lemma_spawned_piece_stands(
                    self@.grid,
                    self@.queue.current,
                    self@.config.spawn_point(self@.queue.current).0,
                    self@.config.spawn_point(self@.queue.current).1,
                );
            }
        }
        match spawned {
            Ok(_) => (Ok(self.current_mino.mino_state), Some(line_clear)),
            Err(_) => (Err(()), Some(line_clear)),
        }
    }

    /// Locks the piece in play if it asks for a lock and is not airborne.
    fn lock_check(&mut self) -> (outcome: Option<CommandOutcome>)
        requires
            old(self)@.wf(),
            old(self)@.piece_stands(),
        ensures
            (*final(self))@.wf(),
            outcome is Some <==> old(self)@.lock_is_due(),
            outcome matches Some(locked) ==> {
                &&& old(self)@.queue.advanced_to((*final(self))@.queue)
                &&& ((*final(self))@, locked) == old(self)@.lock_result((*final(self))@.queue)
                &&& locked.0 is Ok ==> (*final(self))@.playable()
            },
            outcome is None ==> (*final(self))@ == old(self)@ && !old(self)@.lock_is_due(),
    {
        if self.current_mino.should_be_locked && self.current_mino.mino_state
            != MinoState::AirBorne {
            return Some(self.lock_current_mino());
        }
        None
    }

    /// Carries out a move or a turn of the piece in play.
    fn move_current_mino(&mut self, movement_command: &MovementCommand)
        requires
            old(self)@.wf(),
            old(self)@.piece_stands(),
            movement_command.is_piece_action(),
        ensures
            (*final(self))@ == (TetrisManagerView {
                mino: old(self)@.moved(*movement_command),
                ..old(self)@
            }),
            (*final(self))@.piece_stands(),
    {
        proof {
            lemma_piece_action_leaves_piece_standing(self@, *movement_command);
        }
        let limit = self.tetris_config.move_reset_limit;
        match movement_command {
            MovementCommand::Left => {
                self.current_mino.horizontal_move(HorizontalDirection::Left, &self.field, limit);
            },
            MovementCommand::Right => {
                self.current_mino.horizontal_move(HorizontalDirection::Right, &self.field, limit);
            },
            MovementCommand::Down => {
                self.current_mino.down(&self.field);
            },
            MovementCommand::RotateClockWise => {
                self.current_mino.rotate(RotationType::Clockwise, &self.field, limit);
            },
            MovementCommand::RotateCounterClockWise => {
                self.current_mino.rotate(RotationType::CounterClockwise, &self.field, limit);
            },
            MovementCommand::Rotate180 => {
                self.current_mino.rotate(RotationType::Rotate180, &self.field, limit);
            },
            _ => {},
        }
    }

    /// Holds the piece in play and spawns what comes back, and says whether
    /// that piece fits where it appears.
    fn hold_current_mino(&mut self) -> (spawned: bool)
        requires
            old(self)@.wf(),
            old(self)@.playable(),
        ensures
            (*final(self))@.wf(),
            old(self)@.queue.held_to((*final(self))@.queue),
            ((*final(self))@, spawned) == (TetrisManagerView {
                has_held: true,
                queue: (*final(self))@.queue,
                ..old(self)@
            }).spawn_result(),
            (*final(self))@.playable(),
    {
        self.has_held = true;
        self.mino_queue.hold();
        let spawned = self.spawn_current_mino();
        proof {
            if spawned is Ok {
                lemma_spawned_piece_stands(
                    self@.grid,
                    self@.queue.current,
                    self@.config.spawn_point(self@.queue.current).0,
                    self@.config.spawn_point(self@.queue.current).1,
                );
            }
        }
        spawned.is_ok()
    }

    /// Carries out one command of the host.
    ///
    /// A move or a turn acts on the piece in play. A hold, if allowed, swaps
    /// the piece with the held one and spawns what comes back. A hard drop
    /// takes the piece down as far as it goes and locks it. A garbage line
    /// waits for the next lock. After any command that did not lock, a piece
    /// that asks for a lock and is not airborne is locked.
    ///
    /// The command fails if a piece that must be spawned does not fit. The
    /// session is then over: only the field can still be read.
    #[verifier::rlimit(40)]
    pub fn command(&mut self, movement_command: MovementCommand) -> (outcome: CommandOutcome)
        requires
            old(self)@.wf(),
            old(self)@.playable(),
            movement_command matches MovementCommand::Attacked(line) ==> line@.fits_width(
                old(self)@.width as int,
            ),
        ensures
            (*final(self))@.wf(),
            outcome.0 is Ok ==> (*final(self))@.playable(),
            old(self)@.queue_follows(movement_command, (*final(self))@.queue),
            ((*final(self))@, outcome) == old(self)@.command_result(
                movement_command,
                (*final(self))@.queue,
            ),
    {
        let ghost start = self@;
        match movement_command {
            MovementCommand::Hold => {
                if !self.has_held || self.tetris_config.can_hold_infinity {
                    if !self.hold_current_mino() {
                        return (Err(()), None);
                    }
                    return (Ok(self.current_mino.mino_state), None);
                }
            },
            MovementCommand::HardDrop => {
                proof {
                    lemma_hard_drop_lands(start.mino, start.grid);
                }
                self.current_mino.hard_drop(&self.field);
                return self.lock_current_mino();
            },
            MovementCommand::Lock => {
                return self.lock_current_mino();
            },
            MovementCommand::Attacked(attacked_line) => {
                self.attacked_lines_stock.push(attacked_line);
                assert(self@.stock =~= start.stock.push(attacked_line@));
            },
            _ => {
                self.move_current_mino(&movement_command);
            },
        }
        if let Some(outcome) = self.lock_check() {
            return outcome;
        }
        (Ok(self.current_mino.mino_state), None)
    }
}

impl TetrisManagerView {
    /// The grid as a host draws it: the piece in play on its cells, and its
    /// ghost on the cells where it would land.
    pub open spec fn grid_to_draw(self) -> Seq<Seq<Cell>> {
        self.mino.stamped(
            self.mino.landed(self.grid).stamped(self.grid, Cell::MinoGhost(self.mino.mino_type)),
            Cell::MinoInMotion(self.queue.current),
        )
    }

    /// The session as it starts: an empty field, a queue that has dealt its
    /// first bag and drawn its first piece, and that piece where it appears.
    pub open spec fn starts(self, config: TetrisConfig, width: usize, height: usize) -> bool {
        &&& self.width == width
        &&& self.height == height
        &&& self.grid == empty_grid(width as int, height as int)
        &&& self.config == config
        &&& self.queue.dealt.len() == 7
        &&& self.queue.drawn() == 1
        &&& self.queue.current == self.queue.dealt[0]
        &&& self.queue.hold is None
        &&& self.mino == Mino::spawned(
            self.grid,
            self.queue.current,
            config.spawn_point(self.queue.current).0,
            config.spawn_point(self.queue.current).1,
        )
        &&& self.stock.len() == 0
        &&& !self.has_held
    }
}

impl TetrisManager {
    /// Starts a session on an empty field of the given size, with a queue
    /// seeded by `rng_seed`.
    pub fn new(tetris_config: TetrisConfig, rng_seed: &impl Hash, width: usize, height: usize) -> (manager:
        TetrisManager)
        requires
            width <= FIELD_SIDE_LIMIT,
            height <= FIELD_SIDE_LIMIT,
            tetris_config.spawns_on(empty_grid(width as int, height as int)),
        ensures
            manager@.wf(),
            manager@.playable(),
            manager@.starts(tetris_config, width, height),
    {
        let mut tetris_manager = TetrisManager {
            width,
            height,
            field: create_empty_field(width, height),
            tetris_config,
            mino_queue: MinoQueue::new(rng_seed),
            current_mino: Mino::default(),
            attacked_lines_stock: Vec::new(),
            has_held: false,
        };
        proof {
            let grid = tetris_manager@.grid;
            let mino_type = tetris_manager@.queue.current;
            let point = tetris_config.spawn_point(mino_type);
            assert(fits(grid, mino_type, MinoDirection::North, point.0, point.1));
            let square = tetris_config.spawn_point(MinoType::MinoO);
            assert(fits(grid, MinoType::MinoO, MinoDirection::North, square.0, square.1));
            lemma_fitting_box_is_near(
                grid,
                MinoType::MinoO,
                MinoDirection::North,
                square.0,
                square.1,
            );
            lemma_spawned_piece_stands(grid, mino_type, point.0, point.1);
        }
        let spawned = tetris_manager.spawn_current_mino();
        assert(spawned is Ok);
        tetris_manager
    }

    /// A copy of the field.
    pub fn get_field(&self) -> (field: Field)
        ensures
            grid_of(&field) == self@.grid,
    {
        copy_field(&self.field)
    }

    /// A copy of the field with the piece in play and its ghost drawn on it.
    pub fn get_field_to_draw(&self) -> (field: Field)
        requires
            addressable(self@.grid),
        ensures
            grid_of(&field) == self@.grid_to_draw(),
    {
        let mut field = copy_field(&self.field);
        self.current_mino.draw_ghost(&mut field);
        self.current_mino.draw(&mut field, Cell::MinoInMotion(self.mino_queue.get_current()));
        field
    }

    /// The field as `get_field_to_draw` gives it, with a flag on every cell
    /// where the next piece will appear.
    pub fn get_field_to_draw_with_preview_next_mino(&mut self) -> (field:
        FieldWithNextMinoWillSpawn)
        requires
            old(self)@.wf(),
        ensures
            old(self)@.queue.refilled_to((*final(self))@.queue, 1),
            (*final(self))@ == (TetrisManagerView {
                queue: (*final(self))@.queue,
                ..old(self)@
            }),
            ({
                let after = (*final(self))@;
                let next = after.queue.pending[0];
                flagged_grid_of(&field) == Mino::preview(
                    next,
                    after.config.spawn_point(next).0,
                    after.config.spawn_point(next).1,
                ).flagged(after.grid_to_draw())
            }),
    {
        let nexts = self.mino_queue.get_next_minos(1);
        let next_mino_type = nexts[0];
        let next_pos = self.get_spawn_point(next_mino_type);
        let drawer = Mino::new_for_preview_next_mino(next_mino_type, next_pos.0, next_pos.1);
        let field = self.get_field_to_draw();
        drawer.draw_next_mino(&field)
    }

    /// The next `num` pieces of the queue.
    pub fn get_next_minos(&mut self, num: usize) -> (minos: Vec<MinoType>)
        requires
            old(self)@.queue.wf(),
        ensures
            old(self)@.queue.refilled_to((*final(self))@.queue, num as int),
            (*final(self))@ == (TetrisManagerView {
                queue: (*final(self))@.queue,
                ..old(self)@
            }),
            minos@ == (*final(self))@.queue.pending.take(num as int),
    {
        self.mino_queue.get_next_minos(num)
    }

    /// The held piece, if any.
    pub fn get_hold_mino(&self) -> (held: Option<MinoType>)
        ensures
            held == self@.queue.hold,
    {
        self.mino_queue.get_hold()
    }

    /// The topmost row that holds a cell that collides, or the height of the
    /// field if there is none.
    pub fn get_minimum_y(&self) -> (y: usize)
        ensures
            forall|j: int| 0 <= j < y && j < self@.grid.len() ==> row_is_free(#[trigger] self@.grid[j]),
            if grid_is_free(self@.grid) {
                y == self@.height
            } else {
                y < self@.grid.len() && !row_is_free(self@.grid[y as int])
            },
    {
        let mut y: usize = 0;
        while y < self.field.len()
            invariant
                y <= self.field.len(),
                forall|j: int| 0 <= j < y ==> row_is_free(#[trigger] self@.grid[j]),
            decreases self.field.len() - y,
        {
            let row = &self.field[y];
            let mut x: usize = 0;
            while x < row.len()
                invariant
                    y < self.field.len(),
                    row@ == self@.grid[y as int],
                    x <= row.len(),
                    forall|i: int| 0 <= i < x ==> !(#[trigger] row@[i]).collides(),
                    forall|j: int| 0 <= j < y ==> row_is_free(#[trigger] self@.grid[j]),
                decreases row.len() - x,
            {
                if row[x].has_collision() {
                    assert(!row_is_free(self@.grid[y as int]));
                    return y;
                }
                x += 1;
            }
            y += 1;
        }
        self.height
    }
}

impl Clone for TetrisManager {
    /// A copy of the session that stands for the same game.
    fn clone(&self) -> (copy: TetrisManager)
        ensures
            copy@ == self@,
    {
        let mut stock: Vec<AttackedLine> = Vec::new();
        let mut i: usize = 0;
        while i < self.attacked_lines_stock.len()
            invariant
                i <= self.attacked_lines_stock.len(),
                stock@.len() == i,
                stock_view(stock@) == stock_view(self.attacked_lines_stock@).take(i as int),
            decreases self.attacked_lines_stock.len() - i,
        {
            let ghost before = stock@;
            let copy = self.attacked_lines_stock[i].duplicate();
            stock.push(copy);
            i += 1;
            assert forall|k: int| 0 <= k < i implies #[trigger] stock_view(stock@)[k] == stock_view(
                self.attacked_lines_stock@,
            )[k] by {
                if k < i - 1 {
                    assert(stock@[k] == before[k]);
                    assert(stock_view(before)[k] == stock_view(self.attacked_lines_stock@).take(
                        i - 1,
                    )[k]);
                }
            }
            assert(stock_view(stock@) =~= stock_view(self.attacked_lines_stock@).take(i as int));
        }
        assert(stock_view(stock@) =~= stock_view(self.attacked_lines_stock@));
        TetrisManager {
            width: self.width,
            height: self.height,
            field: copy_field(&self.field),
            tetris_config: self.tetris_config,
            mino_queue: self.mino_queue.clone(),
            current_mino: self.current_mino,
            attacked_lines_stock: stock,
            has_held: self.has_held,
        }
    }
}

impl Default for TetrisManager {
    /// A session on an empty field of the default size whose queue has dealt
    /// nothing yet; a square stands at the top-left corner.
    fn default() -> (manager: TetrisManager)
        ensures
            manager@.wf(),
            manager@.playable(),
            manager@.width == DEFAULT_BOARD_SIZE.0,
            manager@.height == DEFAULT_BOARD_SIZE.1,
            manager@.grid == empty_grid(DEFAULT_BOARD_SIZE.0 as int, DEFAULT_BOARD_SIZE.1 as int),
            manager@.config == TetrisConfig::standard(),
            manager@.queue.dealt.len() == 0,
            manager@.queue.hold is None,
            manager@.queue.current == MinoType::MinoO,
            manager@.mino == Mino::preview(MinoType::MinoO, 0, 0),
            manager@.stock.len() == 0,
            !manager@.has_held,
    {
        let manager = TetrisManager {
            width: DEFAULT_BOARD_SIZE.0,
            height: DEFAULT_BOARD_SIZE.1,
            field: create_empty_field(DEFAULT_BOARD_SIZE.0, DEFAULT_BOARD_SIZE.1),
            tetris_config: TetrisConfig::default(),
            mino_queue: MinoQueue::default(),
            current_mino: Mino::default(),
            attacked_lines_stock: Vec::new(),
            has_held: false,
        };
        proof {
            lemma_box_on_empty_grid_fits(
                10,
                42,
                MinoType::MinoO,
                MinoDirection::North,
                0,
                0,
            );
            lemma_box_on_empty_grid_fits(
                10,
                42,
                MinoType::MinoO,
                MinoDirection::North,
                0,
                1,
            );
        }
        manager
    }
}

} // verus!
