//! A deterministic, renderer-agnostic core for falling-block puzzle games:
//! the playfield, the falling piece, the piece queue with its hold slot, and
//! the rules that tie them together.
//!
//! A host creates a [`TetrisManager`], hands it [`MovementCommand`]s and reads
//! the field back. Rendering, input and timing are the host's business.
//!
//! The modules, from the leaves up:
//!
//! - [`shape`] and [`kick`]: the seven shapes, their occupancy masks and the
//!   wall-kick candidates of a rotation;
//! - [`cell`], [`lines`] and [`garbage`]: the field as a grid of cells, the
//!   clearing of full rows and the garbage rows that come in from below;
//! - [`placement`], [`mino`], [`spin`] and [`draw`]: where a piece fits, how
//!   it moves, turns and locks, how a spin is told, and how a piece is
//!   written onto a field;
//! - [`generator`] and [`queue`]: the random generator, and the seeded
//!   seven-bag queue with its hold slot;
//! - [`config`] and [`manager`]: the rules a host may tune and the session
//!   that carries out commands;
//! - [`mino_laws`] and [`session_laws`]: what holds of every piece and of
//!   every session.
//!
//! Every function carries a contract that the verifier has proved of its
//! body. The only code taken on trust is the random generator with its
//! seeding and its shuffle, in [`generator`].

pub mod cell;
pub mod config;
pub mod draw;
pub mod garbage;
pub mod generator;
pub mod kick;
pub mod lines;
pub mod manager;
pub mod mino;
pub mod mino_laws;
pub mod placement;
pub mod queue;
pub mod session_laws;
pub mod shape;
pub mod spin;

pub use cell::{Cell, Field};
pub use config::TetrisConfig;
pub use draw::FieldWithNextMinoWillSpawn;
pub use garbage::AttackedLine;
pub use manager::{LineClear, MovementCommand, TetrisManager, DEFAULT_BOARD_SIZE};
pub use mino::{Mino, MinoState};
pub use queue::MinoQueue;
pub use shape::{HorizontalDirection, MinoDirection, MinoType, RotationType};
