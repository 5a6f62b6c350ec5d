//! Stochastic discrete-event simulator of an association-football match.
//!
//! Two rosters of agents with skill ratings face each other; simulated time
//! advances in fixed ticks, and each tick resolves a chain of probabilistic
//! sub-events (possession, pass/dribble/shot, interception, save, fouls and
//! cards, boundary checks) into an ordered list of semantic events plus an
//! updated box score.

use vstd::prelude::*;

pub mod campo;
pub mod checagem;
pub mod evento;
pub mod fonte;
pub mod jogador;
pub mod partida;

verus! {

/// Width of the field, in integer coordinates.
pub const CAMPO_LARGURA: i32 = 100;

/// Height of the field, in integer coordinates.
pub const CAMPO_ALTURA: i32 = 50;

/// Height of the lower post on the goal line.
pub const GOL_Y_MIN: i32 = 20;

/// Height of the upper post on the goal line.
pub const GOL_Y_MAX: i32 = 30;

} // verus!
