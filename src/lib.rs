//! A turn-based battle engine for two pieces: registration, moves, rounds,
//! delayed wake-ups and resets, as a verified state machine.
//!
//! The engine never talks to the host itself. Each handler takes what the
//! host supplied (the caller, the execution's entropy, the piece's owner, a
//! reservation) as plain values, and returns the reply, the notifications and
//! the wake-up to schedule. `battle` holds the aggregate, its invariant and
//! the transition relation; `actions` the handlers proved against it;
//! `random` and `attack` the draws and the damage rules; `laws` the
//! properties of runs of actions.

pub mod actions;
pub mod attack;
pub mod battle;
pub mod laws;
pub mod random;
pub mod types;

pub use battle::Battle;
pub use types::{ActorId, BattleError, BattleEvent, Outcome};
