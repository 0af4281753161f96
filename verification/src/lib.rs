//! A kinematic player-movement state machine for a 2D platformer character.
//!
//! The library owns the one piece of per-character movement logic: a grounded
//! flag toggled by an external collision system, and a per-tick velocity
//! update that applies an optional jump impulse, horizontal drift from held
//! input, a multiplicative friction decay, and gravity, in that order. The
//! resulting velocity is handed back each tick as the desired translation for
//! an external kinematic mover.
//!
//! All quantities are fixed-point integers: a whole unit of distance, time or
//! speed is `SCALE` sub-units, and the friction factors are fractions of
//! `SCALE`. Every step of the update is specified exactly over mathematical
//! integers in `motion`, and the laws that relate the operations to each
//! other are proved in `laws`.

pub mod laws;
pub mod motion;
