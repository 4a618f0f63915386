//! Simulation core of an arcade fixed-shooter: per-frame movement, weapon
//! cooldowns, enemy-formation steering, collision resolution and the
//! Ongoing/Won/Lost state machine, all over plain integer state.
//!
//! Positions are stored in milli-units (one world unit = 1000) and time in
//! whole milliseconds, so every update is exact integer arithmetic.
pub mod combat;
pub mod control;
pub mod driver;
pub mod fleet;
pub mod geom;
pub mod lasers;
pub mod laws;
pub mod num;
pub mod seq_util;
pub mod status;
pub mod timer;
pub mod weapons;
pub mod world;
