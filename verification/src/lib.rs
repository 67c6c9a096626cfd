//! Simulation core of a small vehicular arena game.
//!
//! A single player vehicle and a capped population of autonomous enemy
//! vehicles drive around a bounded arena.  The core keeps two counters —
//! the live enemy population and the accumulated score — consistent across
//! spawning, collision reaction, steering and boundary avoidance.  Continuous
//! quantities are modelled discretely: headings as micro-turns around the
//! vertical axis, distances in thousandths of a world unit.  The physics
//! engine, rendering, audio and input devices are external collaborators;
//! they exchange plain values (forces, ray-hit distances, key states) with
//! the functions here.

pub mod angle;
pub mod arena;
pub mod laws;
mod random;
pub mod vehicle;
