//! Rules of a small arcade game in which an avatar dodges projectiles on a
//! wrapped plane: which scene is live, how scenes follow one another, what a
//! key press means, what the spawner produces and when a run is over.
//!
//! The host supplies everything that is measured in fractions of a unit
//! (positions, velocities, clocks) and everything that touches a device. It
//! reports to this crate in plain values and acts on what it gets back.

pub mod actors;
pub mod gameplay;
pub mod input;
pub mod scene;
pub mod spawner;
pub mod stack;
