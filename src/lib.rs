//! Kinematics and control rules of a small interactive orrery: the Sun's
//! planets on circular orbits, a steerable airplane that fires projectiles,
//! and a camera that follows a chosen body.
//!
//! All quantities are exact integers. Time is counted in nanoseconds of
//! real time and converted to simulated time by `constant::TIME_SCALE`;
//! angles are fractions of a full turn, or whole steps of a quarter of pi.
//! Rendering, input devices and the entity store live outside this crate.
pub mod airplane;
pub mod button;
pub mod camera;
pub mod constant;
pub mod planets;
