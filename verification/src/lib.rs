//! Logic of a small 2D mining game: world-grid addressing, procedural chunk
//! generation and loading, player input and kinematics, sprite-frame advance,
//! rotation feedback, and camera follow.
//!
//! Lengths and positions are plain integers: world positions and velocities
//! are measured in thousandths of a world unit, durations in milliseconds.
//! Rendering, windowing, asset loading and scheduling belong to a host
//! program, which drives these functions once per frame.

pub mod chunks;
pub mod player;
pub mod systems;
