//! Simulation core of a two-dimensional bullet-hell shooter.
//!
//! Time is counted in nanoseconds, angles in microradians, speeds in
//! thousandths of a unit per second and positions in thousandths of a unit,
//! all as integers.

pub mod bosses;
pub mod bullet;
pub mod bullet_patterns;
pub mod countdown;
pub mod enemy;
pub mod game;
pub mod geometry;
pub mod level1;
pub mod movement_patterns;
pub mod player;
pub mod player_stats;
pub mod shot_schedule;
pub mod spawns;
pub mod sprites;
