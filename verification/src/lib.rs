//! Rules of a small arcade game: a bucket catches raindrops, avoids sponges and
//! is pushed aside by stones, while drops that miss feed the water below.
//!
//! Everything is stated over integers. Lengths are counted in millionths of a
//! play-area unit, speeds in whole units per second and time in microseconds,
//! so that a position advanced by `speed * elapsed` is exact.

pub mod model;
pub mod timer;
pub mod water;
pub mod chance;
pub mod resolver;
pub mod frame;
pub mod lifecycle;
pub mod kinematics;
pub mod input;
pub mod spawner;

