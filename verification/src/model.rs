//! The plain data of the game and the constants of its rules.

use vstd::prelude::*;

verus! {

/// Horizontal positions are kept within this distance of the centre.
pub const X_LIMIT: i64 = 370_000_000;

/// An object whose height is below this line has left the play area.
pub const EXIT_Y: i64 = -272_000_000;

/// An object closer to the bucket than this touches it.
pub const REACH: i64 = 64_000_000;

/// The speed a stone adds to, or takes from, the bucket.
pub const KNOCKBACK: i64 = 600;

/// The speed one key adds to, or takes from, the bucket.
pub const KEY_SPEED: i64 = 300;

/// How long a stone's push lasts, in microseconds.
pub const COOLDOWN_US: u64 = 200_000;

/// The time between two spawns, in microseconds.
pub const SPAWN_PERIOD_US: u64 = 900_000;

/// The height at which objects appear.
pub const SPAWN_Y: i64 = 300_000_000;

/// The height at which the bucket stands.
pub const BUCKET_Y: i64 = -188_000_000;

/// The vertical speed of a falling object.
pub const FALL_SPEED: i64 = -200;

/// The three kinds of falling objects.
#[derive(Clone, Copy, Debug, PartialEq, Eq)]
pub enum DropletType {
    Raindrop,
    Stone,
    Sponge,
}

impl DropletType {
    /// The lower-case name of the kind.
    pub fn name(&self) -> (s: &'static str)
        ensures
            s@ == (match *self {
                DropletType::Raindrop => "raindrop"@,
                DropletType::Stone => "stone"@,
                DropletType::Sponge => "sponge"@,
            }),
    {
        match self {
            DropletType::Raindrop => "raindrop",
            DropletType::Stone => "stone",
            DropletType::Sponge => "sponge",
        }
    }
}

/// A place in the play area, in millionths of a unit.
#[derive(Clone, Copy, Debug, PartialEq, Eq)]
pub struct Position {
    pub x: i64,
    pub y: i64,
}

/// A velocity in units per second.
#[derive(Clone, Copy, Debug, PartialEq, Eq)]
pub struct Speed {
    pub horizontal: i64,
    pub vertical: i64,
}

impl Default for Speed {
    fn default() -> (s: Speed)
        ensures
            s == (Speed { horizontal: 0, vertical: 0 }),
    {
        Speed { horizontal: 0, vertical: 0 }
    }
}

/// The score: one up for each raindrop caught, one down for each sponge.
#[derive(Clone, Copy, Debug, PartialEq, Eq)]
pub struct GameStats {
    pub score: i128,
}

impl Default for GameStats {
    fn default() -> (s: GameStats)
        ensures
            s.score == 0,
    {
        GameStats { score: 0 }
    }
}

impl GameStats {
    /// The stats of a new game: no points yet.
    pub fn new() -> (s: GameStats)
        ensures
            s.score == 0,
    {
        GameStats { score: 0 }
    }
}

/// The player's bucket: where it stands and how fast it moves.
#[derive(Clone, Copy, Debug, PartialEq, Eq)]
pub struct Bucket {
    pub position: Position,
    pub speed: Speed,
}

impl Bucket {
    /// The bucket at rest in the middle of the play area.
    pub fn new() -> (b: Bucket)
        ensures
            b == (Bucket {
                position: Position { x: 0, y: BUCKET_Y },
                speed: Speed { horizontal: 0, vertical: 0 },
            }),
    {
        Bucket {
            position: Position { x: 0, y: BUCKET_Y },
            speed: Speed { horizontal: 0, vertical: 0 },
        }
    }
}

} // verus!
