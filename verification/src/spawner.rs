//! The spawner: at a fixed interval a new object appears at the top, its kind
//! and its place drawn by chance.

use vstd::prelude::*;
use crate::chance::draw_below;
use crate::model::{DropletType, Position, Speed, FALL_SPEED, SPAWN_Y};
use crate::resolver::FallingThing;
use crate::timer::{CollisionTracker, DropTimer, Timer};

verus! {

/// Draws are counted in millionths: a draw `d` stands for `d / 1_000_000`.
pub const DRAW_SCALE: u32 = 1_000_000;

/// The kind that a draw selects: the top twentieth gives a sponge, the fifth
/// below it a stone, the rest a raindrop.
pub open spec fn kind_for(draw: u32) -> DropletType {
    if draw >= 950_000 {
        DropletType::Sponge
    } else if draw >= 750_000 {
        DropletType::Stone
    } else {
        DropletType::Raindrop
    }
}

/// The horizontal position that a draw selects: the draw spread over the
/// width of 736 units around the centre.
pub open spec fn spawn_x(draw: u32) -> int {
    draw * 736 - 368_000_000
}

/// The object that two draws give.
pub open spec fn spawned(kind_draw: u32, place_draw: u32) -> FallingThing {
    FallingThing {
        droplet_type: kind_for(kind_draw),
        position: Position { x: spawn_x(place_draw) as i64, y: 300_000_000 },
        speed: Speed { horizontal: 0, vertical: FALL_SPEED },
        tracker: if kind_for(kind_draw) == DropletType::Stone {
            CollisionTracker {
                time: Some(
                    Timer { duration_us: 200_000, elapsed_us: 0, paused: true, finished: false },
                ),
                force: 0,
            }
        } else {
            CollisionTracker { time: None, force: 0 }
        },
    }
}

/// Picks the kind that a draw selects.
pub fn choose_kind(draw: u32) -> (kind: DropletType)
    ensures
        kind == kind_for(draw),
{
    if draw >= 950_000 {
        DropletType::Sponge
    } else if draw >= 750_000 {
        DropletType::Stone
    } else {
        DropletType::Raindrop
    }
}

/// Picks the horizontal position that a draw selects. A draw below a
/// million keeps a margin of 32 units to either side of the play area.
pub fn spawn_position(draw: u32) -> (x: i64)
    ensures
        x == spawn_x(draw),
        draw < DRAW_SCALE ==> -368_000_000 <= x < 368_000_000,
{
    let wide: i64 = draw as i64;
    wide * 736 - 368_000_000
}

/// Makes the object that the two draws select.
pub fn spawn_from_draws(kind_draw: u32, place_draw: u32) -> (thing: FallingThing)
    ensures
        thing == spawned(kind_draw, place_draw),
        thing.wf(),
        thing.tracker.pending() == 0,
{
    let kind = choose_kind(kind_draw);
    let tracker = match kind {
        DropletType::Stone => CollisionTracker::new(),
        _ => CollisionTracker { time: None, force: 0 },
    };
    FallingThing {
        droplet_type: kind,
        position: Position { x: spawn_position(place_draw), y: SPAWN_Y },
        speed: Speed { horizontal: 0, vertical: FALL_SPEED },
        tracker,
    }
}

/// Advances the spawn interval and, when it fires, makes one new object from
/// two draws of chance. Which draws come is open; each is below a million.
pub fn drop_object(timer: &mut DropTimer, elapsed_us: u64) -> (made: Option<FallingThing>)
    requires
        old(timer).wf(),
    ensures
        *final(timer) == old(timer).ticked(elapsed_us),
        final(timer).wf(),
        made is Some <==> old(timer).fires(elapsed_us),
        made matches Some(thing) ==> thing.wf() && exists|kind_draw: u32, place_draw: u32|
            kind_draw < 1_000_000 && place_draw < 1_000_000 && thing == #[trigger] spawned(
                kind_draw,
                place_draw,
            ),
{
    if timer.tick(elapsed_us) {
        let kind_draw: u32 = draw_below(DRAW_SCALE);
        let place_draw: u32 = draw_below(DRAW_SCALE);
        Some(spawn_from_draws(kind_draw, place_draw))
    } else {
        None
    }
}

} // verus!
