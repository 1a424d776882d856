//! What happens to a falling object in one frame: its countdown runs, it
//! leaves the play area at the bottom, or it meets the bucket.

use vstd::prelude::*;
use crate::model::{Bucket, DropletType, GameStats, Position, Speed, EXIT_Y, FALL_SPEED, KNOCKBACK, REACH};
use crate::timer::{CollisionTracker, Timer};
use crate::water::{all_wf, land_in_water, made_for, water_after, WaterBundle};

verus! {

/// An object on its way down.
#[derive(Clone, Copy, Debug, PartialEq, Eq)]
pub struct FallingThing {
    pub droplet_type: DropletType,
    pub position: Position,
    pub speed: Speed,
    pub tracker: CollisionTracker,
}

impl Default for FallingThing {
    fn default() -> (t: FallingThing)
        ensures
            t == (FallingThing {
                droplet_type: DropletType::Raindrop,
                position: Position { x: 0, y: 0 },
                speed: Speed { horizontal: 0, vertical: FALL_SPEED },
                tracker: CollisionTracker { time: None, force: 0 },
            }),
            t.wf(),
    {
        FallingThing {
            droplet_type: DropletType::Raindrop,
            position: Position { x: 0, y: 0 },
            speed: Speed { horizontal: 0, vertical: FALL_SPEED },
            tracker: CollisionTracker { time: None, force: 0 },
        }
    }
}

/// The sounds of the game.
#[derive(Clone, Copy, Debug, PartialEq, Eq)]
pub enum Cue {
    Drop,
    Splash,
    Tink,
}

/// What one frame asks of the world on behalf of one object.
#[derive(Clone, Copy, Debug, PartialEq, Eq)]
pub struct Outcome {
    /// The object is to be removed.
    pub despawn: bool,
    /// The sound to play, if any.
    pub cue: Option<Cue>,
    /// The pool to create, if the object came down and found none.
    pub made: Option<WaterBundle>,
}

/// What becomes of an object in a frame, judged by where it is.
#[derive(Clone, Copy, Debug, PartialEq, Eq)]
pub enum Fate {
    /// It is below the play area.
    Leaves,
    /// It is within reach of the bucket.
    Touches,
    /// It falls on.
    Falls,
}

/// Two places are less than the bucket's reach apart, in a straight line.
pub open spec fn touches(a: Position, b: Position) -> bool {
    (a.x - b.x) * (a.x - b.x) + (a.y - b.y) * (a.y - b.y) < 64_000_000 * 64_000_000
}

pub open spec fn fate_of(thing: Position, bucket: Position) -> Fate {
    if thing.y < EXIT_Y {
        Fate::Leaves
    } else if touches(thing, bucket) {
        Fate::Touches
    } else {
        Fate::Falls
    }
}

/// The push of a stone at `stone_x` on a bucket at `bucket_x`: away from the
/// stone.
pub open spec fn push_from(stone_x: i64, bucket_x: i64) -> int {
    if stone_x > bucket_x {
        -600
    } else {
        600
    }
}

impl FallingThing {
    /// The push is bounded, no countdown is left finished between frames, and
    /// only a stone can have a push outstanding.
    pub open spec fn wf(self) -> bool {
        &&& self.tracker.wf()
        &&& self.tracker.time matches Some(t) ==> !t.finished
        &&& self.droplet_type != DropletType::Stone ==> self.tracker.pending() == 0
    }

    /// A stone within reach of the bucket whose countdown, after this frame's
    /// advance, stands paused: the contact that starts a push.
    pub open spec fn strikes(self, bucket: Position, delta_us: u64) -> bool {
        &&& self.droplet_type == DropletType::Stone
        &&& fate_of(self.position, bucket) == Fate::Touches
        &&& self.tracker.advanced(delta_us).time matches Some(t) && t.paused
    }

    /// The tracker after the frame.
    pub open spec fn tracker_after(self, bucket: Position, delta_us: u64) -> CollisionTracker {
        let ticked = self.tracker.advanced(delta_us);
        if self.strikes(bucket, delta_us) {
            CollisionTracker {
                time: Some(Timer { paused: false, ..ticked.time->Some_0 }),
                force: push_from(self.position.x, bucket.x) as i64,
            }
        } else {
            ticked
        }
    }

    /// The object after the frame.
    pub open spec fn after(self, bucket: Position, delta_us: u64) -> FallingThing {
        FallingThing { tracker: self.tracker_after(bucket, delta_us), ..self }
    }

    /// What the frame adds to the bucket's horizontal speed: a completed
    /// countdown takes the push back, a stone that leaves with its countdown
    /// running takes it back too, and a strike gives a new one.
    pub open spec fn impulse(self, bucket: Position, delta_us: u64) -> int {
        let undone: int = if self.tracker.completes(delta_us) {
            -self.tracker.force
        } else {
            0
        };
        if self.droplet_type == DropletType::Stone && fate_of(self.position, bucket)
            == Fate::Leaves {
            undone - self.tracker.advanced(delta_us).pending()
        } else if self.strikes(bucket, delta_us) {
            undone + push_from(self.position.x, bucket.x)
        } else {
            undone
        }
    }

    /// What the frame adds to the score: one for a raindrop caught, minus one
    /// for a sponge caught.
    pub open spec fn score_change(self, bucket: Position) -> int {
        if fate_of(self.position, bucket) == Fate::Touches {
            match self.droplet_type {
                DropletType::Raindrop => 1,
                DropletType::Sponge => -1,
                DropletType::Stone => 0,
            }
        } else {
            0
        }
    }

    /// Whether the frame removes the object: it has left, or the bucket has
    /// caught it. A stone is never caught.
    pub open spec fn despawns(self, bucket: Position) -> bool {
        match fate_of(self.position, bucket) {
            Fate::Leaves => true,
            Fate::Touches => self.droplet_type != DropletType::Stone,
            Fate::Falls => false,
        }
    }

    /// The sound of the frame.
    pub open spec fn cue(self, bucket: Position, delta_us: u64) -> Option<Cue> {
        match (fate_of(self.position, bucket), self.droplet_type) {
            (Fate::Leaves, DropletType::Stone) => Some(Cue::Splash),
            (Fate::Touches, DropletType::Raindrop) => Some(Cue::Drop),
            (Fate::Touches, DropletType::Stone) => if self.strikes(bucket, delta_us) {
                Some(Cue::Tink)
            } else {
                None
            },
            _ => None,
        }
    }

    /// Whether the object comes down into the water in this frame.
    pub open spec fn lands(self) -> bool {
        self.position.y < EXIT_Y && self.droplet_type != DropletType::Stone
    }

    /// The pools after the frame.
    pub open spec fn water_change(self, water: Seq<WaterBundle>) -> Seq<WaterBundle> {
        if self.lands() {
            water_after(water, self.position.x, self.droplet_type == DropletType::Raindrop)
        } else {
            water
        }
    }

    /// The pool that the frame asks for.
    pub open spec fn pool_made(self, water: Seq<WaterBundle>) -> Option<WaterBundle> {
        if self.lands() {
            made_for(water, self.droplet_type == DropletType::Raindrop)
        } else {
            None
        }
    }

    /// The push that the object has outstanding once the frame is over: none
    /// if it is gone.
    pub open spec fn pending_after(self, bucket: Position, delta_us: u64) -> int {
        if self.despawns(bucket) {
            0
        } else {
            self.tracker_after(bucket, delta_us).pending()
        }
    }
}

/// Tells whether two places are less than the bucket's reach apart.
pub fn touching(a: Position, b: Position) -> (r: bool)
    ensures
        r == touches(a, b),
{
    let reach: i128 = REACH as i128;
    let dx: i128 = a.x as i128 - b.x as i128;
    let dy: i128 = a.y as i128 - b.y as i128;
    if dx >= reach || dx <= -reach || dy >= reach || dy <= -reach {
        proof {
            assert(dx * dx + dy * dy >= 64_000_000 * 64_000_000) by (nonlinear_arith)
                requires
                    dx >= 64_000_000 || dx <= -64_000_000 || dy >= 64_000_000 || dy
                        <= -64_000_000,
            ;
        }
        return false;
    }
    proof {
        assert(0 <= dx * dx <= 64_000_000 * 64_000_000 && 0 <= dy * dy <= 64_000_000
            * 64_000_000) by (nonlinear_arith)
            requires
                -64_000_000 < dx < 64_000_000,
                -64_000_000 < dy < 64_000_000,
        ;
    }
    dx * dx + dy * dy < reach * reach
}

/// Judges what becomes of an object at `thing` while the bucket is at
/// `bucket`. Leaving comes first: an object below the play area is never
/// counted as touching.
pub fn fate(thing: Position, bucket: Position) -> (f: Fate)
    ensures
        f == fate_of(thing, bucket),
{
    if thing.y < EXIT_Y {
        Fate::Leaves
    } else if touching(thing, bucket) {
        Fate::Touches
    } else {
        Fate::Falls
    }
}

/// Plays one frame for one object. The countdown runs first; then the object
/// either leaves at the bottom, or meets the bucket, or falls on.
pub fn resolve_object(
    thing: &mut FallingThing,
    bucket: &mut Bucket,
    water: &mut Vec<WaterBundle>,
    stats: &mut GameStats,
    elapsed_us: u64,
) -> (out: Outcome)
    requires
        old(thing).wf(),
        all_wf(old(water)@),
        i64::MIN + 1200 <= old(bucket).speed.horizontal <= i64::MAX - 1200,
        i128::MIN < old(stats).score < i128::MAX,
    ensures
        *final(thing) == old(thing).after(old(bucket).position, elapsed_us),
        final(thing).wf(),
        final(bucket).position == old(bucket).position,
        final(bucket).speed.vertical == old(bucket).speed.vertical,
        final(bucket).speed.horizontal == old(bucket).speed.horizontal + old(thing).impulse(
            old(bucket).position,
            elapsed_us,
        ),
        final(stats).score == old(stats).score + old(thing).score_change(old(bucket).position),
        final(water)@ == old(thing).water_change(old(water)@),
        all_wf(final(water)@),
        out.despawn == old(thing).despawns(old(bucket).position),
        out.cue == old(thing).cue(old(bucket).position, elapsed_us),
        out.made == old(thing).pool_made(old(water)@),
        -1200 <= old(thing).impulse(old(bucket).position, elapsed_us) <= 1200,
        old(thing).impulse(old(bucket).position, elapsed_us) == old(thing).pending_after(
            old(bucket).position,
            elapsed_us,
        ) - old(thing).tracker.pending(),
{
    let mut tracker = thing.tracker;
    let mut out = Outcome { despawn: false, cue: None, made: None };
    if tracker.advance(elapsed_us) {
        bucket.speed.horizontal = bucket.speed.horizontal - tracker.force;
    }
    match fate(thing.position, bucket.position) {
        Fate::Leaves => {
            match thing.droplet_type {
                DropletType::Raindrop => {
                    out.made = land_in_water(water, thing.position.x, true);
                },
                DropletType::Sponge => {
                    out.made = land_in_water(water, thing.position.x, false);
                },
                DropletType::Stone => {
                    out.cue = Some(Cue::Splash);
                    if let Some(timer) = tracker.time {
                        if !timer.paused() {
                            bucket.speed.horizontal = bucket.speed.horizontal - tracker.force;
                        }
                    }
                },
            }
            out.despawn = true;
        },
        Fate::Touches => {
            match thing.droplet_type {
                DropletType::Raindrop => {
                    stats.score = stats.score + 1;
                    out.despawn = true;
                    out.cue = Some(Cue::Drop);
                },
                DropletType::Sponge => {
                    stats.score = stats.score - 1;
                    out.despawn = true;
                },
                DropletType::Stone => {
                    if let Some(mut timer) = tracker.time {
                        if timer.paused() {
                            timer.unpause();
                            tracker.time = Some(timer);
                            if thing.position.x > bucket.position.x {
                                tracker.force = -KNOCKBACK;
                            } else {
                                tracker.force = KNOCKBACK;
                            }
                            bucket.speed.horizontal = bucket.speed.horizontal + tracker.force;
                            out.cue = Some(Cue::Tink);
                        }
                    }
                },
            }
        },
        Fate::Falls => {},
    }
    thing.tracker = tracker;
    out
}

impl FallingThing {
    /// Tells whether the object is well formed.
    pub fn is_wf(&self) -> (b: bool)
        ensures
            b == self.wf(),
    {
        let bounded = -KNOCKBACK <= self.tracker.force && self.tracker.force <= KNOCKBACK;
        let settled = match self.tracker.time {
            Some(timer) => !timer.finished(),
            None => true,
        };
        let quiet = match (self.droplet_type, self.tracker.time) {
            (DropletType::Stone, _) => true,
            (_, None) => true,
            (_, Some(timer)) => timer.paused() || self.tracker.force == 0,
        };
        bounded && settled && quiet
    }
}

/// In every frame the bucket's speed changes by exactly as much as the
/// object's outstanding push does, and the object stays well formed.
pub proof fn lemma_frame_conserves(thing: FallingThing, bucket: Position, delta_us: u64)
    requires
        thing.wf(),
    ensures
        thing.impulse(bucket, delta_us) == thing.pending_after(bucket, delta_us)
            - thing.tracker.pending(),
        thing.after(bucket, delta_us).wf(),
{
}

/// A countdown that completes takes the push back exactly once, whether the
/// stone falls on or leaves in that very frame, and then stands paused and
/// rewound. Only a stone that is still within reach adds a new push on top.
pub proof fn lemma_completion_undoes_once(thing: FallingThing, bucket: Position, delta_us: u64)
    requires
        thing.wf(),
        thing.tracker.completes(delta_us),
    ensures
        thing.impulse(bucket, delta_us) == -thing.tracker.force + (if thing.strikes(
            bucket,
            delta_us,
        ) {
            push_from(thing.position.x, bucket.x)
        } else {
            0
        }),
        fate_of(thing.position, bucket) != Fate::Touches ==> thing.impulse(bucket, delta_us)
            == -thing.tracker.force,
        thing.tracker.advanced(delta_us).time == Some(
            Timer {
                duration_us: thing.tracker.time->Some_0.duration_us,
                elapsed_us: 0,
                paused: true,
                finished: false,
            },
        ),
        thing.tracker.advanced(delta_us).force == thing.tracker.force,
        thing.tracker.pending() == thing.tracker.force,
{
}

/// A stone that leaves before its countdown completes takes back the push
/// that it has outstanding: its force if the countdown runs, nothing if the
/// countdown is paused. Either way it is removed.
pub proof fn lemma_leaving_undoes_once(thing: FallingThing, bucket: Position, delta_us: u64)
    requires
        thing.wf(),
        thing.droplet_type == DropletType::Stone,
        thing.position.y < EXIT_Y,
        !thing.tracker.completes(delta_us),
    ensures
        thing.despawns(bucket),
        thing.cue(bucket, delta_us) == Some(Cue::Splash),
        thing.impulse(bucket, delta_us) == -thing.tracker.pending(),
        thing.tracker.time matches Some(t) && !t.paused ==> thing.impulse(bucket, delta_us)
            == -thing.tracker.force,
        thing.tracker.time matches Some(t) && t.paused ==> thing.impulse(bucket, delta_us) == 0,
{
}

/// A strike happens once: in the frame after it the countdown runs, so a
/// stone that is still within reach adds nothing more until the countdown
/// has completed.
pub proof fn lemma_no_second_strike(
    thing: FallingThing,
    bucket: Position,
    delta_us: u64,
    next_bucket: Position,
    next_delta_us: u64,
)
    requires
        thing.wf(),
        thing.strikes(bucket, delta_us),
        !thing.after(bucket, delta_us).tracker.completes(next_delta_us),
        thing.position.y >= EXIT_Y,
    ensures
        thing.impulse(bucket, delta_us) - (if thing.tracker.completes(delta_us) {
            -thing.tracker.force
        } else {
            0
        }) == push_from(thing.position.x, bucket.x),
        !thing.after(bucket, delta_us).strikes(next_bucket, next_delta_us),
        thing.after(bucket, delta_us).impulse(next_bucket, next_delta_us) == 0,
{
}

} // verus!
