//! The life of one falling object, frame after frame, and what it does to
//! the bucket's speed in all.

use vstd::prelude::*;
use crate::model::Position;
use crate::resolver::{lemma_frame_conserves, FallingThing};

verus! {

/// One frame in the life of an object: where the object is, where the bucket
/// is, and how long the frame lasts.
pub struct Moment {
    pub thing: Position,
    pub bucket: Position,
    pub delta_us: u64,
}

/// The object as it enters the frame `m`.
pub open spec fn entering(thing: FallingThing, m: Moment) -> FallingThing {
    FallingThing { position: m.thing, ..thing }
}

/// Whether one of the frames removes the object.
pub open spec fn removed_within(thing: FallingThing, life: Seq<Moment>) -> bool
    decreases life.len(),
{
    if life.len() == 0 {
        false
    } else {
        entering(thing, life[0]).despawns(life[0].bucket) || removed_within(
            thing,
            life.drop_first(),
        )
    }
}

/// Everything that the object adds to the bucket's speed over the frames, up
/// to the frame that removes it.
pub open spec fn life_impulse(thing: FallingThing, life: Seq<Moment>) -> int
    decreases life.len(),
{
    if life.len() == 0 {
        0
    } else {
        let now = entering(thing, life[0]);
        now.impulse(life[0].bucket, life[0].delta_us) + if now.despawns(life[0].bucket) {
            0
        } else {
            life_impulse(now.after(life[0].bucket, life[0].delta_us), life.drop_first())
        }
    }
}

/// The push that the object still has outstanding after the frames: none once
/// it has been removed.
pub open spec fn life_pending(thing: FallingThing, life: Seq<Moment>) -> int
    decreases life.len(),
{
    if life.len() == 0 {
        thing.tracker.pending()
    } else {
        let now = entering(thing, life[0]);
        if now.despawns(life[0].bucket) {
            0
        } else {
            life_pending(now.after(life[0].bucket, life[0].delta_us), life.drop_first())
        }
    }
}

/// Over any run of frames, what an object has added to the bucket's speed is
/// the change of its outstanding push.
pub proof fn lemma_life_conserves(thing: FallingThing, life: Seq<Moment>)
    requires
        thing.wf(),
    ensures
        life_impulse(thing, life) == life_pending(thing, life) - thing.tracker.pending(),
        removed_within(thing, life) ==> life_pending(thing, life) == 0,
    decreases life.len(),
{
    if life.len() > 0 {
        let now = entering(thing, life[0]);
        lemma_frame_conserves(now, life[0].bucket, life[0].delta_us);
        if !now.despawns(life[0].bucket) {
            let next = now.after(life[0].bucket, life[0].delta_us);
            lemma_life_conserves(next, life.drop_first());
            assert(removed_within(thing, life) == removed_within(next, life.drop_first())) by {
                lemma_removal_ignores_tracker(thing, next, life.drop_first());
            }
        }
    }
}

/// Whether an object is removed depends on its kind and on where it is, not
/// on its tracker.
pub proof fn lemma_removal_ignores_tracker(a: FallingThing, b: FallingThing, life: Seq<Moment>)
    requires
        a.droplet_type == b.droplet_type,
    ensures
        removed_within(a, life) == removed_within(b, life),
    decreases life.len(),
{
    if life.len() > 0 {
        lemma_removal_ignores_tracker(a, b, life.drop_first());
    }
}

/// The knock-back of a stone sums to nothing over its life: from the moment
/// it appears, with no push outstanding, to the frame that removes it, all
/// that it has added to the bucket's speed is taken back.
pub proof fn lemma_knockback_net_zero(thing: FallingThing, life: Seq<Moment>)
    requires
        thing.wf(),
        thing.tracker.pending() == 0,
        removed_within(thing, life),
    ensures
        life_impulse(thing, life) == 0,
{
    lemma_life_conserves(thing, life);
}

} // verus!
