//! A whole frame: every falling object has its turn, in order, and what the
//! turns ask for is done once all of them are over.

use vstd::prelude::*;
use crate::chance::draw_below;
use crate::model::{Bucket, GameStats, Position};
use crate::resolver::{lemma_frame_conserves, resolve_object, Cue, FallingThing};
use crate::water::{all_wf, pools_wf, WaterBundle};

verus! {

/// How many interchangeable recordings each sound has.
pub const VARIANTS: u32 = 3;

/// A sound to play: which one, and which of its recordings.
#[derive(Clone, Copy, Debug, PartialEq, Eq)]
pub struct SoundCue {
    pub cue: Cue,
    pub variant: u32,
}

/// The running account of a frame: the bucket's speed and the score so far,
/// the pools, the pools waiting to be created, the objects that stay, the
/// places in the list of those that go, and the sounds to play.
pub struct FrameState {
    pub speed: int,
    pub score: int,
    pub water: Seq<WaterBundle>,
    pub made: Seq<WaterBundle>,
    pub kept: Seq<FallingThing>,
    pub removed: Seq<usize>,
    pub cues: Seq<Cue>,
}

/// What a frame hands back: the sounds in the order in which they arose, and
/// the places that the removed objects had in the list, in rising order.
#[derive(Debug, PartialEq, Eq)]
pub struct FrameReport {
    pub cues: Vec<Cue>,
    pub removed: Vec<usize>,
}

/// A frame's report with a recording picked for each sound.
#[derive(Debug, PartialEq, Eq)]
pub struct FrameSounds {
    pub sounds: Vec<SoundCue>,
    pub removed: Vec<usize>,
}

/// The account before any object has had its turn.
pub open spec fn frame_start(bucket: Bucket, stats: GameStats, water: Seq<WaterBundle>)
    -> FrameState {
    FrameState {
        speed: bucket.speed.horizontal as int,
        score: stats.score as int,
        water,
        made: Seq::empty(),
        kept: Seq::empty(),
        removed: Seq::empty(),
        cues: Seq::empty(),
    }
}

/// The account after one more object, the one at `index`, has had its turn.
/// A pool that is asked for waits in `made`: objects later in the same frame
/// do not see it yet.
pub open spec fn frame_step(
    s: FrameState,
    thing: FallingThing,
    index: usize,
    bucket: Position,
    delta_us: u64,
) -> FrameState {
    FrameState {
        speed: s.speed + thing.impulse(bucket, delta_us),
        score: s.score + thing.score_change(bucket),
        water: thing.water_change(s.water),
        made: match thing.pool_made(s.water) {
            Some(pool) => s.made.push(pool),
            None => s.made,
        },
        kept: if thing.despawns(bucket) {
            s.kept
        } else {
            s.kept.push(thing.after(bucket, delta_us))
        },
        removed: if thing.despawns(bucket) {
            s.removed.push(index)
        } else {
            s.removed
        },
        cues: match thing.cue(bucket, delta_us) {
            Some(cue) => s.cues.push(cue),
            None => s.cues,
        },
    }
}

/// The account after the first `n` objects, each in its turn.
pub open spec fn frame_after(
    objects: Seq<FallingThing>,
    n: nat,
    start: FrameState,
    bucket: Position,
    delta_us: u64,
) -> FrameState
    decreases n,
{
    if n == 0 {
        start
    } else {
        frame_step(
            frame_after(objects, (n - 1) as nat, start, bucket, delta_us),
            objects[n - 1],
            (n - 1) as usize,
            bucket,
            delta_us,
        )
    }
}

/// The account at the end of a frame that begins in the given state.
pub open spec fn frame_end(
    objects: Seq<FallingThing>,
    bucket: Bucket,
    stats: GameStats,
    water: Seq<WaterBundle>,
    delta_us: u64,
) -> FrameState {
    frame_after(
        objects,
        objects.len(),
        frame_start(bucket, stats, water),
        bucket.position,
        delta_us,
    )
}

/// Every object is well formed.
pub open spec fn things_wf(objects: Seq<FallingThing>) -> bool {
    forall|i: int| 0 <= i < objects.len() ==> (#[trigger] objects[i]).wf()
}

/// The bucket's speed and the score leave room for what `count` objects can
/// add to them or take from them in one frame.
pub open spec fn has_room(bucket: Bucket, stats: GameStats, count: nat) -> bool {
    &&& i64::MIN + 1200 * count <= bucket.speed.horizontal <= i64::MAX - 1200 * count
    &&& i128::MIN + count <= stats.score <= i128::MAX - count
}

/// The world after a frame is what the account `end` says: the objects that
/// stay, the pools with the new ones behind them, the speed and the score.
/// The bucket itself does not move.
pub open spec fn settled(
    end: FrameState,
    before: Bucket,
    objects: Seq<FallingThing>,
    bucket: Bucket,
    water: Seq<WaterBundle>,
    stats: GameStats,
) -> bool {
    &&& objects == end.kept
    &&& water == end.water + end.made
    &&& bucket.speed.horizontal == end.speed
    &&& bucket.speed.vertical == before.speed.vertical
    &&& bucket.position == before.position
    &&& stats.score == end.score
}

/// Plays one frame for all objects, in their order. Objects that left or were
/// caught are removed and new pools are added only once every object has had
/// its turn.
pub fn resolve_frame(
    objects: &mut Vec<FallingThing>,
    bucket: &mut Bucket,
    water: &mut Vec<WaterBundle>,
    stats: &mut GameStats,
    elapsed_us: u64,
) -> (report: FrameReport)
    requires
        things_wf(old(objects)@),
        all_wf(old(water)@),
        has_room(*old(bucket), *old(stats), old(objects)@.len()),
    ensures
        settled(
            frame_end(old(objects)@, *old(bucket), *old(stats), old(water)@, elapsed_us),
            *old(bucket),
            final(objects)@,
            *final(bucket),
            final(water)@,
            *final(stats),
        ),
        report.cues@ == frame_end(
            old(objects)@,
            *old(bucket),
            *old(stats),
            old(water)@,
            elapsed_us,
        ).cues,
        report.removed@ == frame_end(
            old(objects)@,
            *old(bucket),
            *old(stats),
            old(water)@,
            elapsed_us,
        ).removed,
        things_wf(final(objects)@),
        all_wf(final(water)@),
{
    let ghost all = objects@;
    let ghost start = frame_start(*bucket, *stats, water@);
    let ghost before = *bucket;
    let ghost score0 = stats.score;
    let mut kept: Vec<FallingThing> = Vec::new();
    let mut made: Vec<WaterBundle> = Vec::new();
    let mut cues: Vec<Cue> = Vec::new();
    let mut removed: Vec<usize> = Vec::new();
    let count: usize = objects.len();
    let mut i: usize = 0;
    while i < count
        invariant
            0 <= i <= count,
            count == all.len(),
            objects@ == all,
            things_wf(all),
            all_wf(water@),
            all_wf(made@),
            things_wf(kept@),
            bucket.position == before.position,
            bucket.speed.vertical == before.speed.vertical,
            has_room(before, GameStats { score: score0 }, count as nat),
            before.speed.horizontal - 1200 * i <= bucket.speed.horizontal
                <= before.speed.horizontal + 1200 * i,
            score0 - i <= stats.score <= score0 + i,
            bucket.speed.horizontal == frame_after(
                all,
                i as nat,
                start,
                before.position,
                elapsed_us,
            ).speed,
            stats.score == frame_after(all, i as nat, start, before.position, elapsed_us).score,
            water@ == frame_after(all, i as nat, start, before.position, elapsed_us).water,
            made@ == frame_after(all, i as nat, start, before.position, elapsed_us).made,
            kept@ == frame_after(all, i as nat, start, before.position, elapsed_us).kept,
            cues@ == frame_after(all, i as nat, start, before.position, elapsed_us).cues,
            removed@ == frame_after(all, i as nat, start, before.position, elapsed_us).removed,
        decreases count - i,
    {
        let mut thing = objects[i];
        let out = resolve_object(&mut thing, bucket, water, stats, elapsed_us);
        if out.despawn {
            removed.push(i);
        } else {
            kept.push(thing);
        }
        if let Some(pool) = out.made {
            made.push(pool);
        }
        if let Some(cue) = out.cue {
            cues.push(cue);
        }
        i = i + 1;
    }
    *objects = kept;
    water.append(&mut made);
    FrameReport { cues, removed }
}

/// Plays one frame for all objects and picks, by chance, one of the three
/// recordings for each sound. The world changes as in `resolve_frame`; of
/// the recordings only their range is known.
pub fn process_falling_things(
    objects: &mut Vec<FallingThing>,
    bucket: &mut Bucket,
    water: &mut Vec<WaterBundle>,
    stats: &mut GameStats,
    elapsed_us: u64,
) -> (report: FrameSounds)
    requires
        things_wf(old(objects)@),
        all_wf(old(water)@),
        has_room(*old(bucket), *old(stats), old(objects)@.len()),
    ensures
        settled(
            frame_end(old(objects)@, *old(bucket), *old(stats), old(water)@, elapsed_us),
            *old(bucket),
            final(objects)@,
            *final(bucket),
            final(water)@,
            *final(stats),
        ),
        things_wf(final(objects)@),
        all_wf(final(water)@),
        report.removed@ == frame_end(
            old(objects)@,
            *old(bucket),
            *old(stats),
            old(water)@,
            elapsed_us,
        ).removed,
        report.sounds@.len() == frame_end(
            old(objects)@,
            *old(bucket),
            *old(stats),
            old(water)@,
            elapsed_us,
        ).cues.len(),
        forall|k: int|
            0 <= k < report.sounds@.len() ==> (#[trigger] report.sounds@[k]).cue == frame_end(
                old(objects)@,
                *old(bucket),
                *old(stats),
                old(water)@,
                elapsed_us,
            ).cues[k] && report.sounds@[k].variant < 3,
{
    let FrameReport { cues, removed } = resolve_frame(objects, bucket, water, stats, elapsed_us);
    let mut sounds: Vec<SoundCue> = Vec::new();
    let mut k: usize = 0;
    while k < cues.len()
        invariant
            0 <= k <= cues@.len(),
            sounds@.len() == k,
            forall|j: int|
                0 <= j < k ==> (#[trigger] sounds@[j]).cue == cues@[j] && sounds@[j].variant < 3,
        decreases cues@.len() - k,
    {
        let variant: u32 = draw_below(VARIANTS);
        sounds.push(SoundCue { cue: cues[k], variant });
        k = k + 1;
    }
    FrameSounds { sounds, removed }
}

/// Tells whether a frame can be played on this state: every object and every
/// pool is well formed, and the speed and the score have room.
pub fn frame_fits(
    objects: &Vec<FallingThing>,
    bucket: &Bucket,
    water: &Vec<WaterBundle>,
    stats: &GameStats,
) -> (b: bool)
    ensures
        b == (things_wf(objects@) && all_wf(water@) && has_room(
            *bucket,
            *stats,
            objects@.len(),
        )),
{
    let count: i128 = objects.len() as i128;
    let speed: i128 = bucket.speed.horizontal as i128;
    if speed < i64::MIN as i128 + 1200 * count || speed > i64::MAX as i128 - 1200 * count {
        return false;
    }
    if stats.score < i128::MIN + count || stats.score > i128::MAX - count {
        return false;
    }
    if !pools_wf(water) {
        return false;
    }
    let mut i: usize = 0;
    while i < objects.len()
        invariant
            0 <= i <= objects@.len(),
            forall|j: int| 0 <= j < i ==> (#[trigger] objects@[j]).wf(),
        decreases objects@.len() - i,
    {
        if !objects[i].is_wf() {
            return false;
        }
        i = i + 1;
    }
    true
}

/// All the pushes that the objects have outstanding.
pub open spec fn total_pending(objects: Seq<FallingThing>) -> int
    decreases objects.len(),
{
    if objects.len() == 0 {
        0
    } else {
        total_pending(objects.drop_last()) + objects.last().tracker.pending()
    }
}

/// After any number of turns, the speed in the account less the pushes of
/// the objects kept is the speed at the start less the pushes that those
/// objects brought into the frame.
pub proof fn lemma_turns_conserve(
    objects: Seq<FallingThing>,
    n: nat,
    start: FrameState,
    bucket: Position,
    delta_us: u64,
)
    requires
        things_wf(objects),
        n <= objects.len(),
    ensures
        frame_after(objects, n, start, bucket, delta_us).speed - total_pending(
            frame_after(objects, n, start, bucket, delta_us).kept,
        ) == start.speed - total_pending(start.kept) - total_pending(objects.take(n as int)),
    decreases n,
{
    if n > 0 {
        lemma_turns_conserve(objects, (n - 1) as nat, start, bucket, delta_us);
        let prev = frame_after(objects, (n - 1) as nat, start, bucket, delta_us);
        let thing = objects[n - 1];
        lemma_frame_conserves(thing, bucket, delta_us);
        assert(objects.take(n as int).drop_last() =~= objects.take(n - 1));
        if !thing.despawns(bucket) {
            assert(prev.kept.push(thing.after(bucket, delta_us)).drop_last() =~= prev.kept);
        }
    }
}

/// A whole frame leaves the bucket's speed, less the pushes outstanding,
/// as it was: whatever the stones give in a frame they hold as pushes to take
/// back, and whatever they take back they held before.
pub proof fn lemma_frame_conserves_speed(
    objects: Seq<FallingThing>,
    bucket: Bucket,
    stats: GameStats,
    water: Seq<WaterBundle>,
    delta_us: u64,
)
    requires
        things_wf(objects),
    ensures
        frame_end(objects, bucket, stats, water, delta_us).speed - total_pending(
            frame_end(objects, bucket, stats, water, delta_us).kept,
        ) == bucket.speed.horizontal - total_pending(objects),
{
    lemma_turns_conserve(
        objects,
        objects.len(),
        frame_start(bucket, stats, water),
        bucket.position,
        delta_us,
    );
    assert(objects.take(objects.len() as int) =~= objects);
}

/// Every object of a frame is either kept or removed, and the places of the
/// removed ones are places of the list, in rising order.
pub proof fn lemma_removed_rising(
    objects: Seq<FallingThing>,
    n: nat,
    start: FrameState,
    bucket: Position,
    delta_us: u64,
)
    requires
        n <= objects.len(),
        n <= usize::MAX,
        start.kept.len() == 0,
        start.removed.len() == 0,
    ensures
        frame_after(objects, n, start, bucket, delta_us).kept.len() + frame_after(
            objects,
            n,
            start,
            bucket,
            delta_us,
        ).removed.len() == n,
        forall|i: int|
            0 <= i < frame_after(objects, n, start, bucket, delta_us).removed.len() ==> (
            #[trigger] frame_after(objects, n, start, bucket, delta_us).removed[i]) < n,
        forall|i: int, j: int|
            0 <= i < j < frame_after(objects, n, start, bucket, delta_us).removed.len() ==> (
            #[trigger] frame_after(objects, n, start, bucket, delta_us).removed[i]) < (
            #[trigger] frame_after(objects, n, start, bucket, delta_us).removed[j]),
    decreases n,
{
    if n > 0 {
        lemma_removed_rising(objects, (n - 1) as nat, start, bucket, delta_us);
    }
}

} // verus!
