//! Motion: every frame each position advances by its speed times the time
//! that has passed, and horizontal positions stay inside the play area.

use vstd::prelude::*;
use crate::model::{Bucket, Position, Speed, X_LIMIT};
use crate::resolver::FallingThing;

verus! {

/// `x` held inside the play area.
pub open spec fn clamped(x: int) -> int {
    if x < -370_000_000 {
        -370_000_000
    } else if x > 370_000_000 {
        370_000_000
    } else {
        x
    }
}

/// A height after `delta` microseconds at `speed`.
pub open spec fn fall(y: int, speed: int, delta: int) -> int {
    y + speed * delta
}

/// A horizontal position after `delta` microseconds at `speed`.
pub open spec fn slide(x: int, speed: int, delta: int) -> int {
    clamped(x + speed * delta)
}

/// The height reached lies within the range of positions.
pub open spec fn can_fall(position: Position, speed: Speed, delta_us: u64) -> bool {
    i64::MIN <= fall(position.y as int, speed.vertical as int, delta_us as int) <= i64::MAX
}

/// A position after `delta_us` microseconds at `speed`.
pub open spec fn moved(position: Position, speed: Speed, delta_us: u64) -> Position {
    Position {
        x: slide(position.x as int, speed.horizontal as int, delta_us as int) as i64,
        y: fall(position.y as int, speed.vertical as int, delta_us as int) as i64,
    }
}

/// Falling for a while and then for a while more is falling for the whole
/// time at once.
pub proof fn lemma_fall_splits(y: int, speed: int, first: int, second: int)
    requires
        first >= 0,
        second >= 0,
    ensures
        fall(fall(y, speed, first), speed, second) == fall(y, speed, first + second),
        fall(y, speed, first + second) == fall(fall(y, speed, second), speed, first),
{
    assert(speed * (first + second) == speed * first + speed * second) by (nonlinear_arith);
}

/// Falling is linear in the time: `count` equal steps are one step of
/// `count` times the length.
pub proof fn lemma_fall_linear(y: int, speed: int, delta: int, count: int)
    requires
        delta >= 0,
        count >= 0,
    ensures
        fall(y, speed, count * delta) == y + count * (fall(y, speed, delta) - y),
{
    assert(speed * (count * delta) == count * (speed * delta)) by (nonlinear_arith);
}

/// Sliding from inside the play area for a while and then for a while more is
/// sliding for the whole time at once.
pub proof fn lemma_slide_splits(x: int, speed: int, first: int, second: int)
    requires
        first >= 0,
        second >= 0,
        -370_000_000 <= x <= 370_000_000,
    ensures
        slide(slide(x, speed, first), speed, second) == slide(x, speed, first + second),
{
    assert(speed * (first + second) == speed * first + speed * second) by (nonlinear_arith);
    assert(speed >= 0 ==> speed * first >= 0 && speed * second >= 0) by (nonlinear_arith)
        requires
            first >= 0,
            second >= 0,
    ;
    assert(speed <= 0 ==> speed * first <= 0 && speed * second <= 0) by (nonlinear_arith)
        requires
            first >= 0,
            second >= 0,
    ;
}

/// The horizontal position after a run of frames, each with its own speed
/// and duration.
pub open spec fn slide_all(x: int, frames: Seq<(int, int)>) -> int
    decreases frames.len(),
{
    if frames.len() == 0 {
        x
    } else {
        slide(slide_all(x, frames.drop_last()), frames.last().0, frames.last().1)
    }
}

/// Whatever the speeds and durations, after at least one frame the horizontal
/// position lies inside the play area; one that started inside never leaves.
pub proof fn lemma_stays_inside(x: int, frames: Seq<(int, int)>)
    ensures
        frames.len() > 0 || -370_000_000 <= x <= 370_000_000 ==> -370_000_000 <= slide_all(
            x,
            frames,
        ) <= 370_000_000,
    decreases frames.len(),
{
    if frames.len() > 0 {
        lemma_stays_inside(x, frames.drop_last());
    }
}

/// Advances a position by `speed` over `delta_us` microseconds.
pub fn advance(position: Position, speed: Speed, delta_us: u64) -> (r: Position)
    requires
        can_fall(position, speed, delta_us),
    ensures
        r == moved(position, speed, delta_us),
        r.x == slide(position.x as int, speed.horizontal as int, delta_us as int),
        r.y == fall(position.y as int, speed.vertical as int, delta_us as int),
        -X_LIMIT <= r.x <= X_LIMIT,
{
    let limit: i128 = X_LIMIT as i128;
    proof {
        lemma_product_fits(speed.horizontal, delta_us);
        lemma_product_fits(speed.vertical, delta_us);
    }
    let x: i128 = position.x as i128 + speed.horizontal as i128 * delta_us as i128;
    let y: i128 = position.y as i128 + speed.vertical as i128 * delta_us as i128;
    let held: i128 = if x < -limit {
        -limit
    } else if x > limit {
        limit
    } else {
        x
    };
    Position { x: held as i64, y: y as i64 }
}

/// A speed times a duration, added to a position, stays within 128 bits.
proof fn lemma_product_fits(speed: i64, delta_us: u64)
    ensures
        -0x8000_0000_0000_0000 * 0xffff_ffff_ffff_ffff <= speed * delta_us
            <= 0x8000_0000_0000_0000 * 0xffff_ffff_ffff_ffff,
        i128::MIN - i64::MIN <= speed * delta_us <= i128::MAX - i64::MAX,
{
    assert(-0x8000_0000_0000_0000 * 0xffff_ffff_ffff_ffff <= speed * delta_us
        <= 0x8000_0000_0000_0000 * 0xffff_ffff_ffff_ffff) by (nonlinear_arith)
        requires
            -0x8000_0000_0000_0000 <= speed <= 0x8000_0000_0000_0000,
            0 <= delta_us <= 0xffff_ffff_ffff_ffff,
    ;
}

/// Every object can fall for `delta_us` without leaving the range of
/// positions.
pub open spec fn all_can_fall(objects: Seq<FallingThing>, delta_us: u64) -> bool {
    forall|i: int|
        0 <= i < objects.len() ==> can_fall(
            (#[trigger] objects[i]).position,
            objects[i].speed,
            delta_us,
        )
}

/// Moves the bucket and every falling object by its own speed. Nothing but
/// the positions changes.
pub fn move_objects(bucket: &mut Bucket, objects: &mut Vec<FallingThing>, elapsed_us: u64)
    requires
        can_fall(old(bucket).position, old(bucket).speed, elapsed_us),
        all_can_fall(old(objects)@, elapsed_us),
    ensures
        *final(bucket) == (Bucket {
            position: moved(old(bucket).position, old(bucket).speed, elapsed_us),
            ..*old(bucket)
        }),
        -X_LIMIT <= final(bucket).position.x <= X_LIMIT,
        final(objects)@.len() == old(objects)@.len(),
        forall|i: int|
            0 <= i < final(objects)@.len() ==> -X_LIMIT <= (#[trigger] final(objects)@[i]).position.x
                <= X_LIMIT,
        forall|i: int|
            0 <= i < old(objects)@.len() ==> (#[trigger] final(objects)@[i]) == (FallingThing {
                position: moved(old(objects)@[i].position, old(objects)@[i].speed, elapsed_us),
                ..old(objects)@[i]
            }),
{
    bucket.position = advance(bucket.position, bucket.speed, elapsed_us);
    let ghost before = objects@;
    let mut i: usize = 0;
    while i < objects.len()
        invariant
            0 <= i <= objects@.len(),
            objects@.len() == before.len(),
            all_can_fall(before, elapsed_us),
            forall|j: int| i <= j < before.len() ==> (#[trigger] objects@[j]) == before[j],
            forall|j: int|
                0 <= j < i ==> (#[trigger] objects@[j]) == (FallingThing {
                    position: moved(before[j].position, before[j].speed, elapsed_us),
                    ..before[j]
                }),
        decreases objects@.len() - i,
    {
        let mut thing = objects[i];
        assert(thing == before[i as int]);
        thing.position = advance(thing.position, thing.speed, elapsed_us);
        objects.set(i, thing);
        i = i + 1;
    }
}

/// Tells whether the height reached lies within the range of positions.
pub fn fits(position: Position, speed: Speed, delta_us: u64) -> (b: bool)
    ensures
        b == can_fall(position, speed, delta_us),
{
    proof {
        lemma_product_fits(speed.vertical, delta_us);
    }
    let y: i128 = position.y as i128 + speed.vertical as i128 * delta_us as i128;
    i64::MIN as i128 <= y && y <= i64::MAX as i128
}

/// Tells whether the bucket and every object can be moved for `delta_us`.
pub fn all_fit(bucket: &Bucket, objects: &Vec<FallingThing>, delta_us: u64) -> (b: bool)
    ensures
        b == (can_fall(bucket.position, bucket.speed, delta_us) && all_can_fall(
            objects@,
            delta_us,
        )),
{
    if !fits(bucket.position, bucket.speed, delta_us) {
        return false;
    }
    let mut i: usize = 0;
    while i < objects.len()
        invariant
            0 <= i <= objects@.len(),
            forall|j: int|
                0 <= j < i ==> can_fall((#[trigger] objects@[j]).position, objects@[j].speed, delta_us),
        decreases objects@.len() - i,
    {
        if !fits(objects[i].position, objects[i].speed, delta_us) {
            return false;
        }
        i = i + 1;
    }
    true
}

} // verus!
