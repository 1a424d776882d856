//! The player's two actions and what their press and release do to the
//! bucket's speed.

use vstd::prelude::*;
use crate::model::{Speed, KEY_SPEED};

verus! {

/// The two things the player can do.
#[derive(Clone, Copy, Debug, PartialEq, Eq, Hash)]
pub enum BucketAction {
    Left,
    Right,
}

/// What happened to one action's button since the last frame.
#[derive(Clone, Copy, Debug, PartialEq, Eq)]
pub struct ButtonEdges {
    pub just_pressed: bool,
    pub just_released: bool,
}

/// What one action adds to the bucket's speed: a press pushes its way, a
/// release takes the push back, and a press counts before a release.
pub open spec fn key_impulse(action: BucketAction, edges: ButtonEdges) -> int {
    let toward: int = match action {
        BucketAction::Left => -300,
        BucketAction::Right => 300,
    };
    if edges.just_pressed {
        toward
    } else if edges.just_released {
        -toward
    } else {
        0
    }
}

/// Computes what one action adds to the bucket's speed in this frame.
pub fn action_impulse(action: BucketAction, edges: ButtonEdges) -> (r: i64)
    ensures
        r == key_impulse(action, edges),
{
    let toward: i64 = match action {
        BucketAction::Left => -KEY_SPEED,
        BucketAction::Right => KEY_SPEED,
    };
    if edges.just_pressed {
        toward
    } else if edges.just_released {
        -toward
    } else {
        0
    }
}

/// Applies this frame's edges of both actions to the bucket's speed.
pub fn move_bucket(speed: &mut Speed, left: ButtonEdges, right: ButtonEdges)
    requires
        i64::MIN <= old(speed).horizontal + key_impulse(BucketAction::Left, left) + key_impulse(
            BucketAction::Right,
            right,
        ) <= i64::MAX,
    ensures
        final(speed).horizontal == old(speed).horizontal + key_impulse(BucketAction::Left, left)
            + key_impulse(BucketAction::Right, right),
        final(speed).vertical == old(speed).vertical,
{
    let change: i64 = action_impulse(BucketAction::Left, left) + action_impulse(
        BucketAction::Right,
        right,
    );
    speed.horizontal = speed.horizontal + change;
}

/// A press and the release that follows it leave the speed as it was.
pub proof fn lemma_press_release_cancel(action: BucketAction)
    ensures
        key_impulse(action, ButtonEdges { just_pressed: true, just_released: false })
            + key_impulse(action, ButtonEdges { just_pressed: false, just_released: true }) == 0,
        key_impulse(BucketAction::Left, ButtonEdges { just_pressed: true, just_released: false })
            + key_impulse(
            BucketAction::Right,
            ButtonEdges { just_pressed: true, just_released: false },
        ) == 0,
{
}

/// The keys and buttons that the game listens to.
#[derive(Clone, Copy, Debug, PartialEq, Eq, Hash)]
pub enum Control {
    ArrowLeft,
    KeyA,
    DPadLeft,
    ArrowRight,
    KeyD,
    DPadRight,
}

/// The action that a key or button stands for.
pub open spec fn bound_to(control: Control) -> BucketAction {
    match control {
        Control::ArrowLeft | Control::KeyA | Control::DPadLeft => BucketAction::Left,
        Control::ArrowRight | Control::KeyD | Control::DPadRight => BucketAction::Right,
    }
}

/// Tells which action a key or button stands for.
pub fn action_of(control: Control) -> (action: BucketAction)
    ensures
        action == bound_to(control),
{
    match control {
        Control::ArrowLeft => BucketAction::Left,
        Control::KeyA => BucketAction::Left,
        Control::DPadLeft => BucketAction::Left,
        Control::ArrowRight => BucketAction::Right,
        Control::KeyD => BucketAction::Right,
        Control::DPadRight => BucketAction::Right,
    }
}

/// Every key and button of the game with its action: three ways to go left,
/// then three ways to go right.
pub fn default_input_map() -> (bindings: Vec<(Control, BucketAction)>)
    ensures
        bindings@ == seq![
            (Control::ArrowLeft, BucketAction::Left),
            (Control::KeyA, BucketAction::Left),
            (Control::DPadLeft, BucketAction::Left),
            (Control::ArrowRight, BucketAction::Right),
            (Control::KeyD, BucketAction::Right),
            (Control::DPadRight, BucketAction::Right),
        ],
        forall|i: int| 0 <= i < bindings@.len() ==> (#[trigger] bindings@[i]).1 == bound_to(bindings@[i].0),
{
    let mut bindings: Vec<(Control, BucketAction)> = Vec::new();
    bindings.push((Control::ArrowLeft, action_of(Control::ArrowLeft)));
    bindings.push((Control::KeyA, action_of(Control::KeyA)));
    bindings.push((Control::DPadLeft, action_of(Control::DPadLeft)));
    bindings.push((Control::ArrowRight, action_of(Control::ArrowRight)));
    bindings.push((Control::KeyD, action_of(Control::KeyD)));
    bindings.push((Control::DPadRight, action_of(Control::DPadRight)));
    assert(bindings@ =~= seq![
        (Control::ArrowLeft, BucketAction::Left),
        (Control::KeyA, BucketAction::Left),
        (Control::DPadLeft, BucketAction::Left),
        (Control::ArrowRight, BucketAction::Right),
        (Control::KeyD, BucketAction::Right),
        (Control::DPadRight, BucketAction::Right),
    ]);
    bindings
}

/// Tells whether the speed has room for this frame's edges.
pub fn can_move_bucket(speed: &Speed, left: ButtonEdges, right: ButtonEdges) -> (b: bool)
    ensures
        b == (i64::MIN <= speed.horizontal + key_impulse(BucketAction::Left, left) + key_impulse(
            BucketAction::Right,
            right,
        ) <= i64::MAX),
{
    let change: i64 = action_impulse(BucketAction::Left, left) + action_impulse(
        BucketAction::Right,
        right,
    );
    if change >= 0 {
        speed.horizontal <= i64::MAX - change
    } else {
        speed.horizontal >= i64::MIN - change
    }
}

/// A frame without a press or a release on either action leaves the speed as
/// it was: a key that is held adds nothing.
pub proof fn lemma_held_keys_add_nothing(action: BucketAction)
    ensures
        key_impulse(action, ButtonEdges { just_pressed: false, just_released: false }) == 0,
{
}

} // verus!
