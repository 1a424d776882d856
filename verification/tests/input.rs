use drop_game::input::{
    action_impulse, action_of, default_input_map, move_bucket, BucketAction, ButtonEdges, Control,
};
use drop_game::model::Speed;

const PRESS: ButtonEdges = ButtonEdges { just_pressed: true, just_released: false };
const RELEASE: ButtonEdges = ButtonEdges { just_pressed: false, just_released: true };
const IDLE: ButtonEdges = ButtonEdges { just_pressed: false, just_released: false };

#[test]
fn each_edge_changes_the_speed_by_three_hundred() {
    assert_eq!(action_impulse(BucketAction::Left, PRESS), -300);
    assert_eq!(action_impulse(BucketAction::Left, RELEASE), 300);
    assert_eq!(action_impulse(BucketAction::Right, PRESS), 300);
    assert_eq!(action_impulse(BucketAction::Right, RELEASE), -300);
    assert_eq!(action_impulse(BucketAction::Left, IDLE), 0);
    assert_eq!(action_impulse(BucketAction::Right, IDLE), 0);
}

#[test]
fn press_counts_before_release() {
    let both = ButtonEdges { just_pressed: true, just_released: true };
    assert_eq!(action_impulse(BucketAction::Left, both), -300);
    assert_eq!(action_impulse(BucketAction::Right, both), 300);
}

#[test]
fn press_then_release_restores_the_speed() {
    let mut speed = Speed { horizontal: 0, vertical: 0 };
    move_bucket(&mut speed, PRESS, IDLE);
    assert_eq!(speed.horizontal, -300);
    move_bucket(&mut speed, IDLE, IDLE);
    assert_eq!(speed.horizontal, -300);
    move_bucket(&mut speed, RELEASE, IDLE);
    assert_eq!(speed, Speed { horizontal: 0, vertical: 0 });
}

#[test]
fn both_keys_together_cancel() {
    let mut speed = Speed { horizontal: 40, vertical: 3 };
    move_bucket(&mut speed, PRESS, PRESS);
    assert_eq!(speed, Speed { horizontal: 40, vertical: 3 });
    move_bucket(&mut speed, PRESS, RELEASE);
    assert_eq!(speed.horizontal, -560);
    move_bucket(&mut speed, RELEASE, PRESS);
    assert_eq!(speed.horizontal, 40);
}

#[test]
fn speed_at_the_numeric_limit() {
    let mut speed = Speed { horizontal: i64::MIN + 100, vertical: 0 };
    move_bucket(&mut speed, PRESS, PRESS);
    assert_eq!(speed.horizontal, i64::MIN + 100);
    let mut top = Speed { horizontal: i64::MAX - 300, vertical: 0 };
    move_bucket(&mut top, IDLE, PRESS);
    assert_eq!(top.horizontal, i64::MAX);
}

#[test]
fn three_controls_for_each_action() {
    let map = default_input_map();
    assert_eq!(
        map,
        vec![
            (Control::ArrowLeft, BucketAction::Left),
            (Control::KeyA, BucketAction::Left),
            (Control::DPadLeft, BucketAction::Left),
            (Control::ArrowRight, BucketAction::Right),
            (Control::KeyD, BucketAction::Right),
            (Control::DPadRight, BucketAction::Right),
        ]
    );
    for (control, action) in map {
        assert_eq!(action_of(control), action);
    }
}
