use drop_game::timer::{CollisionTracker, DropTimer, Timer};

#[test]
fn one_shot_counts_up_to_its_duration() {
    let mut t = Timer::from_micros(200_000);
    t.tick(150_000);
    assert_eq!(t.elapsed_us, 150_000);
    assert!(!t.finished());
    t.tick(50_000);
    assert!(t.finished());
    assert_eq!(t.elapsed_us, 200_000);
}

#[test]
fn one_shot_never_counts_past_its_duration() {
    let mut t = Timer::from_micros(200_000);
    t.tick(u64::MAX);
    assert!(t.finished());
    assert_eq!(t.elapsed_us, 200_000);
    t.tick(1);
    assert_eq!(t.elapsed_us, 200_000);
}

#[test]
fn paused_timer_stands_still() {
    let mut t = Timer::from_micros(200_000);
    t.pause();
    assert!(t.paused());
    t.tick(1_000_000);
    assert_eq!(t.elapsed_us, 0);
    assert!(!t.finished());
    t.unpause();
    assert!(!t.paused());
    t.tick(1);
    assert_eq!(t.elapsed_us, 1);
}

#[test]
fn reset_rewinds_and_keeps_the_pause() {
    let mut t = Timer::from_micros(10);
    t.tick(10);
    t.pause();
    t.reset();
    assert_eq!(
        t,
        Timer { duration_us: 10, elapsed_us: 0, paused: true, finished: false }
    );
}

#[test]
fn interval_fires_when_the_period_is_reached() {
    let mut t = DropTimer::new(900_000);
    assert!(!t.tick(899_999));
    assert!(t.tick(1));
    assert_eq!(t.elapsed_us, 0);
    assert!(!t.tick(500_000));
    assert!(t.tick(500_000));
    assert_eq!(t.elapsed_us, 100_000);
}

#[test]
fn interval_fires_once_for_a_long_frame() {
    let mut t = DropTimer::new(900_000);
    assert!(t.tick(2_000_000));
    assert_eq!(t.elapsed_us, 200_000);
}

#[test]
fn interval_survives_the_longest_frame() {
    let mut t = DropTimer { period_us: 900_000, elapsed_us: 899_999 };
    assert!(t.tick(u64::MAX));
    assert_eq!(
        t.elapsed_us as u128,
        (899_999u128 + u64::MAX as u128) % 900_000
    );
}

#[test]
fn stone_tracker_starts_paused_and_without_push() {
    let t = CollisionTracker::new();
    assert_eq!(t.force, 0);
    assert_eq!(
        t.time,
        Some(Timer { duration_us: 200_000, elapsed_us: 0, paused: true, finished: false })
    );
    let d = CollisionTracker::default();
    assert_eq!(d.time, None);
    assert_eq!(d.force, 0);
}

#[test]
fn tracker_pauses_and_rewinds_on_completion() {
    let mut t = CollisionTracker::new();
    assert!(!t.advance(1_000_000));
    let mut timer = t.time.unwrap();
    timer.unpause();
    t.time = Some(timer);
    t.force = 600;
    assert!(!t.advance(199_999));
    assert_eq!(t.time.unwrap().elapsed_us, 199_999);
    assert!(t.advance(1));
    assert_eq!(
        t.time,
        Some(Timer { duration_us: 200_000, elapsed_us: 0, paused: true, finished: false })
    );
    assert_eq!(t.force, 600);
    let mut none = CollisionTracker::default();
    assert!(!none.advance(5));
    assert_eq!(none, CollisionTracker::default());
}
