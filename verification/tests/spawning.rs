use drop_game::model::{Bucket, DropletType, GameStats, Position, Speed};
use drop_game::resolver::FallingThing;
use drop_game::spawner::{choose_kind, drop_object, spawn_from_draws, spawn_position};
use drop_game::timer::{CollisionTracker, DropTimer};

#[test]
fn spawn_weight_boundaries() {
    assert_eq!(choose_kind(950_000), DropletType::Sponge);
    assert_eq!(choose_kind(750_000), DropletType::Stone);
    assert_eq!(choose_kind(749_999), DropletType::Raindrop);
    assert_eq!(choose_kind(949_999), DropletType::Stone);
    assert_eq!(choose_kind(0), DropletType::Raindrop);
    assert_eq!(choose_kind(999_999), DropletType::Sponge);
    assert_eq!(choose_kind(u32::MAX), DropletType::Sponge);
}

#[test]
fn spawn_position_spreads_the_draw_over_the_width() {
    assert_eq!(spawn_position(0), -368_000_000);
    assert_eq!(spawn_position(500_000), 0);
    assert_eq!(spawn_position(999_999), 367_999_264);
    assert_eq!(spawn_position(250_000), -184_000_000);
    assert_eq!(spawn_position(u32::MAX), 4_294_967_295i64 * 736 - 368_000_000);
}

#[test]
fn spawned_stone_carries_a_paused_countdown() {
    let stone = spawn_from_draws(800_000, 500_000);
    assert_eq!(
        stone,
        FallingThing {
            droplet_type: DropletType::Stone,
            position: Position { x: 0, y: 300_000_000 },
            speed: Speed { horizontal: 0, vertical: -200 },
            tracker: CollisionTracker::new(),
        }
    );
}

#[test]
fn spawned_drop_and_sponge_carry_no_countdown() {
    let drop = spawn_from_draws(10, 0);
    assert_eq!(drop.droplet_type, DropletType::Raindrop);
    assert_eq!(drop.tracker, CollisionTracker::default());
    assert_eq!(drop.position, Position { x: -368_000_000, y: 300_000_000 });
    let sponge = spawn_from_draws(960_000, 999_999);
    assert_eq!(sponge.droplet_type, DropletType::Sponge);
    assert_eq!(sponge.tracker, CollisionTracker::default());
    assert_eq!(sponge.speed, Speed { horizontal: 0, vertical: -200 });
}

#[test]
fn default_object_is_a_raindrop_at_rest_sideways() {
    let thing = FallingThing::default();
    assert_eq!(thing.droplet_type, DropletType::Raindrop);
    assert_eq!(thing.speed, Speed { horizontal: 0, vertical: -200 });
    assert_eq!(thing.tracker, CollisionTracker::default());
    assert_eq!(Speed::default(), Speed { horizontal: 0, vertical: 0 });
    assert_eq!(GameStats::new().score, 0);
    assert_eq!(GameStats::default().score, 0);
    assert_eq!(Bucket::new().position, Position { x: 0, y: -188_000_000 });
}

#[test]
fn kinds_have_names() {
    assert_eq!(DropletType::Raindrop.name(), "raindrop");
    assert_eq!(DropletType::Stone.name(), "stone");
    assert_eq!(DropletType::Sponge.name(), "sponge");
}

#[test]
fn nothing_spawns_before_the_interval_fires() {
    let mut timer = DropTimer::new(900_000);
    assert_eq!(drop_object(&mut timer, 899_999), None);
    assert_eq!(timer.elapsed_us, 899_999);
}

#[test]
fn spawned_objects_appear_at_the_top_inside_the_margin() {
    let mut timer = DropTimer::new(900_000);
    let mut seen_left = false;
    let mut seen_right = false;
    for _ in 0..400 {
        let thing = drop_object(&mut timer, 900_000).unwrap();
        assert_eq!(timer.elapsed_us, 0);
        assert!(thing.position.x >= -368_000_000 && thing.position.x < 368_000_000);
        assert_eq!((thing.position.x + 368_000_000) % 736, 0);
        assert_eq!(thing.position.y, 300_000_000);
        assert_eq!(thing.speed, Speed { horizontal: 0, vertical: -200 });
        let expected = match thing.droplet_type {
            DropletType::Stone => CollisionTracker::new(),
            _ => CollisionTracker::default(),
        };
        assert_eq!(thing.tracker, expected);
        seen_left = seen_left || thing.position.x < 0;
        seen_right = seen_right || thing.position.x > 0;
    }
    assert!(seen_left && seen_right);
}
