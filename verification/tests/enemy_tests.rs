use astro_bevy::bullet::{Bullet, BulletType};
use astro_bevy::config::{CollGroupsConfig, SpriteDirection};
use astro_bevy::enemy::{
    cooldown, enemy_system, Enemy, EnemyBundle, ENEMY_MUZZLE_DROP, FIRST_COOLDOWN, MAX_COOLDOWN,
};
use astro_bevy::level::{EntityInstance, FieldInstance, FieldValue, IVec2};
use astro_bevy::timer::Timer;
use astro_bevy::vector::Vec2;

const SECOND: u64 = 1_000_000_000;

fn field(identifier: &str, value: FieldValue) -> FieldInstance {
    FieldInstance { identifier: identifier.to_string(), value }
}

fn rotation(name: &str) -> FieldInstance {
    field("Rotation", FieldValue::Enum(Some(name.to_string())))
}

fn entity(field_instances: Vec<FieldInstance>) -> EntityInstance {
    EntityInstance { px: IVec2 { x: 0, y: 0 }, field_instances }
}

#[test]
fn a_new_enemy_faces_right_and_waits_a_second() {
    let enemy = Enemy::new();
    assert_eq!(enemy.direction, SpriteDirection::Right);
    assert_eq!(enemy.last_shot, Timer::new(SECOND, true));
    assert_eq!(Enemy::default(), enemy);
    assert_eq!((FIRST_COOLDOWN, MAX_COOLDOWN, ENEMY_MUZZLE_DROP), (SECOND, 2 * SECOND, 4));
}

#[test]
fn cooldowns_spread_over_two_seconds() {
    assert_eq!(cooldown(0), 0);
    assert_eq!(cooldown(1), 0);
    assert_eq!(cooldown(2), 0);
    assert_eq!(cooldown(3), 1);
    assert_eq!(cooldown(0x4000_0000), 500_000_000);
    assert_eq!(cooldown(0x8000_0000), 1_000_000_000);
    assert_eq!(cooldown(0xc000_0000), 1_500_000_000);
    assert_eq!(cooldown(u32::MAX), 1_999_999_999);
}

#[test]
fn cooldowns_grow_with_the_sample() {
    let mut last = 0;
    let mut sample: u32 = 0;
    loop {
        let nanos = cooldown(sample);
        assert!(nanos >= last && nanos < MAX_COOLDOWN);
        last = nanos;
        match sample.checked_add(9_999_991) {
            Some(next) => sample = next,
            None => break,
        }
    }
}

#[test]
fn the_enemy_waits_for_the_cooldown() {
    let mut enemy = Enemy::new();
    assert!(!enemy.will_fire(SECOND - 1));
    assert_eq!(enemy.advance(Vec2::new(0, 0), SECOND - 1, 77), None);
    assert_eq!(enemy.last_shot.elapsed(), SECOND - 1);
    assert_eq!(enemy.last_shot.duration(), SECOND);
    assert!(enemy.will_fire(1));
    assert!(enemy.advance(Vec2::new(0, 0), 1, 77).is_some());
}

#[test]
fn the_enemy_fires_on_the_boundary_tick() {
    let mut enemy = Enemy::new();
    let shot = enemy.advance(Vec2::new(30, 40), SECOND, 0x8000_0000).unwrap();
    assert_eq!(shot.position, Vec2 { x: 30, y: 36 });
    assert_eq!(shot.velocity, Vec2 { x: 1300, y: 0 });
    assert_eq!(shot.coll_groups, CollGroupsConfig::bullet_enemy());
    assert_eq!(shot.bullet, Bullet { speed: 1300, type_: BulletType::Enemy });
    assert_eq!(enemy.last_shot.elapsed(), 0);
    assert_eq!(enemy.last_shot.duration(), SECOND);
    assert!(!enemy.last_shot.finished());
    assert!(!enemy.last_shot.just_finished());
    assert_eq!(enemy.direction, SpriteDirection::Right);
}

#[test]
fn a_long_tick_fires_once_and_drops_the_rest() {
    let mut enemy = Enemy::new();
    assert!(enemy.advance(Vec2::new(0, 0), 10 * SECOND, 0x4000_0000).is_some());
    assert_eq!(enemy.last_shot.elapsed(), 0);
    assert_eq!(enemy.last_shot.duration(), SECOND / 2);
    assert_eq!(enemy.advance(Vec2::new(0, 0), SECOND / 2 - 1, 0), None);
    assert!(enemy.advance(Vec2::new(0, 0), 1, 0).is_some());
}

#[test]
fn one_shot_for_each_cooldown_that_runs_out() {
    // Each cooldown is one second (the sample 0x8000_0000), each tick a
    // quarter of a second: the enemy fires on every fourth tick.
    let mut enemy = Enemy::new();
    let mut shots = 0;
    for tick in 1..=40 {
        let shot = enemy.advance(Vec2::new(0, 0), SECOND / 4, 0x8000_0000);
        assert_eq!(shot.is_some(), tick % 4 == 0, "tick {}", tick);
        if shot.is_some() {
            shots += 1;
        }
    }
    assert_eq!(shots, 10);
}

#[test]
fn an_enemy_that_faces_left_fires_to_the_left() {
    for facing in [SpriteDirection::Left, SpriteDirection::Up, SpriteDirection::Down] {
        let mut enemy = Enemy { direction: facing, ..Enemy::new() };
        let shot = enemy.advance(Vec2::new(0, 0), SECOND, 5).unwrap();
        assert_eq!(shot.velocity, Vec2 { x: -1300, y: 0 });
        assert_eq!(shot.position, Vec2 { x: 0, y: -4 });
        assert_eq!(enemy.direction, facing);
    }
}

#[test]
fn a_cooldown_of_no_length_fires_on_every_tick() {
    let mut enemy = Enemy::new();
    assert!(enemy.advance(Vec2::new(0, 0), SECOND, 0).is_some());
    assert_eq!(enemy.last_shot.duration(), 0);
    assert!(enemy.advance(Vec2::new(0, 0), 0, 0).is_some());
    assert!(enemy.advance(Vec2::new(0, 0), 16, 0x8000_0000).is_some());
    assert_eq!(enemy.advance(Vec2::new(0, 0), 16, 0), None);
}

#[test]
fn a_tick_longer_than_can_be_counted_fires_once() {
    let mut enemy = Enemy { last_shot: Timer::new(1, true), ..Enemy::new() };
    assert!(!enemy.last_shot.is_tickable(u64::MAX));
    assert!(enemy.will_fire(u64::MAX));
    assert!(enemy.advance(Vec2::new(0, 0), u64::MAX, 0x8000_0000).is_some());
    assert_eq!(enemy.last_shot, Timer::new(SECOND, true));
}

#[test]
fn the_system_draws_a_cooldown_below_two_seconds() {
    for _ in 0..200 {
        let mut enemy = Enemy::new();
        assert_eq!(enemy_system(&mut enemy, Vec2::new(1, 2), SECOND - 1), None);
        assert_eq!(enemy.last_shot.duration(), SECOND);
        let shot = enemy_system(&mut enemy, Vec2::new(1, 2), 1).unwrap();
        assert_eq!(shot.position, Vec2 { x: 1, y: -2 });
        assert_eq!(shot.velocity, Vec2 { x: 1300, y: 0 });
        assert!(enemy.last_shot.duration() < MAX_COOLDOWN);
        assert_eq!(enemy.last_shot.elapsed(), 0);
        assert!(!enemy.last_shot.finished());
        assert!(enemy.last_shot.repeating());
    }
}

#[test]
fn the_system_desynchronises_the_enemies() {
    let mut durations = Vec::new();
    for _ in 0..64 {
        let mut enemy = Enemy::new();
        enemy_system(&mut enemy, Vec2::new(0, 0), SECOND);
        durations.push(enemy.last_shot.duration());
    }
    durations.sort();
    durations.dedup();
    assert!(durations.len() > 1);
}

#[test]
fn an_entity_without_fields_faces_right() {
    let bundle = EnemyBundle::bundle_entity(&entity(vec![]));
    assert_eq!(bundle.enemy, Enemy::new());
    assert!(!bundle.flip_x);
    assert_eq!(bundle.coll_groups, CollGroupsConfig::enemy());
}

#[test]
fn the_rotation_field_turns_the_enemy() {
    let bundle = EnemyBundle::bundle_entity(&entity(vec![rotation("Left")]));
    assert_eq!(bundle.enemy.direction, SpriteDirection::Left);
    assert!(bundle.flip_x);
    assert_eq!(bundle.enemy.last_shot, Timer::new(SECOND, true));
    let bundle = EnemyBundle::bundle_entity(&entity(vec![rotation("Right")]));
    assert_eq!(bundle.enemy.direction, SpriteDirection::Right);
    assert!(!bundle.flip_x);
}

#[test]
fn an_unknown_rotation_is_ignored() {
    for name in ["Up", "left", "LEFT", "", "Left "] {
        let bundle = EnemyBundle::bundle_entity(&entity(vec![rotation(name)]));
        assert_eq!(bundle.enemy.direction, SpriteDirection::Right, "{:?}", name);
        assert!(!bundle.flip_x);
    }
}

#[test]
fn a_rotation_of_another_kind_is_ignored() {
    let fields = vec![field("Rotation", FieldValue::Other)];
    assert_eq!(EnemyBundle::bundle_entity(&entity(fields)).enemy.direction, SpriteDirection::Right);
    let fields = vec![field("Rotation", FieldValue::Enum(None))];
    assert_eq!(EnemyBundle::bundle_entity(&entity(fields)).enemy.direction, SpriteDirection::Right);
}

#[test]
fn only_the_first_rotation_field_counts() {
    let fields = vec![
        field("Speed", FieldValue::Other),
        field("rotation", FieldValue::Enum(Some("Left".to_string()))),
        rotation("Right"),
        rotation("Left"),
    ];
    let bundle = EnemyBundle::bundle_entity(&entity(fields));
    assert_eq!(bundle.enemy.direction, SpriteDirection::Right);
    assert!(!bundle.flip_x);
    let fields = vec![field("Facing", FieldValue::Other), rotation("Left"), rotation("Right")];
    let bundle = EnemyBundle::bundle_entity(&entity(fields));
    assert_eq!(bundle.enemy.direction, SpriteDirection::Left);
    assert!(bundle.flip_x);
}
