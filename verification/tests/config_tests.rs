use bevy_rapier2d::prelude::InteractionGroups;
use astro_bevy::config::{
    CollGroupsConfig, CollisionGroups, DeathPolicy, Faction, GameConfig, SpriteDirection,
    DASH_FILTERS, GAME_NAME, WINDOW_HEIGHT, WINDOW_WIDTH,
};

const FACTIONS: [Faction; 5] = [
    Faction::Player,
    Faction::PlayerBullet,
    Faction::EnemyBullet,
    Faction::Enemy,
    Faction::Wall,
];

/// The compatibility table, written out once more by hand.
fn expected(a: Faction, b: Faction) -> bool {
    matches!(
        (a, b),
        (Faction::Player, Faction::EnemyBullet)
            | (Faction::EnemyBullet, Faction::Player)
            | (Faction::Player, Faction::Enemy)
            | (Faction::Enemy, Faction::Player)
            | (Faction::PlayerBullet, Faction::Enemy)
            | (Faction::Enemy, Faction::PlayerBullet)
            | (Faction::Wall, Faction::Player)
            | (Faction::Player, Faction::Wall)
            | (Faction::Wall, Faction::PlayerBullet)
            | (Faction::PlayerBullet, Faction::Wall)
            | (Faction::Wall, Faction::EnemyBullet)
            | (Faction::EnemyBullet, Faction::Wall)
            | (Faction::Wall, Faction::Enemy)
            | (Faction::Enemy, Faction::Wall)
    )
}

#[test]
fn standard_config_is_the_shipped_window() {
    let config = GameConfig::standard();
    assert_eq!(config.window_width, 640);
    assert_eq!(config.window_height, 512);
    assert_eq!(config.death_policy, DeathPolicy::Respawn);
    assert_eq!(WINDOW_WIDTH, 640);
    assert_eq!(WINDOW_HEIGHT, 512);
    assert_eq!(GAME_NAME, "Astro bevy");
}

#[test]
fn sprite_frames_follow_the_sheet() {
    assert_eq!(SpriteDirection::Right.sprite_index(), 0);
    assert_eq!(SpriteDirection::Left.sprite_index(), 1);
    assert_eq!(SpriteDirection::Up.sprite_index(), 2);
    assert_eq!(SpriteDirection::Down.sprite_index(), 3);
}

#[test]
fn default_facing_is_left() {
    assert_eq!(SpriteDirection::default(), SpriteDirection::Left);
}

#[test]
fn group_masks_of_each_faction() {
    assert_eq!(CollGroupsConfig::player(), CollisionGroups::new(0b00001, 0b11100));
    assert_eq!(CollGroupsConfig::bullet_player(), CollisionGroups::new(0b00010, 0b11000));
    assert_eq!(CollGroupsConfig::bullet_enemy(), CollisionGroups::new(0b00100, 0b10001));
    assert_eq!(CollGroupsConfig::enemy(), CollisionGroups::new(0b01000, 0b10011));
    assert_eq!(CollGroupsConfig::wall(), CollisionGroups::new(0b10000, 0b01111));
    assert_eq!(CollGroupsConfig::of(Faction::Player), CollGroupsConfig::player());
    assert_eq!(CollGroupsConfig::of(Faction::PlayerBullet), CollGroupsConfig::bullet_player());
    assert_eq!(CollGroupsConfig::of(Faction::EnemyBullet), CollGroupsConfig::bullet_enemy());
    assert_eq!(CollGroupsConfig::of(Faction::Enemy), CollGroupsConfig::enemy());
    assert_eq!(CollGroupsConfig::of(Faction::Wall), CollGroupsConfig::wall());
}

#[test]
fn every_faction_pair_matches_the_table() {
    for a in FACTIONS {
        for b in FACTIONS {
            assert_eq!(a.collides_with(b), expected(a, b), "{:?} vs {:?}", a, b);
        }
    }
}

#[test]
fn the_table_is_symmetric() {
    for a in FACTIONS {
        for b in FACTIONS {
            assert_eq!(a.collides_with(b), b.collides_with(a), "{:?} vs {:?}", a, b);
        }
    }
}

#[test]
fn the_bit_masks_implement_the_table() {
    for a in FACTIONS {
        for b in FACTIONS {
            let masks = CollGroupsConfig::of(a).test(&CollGroupsConfig::of(b));
            assert_eq!(masks, a.collides_with(b), "{:?} vs {:?}", a, b);
        }
    }
}

#[test]
fn bullets_spare_their_own_side_and_each_other() {
    assert!(!Faction::PlayerBullet.collides_with(Faction::Player));
    assert!(!Faction::EnemyBullet.collides_with(Faction::Enemy));
    assert!(!Faction::PlayerBullet.collides_with(Faction::EnemyBullet));
    assert!(!Faction::PlayerBullet.collides_with(Faction::PlayerBullet));
    assert!(!Faction::EnemyBullet.collides_with(Faction::EnemyBullet));
}

#[test]
fn a_dashing_player_is_stopped_by_walls_only() {
    let dashing = CollisionGroups::new(CollGroupsConfig::player().memberships, DASH_FILTERS);
    for other in FACTIONS {
        let stopped = dashing.test(&CollGroupsConfig::of(other));
        assert_eq!(stopped, other == Faction::Wall, "{:?}", other);
    }
}

#[test]
fn the_masks_agree_with_the_physics_engine() {
    for a in FACTIONS {
        for b in FACTIONS {
            let ga = CollGroupsConfig::of(a);
            let gb = CollGroupsConfig::of(b);
            let engine = InteractionGroups::new(ga.memberships, ga.filters)
                .test(InteractionGroups::new(gb.memberships, gb.filters));
            assert_eq!(ga.test(&gb), engine, "{:?} vs {:?}", a, b);
        }
    }
}
