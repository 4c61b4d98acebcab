use astro_bevy::combat::{
    resolve_contact, resolve_events, Body, CollisionEvent, Command, Contact,
};
use astro_bevy::config::{DeathPolicy, Faction};
use astro_bevy::entity::Entity;

const FACTIONS: [Faction; 5] = [
    Faction::Player,
    Faction::PlayerBullet,
    Faction::EnemyBullet,
    Faction::Enemy,
    Faction::Wall,
];

fn body(bits: u64, faction: Faction) -> Body {
    Body { entity: Entity::from_bits(bits), faction }
}

fn despawn(bits: u64) -> Command {
    Command::Despawn(Entity::from_bits(bits))
}

#[test]
fn entities_keep_their_bits() {
    assert_eq!(Entity::from_bits(42).to_bits(), 42);
    assert_eq!(Entity::from_bits(u64::MAX), Entity { bits: u64::MAX });
}

#[test]
fn only_the_two_bullet_factions_are_bullets() {
    assert!(Faction::PlayerBullet.is_bullet());
    assert!(Faction::EnemyBullet.is_bullet());
    assert!(!Faction::Player.is_bullet());
    assert!(!Faction::Enemy.is_bullet());
    assert!(!Faction::Wall.is_bullet());
}

#[test]
fn a_player_bullet_removes_an_enemy_and_itself() {
    let bullet = body(1, Faction::PlayerBullet);
    let enemy = body(2, Faction::Enemy);
    for policy in [DeathPolicy::Respawn, DeathPolicy::Despawn] {
        let expected = vec![despawn(2), despawn(1)];
        assert_eq!(resolve_contact(&Contact { first: bullet, second: enemy }, policy), expected);
        assert_eq!(resolve_contact(&Contact { first: enemy, second: bullet }, policy), expected);
    }
}

#[test]
fn an_enemy_bullet_flags_the_player_dead() {
    let bullet = body(1, Faction::EnemyBullet);
    let player = body(2, Faction::Player);
    let expected = vec![Command::MarkDead(Entity::from_bits(2)), despawn(1)];
    let policy = DeathPolicy::Respawn;
    assert_eq!(resolve_contact(&Contact { first: bullet, second: player }, policy), expected);
    assert_eq!(resolve_contact(&Contact { first: player, second: bullet }, policy), expected);
}

#[test]
fn an_enemy_bullet_removes_the_player_under_the_despawn_policy() {
    let bullet = body(1, Faction::EnemyBullet);
    let player = body(2, Faction::Player);
    let expected = vec![despawn(2), despawn(1)];
    let policy = DeathPolicy::Despawn;
    assert_eq!(resolve_contact(&Contact { first: bullet, second: player }, policy), expected);
    assert_eq!(resolve_contact(&Contact { first: player, second: bullet }, policy), expected);
}

#[test]
fn a_bullet_that_hits_a_wall_is_removed_alone() {
    let wall = body(9, Faction::Wall);
    for faction in [Faction::PlayerBullet, Faction::EnemyBullet] {
        let bullet = body(1, faction);
        let policy = DeathPolicy::Respawn;
        assert_eq!(resolve_contact(&Contact { first: bullet, second: wall }, policy), vec![despawn(1)]);
        assert_eq!(resolve_contact(&Contact { first: wall, second: bullet }, policy), vec![despawn(1)]);
    }
}

#[test]
fn a_bullet_spares_its_own_side() {
    let policy = DeathPolicy::Respawn;
    let contact = Contact { first: body(1, Faction::PlayerBullet), second: body(2, Faction::Player) };
    assert_eq!(resolve_contact(&contact, policy), vec![despawn(1)]);
    let contact = Contact { first: body(2, Faction::Enemy), second: body(1, Faction::EnemyBullet) };
    assert_eq!(resolve_contact(&contact, policy), vec![despawn(1)]);
}

#[test]
fn of_two_bullets_only_the_first_is_resolved() {
    let policy = DeathPolicy::Respawn;
    let contact =
        Contact { first: body(1, Faction::PlayerBullet), second: body(2, Faction::EnemyBullet) };
    assert_eq!(resolve_contact(&contact, policy), vec![despawn(1)]);
    let contact =
        Contact { first: body(2, Faction::EnemyBullet), second: body(1, Faction::PlayerBullet) };
    assert_eq!(resolve_contact(&contact, policy), vec![despawn(2)]);
    let contact =
        Contact { first: body(5, Faction::PlayerBullet), second: body(6, Faction::PlayerBullet) };
    assert_eq!(resolve_contact(&contact, policy), vec![despawn(5)]);
}

#[test]
fn a_contact_without_a_bullet_does_nothing() {
    for a in [Faction::Player, Faction::Enemy, Faction::Wall] {
        for b in [Faction::Player, Faction::Enemy, Faction::Wall] {
            let contact = Contact { first: body(1, a), second: body(2, b) };
            assert_eq!(resolve_contact(&contact, DeathPolicy::Respawn), vec![]);
            assert_eq!(resolve_contact(&contact, DeathPolicy::Despawn), vec![]);
        }
    }
}

#[test]
fn every_contact_touches_its_two_entities_only() {
    for a in FACTIONS {
        for b in FACTIONS {
            for policy in [DeathPolicy::Respawn, DeathPolicy::Despawn] {
                let contact = Contact { first: body(1, a), second: body(2, b) };
                let commands = resolve_contact(&contact, policy);
                assert!(commands.len() <= 2);
                let mut removed_bullets = 0;
                for command in &commands {
                    let target = match command {
                        Command::Despawn(entity) => entity.to_bits(),
                        Command::MarkDead(entity) => entity.to_bits(),
                    };
                    assert!(target == 1 || target == 2);
                    let faction = if target == 1 { a } else { b };
                    if faction.is_bullet() {
                        removed_bullets += 1;
                    }
                }
                let any_bullet = a.is_bullet() || b.is_bullet();
                assert_eq!(removed_bullets, if any_bullet { 1 } else { 0 }, "{:?} {:?}", a, b);
            }
        }
    }
}

#[test]
fn events_are_answered_in_order() {
    let started = |a: Body, b: Body| CollisionEvent::Started(Contact { first: a, second: b });
    let events = vec![
        started(body(1, Faction::PlayerBullet), body(2, Faction::Enemy)),
        started(body(3, Faction::Wall), body(4, Faction::Player)),
        started(body(5, Faction::Player), body(6, Faction::EnemyBullet)),
        started(body(1, Faction::PlayerBullet), body(7, Faction::Enemy)),
    ];
    assert_eq!(
        resolve_events(&events, DeathPolicy::Respawn),
        vec![
            despawn(2),
            despawn(1),
            Command::MarkDead(Entity::from_bits(5)),
            despawn(6),
            despawn(7),
            despawn(1),
        ]
    );
    assert_eq!(resolve_events(&vec![], DeathPolicy::Respawn), vec![]);
}

#[test]
fn the_end_of_a_contact_changes_nothing() {
    for a in FACTIONS {
        for b in FACTIONS {
            let contact = Contact { first: body(1, a), second: body(2, b) };
            for policy in [DeathPolicy::Respawn, DeathPolicy::Despawn] {
                assert_eq!(resolve_events(&vec![CollisionEvent::Stopped(contact)], policy), vec![]);
                assert_eq!(
                    resolve_events(&vec![CollisionEvent::Started(contact)], policy),
                    resolve_contact(&contact, policy)
                );
                let both = vec![CollisionEvent::Started(contact), CollisionEvent::Stopped(contact)];
                assert_eq!(resolve_events(&both, policy), resolve_contact(&contact, policy));
            }
        }
    }
}
