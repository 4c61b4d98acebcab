//! Combat resolution: what a contact between two bodies does.
//!
//! The physics step reports each pair of bodies that started or stopped to
//! touch. For a pair that started to touch the resolver looks for a
//! projectile in the pair, classifies the other body by its faction and
//! answers with the commands that the engine is to carry out once all events
//! of the tick are read.

use vstd::prelude::*;
use crate::config::DeathPolicy;
use crate::config::Faction;
use crate::entity::Entity;

verus! {

/// One side of a contact: an entity and the faction it belongs to.
#[derive(Clone, Copy, Debug, PartialEq, Eq, Structural)]
pub struct Body {
    pub entity: Entity,
    pub faction: Faction,
}

/// Two bodies that started to touch during the last physics step.
#[derive(Clone, Copy, Debug, PartialEq, Eq, Structural)]
pub struct Contact {
    pub first: Body,
    pub second: Body,
}

/// What the physics step reports of a pair of bodies.
#[derive(Clone, Copy, Debug, PartialEq, Eq, Structural)]
pub enum CollisionEvent {
    /// The two bodies started to touch.
    Started(Contact),
    /// The two bodies no longer touch.
    Stopped(Contact),
}

/// A deferred change to the entity store.
#[derive(Clone, Copy, Debug, PartialEq, Eq, Structural)]
pub enum Command {
    /// Remove the entity.
    Despawn(Entity),
    /// Flag the player entity as dead.
    MarkDead(Entity),
}

impl Command {
    /// The entity that the command changes.
    pub open spec fn target(self) -> Entity {
        match self {
            Command::Despawn(entity) => entity,
            Command::MarkDead(entity) => entity,
        }
    }
}

/// The effect of the projectile `bullet` hitting `other`.
///
/// * A player's projectile removes an enemy.
/// * An enemy's projectile kills the player: depending on the policy the
///   player is flagged dead or removed.
/// * Anything else, a wall for instance, is left alone.
///
/// In each case the projectile is removed, and it is the last command.
pub open spec fn hit(bullet: Body, other: Body, policy: DeathPolicy) -> Seq<Command> {
    if bullet.faction == Faction::PlayerBullet && other.faction == Faction::Enemy {
        seq![Command::Despawn(other.entity), Command::Despawn(bullet.entity)]
    } else if bullet.faction == Faction::EnemyBullet && other.faction == Faction::Player {
        match policy {
            DeathPolicy::Respawn => seq![
                Command::MarkDead(other.entity),
                Command::Despawn(bullet.entity),
            ],
            DeathPolicy::Despawn => seq![
                Command::Despawn(other.entity),
                Command::Despawn(bullet.entity),
            ],
        }
    } else {
        seq![Command::Despawn(bullet.entity)]
    }
}

/// The commands that resolve one contact. The first side that is a projectile
/// takes the projectile's role; if neither side is one, nothing happens.
pub open spec fn resolution(contact: Contact, policy: DeathPolicy) -> Seq<Command> {
    if contact.first.faction.is_bullet() {
        hit(contact.first, contact.second, policy)
    } else if contact.second.faction.is_bullet() {
        hit(contact.second, contact.first, policy)
    } else {
        Seq::empty()
    }
}

/// The commands that answer one event: the start of a contact is resolved,
/// the end of one is of no consequence.
pub open spec fn event_resolution(event: CollisionEvent, policy: DeathPolicy) -> Seq<Command> {
    match event {
        CollisionEvent::Started(contact) => resolution(contact, policy),
        CollisionEvent::Stopped(_) => Seq::empty(),
    }
}

/// The commands that answer a tick's events, in the order of the events.
pub open spec fn resolutions(events: Seq<CollisionEvent>, policy: DeathPolicy) -> Seq<Command>
    decreases events.len(),
{
    if events.len() == 0 {
        Seq::empty()
    } else {
        resolutions(events.drop_last(), policy) + event_resolution(events.last(), policy)
    }
}

/// Appends the effect of the projectile `bullet` hitting `other`.
fn push_hit(commands: &mut Vec<Command>, bullet: Body, other: Body, policy: DeathPolicy)
    ensures
        final(commands)@ == old(commands)@ + hit(bullet, other, policy),
{
    let ghost before = commands@;
    match (bullet.faction, other.faction) {
        (Faction::PlayerBullet, Faction::Enemy) => {
            commands.push(Command::Despawn(other.entity));
        },
        (Faction::EnemyBullet, Faction::Player) => {
            match policy {
                DeathPolicy::Respawn => commands.push(Command::MarkDead(other.entity)),
                DeathPolicy::Despawn => commands.push(Command::Despawn(other.entity)),
            }
        },
        _ => {},
    }
    commands.push(Command::Despawn(bullet.entity));
    assert(commands@ =~= before + hit(bullet, other, policy));
}

/// Appends the commands that resolve one contact.
fn push_resolution(commands: &mut Vec<Command>, contact: &Contact, policy: DeathPolicy)
    ensures
        final(commands)@ == old(commands)@ + resolution(*contact, policy),
{
    if contact.first.faction.is_bullet() {
        push_hit(commands, contact.first, contact.second, policy);
    } else if contact.second.faction.is_bullet() {
        push_hit(commands, contact.second, contact.first, policy);
    } else {
        assert(commands@ =~= old(commands)@ + Seq::<Command>::empty());
    }
}

/// Appends the commands that answer one event.
pub(crate) fn push_event(commands: &mut Vec<Command>, event: &CollisionEvent, policy: DeathPolicy)
    ensures
        final(commands)@ == old(commands)@ + event_resolution(*event, policy),
{
    match event {
        CollisionEvent::Started(contact) => push_resolution(commands, contact, policy),
        CollisionEvent::Stopped(_) => {
            assert(commands@ =~= old(commands)@ + Seq::<Command>::empty());
        },
    }
}

/// Resolves one contact.
pub fn resolve_contact(contact: &Contact, policy: DeathPolicy) -> (commands: Vec<Command>)
    ensures
        commands@ == resolution(*contact, policy),
{
    let mut commands: Vec<Command> = Vec::new();
    push_resolution(&mut commands, contact, policy);
    assert(commands@ =~= resolution(*contact, policy));
    commands
}

/// Answers all events of a tick, in order. Nothing is applied while the
/// events are read: the commands come back as one list.
pub fn resolve_events(events: &Vec<CollisionEvent>, policy: DeathPolicy) -> (commands: Vec<
    Command,
>)
    ensures
        commands@ == resolutions(events@, policy),
{
    let mut commands: Vec<Command> = Vec::new();
    let mut i: usize = 0;
    while i < events.len()
        invariant
            i <= events.len(),
            commands@ == resolutions(events@.take(i as int), policy),
        decreases events.len() - i,
    {
        proof {
            let next = events@.take(i + 1);
            assert(next.drop_last() =~= events@.take(i as int));
            assert(next.last() == events@[i as int]);
        }
        push_event(&mut commands, &events[i], policy);
        i += 1;
    }
    assert(events@.take(i as int) =~= events@);
    commands
}

/// Only the start of a contact has consequences: its end changes nothing,
/// whatever the two bodies are.
pub proof fn lemma_end_of_contact_does_nothing(contact: Contact, policy: DeathPolicy)
    ensures
        event_resolution(CollisionEvent::Stopped(contact), policy) == Seq::<Command>::empty(),
        event_resolution(CollisionEvent::Started(contact), policy) == resolution(contact, policy),
{
}

/// A player's projectile that meets an enemy removes the enemy and itself, in
/// whichever order the two sides are reported, and touches no other entity.
pub proof fn lemma_player_bullet_removes_enemy(bullet: Body, enemy: Body, policy: DeathPolicy)
    requires
        bullet.faction == Faction::PlayerBullet,
        enemy.faction == Faction::Enemy,
    ensures
        resolution(Contact { first: bullet, second: enemy }, policy) == seq![
            Command::Despawn(enemy.entity),
            Command::Despawn(bullet.entity),
        ],
        resolution(Contact { first: enemy, second: bullet }, policy) == resolution(
            Contact { first: bullet, second: enemy },
            policy,
        ),
        forall|command: Command| #[trigger]
            resolution(Contact { first: bullet, second: enemy }, policy).contains(command)
                ==> command.target() == enemy.entity || command.target() == bullet.entity,
{
    let commands = resolution(Contact { first: bullet, second: enemy }, policy);
    assert forall|command: Command| #[trigger] commands.contains(command) implies command.target()
        == enemy.entity || command.target() == bullet.entity by {
        let i = choose|i: int| 0 <= i < commands.len() && commands[i] == command;
        assert(i == 0 || i == 1);
    }
}

/// An enemy's projectile that meets the player is removed, and the player is
/// flagged dead or removed as the policy says, in whichever order the two
/// sides are reported. No other entity is touched.
pub proof fn lemma_enemy_bullet_kills_player(bullet: Body, player: Body, policy: DeathPolicy)
    requires
        bullet.faction == Faction::EnemyBullet,
        player.faction == Faction::Player,
    ensures
        policy == DeathPolicy::Respawn ==> resolution(
            Contact { first: bullet, second: player },
            policy,
        ) == seq![Command::MarkDead(player.entity), Command::Despawn(bullet.entity)],
        policy == DeathPolicy::Despawn ==> resolution(
            Contact { first: bullet, second: player },
            policy,
        ) == seq![Command::Despawn(player.entity), Command::Despawn(bullet.entity)],
        resolution(Contact { first: player, second: bullet }, policy) == resolution(
            Contact { first: bullet, second: player },
            policy,
        ),
{
}

/// Every resolved contact removes at most one projectile, and removes it
/// last: two projectiles that meet are not both resolved.
pub proof fn lemma_one_projectile_per_contact(contact: Contact, policy: DeathPolicy)
    ensures
        resolution(contact, policy).len() <= 2,
        contact.first.faction.is_bullet() ==> resolution(contact, policy).last()
            == Command::Despawn(contact.first.entity),
        contact.first.faction.is_bullet() && contact.second.faction.is_bullet() ==> resolution(
            contact,
            policy,
        ) == seq![Command::Despawn(contact.first.entity)],
        !contact.first.faction.is_bullet() && contact.second.faction.is_bullet() ==> resolution(
            contact,
            policy,
        ).last() == Command::Despawn(contact.second.entity),
        !contact.first.faction.is_bullet() && !contact.second.faction.is_bullet() ==> resolution(
            contact,
            policy,
        ).len() == 0,
{
}

/// A projectile that meets a wall, or any body that is not its target, is
/// removed and nothing else happens.
pub proof fn lemma_stray_hit_removes_bullet_only(bullet: Body, other: Body, policy: DeathPolicy)
    requires
        bullet.faction.is_bullet(),
        !other.faction.is_bullet(),
        !(bullet.faction == Faction::PlayerBullet && other.faction == Faction::Enemy),
        !(bullet.faction == Faction::EnemyBullet && other.faction == Faction::Player),
    ensures
        resolution(Contact { first: bullet, second: other }, policy) == seq![
            Command::Despawn(bullet.entity),
        ],
        resolution(Contact { first: other, second: bullet }, policy) == seq![
            Command::Despawn(bullet.entity),
        ],
{
}

} // verus!
