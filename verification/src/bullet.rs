//! Projectiles: how one is spawned, and when one expires.
//!
//! A projectile flies straight at a fixed speed. It ends on its first
//! contact, or when it leaves the bounded region around the play area,
//! whichever comes first; so projectiles cannot pile up without bound.

use vstd::prelude::*;
use crate::combat::push_event;
use crate::combat::resolutions;
use crate::combat::Command;
use crate::combat::CollisionEvent;
use crate::config::CollGroupsConfig;
use crate::config::CollisionGroups;
use crate::config::Faction;
use crate::config::GameConfig;
use crate::entity::Entity;
use crate::vector::Direction;
use crate::vector::Vec2;

verus! {

/// The speed of every projectile, in world units per second.
pub const BULLET_SPEED: u32 = 1300;

/// Who fired a projectile.
#[derive(Clone, Copy, Debug, PartialEq, Eq, Structural)]
pub enum BulletType {
    Player,
    Enemy,
}

impl BulletType {
    /// The faction of a projectile of this type.
    pub open spec fn faction(self) -> Faction {
        match self {
            BulletType::Player => Faction::PlayerBullet,
            BulletType::Enemy => Faction::EnemyBullet,
        }
    }

    /// The faction of a projectile of this type.
    pub fn to_faction(self) -> (faction: Faction)
        ensures
            faction == self.faction(),
    {
        match self {
            BulletType::Player => Faction::PlayerBullet,
            BulletType::Enemy => Faction::EnemyBullet,
        }
    }
}

/// A projectile: its speed and the side that fired it.
#[derive(Clone, Copy, Debug, PartialEq, Eq, Structural)]
pub struct Bullet {
    pub speed: u32,
    pub type_: BulletType,
}

/// Everything the engine needs to create a projectile.
#[derive(Clone, Copy, Debug, PartialEq, Eq, Structural)]
pub struct BulletSpawn {
    /// Where the projectile starts.
    pub position: Vec2,
    /// Its constant velocity. The sprite is turned to point along it.
    pub velocity: Vec2,
    /// The collision groups of the projectile's faction.
    pub coll_groups: CollisionGroups,
    /// The projectile itself.
    pub bullet: Bullet,
}

impl Bullet {
    /// The projectile `self` as it is spawned at `(x, y)`, flying along
    /// `direction`.
    pub open spec fn spawned(self, x: i64, y: i64, direction: Direction) -> BulletSpawn {
        BulletSpawn {
            position: Vec2 { x, y },
            velocity: direction.velocity(self.speed),
            coll_groups: self.type_.faction().groups(),
            bullet: self,
        }
    }

    /// A player's projectile at the standard speed.
    pub fn new() -> (bullet: Bullet)
        ensures
            bullet == (Bullet { speed: BULLET_SPEED, type_: BulletType::Player }),
    {
        Bullet { speed: BULLET_SPEED, type_: BulletType::Player }
    }

    /// The same projectile, fired by another side.
    pub fn with_type(self, type_: BulletType) -> (bullet: Bullet)
        ensures
            bullet == (Bullet { type_, ..self }),
    {
        Bullet { speed: self.speed, type_ }
    }

    /// Describes the projectile to spawn at `(x, y)`: its velocity is the
    /// direction times the projectile's speed, and its collision groups are
    /// those of its faction.
    pub fn spawn(&self, x: i64, y: i64, direction: Direction) -> (spawn: BulletSpawn)
        ensures
            spawn == self.spawned(x, y, direction),
    {
        let coll_groups = match self.type_ {
            BulletType::Player => CollGroupsConfig::bullet_player(),
            BulletType::Enemy => CollGroupsConfig::bullet_enemy(),
        };
        BulletSpawn {
            position: Vec2 { x, y },
            velocity: direction.scaled(self.speed),
            coll_groups,
            bullet: *self,
        }
    }
}

/// A live projectile as the engine tracks it.
#[derive(Clone, Copy, Debug, PartialEq, Eq, Structural)]
pub struct TrackedBullet {
    pub entity: Entity,
    pub position: Vec2,
}

/// A position is out of bounds when it lies more than two window widths left
/// or right of the origin, or more than one window height above or below it.
pub open spec fn out_of_bounds(position: Vec2, config: GameConfig) -> bool {
    ||| position.x < -(2 * config.window_width)
    ||| position.x > 2 * config.window_width
    ||| position.y < -config.window_height
    ||| position.y > config.window_height
}

/// One `Despawn` for each projectile that is out of bounds, in the order of
/// the projectiles.
pub open spec fn expiries(bullets: Seq<TrackedBullet>, config: GameConfig) -> Seq<Command>
    decreases bullets.len(),
{
    if bullets.len() == 0 {
        Seq::empty()
    } else if out_of_bounds(bullets.last().position, config) {
        expiries(bullets.drop_last(), config).push(Command::Despawn(bullets.last().entity))
    } else {
        expiries(bullets.drop_last(), config)
    }
}

/// The projectiles that are left once the out-of-bounds ones are removed.
pub open spec fn survivors(bullets: Seq<TrackedBullet>, config: GameConfig) -> Seq<TrackedBullet>
    decreases bullets.len(),
{
    if bullets.len() == 0 {
        Seq::empty()
    } else if out_of_bounds(bullets.last().position, config) {
        survivors(bullets.drop_last(), config)
    } else {
        survivors(bullets.drop_last(), config).push(bullets.last())
    }
}

/// Tells whether a position is out of bounds.
pub fn is_out_of_bounds(position: &Vec2, config: &GameConfig) -> (out: bool)
    ensures
        out == out_of_bounds(*position, *config),
{
    let x_extent: i64 = 2 * (config.window_width as i64);
    let y_extent: i64 = config.window_height as i64;
    position.x < -x_extent || position.x > x_extent || position.y < -y_extent || position.y
        > y_extent
}

/// The commands that remove every projectile that left the bounds.
pub fn expire_bullets(bullets: &Vec<TrackedBullet>, config: &GameConfig) -> (commands: Vec<
    Command,
>)
    ensures
        commands@ == expiries(bullets@, *config),
{
    let mut commands: Vec<Command> = Vec::new();
    let mut i: usize = 0;
    while i < bullets.len()
        invariant
            i <= bullets.len(),
            commands@ == expiries(bullets@.take(i as int), *config),
        decreases bullets.len() - i,
    {
        proof {
            let next = bullets@.take(i + 1);
            assert(next.drop_last() =~= bullets@.take(i as int));
            assert(next.last() == bullets@[i as int]);
        }
        if is_out_of_bounds(&bullets[i].position, config) {
            commands.push(Command::Despawn(bullets[i].entity));
        }
        i += 1;
    }
    assert(bullets@.take(i as int) =~= bullets@);
    commands
}

/// One tick of the projectile rules. First every projectile that left the
/// bounds is removed; then each contact that started is resolved in turn. The
/// commands are to be applied after the call, so no contact sees the effect
/// of another.
pub fn bullet_system(
    bullets: &Vec<TrackedBullet>,
    events: &Vec<CollisionEvent>,
    config: &GameConfig,
) -> (commands: Vec<Command>)
    ensures
        commands@ == expiries(bullets@, *config) + resolutions(events@, config.death_policy),
{
    let mut commands = expire_bullets(bullets, config);
    let ghost expired = commands@;
    let mut i: usize = 0;
    assert(events@.take(0) =~= Seq::<CollisionEvent>::empty());
    assert(commands@ =~= expired + resolutions(events@.take(0), config.death_policy));
    while i < events.len()
        invariant
            i <= events.len(),
            commands@ == expired + resolutions(events@.take(i as int), config.death_policy),
        decreases events.len() - i,
    {
        proof {
            let next = events@.take(i + 1);
            assert(next.drop_last() =~= events@.take(i as int));
            assert(next.last() == events@[i as int]);
        }
        push_event(&mut commands, &events[i], config.death_policy);
        assert(commands@ =~= expired + resolutions(events@.take(i + 1), config.death_policy));
        i += 1;
    }
    assert(events@.take(i as int) =~= events@);
    commands
}

/// Every projectile that is out of bounds is removed by the tick's commands.
pub proof fn lemma_expired_bullet_is_despawned(
    bullets: Seq<TrackedBullet>,
    config: GameConfig,
    i: int,
)
    requires
        0 <= i < bullets.len(),
        out_of_bounds(bullets[i].position, config),
    ensures
        expiries(bullets, config).contains(Command::Despawn(bullets[i].entity)),
    decreases bullets.len(),
{
    let command = Command::Despawn(bullets[i].entity);
    let rest = expiries(bullets.drop_last(), config);
    if i == bullets.len() - 1 {
        let all = rest.push(command);
        assert(all[all.len() - 1] == command);
    } else {
        lemma_expired_bullet_is_despawned(bullets.drop_last(), config, i);
        let j = choose|j: int| 0 <= j < rest.len() && rest[j] == command;
        if out_of_bounds(bullets.last().position, config) {
            let all = rest.push(Command::Despawn(bullets.last().entity));
            assert(all[j] == command);
        }
    }
}

/// Expiry removes nothing else: each of its commands despawns a projectile
/// that is out of bounds.
pub proof fn lemma_expiry_despawns_only_expired(
    bullets: Seq<TrackedBullet>,
    config: GameConfig,
    k: int,
)
    requires
        0 <= k < expiries(bullets, config).len(),
    ensures
        exists|i: int|
            0 <= i < bullets.len() && out_of_bounds(#[trigger] bullets[i].position, config)
                && expiries(bullets, config)[k] == Command::Despawn(bullets[i].entity),
    decreases bullets.len(),
{
    let rest = expiries(bullets.drop_last(), config);
    let last = bullets.len() - 1;
    if out_of_bounds(bullets.last().position, config) && k == rest.len() {
        assert(out_of_bounds(bullets[last].position, config));
    } else {
        lemma_expiry_despawns_only_expired(bullets.drop_last(), config, k);
        let i = choose|i: int|
            0 <= i < bullets.drop_last().len() && out_of_bounds(
                #[trigger] bullets.drop_last()[i].position,
                config,
            ) && rest[k] == Command::Despawn(bullets.drop_last()[i].entity);
        assert(out_of_bounds(bullets[i].position, config));
    }
}

/// Expiry is idempotent: once the out-of-bounds projectiles are removed, a
/// second check of the projectiles that are left removes nothing.
pub proof fn lemma_expiry_idempotent(bullets: Seq<TrackedBullet>, config: GameConfig)
    ensures
        expiries(survivors(bullets, config), config) == Seq::<Command>::empty(),
        survivors(survivors(bullets, config), config) == survivors(bullets, config),
    decreases bullets.len(),
{
    if bullets.len() > 0 {
        lemma_expiry_idempotent(bullets.drop_last(), config);
        if !out_of_bounds(bullets.last().position, config) {
            let kept = survivors(bullets.drop_last(), config);
            assert(kept.push(bullets.last()).drop_last() =~= kept);
        }
    }
}

/// The projectiles that are left are exactly those within bounds: none of
/// them is out of bounds, and none within bounds is lost.
pub proof fn lemma_survivors_within_bounds(bullets: Seq<TrackedBullet>, config: GameConfig)
    ensures
        forall|k: int|
            0 <= k < survivors(bullets, config).len() ==> !out_of_bounds(
                #[trigger] survivors(bullets, config)[k].position,
                config,
            ),
        forall|i: int|
            0 <= i < bullets.len() && !out_of_bounds(#[trigger] bullets[i].position, config)
                ==> survivors(bullets, config).contains(bullets[i]),
        survivors(bullets, config).len() + expiries(bullets, config).len() == bullets.len(),
    decreases bullets.len(),
{
    if bullets.len() > 0 {
        let front = bullets.drop_last();
        lemma_survivors_within_bounds(front, config);
        let kept = survivors(front, config);
        let all = survivors(bullets, config);
        assert forall|i: int|
            0 <= i < bullets.len() && !out_of_bounds(
                #[trigger] bullets[i].position,
                config,
            ) implies all.contains(bullets[i]) by {
            if i == bullets.len() - 1 {
                assert(all[all.len() - 1] == bullets[i]);
            } else {
                assert(front[i] == bullets[i]);
                let k = choose|k: int| 0 <= k < kept.len() && kept[k] == front[i];
                assert(all[k] == bullets[i]);
            }
        }
    }
}

} // verus!
