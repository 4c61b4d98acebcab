//! The enemy's controller.
//!
//! An enemy stands still and fires along the direction it was given when it
//! was placed. A cooldown timer runs between two shots. When the timer
//! reaches its duration the enemy fires one projectile, and the timer starts
//! over with a new, randomly drawn duration, so that the enemies of a level
//! do not fire in step.

use vstd::prelude::*;
use crate::bullet::Bullet;
use crate::bullet::BulletSpawn;
use crate::bullet::BulletType;
use crate::bullet::BULLET_SPEED;
use crate::config::CollGroupsConfig;
use crate::config::CollisionGroups;
use crate::config::Faction;
use crate::config::SpriteDirection;
use crate::level::find_field;
use crate::level::first_named;
use crate::level::EntityInstance;
use crate::level::FieldInstance;
use crate::level::FieldValue;
use crate::timer::lemma_tick_finishes_at_duration;
use crate::timer::lemma_untickable_reaches_duration;
use crate::timer::Timer;
use crate::vector::Direction;
use crate::vector::Vec2;
use crate::vector::DIRECTION_ONE;

verus! {

/// The cooldown before an enemy's first shot, in nanoseconds.
pub const FIRST_COOLDOWN: u64 = 1_000_000_000;

/// Every later cooldown is shorter than this many nanoseconds.
pub const MAX_COOLDOWN: u64 = 2_000_000_000;

/// A projectile starts this far below the centre of the enemy.
pub const ENEMY_MUZZLE_DROP: i64 = 4;

/// An enemy's own state.
#[derive(Clone, Copy, Debug, PartialEq, Eq, Structural)]
pub struct Enemy {
    /// The direction the enemy faces and fires along.
    pub direction: SpriteDirection,
    /// The cooldown since the last shot.
    pub last_shot: Timer,
}

/// Everything the engine needs to create an enemy.
#[derive(Clone, Copy, Debug, PartialEq, Eq, Structural)]
pub struct EnemyBundle {
    /// The enemy's state.
    pub enemy: Enemy,
    /// Is the sprite mirrored, so that it looks to the left?
    pub flip_x: bool,
    /// The body's collision groups.
    pub coll_groups: CollisionGroups,
}

/// The cooldown that a random sample stands for: the samples are spread
/// evenly over the durations from zero up to, but not including,
/// [`MAX_COOLDOWN`].
pub open spec fn cooldown_of(sample: u32) -> u64 {
    ((sample * MAX_COOLDOWN) / 0x1_0000_0000) as u64
}

/// Does the level designer's `Rotation` field turn the entity to the left?
/// Only the first field of that name counts, and only if it holds the
/// enumeration value `Left`.
pub open spec fn faces_left(fields: Seq<FieldInstance>) -> bool {
    let i = first_named(fields, "Rotation"@);
    &&& i < fields.len()
    &&& fields[i].value matches FieldValue::Enum(Some(name))
    &&& name@ == "Left"@
}

impl Enemy {
    /// Between two ticks the cooldown is running: a tick that finds it run
    /// out starts it over at once.
    pub open spec fn wf(self) -> bool {
        !self.last_shot.finished
    }

    /// An enemy that faces right and waits [`FIRST_COOLDOWN`] for its first
    /// shot.
    pub open spec fn fresh() -> Enemy {
        Enemy { direction: SpriteDirection::Right, last_shot: Timer::fresh(FIRST_COOLDOWN, true) }
    }

    /// The direction of the enemy's projectiles: to the right if it faces
    /// right, to the left otherwise.
    pub open spec fn bullet_direction(self) -> Direction {
        if self.direction == SpriteDirection::Right {
            Direction { x: DIRECTION_ONE, y: 0 }
        } else {
            Direction { x: (-DIRECTION_ONE) as i32, y: 0 }
        }
    }

    /// Does the enemy fire on a tick of length `delta`? It does when the
    /// cooldown finishes on that tick. A cooldown that cannot be advanced by
    /// `delta`, because it has no length or because `delta` holds more
    /// cooldowns than can be counted, has run out as well.
    pub open spec fn fires(self, delta: u64) -> bool {
        if self.last_shot.tickable(delta) {
            self.last_shot.ticked(delta).finished
        } else {
            true
        }
    }

    /// The projectile of an enemy at `position`.
    pub open spec fn shot(self, position: Vec2) -> BulletSpawn {
        (Bullet { speed: BULLET_SPEED, type_: BulletType::Enemy }).spawned(
            position.x,
            (position.y - ENEMY_MUZZLE_DROP) as i64,
            self.bullet_direction(),
        )
    }

    /// The projectile, if any, that the enemy fires on a tick of length
    /// `delta`: never more than one.
    pub open spec fn shot_after(self, position: Vec2, delta: u64) -> Option<BulletSpawn> {
        if self.fires(delta) {
            Some(self.shot(position))
        } else {
            None
        }
    }

    /// The enemy after a tick of length `delta`. If it fires, the cooldown
    /// starts over from zero with the duration that `sample` stands for;
    /// time beyond the old duration is not carried over. If it does not fire
    /// the cooldown only advances and `sample` is not used.
    pub open spec fn advanced(self, delta: u64, sample: u32) -> Enemy {
        if self.fires(delta) {
            Enemy {
                last_shot: Timer { duration: cooldown_of(sample), ..self.last_shot.restarted() },
                ..self
            }
        } else {
            Enemy { last_shot: self.last_shot.ticked(delta), ..self }
        }
    }

    /// A new enemy.
    pub fn new() -> (enemy: Enemy)
        ensures
            enemy == Self::fresh(),
            enemy.wf(),
    {
        Enemy { direction: SpriteDirection::Right, last_shot: Timer::new(FIRST_COOLDOWN, true) }
    }

    /// Tells whether the enemy fires on a tick of length `delta`.
    pub fn will_fire(&self, delta: u64) -> (fires: bool)
        ensures
            fires == self.fires(delta),
    {
        if self.last_shot.is_tickable(delta) {
            let mut probe: Timer = self.last_shot;
            probe.tick(delta);
            probe.finished()
        } else {
            true
        }
    }

    /// One tick of the controller, with the random sample given: advances
    /// the cooldown and, when it has run out, fires one projectile and starts
    /// the cooldown over with the duration that `sample` stands for.
    pub fn advance(&mut self, position: Vec2, delta: u64, sample: u32) -> (shot: Option<
        BulletSpawn,
    >)
        requires
            position.in_world(),
        ensures
            shot == old(self).shot_after(position, delta),
            *final(self) == old(self).advanced(delta, sample),
            final(self).wf(),
    {
        let fires: bool = if self.last_shot.is_tickable(delta) {
            self.last_shot.tick(delta);
            self.last_shot.finished()
        } else {
            true
        };
        let direction: Direction = match self.direction {
            SpriteDirection::Right => Direction { x: DIRECTION_ONE, y: 0 },
            _ => Direction { x: -DIRECTION_ONE, y: 0 },
        };
        if fires {
            let shot = Bullet::new().with_type(BulletType::Enemy).spawn(
                position.x,
                position.y - ENEMY_MUZZLE_DROP,
                direction,
            );
            self.last_shot.reset();
            self.last_shot.set_duration(cooldown(sample));
            Some(shot)
        } else {
            None
        }
    }
}

impl Default for Enemy {
    fn default() -> (enemy: Enemy)
        ensures
            enemy == Enemy::fresh(),
    {
        Enemy::new()
    }
}

impl EnemyBundle {
    /// The enemy of a level entity with the given fields: it faces left with
    /// a mirrored sprite if the fields say so, and right otherwise.
    pub open spec fn of_fields(fields: Seq<FieldInstance>) -> EnemyBundle {
        EnemyBundle {
            enemy: Enemy {
                direction: if faces_left(fields) {
                    SpriteDirection::Left
                } else {
                    SpriteDirection::Right
                },
                ..Enemy::fresh()
            },
            flip_x: faces_left(fields),
            coll_groups: Faction::Enemy.groups(),
        }
    }

    /// Describes the enemy to spawn for a level entity. A `Rotation` field
    /// that is missing, empty, of another kind or of an unknown value is
    /// ignored: the enemy then faces right.
    pub fn bundle_entity(entity: &EntityInstance) -> (bundle: EnemyBundle)
        ensures
            bundle == Self::of_fields(entity.field_instances@),
            bundle.enemy.wf(),
    {
        let mut enemy = Enemy::new();
        let mut flip_x: bool = false;
        if let Some(field) = find_field(&entity.field_instances, "Rotation") {
            if let FieldValue::Enum(Some(rotation)) = &field.value {
                let left: String = "Left".to_owned();
                if *rotation == left {
                    enemy.direction = SpriteDirection::Left;
                    flip_x = true;
                }
            }
        }
        EnemyBundle { enemy, flip_x, coll_groups: CollGroupsConfig::enemy() }
    }
}

/// The cooldown that a random sample stands for.
pub fn cooldown(sample: u32) -> (nanos: u64)
    ensures
        nanos == cooldown_of(sample),
        nanos < MAX_COOLDOWN,
{
    let wide: u64 = sample as u64;
    assert(wide * MAX_COOLDOWN <= 0xffff_ffff * 2_000_000_000) by (nonlinear_arith)
        requires
            0 <= wide <= 0xffff_ffff,
    ;
    (wide * MAX_COOLDOWN) / 0x1_0000_0000
}

/// A sample of `rand::random`, drawn from the generator of the calling
/// thread. Nothing is claimed of its value: any `u32` may come back.
#[verifier::external_body]
fn random_sample() -> (sample: u32) {
    rand::random::<u32>()
}

/// One tick of the controller: advances the cooldown and, when it has run
/// out, fires one projectile and starts the cooldown over with a randomly
/// drawn duration below [`MAX_COOLDOWN`].
pub fn enemy_system(enemy: &mut Enemy, position: Vec2, delta: u64) -> (shot: Option<BulletSpawn>)
    requires
        position.in_world(),
    ensures
        shot == old(enemy).shot_after(position, delta),
        exists|sample: u32| *final(enemy) == old(enemy).advanced(delta, sample),
        final(enemy).wf(),
{
    let sample: u32 = if enemy.will_fire(delta) {
        random_sample()
    } else {
        0
    };
    let shot = enemy.advance(position, delta, sample);
    assert(*enemy == old(enemy).advanced(delta, sample));
    shot
}

/// On a tick that reaches the cooldown's duration the enemy fires exactly
/// one projectile, however far beyond the duration the tick goes, and the
/// cooldown starts over from zero. On a tick that stays short of it the enemy
/// does not fire. A tick that ends exactly on the duration counts as
/// reaching it.
pub proof fn lemma_one_shot_per_cooldown(enemy: Enemy, position: Vec2, delta: u64, sample: u32)
    requires
        enemy.wf(),
    ensures
        enemy.advanced(delta, sample).wf(),
        enemy.fires(delta) <==> enemy.last_shot.elapsed + delta >= enemy.last_shot.duration,
        enemy.fires(delta) ==> enemy.shot_after(position, delta) == Some(enemy.shot(position)),
        !enemy.fires(delta) ==> enemy.shot_after(position, delta) is None,
        enemy.fires(delta) ==> enemy.advanced(delta, sample).last_shot.elapsed == 0
            && !enemy.advanced(delta, sample).last_shot.finished && enemy.advanced(
            delta,
            sample,
        ).last_shot.duration == cooldown_of(sample),
        !enemy.fires(delta) ==> enemy.advanced(delta, sample).last_shot.elapsed
            == enemy.last_shot.elapsed + delta,
{
    if enemy.last_shot.tickable(delta) {
        lemma_tick_finishes_at_duration(enemy.last_shot, delta);
    } else {
        lemma_untickable_reaches_duration(enemy.last_shot, delta);
    }
}

/// No double fire: right after a shot, the enemy does not fire again until
/// the whole of the new cooldown has passed, and then it does.
pub proof fn lemma_no_double_fire(enemy: Enemy, delta: u64, sample: u32, next: u64)
    requires
        enemy.fires(delta),
    ensures
        enemy.advanced(delta, sample).wf(),
        enemy.advanced(delta, sample).fires(next) <==> next >= cooldown_of(sample),
{
    let after = enemy.advanced(delta, sample);
    if after.last_shot.tickable(next) {
        lemma_tick_finishes_at_duration(after.last_shot, next);
    } else {
        lemma_untickable_reaches_duration(after.last_shot, next);
    }
}

/// Cooldowns are spread evenly: a larger sample never stands for a shorter
/// cooldown, the smallest sample stands for none, and every cooldown is
/// below [`MAX_COOLDOWN`].
pub proof fn lemma_cooldown_range(low: u32, high: u32)
    requires
        low <= high,
    ensures
        cooldown_of(0) == 0,
        cooldown_of(low) <= cooldown_of(high) < MAX_COOLDOWN,
{
    assert((low * 2_000_000_000) / 0x1_0000_0000 <= (high * 2_000_000_000) / 0x1_0000_0000 < 2_000_000_000)
        by (nonlinear_arith)
        requires
            0 <= low <= high <= 0xffff_ffff,
    ;
}

} // verus!
