//! The player's controller.
//!
//! Once per tick the controller reads the input, updates the player's state
//! and answers with what the engine is to do to the player's body. In the
//! order in which a tick handles them:
//!
//! * **Respawn.** A player flagged dead is put back at its origin with zero
//!   velocity, and the flag is cleared.
//! * **Facing.** The facing follows the directional input and persists when
//!   there is none. Opposite keys cancel.
//! * **Dash.** When the cooldown has run out, the dash key starts a dash: for
//!   a fixed time the body receives an impulse along the facing and is
//!   stopped by walls only. When the dash is over the cooldown starts anew.
//! * **Movement.** The velocity points along the input axes and is as long as
//!   the player's speed, diagonals included.
//! * **Fire.** A fire trigger spawns one projectile, along the facing or
//!   toward a target.

use vstd::prelude::*;
use crate::bullet::Bullet;
use crate::bullet::BulletSpawn;
use crate::bullet::BulletType;
use crate::bullet::BULLET_SPEED;
use crate::combat::resolution;
use crate::combat::Body;
use crate::combat::Command;
use crate::combat::Contact;
use crate::config::CollGroupsConfig;
use crate::config::CollisionGroups;
use crate::config::DeathPolicy;
use crate::config::Faction;
use crate::config::GameConfig;
use crate::config::SpriteDirection;
use crate::config::DASH_FILTERS;
use crate::level::EntityInstance;
use crate::timer::Timer;
use crate::vector::lemma_velocity_within_speed;
use crate::vector::scale_component;
use crate::vector::Direction;
use crate::vector::Vec2;

verus! {

/// The speed of a walking player, in world units per second.
pub const PLAYER_SPEED: u32 = 300;

/// The size of the impulse that a dashing player receives on every tick.
pub const PLAYER_DASH_SPEED: u32 = 15;

/// How long a dash lasts, in nanoseconds.
pub const DASH_DURATION: u64 = 300_000_000;

/// How long after a dash the next one may start, in nanoseconds.
pub const DASH_COOLDOWN: u64 = 300_000_000;

/// A projectile starts this far below the centre of the player.
pub const MUZZLE_DROP: i64 = 7;

/// In a world without levels the player starts this far above the lower edge
/// of the window.
pub const START_HEIGHT: i64 = 200;

/// The walking speed of the player of a world without levels.
pub const START_SPEED: u32 = 500;

/// The fire trigger of one tick.
#[derive(Clone, Copy, Debug, PartialEq, Eq, Structural)]
pub enum Fire {
    /// No trigger.
    Idle,
    /// Fire along the facing.
    Facing,
    /// Fire toward a point of the world.
    At(Vec2),
}

/// What the controller reads on one tick.
#[derive(Clone, Copy, Debug, PartialEq, Eq, Structural)]
pub struct PlayerInput {
    /// Is an "up" key held?
    pub up: bool,
    /// Is a "down" key held?
    pub down: bool,
    /// Is a "left" key held?
    pub left: bool,
    /// Is a "right" key held?
    pub right: bool,
    /// Was the dash key pressed on this tick?
    pub dash: bool,
    /// The fire trigger of this tick.
    pub fire: Fire,
    /// Where the player's body is.
    pub position: Vec2,
    /// The time since the last tick, in nanoseconds.
    pub delta: u64,
}

/// What the engine is to do to the player's body after a tick.
#[derive(Clone, Copy, Debug, PartialEq, Eq, Structural)]
pub struct PlayerUpdate {
    /// Move the body here, if set.
    pub teleport: Option<Vec2>,
    /// The body's new linear velocity.
    pub velocity: Vec2,
    /// Apply this impulse, if set.
    pub impulse: Option<Vec2>,
    /// Replace the filter mask of the body's collision groups, if set.
    pub filters: Option<u32>,
    /// The frame of the sprite sheet to show.
    pub sprite_index: usize,
    /// Spawn this projectile, if set.
    pub bullet: Option<BulletSpawn>,
}

/// The player's own state.
#[derive(Clone, Copy, Debug, PartialEq, Eq, Structural)]
pub struct Player {
    /// The origin the player returns to when it respawns.
    pub start_coords: Vec2,
    /// Was the player hit since the last tick?
    pub dead: bool,
    /// Is a dash under way?
    pub dashing: bool,
    /// Runs while a dash lasts.
    pub dash_timer: Timer,
    /// Runs between the end of a dash and the moment the next may start.
    pub dash_cooldown: Timer,
    /// Walking speed.
    pub speed: u32,
    /// The direction the player faces.
    pub direction: SpriteDirection,
}

/// Everything the engine needs to create the player.
#[derive(Clone, Copy, Debug, PartialEq, Eq, Structural)]
pub struct PlayerBundle {
    /// The player's state.
    pub player: Player,
    /// Where the body starts.
    pub position: Vec2,
    /// The body's initial velocity.
    pub velocity: Vec2,
    /// The body's collision groups.
    pub coll_groups: CollisionGroups,
}

/// The value of an input axis: the key toward the positive end counts one,
/// the key toward the negative end minus one.
pub open spec fn axis(negative: bool, positive: bool) -> int {
    (if positive {
        1int
    } else {
        0int
    }) - (if negative {
        1int
    } else {
        0int
    })
}

/// Where a projectile fired along `facing` starts, for a player at `base`.
pub open spec fn muzzle(base: Vec2, facing: SpriteDirection) -> Vec2 {
    let x = match facing {
        SpriteDirection::Left => base.x - 8,
        SpriteDirection::Right => base.x + 8,
        SpriteDirection::Down => base.x - 7,
        SpriteDirection::Up => base.x + 7,
    };
    Vec2 { x: x as i64, y: (base.y - MUZZLE_DROP) as i64 }
}

/// The direction of a projectile fired from `base` toward `target`. A target
/// at the player's own position gives no direction: the projectile then flies
/// along the facing.
pub open spec fn aim(base: Vec2, target: Vec2, facing: SpriteDirection) -> Direction {
    match Direction::between(base, target) {
        Some(direction) => direction,
        None => Direction::of_facing(facing),
    }
}

impl PlayerInput {
    /// The target of a fire trigger and the position of the body lie in the
    /// world.
    pub open spec fn wf(self) -> bool {
        &&& self.position.in_world()
        &&& self.fire matches Fire::At(target) ==> target.in_world()
    }

    /// The horizontal axis: right is positive.
    pub open spec fn x_axis(self) -> int {
        axis(self.left, self.right)
    }

    /// The vertical axis: up is positive.
    pub open spec fn y_axis(self) -> int {
        axis(self.down, self.up)
    }

    /// The facing after this input: the vertical axis wins over the
    /// horizontal one, and without a net axis the facing stays.
    pub open spec fn facing(self, before: SpriteDirection) -> SpriteDirection {
        if self.y_axis() > 0 {
            SpriteDirection::Up
        } else if self.y_axis() < 0 {
            SpriteDirection::Down
        } else if self.x_axis() > 0 {
            SpriteDirection::Right
        } else if self.x_axis() < 0 {
            SpriteDirection::Left
        } else {
            before
        }
    }

    /// Tells whether the target of a fire trigger and the position of the
    /// body lie in the world.
    pub fn is_wf(&self) -> (valid: bool)
        ensures
            valid == self.wf(),
    {
        self.position.is_in_world() && match self.fire {
            Fire::At(target) => target.is_in_world(),
            _ => true,
        }
    }
}

impl Player {
    /// The player's origin lies in the world, and neither dash timer
    /// repeats: each runs out once and rests until it is started over.
    pub open spec fn wf(self) -> bool {
        &&& self.start_coords.in_world()
        &&& !self.dash_timer.repeating
        &&& !self.dash_cooldown.repeating
    }

    /// A player that starts at `(x, y)`: alive, standing, facing left, with
    /// both dash timers at zero.
    pub open spec fn fresh(x: i64, y: i64) -> Player {
        Player {
            start_coords: Vec2 { x, y },
            dead: false,
            dashing: false,
            dash_timer: Timer::fresh(DASH_DURATION, false),
            dash_cooldown: Timer::fresh(DASH_COOLDOWN, false),
            speed: PLAYER_SPEED,
            direction: SpriteDirection::Left,
        }
    }

    /// Does a dash start on this tick? The cooldown must have run out, no
    /// dash may be under way, and the dash key must have been pressed.
    pub open spec fn dash_starts(self, input: PlayerInput) -> bool {
        self.dash_cooldown.ticked(input.delta).finished && !self.dashing && input.dash
    }

    /// The dash timer after this tick: advanced, and started over if a dash
    /// starts.
    pub open spec fn dash_timer_after(self, input: PlayerInput) -> Timer {
        if self.dash_starts(input) {
            self.dash_timer.ticked(input.delta).restarted()
        } else {
            self.dash_timer.ticked(input.delta)
        }
    }

    /// Does the body receive the dash impulse on this tick?
    pub open spec fn boosting(self, input: PlayerInput) -> bool {
        (self.dashing || self.dash_starts(input)) && !self.dash_timer_after(input).finished
    }

    /// Does the dash timer run out on this tick?
    pub open spec fn dash_ends(self, input: PlayerInput) -> bool {
        self.dash_timer_after(input).finished_this_tick()
    }

    /// The player's state after a tick with the given input.
    pub open spec fn stepped(self, input: PlayerInput) -> Player {
        Player {
            start_coords: self.start_coords,
            dead: false,
            dashing: !self.dash_ends(input) && (self.dashing || self.dash_starts(input)),
            dash_timer: self.dash_timer_after(input),
            dash_cooldown: if self.dash_ends(input) {
                self.dash_cooldown.ticked(input.delta).restarted()
            } else {
                self.dash_cooldown.ticked(input.delta)
            },
            speed: self.speed,
            direction: input.facing(self.direction),
        }
    }

    /// Where the body is once a due respawn has happened.
    pub open spec fn base(self, input: PlayerInput) -> Vec2 {
        if self.dead {
            self.start_coords
        } else {
            input.position
        }
    }

    /// The projectile that the fire trigger spawns, if any.
    pub open spec fn shot(self, input: PlayerInput) -> Option<BulletSpawn> {
        let facing = input.facing(self.direction);
        let base = self.base(input);
        let bullet = Bullet { speed: BULLET_SPEED, type_: BulletType::Player };
        match input.fire {
            Fire::Idle => None,
            Fire::Facing => Some(
                bullet.spawned(
                    muzzle(base, facing).x,
                    muzzle(base, facing).y,
                    Direction::of_facing(facing),
                ),
            ),
            Fire::At(target) => Some(
                bullet.spawned(
                    base.x,
                    (base.y - MUZZLE_DROP) as i64,
                    aim(base, target, facing),
                ),
            ),
        }
    }

    /// What the engine is to do to the body after a tick with the given input.
    pub open spec fn update(self, input: PlayerInput) -> PlayerUpdate {
        let facing = input.facing(self.direction);
        PlayerUpdate {
            teleport: if self.dead {
                Some(self.start_coords)
            } else {
                None
            },
            velocity: if self.dead {
                Vec2 { x: 0, y: 0 }
            } else {
                Direction::of_axes(input.x_axis(), input.y_axis()).velocity(self.speed)
            },
            impulse: if self.boosting(input) {
                Some(Direction::of_facing(facing).velocity(PLAYER_DASH_SPEED))
            } else {
                None
            },
            filters: if self.dash_ends(input) {
                Some(Faction::Player.groups().filters)
            } else if self.boosting(input) {
                Some(DASH_FILTERS)
            } else {
                None
            },
            sprite_index: facing.frame() as usize,
            bullet: self.shot(input),
        }
    }

    /// A new player that starts at `(x, y)`.
    pub fn new(x: i64, y: i64) -> (player: Player)
        ensures
            player == Self::fresh(x, y),
    {
        Player {
            start_coords: Vec2::new(x, y),
            dead: false,
            dashing: false,
            dash_timer: Timer::new(DASH_DURATION, false),
            dash_cooldown: Timer::new(DASH_COOLDOWN, false),
            speed: PLAYER_SPEED,
            direction: SpriteDirection::Left,
        }
    }

    /// Tells whether the player's origin lies in the world and neither dash
    /// timer repeats.
    pub fn is_wf(&self) -> (valid: bool)
        ensures
            valid == self.wf(),
    {
        self.start_coords.is_in_world() && !self.dash_timer.repeating()
            && !self.dash_cooldown.repeating()
    }

    /// Flags the player as hit: it respawns on its next tick.
    pub fn mark_dead(&mut self)
        ensures
            *final(self) == (Player { dead: true, ..*old(self) }),
    {
        self.dead = true;
    }
}

impl Default for Player {
    fn default() -> (player: Player)
        ensures
            player == Player::fresh(0, 0),
    {
        Player::new(0, 0)
    }
}

impl PlayerBundle {
    /// The player of a level entity. The level editor counts `y` downward
    /// from the top of the window, the world counts it upward from the bottom.
    pub open spec fn of_entity(px_x: i32, px_y: i32, config: GameConfig) -> PlayerBundle {
        PlayerBundle {
            player: Player::fresh(px_x as i64, (config.window_height - px_y) as i64),
            position: Vec2 { x: px_x as i64, y: (config.window_height - px_y) as i64 },
            velocity: Vec2 { x: 0, y: 0 },
            coll_groups: Faction::Player.groups(),
        }
    }

    /// The player of a world without levels: it starts in the middle of the
    /// window's width, [`START_HEIGHT`] above its lower edge, and walks at
    /// [`START_SPEED`].
    pub open spec fn of_window(config: GameConfig) -> PlayerBundle {
        PlayerBundle {
            player: Player {
                speed: START_SPEED,
                ..Player::fresh((config.window_width / 2) as i64, START_HEIGHT)
            },
            position: Vec2 { x: (config.window_width / 2) as i64, y: START_HEIGHT },
            velocity: Vec2 { x: 0, y: 0 },
            coll_groups: Faction::Player.groups(),
        }
    }

    /// Describes the player to spawn in a world without levels.
    pub fn at_start(config: &GameConfig) -> (bundle: PlayerBundle)
        ensures
            bundle == Self::of_window(*config),
            bundle.player.wf(),
    {
        let x: i64 = (config.window_width / 2) as i64;
        let mut player = Player::new(x, START_HEIGHT);
        player.speed = START_SPEED;
        PlayerBundle {
            player,
            position: Vec2::new(x, START_HEIGHT),
            velocity: Vec2::zero(),
            coll_groups: CollGroupsConfig::player(),
        }
    }

    /// Describes the player to spawn for a level entity: it stands at the
    /// entity's position, which is also its respawn origin.
    pub fn bundle_entity(entity: &EntityInstance, config: &GameConfig) -> (bundle: PlayerBundle)
        ensures
            bundle == Self::of_entity(entity.px.x, entity.px.y, *config),
            bundle.player.wf(),
    {
        let x: i64 = entity.px.x as i64;
        let y: i64 = config.window_height as i64 - entity.px.y as i64;
        PlayerBundle {
            player: Player::new(x, y),
            position: Vec2::new(x, y),
            velocity: Vec2::zero(),
            coll_groups: CollGroupsConfig::player(),
        }
    }
}

/// The value of an input axis.
fn axis_value(negative: bool, positive: bool) -> (value: i8)
    ensures
        value == axis(negative, positive),
{
    let up: i8 = if positive {
        1
    } else {
        0
    };
    let down: i8 = if negative {
        1
    } else {
        0
    };
    up - down
}

/// The facing after an input with the given axes.
fn next_facing(x_axis: i8, y_axis: i8, before: SpriteDirection) -> (facing: SpriteDirection)
    ensures
        y_axis > 0 ==> facing == SpriteDirection::Up,
        y_axis < 0 ==> facing == SpriteDirection::Down,
        y_axis == 0 && x_axis > 0 ==> facing == SpriteDirection::Right,
        y_axis == 0 && x_axis < 0 ==> facing == SpriteDirection::Left,
        y_axis == 0 && x_axis == 0 ==> facing == before,
{
    let mut facing = before;
    if x_axis != 0 {
        facing = if x_axis > 0 {
            SpriteDirection::Right
        } else {
            SpriteDirection::Left
        };
    }
    if y_axis != 0 {
        facing = if y_axis > 0 {
            SpriteDirection::Up
        } else {
            SpriteDirection::Down
        };
    }
    facing
}

/// The projectile of a fire trigger.
fn fire(trigger: Fire, base: Vec2, facing: SpriteDirection) -> (shot: Option<BulletSpawn>)
    requires
        base.in_world(),
        trigger matches Fire::At(target) ==> target.in_world(),
    ensures
        shot == match trigger {
            Fire::Idle => None,
            Fire::Facing => Some(
                (Bullet { speed: BULLET_SPEED, type_: BulletType::Player }).spawned(
                    muzzle(base, facing).x,
                    muzzle(base, facing).y,
                    Direction::of_facing(facing),
                ),
            ),
            Fire::At(target) => Some(
                (Bullet { speed: BULLET_SPEED, type_: BulletType::Player }).spawned(
                    base.x,
                    (base.y - MUZZLE_DROP) as i64,
                    aim(base, target, facing),
                ),
            ),
        },
{
    match trigger {
        Fire::Idle => None,
        Fire::Facing => {
            let x: i64 = match facing {
                SpriteDirection::Left => base.x - 8,
                SpriteDirection::Right => base.x + 8,
                SpriteDirection::Down => base.x - 7,
                SpriteDirection::Up => base.x + 7,
            };
            Some(Bullet::new().spawn(x, base.y - MUZZLE_DROP, Direction::from_facing(facing)))
        },
        Fire::At(target) => {
            let direction = match Direction::toward(base, target) {
                Some(direction) => direction,
                None => Direction::from_facing(facing),
            };
            Some(Bullet::new().spawn(base.x, base.y - MUZZLE_DROP, direction))
        },
    }
}

/// One tick of the player's controller: updates the player's state and says
/// what the engine is to do to the player's body.
pub fn player_system(player: &mut Player, input: &PlayerInput) -> (update: PlayerUpdate)
    requires
        old(player).wf(),
        input.wf(),
    ensures
        *final(player) == old(player).stepped(*input),
        update == old(player).update(*input),
        final(player).wf(),
{
    // respawn
    let respawned: bool = player.dead;
    let base: Vec2 = if respawned {
        player.start_coords
    } else {
        input.position
    };
    player.dead = false;

    // facing
    let x_axis: i8 = axis_value(input.left, input.right);
    let y_axis: i8 = axis_value(input.down, input.up);
    player.direction = next_facing(x_axis, y_axis, player.direction);

    // dash
    player.dash_timer.tick(input.delta);
    player.dash_cooldown.tick(input.delta);
    if player.dash_cooldown.finished() && !player.dashing && input.dash {
        player.dashing = true;
        player.dash_timer.reset();
    }
    let mut impulse: Option<Vec2> = None;
    let mut filters: Option<u32> = None;
    if player.dashing && !player.dash_timer.finished() {
        impulse = Some(Direction::from_facing(player.direction).scaled(PLAYER_DASH_SPEED));
        filters = Some(DASH_FILTERS);
    }
    if player.dash_timer.just_finished() {
        player.dashing = false;
        filters = Some(CollGroupsConfig::player().filters);
        player.dash_cooldown.reset();
    }

    // movement
    let velocity: Vec2 = if respawned {
        Vec2::zero()
    } else {
        Direction::from_axes(x_axis, y_axis).scaled(player.speed)
    };

    PlayerUpdate {
        teleport: if respawned {
            Some(player.start_coords)
        } else {
            None
        },
        velocity,
        impulse,
        filters,
        sprite_index: player.direction.sprite_index(),
        bullet: fire(input.fire, base, player.direction),
    }
}

/// A player that was flagged dead is back at its origin after its next tick,
/// at rest and alive again, whatever the input. A player that was not is not
/// moved.
pub proof fn lemma_dead_player_respawns(player: Player, input: PlayerInput)
    ensures
        player.dead ==> player.update(input).teleport == Some(player.start_coords),
        player.dead ==> player.update(input).velocity == (Vec2 { x: 0, y: 0 }),
        !player.dead ==> player.update(input).teleport is None,
        !player.stepped(input).dead,
        player.stepped(input).start_coords == player.start_coords,
{
}

/// An enemy's projectile that touches the player has the player flagged
/// dead; the flag sends the player back to its origin on the following tick,
/// with zero velocity, and is cleared by that tick.
pub proof fn lemma_enemy_bullet_respawns_player(
    bullet: Body,
    target: Body,
    player: Player,
    input: PlayerInput,
)
    requires
        bullet.faction == Faction::EnemyBullet,
        target.faction == Faction::Player,
    ensures
        resolution(Contact { first: bullet, second: target }, DeathPolicy::Respawn).contains(
            Command::MarkDead(target.entity),
        ),
        resolution(Contact { first: target, second: bullet }, DeathPolicy::Respawn).contains(
            Command::MarkDead(target.entity),
        ),
        (Player { dead: true, ..player }).update(input).teleport == Some(player.start_coords),
        (Player { dead: true, ..player }).update(input).velocity == (Vec2 { x: 0, y: 0 }),
        !(Player { dead: true, ..player }).stepped(input).dead,
{
    let commands = resolution(Contact { first: bullet, second: target }, DeathPolicy::Respawn);
    assert(commands[0] == Command::MarkDead(target.entity));
    let swapped = resolution(Contact { first: target, second: bullet }, DeathPolicy::Respawn);
    assert(swapped[0] == Command::MarkDead(target.entity));
}

/// Opposite keys cancel: an axis with both of its keys held is zero, and an
/// input without a net axis leaves the facing as it was and the body at rest.
pub proof fn lemma_opposite_inputs_cancel(player: Player, input: PlayerInput)
    ensures
        input.left && input.right ==> input.x_axis() == 0,
        input.up && input.down ==> input.y_axis() == 0,
        input.x_axis() == 0 && input.y_axis() == 0 ==> input.facing(player.direction)
            == player.direction,
        input.x_axis() == 0 && input.y_axis() == 0 ==> player.stepped(input).direction
            == player.direction,
        input.x_axis() == 0 && input.y_axis() == 0 ==> player.update(input).velocity == (Vec2 {
            x: 0,
            y: 0,
        }),
{
    assert((0 * player.speed) / 65_536 == 0) by (nonlinear_arith);
}

/// A walking player is exactly as fast along an axis as its speed says, and
/// no faster on a diagonal: no component of its velocity exceeds the speed.
pub proof fn lemma_walking_speed(player: Player, input: PlayerInput)
    requires
        !player.dead,
    ensures
        input.y_axis() == 0 ==> player.update(input).velocity.x == input.x_axis() * player.speed
            && player.update(input).velocity.y == 0,
        input.x_axis() == 0 ==> player.update(input).velocity.y == input.y_axis() * player.speed
            && player.update(input).velocity.x == 0,
        -player.speed <= player.update(input).velocity.x <= player.speed,
        -player.speed <= player.update(input).velocity.y <= player.speed,
{
    let speed = player.speed as int;
    assert((0 * speed) / 65_536 == 0) by (nonlinear_arith);
    assert((65_536 * speed) / 65_536 == speed) by (nonlinear_arith);
    assert(1 * speed == speed && (-1) * speed == -speed && 0 * speed == 0) by (nonlinear_arith);
    assert(scale_component(0, speed) == 0);
    assert(scale_component(65_536, speed) == speed);
    assert(scale_component(-65_536, speed) == -speed);
    lemma_velocity_within_speed(Direction::of_axes(input.x_axis(), input.y_axis()), player.speed);
}

/// The dash impulse and the relaxed filter come together, and never on the
/// tick on which a dash ends: that tick restores the player's own filter.
pub proof fn lemma_dash_filters(player: Player, input: PlayerInput)
    requires
        player.wf(),
    ensures
        player.stepped(input).wf(),
        player.dash_ends(input) ==> !player.boosting(input),
        player.update(input).impulse is Some <==> player.boosting(input),
        player.boosting(input) ==> player.update(input).filters == Some(DASH_FILTERS),
        player.dash_ends(input) ==> player.update(input).filters == Some(
            Faction::Player.groups().filters,
        ) && !player.stepped(input).dashing,
{
    let timer = player.dash_timer.ticked(input.delta);
    if player.dash_ends(input) {
        assert(timer.finished_this_tick() ==> timer.finished);
    }
}

} // verus!
