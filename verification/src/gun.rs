//! The player's gun: a sprite that stays with the player and points at the
//! pointer.

use vstd::prelude::*;
use crate::player::MUZZLE_DROP;
use crate::vector::Vec2;

verus! {

/// A gun and the place of its muzzle relative to its grip.
#[derive(Clone, Copy, Debug, PartialEq, Eq, Structural)]
pub struct Gun {
    pub bullet_offset: Vec2,
}

/// Everything the engine needs to create a gun.
#[derive(Clone, Copy, Debug, PartialEq, Eq, Structural)]
pub struct GunSpawn {
    /// The gun itself.
    pub gun: Gun,
    /// Where the gun's sprite starts.
    pub position: Vec2,
}

/// Where the gun is and where it points.
#[derive(Clone, Copy, Debug, PartialEq, Eq, Structural)]
pub struct GunPose {
    /// The place of the gun's sprite.
    pub position: Vec2,
    /// The vector from the player to the pointer: the gun is turned to point
    /// along it.
    pub toward: Vec2,
    /// Is the sprite mirrored top to bottom, so that a gun that points to the
    /// left is not upside down?
    pub flipped: bool,
}

/// What the engine is to do to the gun after a tick.
#[derive(Clone, Copy, Debug, PartialEq, Eq, Structural)]
pub struct GunUpdate {
    /// Create this gun, if set.
    pub spawn: Option<GunSpawn>,
    /// Put every gun that exists in this pose.
    pub pose: GunPose,
}

/// The muzzle offset of the gun that a player starts with.
pub open spec fn standard_offset() -> Vec2 {
    Vec2 { x: 46, y: 2 }
}

/// Where a player at `player` holds the gun.
pub open spec fn grip(player: Vec2) -> Vec2 {
    Vec2 { x: player.x, y: (player.y - MUZZLE_DROP) as i64 }
}

/// The pose of the gun of a player at `player` when the pointer is at
/// `pointer`: the sprite is mirrored exactly when the pointer is to the left
/// of the player.
pub open spec fn pose(player: Vec2, pointer: Vec2) -> GunPose {
    GunPose {
        position: grip(player),
        toward: Vec2 { x: (pointer.x - player.x) as i64, y: (pointer.y - player.y) as i64 },
        flipped: pointer.x < player.x,
    }
}

impl Gun {
    /// A gun with the given muzzle offset.
    pub fn new(bullet_offset: Vec2) -> (gun: Gun)
        ensures
            gun == (Gun { bullet_offset }),
    {
        Gun { bullet_offset }
    }

    /// Describes the gun to spawn at `(x, y)`.
    pub fn spawn(&self, x: i64, y: i64) -> (spawn: GunSpawn)
        ensures
            spawn == (GunSpawn { gun: *self, position: Vec2 { x, y } }),
    {
        GunSpawn { gun: *self, position: Vec2::new(x, y) }
    }
}

/// One tick of the gun. A player that has no gun yet gets one; every gun
/// moves with the player and is turned toward the pointer.
pub fn gun_system(guns: usize, player: Vec2, pointer: Vec2) -> (update: GunUpdate)
    requires
        player.in_world(),
        pointer.in_world(),
    ensures
        update.spawn == (if guns == 0 {
            Some(GunSpawn { gun: Gun { bullet_offset: standard_offset() }, position: grip(player) })
        } else {
            None
        }),
        update.pose == pose(player, pointer),
{
    let hold = Vec2::new(player.x, player.y - MUZZLE_DROP);
    let spawn: Option<GunSpawn> = if guns == 0 {
        Some(Gun::new(Vec2::new(46, 2)).spawn(hold.x, hold.y))
    } else {
        None
    };
    let delta_x: i64 = pointer.x - player.x;
    let delta_y: i64 = pointer.y - player.y;
    GunUpdate {
        spawn,
        pose: GunPose { position: hold, toward: Vec2::new(delta_x, delta_y), flipped: delta_x < 0 },
    }
}

} // verus!
