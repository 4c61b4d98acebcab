//! Walls: static collision geometry made from the cells of a level.

use vstd::prelude::*;
use crate::config::CollGroupsConfig;
use crate::config::CollisionGroups;
use crate::config::Faction;
use crate::level::GridCoords;
use crate::vector::Vec2;

verus! {

/// The edge of a wall tile, in world units.
pub const WALL_SPRITE_SIZE: i64 = 32;

/// Half the edge of a wall tile.
pub const WALL_HALF_SIZE: i64 = 16;

/// A wall that is one tile wide and `height` tiles high.
#[derive(Clone, Copy, Debug, PartialEq, Eq, Structural)]
pub struct WallEntity {
    pub height: u32,
}

/// Everything the engine needs to create a wall: one fixed box, and one
/// sprite for each tile of the wall.
#[derive(Debug)]
pub struct WallSpawn {
    /// The centre of the wall.
    pub position: Vec2,
    /// Half the width of the box.
    pub half_width: i64,
    /// Half the height of the box.
    pub half_height: i64,
    /// The collision groups of the box.
    pub coll_groups: CollisionGroups,
    /// For each tile, from the bottom up: how far its centre lies above the
    /// centre of the wall.
    pub tiles: Vec<i64>,
}

/// A fixed box that stands for one wall cell of a level.
#[derive(Clone, Copy, Debug, PartialEq, Eq, Structural)]
pub struct WallCollider {
    /// The centre of the box.
    pub position: Vec2,
    /// Half the width of the box.
    pub half_width: i64,
    /// Half the height of the box.
    pub half_height: i64,
}

/// How far the centre of tile `i` lies above the centre of a wall that is
/// `height` tiles high: the tiles are stacked without gaps around the centre.
pub open spec fn tile_offset(height: u32, i: int) -> int {
    i * WALL_SPRITE_SIZE - (height - 1) * WALL_HALF_SIZE
}

/// The box of the wall cell at `coords`: one tile wide and high, around the
/// centre of the cell.
pub open spec fn cell_collider(coords: GridCoords) -> WallCollider {
    WallCollider {
        position: Vec2 {
            x: (coords.x * WALL_SPRITE_SIZE + WALL_HALF_SIZE) as i64,
            y: (coords.y * WALL_SPRITE_SIZE + WALL_HALF_SIZE) as i64,
        },
        half_width: WALL_HALF_SIZE,
        half_height: WALL_HALF_SIZE,
    }
}

impl WallEntity {
    /// A wall of the given height.
    pub fn new(height: u32) -> (wall: WallEntity)
        ensures
            wall == (WallEntity { height }),
    {
        WallEntity { height }
    }

    /// Describes the wall to spawn around `(x, y)`: a box one tile wide and
    /// `height` tiles high, and the places of the tile sprites in it.
    pub fn spawn(&self, x: i64, y: i64) -> (spawn: WallSpawn)
        ensures
            spawn.position == (Vec2 { x, y }),
            spawn.half_width == WALL_HALF_SIZE,
            spawn.half_height == WALL_HALF_SIZE * self.height,
            spawn.coll_groups == Faction::Wall.groups(),
            spawn.tiles@ == Seq::new(
                self.height as nat,
                |i: int| tile_offset(self.height, i) as i64,
            ),
    {
        let height: i64 = self.height as i64;
        let half: i64 = WALL_HALF_SIZE;
        let lowest: i64 = -((height - 1) * half);
        let mut tiles: Vec<i64> = Vec::new();
        let mut i: u32 = 0;
        while i < self.height
            invariant
                i <= self.height,
                height == self.height,
                half == 16,
                lowest == -((height - 1) * half),
                tiles@ == Seq::new(i as nat, |k: int| tile_offset(self.height, k) as i64),
            decreases self.height - i,
        {
            tiles.push(lowest + (i as i64) * WALL_SPRITE_SIZE);
            i += 1;
            assert(tiles@ =~= Seq::new(i as nat, |k: int| tile_offset(self.height, k) as i64));
        }
        WallSpawn {
            position: Vec2::new(x, y),
            half_width: half,
            half_height: half * height,
            coll_groups: CollGroupsConfig::wall(),
            tiles,
        }
    }
}

/// The fixed boxes of the wall cells of a level, one for each cell and in
/// the order of the cells.
pub fn spawn_wall_colliders(cells: &Vec<GridCoords>) -> (colliders: Vec<WallCollider>)
    ensures
        colliders@ == cells@.map_values(|coords: GridCoords| cell_collider(coords)),
{
    let mut colliders: Vec<WallCollider> = Vec::new();
    let mut i: usize = 0;
    while i < cells.len()
        invariant
            i <= cells.len(),
            colliders@ == cells@.take(i as int).map_values(
                |coords: GridCoords| cell_collider(coords),
            ),
        decreases cells.len() - i,
    {
        let coords: GridCoords = cells[i];
        let half: i64 = WALL_HALF_SIZE;
        colliders.push(
            WallCollider {
                position: Vec2::new(
                    (coords.x as i64) * WALL_SPRITE_SIZE + half,
                    (coords.y as i64) * WALL_SPRITE_SIZE + half,
                ),
                half_width: half,
                half_height: half,
            },
        );
        i += 1;
        assert(colliders@ =~= cells@.take(i as int).map_values(
            |coords: GridCoords| cell_collider(coords),
        ));
    }
    assert(cells@.take(i as int) =~= cells@);
    colliders
}

/// The tiles of a wall fill its box exactly: the lowest tile starts at the
/// lower edge of the box, each tile rests on the one below, and the highest
/// tile ends at the upper edge.
pub proof fn lemma_tiles_fill_wall(height: u32, i: int)
    requires
        0 <= i < height,
    ensures
        tile_offset(height, 0) - WALL_HALF_SIZE == -(WALL_HALF_SIZE * height),
        tile_offset(height, height - 1) + WALL_HALF_SIZE == WALL_HALF_SIZE * height,
        i + 1 < height ==> tile_offset(height, i + 1) == tile_offset(height, i)
            + WALL_SPRITE_SIZE,
{
}

} // verus!
