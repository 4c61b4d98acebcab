//! Game configuration: window size, facing directions, factions and the
//! collision groups that decide which bodies may touch.
//!
//! Every body belongs to one [`Faction`]. Whether two factions may come into
//! contact is written down twice: as an explicit table
//! ([`Faction::may_contact`]) and as the membership/filter bit masks handed to
//! the physics engine ([`CollGroupsConfig`]). The lemmas at the end of this
//! file prove that the two agree and that the table is symmetric.

use vstd::prelude::*;

verus! {

/// Title of the game window.
pub const GAME_NAME: &'static str = "Astro bevy";

/// Height of the window, in world units.
pub const WINDOW_HEIGHT: u32 = 512;

/// Width of the window, in world units.
pub const WINDOW_WIDTH: u32 = 640;

/// The filter a player uses while dashing: only walls stop it.
pub const DASH_FILTERS: u32 = 0b10000;

/// What happens to a player that is hit by an enemy projectile.
#[derive(Clone, Copy, Debug, PartialEq, Eq, Structural)]
pub enum DeathPolicy {
    /// The player is flagged dead and put back at its origin on the next tick.
    Respawn,
    /// The player entity is removed.
    Despawn,
}

/// The immutable settings a game is started with.
#[derive(Clone, Copy, Debug, PartialEq, Eq, Structural)]
pub struct GameConfig {
    /// Width of the visible play area.
    pub window_width: u32,
    /// Height of the visible play area.
    pub window_height: u32,
    /// Effect of an enemy projectile on the player.
    pub death_policy: DeathPolicy,
}

impl GameConfig {
    /// The settings of the shipped game: a 640 x 512 window and a player that
    /// respawns.
    pub fn standard() -> (config: GameConfig)
        ensures
            config == (GameConfig {
                window_width: WINDOW_WIDTH,
                window_height: WINDOW_HEIGHT,
                death_policy: DeathPolicy::Respawn,
            }),
    {
        GameConfig {
            window_width: WINDOW_WIDTH,
            window_height: WINDOW_HEIGHT,
            death_policy: DeathPolicy::Respawn,
        }
    }
}

/// One of the four directions an actor can face.
#[derive(Clone, Copy, Debug, PartialEq, Eq, Structural)]
pub enum SpriteDirection {
    Left,
    Right,
    Up,
    Down,
}

impl SpriteDirection {
    /// The frame of a four-frame sprite sheet that shows this direction.
    pub open spec fn frame(self) -> nat {
        match self {
            SpriteDirection::Right => 0,
            SpriteDirection::Left => 1,
            SpriteDirection::Up => 2,
            SpriteDirection::Down => 3,
        }
    }

    /// Index of the sprite-sheet frame for this direction.
    pub fn sprite_index(self) -> (index: usize)
        ensures
            index == self.frame(),
    {
        match self {
            SpriteDirection::Right => 0,
            SpriteDirection::Left => 1,
            SpriteDirection::Up => 2,
            SpriteDirection::Down => 3,
        }
    }
}

impl Default for SpriteDirection {
    fn default() -> (direction: SpriteDirection)
        ensures
            direction == SpriteDirection::Left,
    {
        SpriteDirection::Left
    }
}

/// The logical category of a body. It drives both collision filtering and the
/// outcome of a contact.
#[derive(Clone, Copy, Debug, PartialEq, Eq, Structural)]
pub enum Faction {
    Player,
    PlayerBullet,
    EnemyBullet,
    Enemy,
    Wall,
}

impl Faction {
    /// The compatibility table: may a body of faction `self` touch one of
    /// faction `other`?
    ///
    /// Walls stop everything that moves. Players and enemies touch each other.
    /// A projectile touches only the opposing actor and walls: never its own
    /// side, and never another projectile.
    pub open spec fn may_contact(self, other: Faction) -> bool {
        match (self, other) {
            (Faction::Player, Faction::EnemyBullet) => true,
            (Faction::Player, Faction::Enemy) => true,
            (Faction::Player, Faction::Wall) => true,
            (Faction::PlayerBullet, Faction::Enemy) => true,
            (Faction::PlayerBullet, Faction::Wall) => true,
            (Faction::EnemyBullet, Faction::Player) => true,
            (Faction::EnemyBullet, Faction::Wall) => true,
            (Faction::Enemy, Faction::Player) => true,
            (Faction::Enemy, Faction::PlayerBullet) => true,
            (Faction::Enemy, Faction::Wall) => true,
            (Faction::Wall, Faction::Player) => true,
            (Faction::Wall, Faction::PlayerBullet) => true,
            (Faction::Wall, Faction::EnemyBullet) => true,
            (Faction::Wall, Faction::Enemy) => true,
            _ => false,
        }
    }

    /// Is this the faction of a projectile?
    pub open spec fn spec_is_bullet(self) -> bool {
        self == Faction::PlayerBullet || self == Faction::EnemyBullet
    }

    /// Is this the faction of a projectile?
    #[verifier::when_used_as_spec(spec_is_bullet)]
    pub fn is_bullet(self) -> (bullet: bool)
        ensures
            bullet == self.spec_is_bullet(),
    {
        match self {
            Faction::PlayerBullet | Faction::EnemyBullet => true,
            _ => false,
        }
    }

    /// The collision groups a body of this faction is registered with.
    pub open spec fn groups(self) -> CollisionGroups {
        match self {
            Faction::Player => CollisionGroups { memberships: 0b00001, filters: 0b11100 },
            Faction::PlayerBullet => CollisionGroups { memberships: 0b00010, filters: 0b11000 },
            Faction::EnemyBullet => CollisionGroups { memberships: 0b00100, filters: 0b10001 },
            Faction::Enemy => CollisionGroups { memberships: 0b01000, filters: 0b10011 },
            Faction::Wall => CollisionGroups { memberships: 0b10000, filters: 0b01111 },
        }
    }

    /// Looks the pair up in the compatibility table.
    pub fn collides_with(self, other: Faction) -> (allowed: bool)
        ensures
            allowed == self.may_contact(other),
    {
        match self {
            Faction::Player => match other {
                Faction::EnemyBullet | Faction::Enemy | Faction::Wall => true,
                _ => false,
            },
            Faction::PlayerBullet => match other {
                Faction::Enemy | Faction::Wall => true,
                _ => false,
            },
            Faction::EnemyBullet => match other {
                Faction::Player | Faction::Wall => true,
                _ => false,
            },
            Faction::Enemy => match other {
                Faction::Player | Faction::PlayerBullet | Faction::Wall => true,
                _ => false,
            },
            Faction::Wall => match other {
                Faction::Wall => false,
                _ => true,
            },
        }
    }
}

/// A pair of bit masks: the groups a body is a member of, and the groups it
/// accepts contact with.
#[derive(Clone, Copy, Debug, PartialEq, Eq, Structural)]
pub struct CollisionGroups {
    /// Groups the body belongs to.
    pub memberships: u32,
    /// Groups the body may touch.
    pub filters: u32,
}

impl CollisionGroups {
    /// Two bodies are considered for contact when each is a member of a group
    /// that the other one accepts.
    pub open spec fn interacts(self, other: CollisionGroups) -> bool {
        (self.memberships & other.filters) != 0 && (other.memberships & self.filters) != 0
    }

    /// Groups with the given membership and filter masks.
    pub fn new(memberships: u32, filters: u32) -> (groups: CollisionGroups)
        ensures
            groups == (CollisionGroups { memberships, filters }),
    {
        CollisionGroups { memberships, filters }
    }

    /// Would the physics step consider a contact between these two?
    pub fn test(&self, other: &CollisionGroups) -> (allowed: bool)
        ensures
            allowed == self.interacts(*other),
    {
        (self.memberships & other.filters) != 0 && (other.memberships & self.filters) != 0
    }
}

/// The collision groups of each faction.
pub struct CollGroupsConfig;

impl CollGroupsConfig {
    /// Group 0; touches groups 2, 3 and 4.
    pub fn player() -> (groups: CollisionGroups)
        ensures
            groups == Faction::Player.groups(),
    {
        CollisionGroups::new(0b00001, 0b11100)
    }

    /// Group 1; touches groups 3 and 4.
    pub fn bullet_player() -> (groups: CollisionGroups)
        ensures
            groups == Faction::PlayerBullet.groups(),
    {
        CollisionGroups::new(0b00010, 0b11000)
    }

    /// Group 2; touches groups 0 and 4.
    pub fn bullet_enemy() -> (groups: CollisionGroups)
        ensures
            groups == Faction::EnemyBullet.groups(),
    {
        CollisionGroups::new(0b00100, 0b10001)
    }

    /// Group 3; touches groups 0, 1 and 4.
    pub fn enemy() -> (groups: CollisionGroups)
        ensures
            groups == Faction::Enemy.groups(),
    {
        CollisionGroups::new(0b01000, 0b10011)
    }

    /// Group 4; touches groups 0, 1, 2 and 3.
    pub fn wall() -> (groups: CollisionGroups)
        ensures
            groups == Faction::Wall.groups(),
    {
        CollisionGroups::new(0b10000, 0b01111)
    }

    /// The groups of an arbitrary faction.
    pub fn of(faction: Faction) -> (groups: CollisionGroups)
        ensures
            groups == faction.groups(),
    {
        match faction {
            Faction::Player => Self::player(),
            Faction::PlayerBullet => Self::bullet_player(),
            Faction::EnemyBullet => Self::bullet_enemy(),
            Faction::Enemy => Self::enemy(),
            Faction::Wall => Self::wall(),
        }
    }
}

/// The compatibility table is symmetric: if `a` may touch `b`, then `b` may
/// touch `a`.
pub proof fn lemma_contact_symmetric(a: Faction, b: Faction)
    ensures
        a.may_contact(b) == b.may_contact(a),
{
}

/// Which membership bits meet which filter masks. Row by row: the member bit
/// of a faction against the filters of all five factions.
proof fn lemma_mask_products()
    by (bit_vector)
    ensures
        0b00001u32 & 0b11100u32 == 0,
        0b00001u32 & 0b11000u32 == 0,
        0b00001u32 & 0b10001u32 != 0,
        0b00001u32 & 0b10011u32 != 0,
        0b00001u32 & 0b01111u32 != 0,
        0b00010u32 & 0b11100u32 == 0,
        0b00010u32 & 0b11000u32 == 0,
        0b00010u32 & 0b10001u32 == 0,
        0b00010u32 & 0b10011u32 != 0,
        0b00010u32 & 0b01111u32 != 0,
        0b00100u32 & 0b11100u32 != 0,
        0b00100u32 & 0b11000u32 == 0,
        0b00100u32 & 0b10001u32 == 0,
        0b00100u32 & 0b10011u32 == 0,
        0b00100u32 & 0b01111u32 != 0,
        0b01000u32 & 0b11100u32 != 0,
        0b01000u32 & 0b11000u32 != 0,
        0b01000u32 & 0b10001u32 == 0,
        0b01000u32 & 0b10011u32 == 0,
        0b01000u32 & 0b01111u32 != 0,
        0b10000u32 & 0b11100u32 != 0,
        0b10000u32 & 0b11000u32 != 0,
        0b10000u32 & 0b10001u32 != 0,
        0b10000u32 & 0b10011u32 != 0,
        0b10000u32 & 0b01111u32 == 0,
        0b00001u32 & 0b10000u32 == 0,
        0b00010u32 & 0b10000u32 == 0,
        0b00100u32 & 0b10000u32 == 0,
        0b01000u32 & 0b10000u32 == 0,
        0b10000u32 & 0b10000u32 != 0,
{
}

/// The bit masks implement the compatibility table: the physics step
/// considers a pair of bodies exactly when the table allows their factions to
/// touch.
pub proof fn lemma_groups_match_table(a: Faction, b: Faction)
    ensures
        a.groups().interacts(b.groups()) == a.may_contact(b),
{
    lemma_mask_products();
}

/// A projectile never touches the side that fired it, nor any projectile.
pub proof fn lemma_bullets_spare_their_side(bullet: Faction, other: Faction)
    requires
        bullet.is_bullet(),
    ensures
        other.is_bullet() ==> !bullet.may_contact(other),
        bullet == Faction::PlayerBullet ==> !bullet.may_contact(Faction::Player),
        bullet == Faction::EnemyBullet ==> !bullet.may_contact(Faction::Enemy),
        bullet.may_contact(Faction::Wall),
{
}

/// While dashing, a player (whose filter is then [`DASH_FILTERS`]) is stopped
/// by walls and passes through everything else.
pub proof fn lemma_dash_passes_all_but_walls(other: Faction)
    ensures
        (CollisionGroups {
            memberships: Faction::Player.groups().memberships,
            filters: DASH_FILTERS,
        }).interacts(other.groups()) == (other == Faction::Wall),
{
    lemma_mask_products();
}

} // verus!
