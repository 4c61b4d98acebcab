//! Integer vector arithmetic.
//!
//! Positions and velocities are pairs of `i64` world units. A direction is a
//! vector in sixteen-bit fixed point, in which [`DIRECTION_ONE`] stands for a
//! length of one; every component of a normalised direction is rounded toward
//! zero, so a velocity never exceeds the speed it was scaled by.

use vstd::prelude::*;
use crate::config::SpriteDirection;

verus! {

/// Largest magnitude of a world coordinate that the game's systems accept.
/// Within this limit no offset, difference or squared distance can overflow.
pub const WORLD_LIMIT: i64 = 0x100_0000_0000;

/// The fixed-point representation of the length one.
pub const DIRECTION_ONE: i32 = 65_536;

/// Each component of a normalised diagonal: `DIRECTION_ONE / sqrt(2)`, rounded
/// down.
pub const DIRECTION_DIAGONAL: i32 = 46_340;

/// A position or a velocity in world units.
#[derive(Clone, Copy, Debug, PartialEq, Eq, Structural)]
pub struct Vec2 {
    pub x: i64,
    pub y: i64,
}

impl Vec2 {
    /// Both coordinates lie within [`WORLD_LIMIT`] of the origin.
    pub open spec fn in_world(self) -> bool {
        &&& -WORLD_LIMIT <= self.x <= WORLD_LIMIT
        &&& -WORLD_LIMIT <= self.y <= WORLD_LIMIT
    }

    /// The vector `(x, y)`.
    pub fn new(x: i64, y: i64) -> (v: Vec2)
        ensures
            v == (Vec2 { x, y }),
    {
        Vec2 { x, y }
    }

    /// The zero vector.
    pub fn zero() -> (v: Vec2)
        ensures
            v == (Vec2 { x: 0, y: 0 }),
    {
        Vec2 { x: 0, y: 0 }
    }

    /// Tells whether both coordinates lie within [`WORLD_LIMIT`] of the origin.
    pub fn is_in_world(&self) -> (inside: bool)
        ensures
            inside == self.in_world(),
    {
        -WORLD_LIMIT <= self.x && self.x <= WORLD_LIMIT && -WORLD_LIMIT <= self.y && self.y
            <= WORLD_LIMIT
    }
}

/// `r` is the integer square root of `n`: the largest integer whose square
/// does not exceed `n`.
pub open spec fn is_floor_sqrt(r: int, n: int) -> bool {
    r >= 0 && r * r <= n < (r + 1) * (r + 1)
}

/// The absolute value of an integer.
pub open spec fn magnitude(v: int) -> int {
    if v >= 0 {
        v
    } else {
        -v
    }
}

/// The integer square root of a natural number.
pub open spec fn floor_sqrt(n: int) -> int {
    choose|r: int| is_floor_sqrt(r, n)
}

/// The magnitude of one fixed-point component of the unit vector along a
/// vector that has a component of magnitude `a` and the squared length
/// `len2`: `DIRECTION_ONE * a / sqrt(len2)`, rounded down.
pub open spec fn unit_magnitude_of(a: int, len2: int) -> int {
    floor_sqrt((DIRECTION_ONE * DIRECTION_ONE * (a * a)) / len2)
}

/// One fixed-point component of the unit vector along a vector that has the
/// component `d` and the squared length `len2`, rounded toward zero.
pub open spec fn unit_component(d: int, len2: int) -> int {
    if d >= 0 {
        unit_magnitude_of(d, len2)
    } else {
        -unit_magnitude_of(-d, len2)
    }
}

/// `c` is the fixed-point component, rounded toward zero, of the unit vector
/// along a vector whose matching component is `d` and whose squared length is
/// `len2`: it has the sign of `d`, and its magnitude `m` is the largest
/// integer with `m / DIRECTION_ONE <= |d| / sqrt(len2)`.
pub open spec fn is_unit_component(c: int, d: int, len2: int) -> bool {
    let m = magnitude(c);
    &&& d >= 0 ==> c >= 0
    &&& d <= 0 ==> c <= 0
    &&& m * m * len2 <= DIRECTION_ONE * DIRECTION_ONE * d * d
    &&& DIRECTION_ONE * DIRECTION_ONE * d * d < (m + 1) * (m + 1) * len2
}

/// The product `c * speed / DIRECTION_ONE`, rounded toward zero.
pub open spec fn scale_component(c: int, speed: int) -> int {
    if c >= 0 {
        (c * speed) / (DIRECTION_ONE as int)
    } else {
        -(((-c) * speed) / (DIRECTION_ONE as int))
    }
}

/// A direction in fixed point: `DIRECTION_ONE` stands for one.
#[derive(Clone, Copy, Debug, PartialEq, Eq, Structural)]
pub struct Direction {
    pub x: i32,
    pub y: i32,
}

impl Direction {
    /// The unit vector along a facing. Up is the positive `y` axis.
    pub open spec fn of_facing(facing: SpriteDirection) -> Direction {
        match facing {
            SpriteDirection::Up => Direction { x: 0, y: DIRECTION_ONE },
            SpriteDirection::Down => Direction { x: 0, y: (-DIRECTION_ONE) as i32 },
            SpriteDirection::Left => Direction { x: (-DIRECTION_ONE) as i32, y: 0 },
            SpriteDirection::Right => Direction { x: DIRECTION_ONE, y: 0 },
        }
    }

    /// One component of the normalised vector along a pair of axis values.
    /// Only the signs of the two values count. An axis alone has length one;
    /// on a diagonal each component is `DIRECTION_DIAGONAL`.
    pub open spec fn axis_component(axis: int, other: int) -> int {
        let unit: int = if other == 0 {
            DIRECTION_ONE as int
        } else {
            DIRECTION_DIAGONAL as int
        };
        if axis > 0 {
            unit
        } else if axis < 0 {
            -unit
        } else {
            0
        }
    }

    /// The normalised vector along a pair of axis values; the zero vector if
    /// both are zero.
    pub open spec fn of_axes(x_axis: int, y_axis: int) -> Direction {
        Direction {
            x: Self::axis_component(x_axis, y_axis) as i32,
            y: Self::axis_component(y_axis, x_axis) as i32,
        }
    }

    /// The velocity of a body that moves along this direction at `speed`.
    pub open spec fn velocity(self, speed: u32) -> Vec2 {
        Vec2 {
            x: scale_component(self.x as int, speed as int) as i64,
            y: scale_component(self.y as int, speed as int) as i64,
        }
    }

    /// The unit vector along `(dx, dy)`, each component rounded toward zero.
    pub open spec fn normalised(dx: int, dy: int) -> Direction {
        Direction {
            x: unit_component(dx, dx * dx + dy * dy) as i32,
            y: unit_component(dy, dx * dx + dy * dy) as i32,
        }
    }

    /// The direction from `from` to `to`, if the two points differ.
    pub open spec fn between(from: Vec2, to: Vec2) -> Option<Direction> {
        if from == to {
            None
        } else {
            Some(Self::normalised(to.x - from.x, to.y - from.y))
        }
    }

    /// This direction is the unit vector along `(dx, dy)`: each component has
    /// the sign of the vector's and is the largest that does not make the
    /// direction longer than one.
    pub open spec fn points_along(self, dx: int, dy: int) -> bool {
        &&& is_unit_component(self.x as int, dx, dx * dx + dy * dy)
        &&& is_unit_component(self.y as int, dy, dx * dx + dy * dy)
    }

    /// The unit vector along a facing.
    pub fn from_facing(facing: SpriteDirection) -> (direction: Direction)
        ensures
            direction == Self::of_facing(facing),
    {
        match facing {
            SpriteDirection::Up => Direction { x: 0, y: DIRECTION_ONE },
            SpriteDirection::Down => Direction { x: 0, y: -DIRECTION_ONE },
            SpriteDirection::Left => Direction { x: -DIRECTION_ONE, y: 0 },
            SpriteDirection::Right => Direction { x: DIRECTION_ONE, y: 0 },
        }
    }

    /// The normalised vector along a pair of axis values.
    pub fn from_axes(x_axis: i8, y_axis: i8) -> (direction: Direction)
        ensures
            direction == Self::of_axes(x_axis as int, y_axis as int),
    {
        let straight: i32 = DIRECTION_ONE;
        let diagonal: i32 = DIRECTION_DIAGONAL;
        let x_unit: i32 = if y_axis == 0 {
            straight
        } else {
            diagonal
        };
        let y_unit: i32 = if x_axis == 0 {
            straight
        } else {
            diagonal
        };
        let x: i32 = if x_axis == 0 {
            0
        } else if x_axis > 0 {
            x_unit
        } else {
            -x_unit
        };
        let y: i32 = if y_axis == 0 {
            0
        } else if y_axis > 0 {
            y_unit
        } else {
            -y_unit
        };
        Direction { x, y }
    }

    /// The normalised vector that points from `from` to `to`, or `None` when
    /// the two points coincide.
    pub fn toward(from: Vec2, to: Vec2) -> (direction: Option<Direction>)
        requires
            from.in_world(),
            to.in_world(),
        ensures
            direction == Self::between(from, to),
    {
        let dx: i64 = to.x - from.x;
        let dy: i64 = to.y - from.y;
        if dx == 0 && dy == 0 {
            return None;
        }
        let ax: u128 = abs_wide(dx);
        let ay: u128 = abs_wide(dy);
        proof {
            lemma_square_bound(ax as int, 0x200_0000_0000);
            lemma_square_bound(ay as int, 0x200_0000_0000);
            lemma_square_positive(ax as int);
            lemma_square_positive(ay as int);
            lemma_square_of_magnitude(dx as int);
            lemma_square_of_magnitude(dy as int);
        }
        let len2: u128 = ax * ax + ay * ay;
        let mx: u64 = unit_magnitude(ax, len2);
        let my: u64 = unit_magnitude(ay, len2);
        let x: i32 = if dx >= 0 {
            mx as i32
        } else {
            -(mx as i32)
        };
        let y: i32 = if dy >= 0 {
            my as i32
        } else {
            -(my as i32)
        };
        Some(Direction { x, y })
    }

    /// The velocity of a body that moves along this direction at `speed`:
    /// each component is multiplied by `speed`, divided by `DIRECTION_ONE` and
    /// rounded toward zero.
    pub fn scaled(&self, speed: u32) -> (velocity: Vec2)
        ensures
            velocity == self.velocity(speed),
    {
        Vec2 { x: scale(self.x, speed), y: scale(self.y, speed) }
    }
}

/// The absolute value of a coordinate difference, widened.
fn abs_wide(v: i64) -> (m: u128)
    requires
        v > i64::MIN,
    ensures
        m == magnitude(v as int),
{
    if v >= 0 {
        v as u128
    } else {
        (-v) as u128
    }
}

/// One component of a velocity.
fn scale(c: i32, speed: u32) -> (v: i64)
    ensures
        v == scale_component(c as int, speed as int),
{
    let wide: i64 = c as i64;
    let factor: i64 = speed as i64;
    let one: i64 = DIRECTION_ONE as i64;
    if wide >= 0 {
        assert(0 <= wide * factor <= 0x7fff_ffff * 0xffff_ffff) by (nonlinear_arith)
            requires
                0 <= wide <= 0x7fff_ffff,
                0 <= factor <= 0xffff_ffff,
        ;
        (wide * factor) / one
    } else {
        let positive: i64 = -wide;
        assert(0 <= positive * factor <= 0x8000_0000 * 0xffff_ffff) by (nonlinear_arith)
            requires
                0 <= positive <= 0x8000_0000,
                0 <= factor <= 0xffff_ffff,
        ;
        -((positive * factor) / one)
    }
}

/// The magnitude of one component of a unit vector.
fn unit_magnitude(a: u128, len2: u128) -> (m: u64)
    requires
        a <= 0x200_0000_0000,
        a * a <= len2,
        0 < len2 <= 0x8_0000_0000_0000_0000_0000,
    ensures
        m == unit_magnitude_of(a as int, len2 as int),
        m <= DIRECTION_ONE,
{
    proof {
        lemma_square_bound(a as int, 0x200_0000_0000);
    }
    let square: u128 = a * a;
    let scaled: u128 = 0x1_0000_0000 * square;
    let quotient: u128 = scaled / len2;
    proof {
        lemma_quotient_bounds(scaled as int, len2 as int, quotient as int);
        assert(quotient <= 0x1_0000_0000) by (nonlinear_arith)
            requires
                quotient * len2 <= scaled,
                scaled == 0x1_0000_0000 * square,
                square <= len2,
                len2 > 0,
        ;
    }
    let m: u64 = isqrt(quotient as u64);
    proof {
        assert(m <= 0x1_0000) by (nonlinear_arith)
            requires
                m * m <= quotient,
                quotient <= 0x1_0000_0000,
        ;
        assert(DIRECTION_ONE * DIRECTION_ONE * (a * a) == scaled);
    }
    m
}

/// The integer square root: the largest `r` with `r * r <= n`.
pub fn isqrt(n: u64) -> (r: u64)
    ensures
        r == floor_sqrt(n as int),
        is_floor_sqrt(r as int, n as int),
{
    let mut low: u64 = 0;
    let mut high: u64 = 0x1_0000_0000;
    while high - low > 1
        invariant
            low < high <= 0x1_0000_0000,
            low * low <= n < high * high,
        decreases high - low,
    {
        let middle: u64 = low + (high - low) / 2;
        proof {
            lemma_square_bound(middle as int, 0xffff_ffff);
        }
        if middle * middle <= n {
            low = middle;
        } else {
            high = middle;
        }
    }
    proof {
        lemma_floor_sqrt_is(low as int, n as int);
    }
    low
}

/// A natural number has one integer square root only.
pub proof fn lemma_floor_sqrt_unique(r1: int, r2: int, n: int)
    by (nonlinear_arith)
    requires
        is_floor_sqrt(r1, n),
        is_floor_sqrt(r2, n),
    ensures
        r1 == r2,
{
}

/// Whatever meets the definition of the integer square root is the value of
/// [`floor_sqrt`].
pub proof fn lemma_floor_sqrt_is(r: int, n: int)
    requires
        is_floor_sqrt(r, n),
    ensures
        floor_sqrt(n) == r,
{
    lemma_floor_sqrt_unique(r, floor_sqrt(n), n);
}

/// Every natural number has an integer square root.
pub proof fn lemma_floor_sqrt_exists(n: int)
    requires
        n >= 0,
    ensures
        is_floor_sqrt(floor_sqrt(n), n),
    decreases n,
{
    if n == 0 {
        assert(is_floor_sqrt(0, 0));
    } else {
        lemma_floor_sqrt_exists(n - 1);
        let r = floor_sqrt(n - 1);
        if (r + 1) * (r + 1) <= n {
            assert(is_floor_sqrt(r + 1, n)) by (nonlinear_arith)
                requires
                    r >= 0,
                    r * r <= n - 1 < (r + 1) * (r + 1),
                    (r + 1) * (r + 1) <= n,
            ;
        } else {
            assert(is_floor_sqrt(r, n));
        }
    }
}

/// Squaring preserves a bound on a natural number.
proof fn lemma_square_bound(v: int, bound: int)
    by (nonlinear_arith)
    requires
        0 <= v <= bound,
    ensures
        0 <= v * v <= bound * bound,
{
}

/// The square of a non-zero integer is positive.
proof fn lemma_square_positive(v: int)
    by (nonlinear_arith)
    ensures
        v * v >= 0,
        v != 0 ==> v * v > 0,
{
}

/// An integer and its absolute value have the same square.
proof fn lemma_square_of_magnitude(v: int)
    by (nonlinear_arith)
    ensures
        magnitude(v) * magnitude(v) == v * v,
{
}

/// Euclidean division brackets the dividend.
proof fn lemma_quotient_bounds(a: int, b: int, q: int)
    by (nonlinear_arith)
    requires
        0 <= a,
        0 < b,
        q == a / b,
    ensures
        0 <= q,
        q * b <= a < (q + 1) * b,
{
}

/// The magnitude of a unit component is at most one, and it is the largest
/// `m` with `m * m * len2 <= DIRECTION_ONE^2 * a * a`.
proof fn lemma_unit_magnitude_bounds(a: int, len2: int)
    requires
        0 <= a,
        a * a <= len2,
        0 < len2,
    ensures
        0 <= unit_magnitude_of(a, len2) <= DIRECTION_ONE,
        unit_magnitude_of(a, len2) * unit_magnitude_of(a, len2) * len2 <= DIRECTION_ONE
            * DIRECTION_ONE * (a * a),
        DIRECTION_ONE * DIRECTION_ONE * (a * a) < (unit_magnitude_of(a, len2) + 1) * (
        unit_magnitude_of(a, len2) + 1) * len2,
{
    let one2: int = 0x1_0000_0000;
    assert(DIRECTION_ONE * DIRECTION_ONE == one2);
    let square = a * a;
    lemma_square_positive(a);
    let scaled = one2 * square;
    assert(0 <= scaled <= one2 * len2) by (nonlinear_arith)
        requires
            0 <= square <= len2,
            scaled == one2 * square,
            one2 == 0x1_0000_0000,
    ;
    let quotient = scaled / len2;
    lemma_quotient_bounds(scaled, len2, quotient);
    assert(quotient <= one2) by (nonlinear_arith)
        requires
            quotient * len2 <= scaled,
            scaled <= one2 * len2,
            len2 > 0,
    ;
    lemma_floor_sqrt_exists(quotient);
    let m = floor_sqrt(quotient);
    assert(m == unit_magnitude_of(a, len2));
    assert(m <= 0x1_0000) by (nonlinear_arith)
        requires
            0 <= m,
            m * m <= quotient,
            quotient <= 0x1_0000_0000,
    ;
    assert(m * m * len2 <= scaled) by (nonlinear_arith)
        requires
            m * m <= quotient,
            quotient * len2 <= scaled,
            len2 > 0,
    ;
    assert(scaled < (m + 1) * (m + 1) * len2) by (nonlinear_arith)
        requires
            quotient < (m + 1) * (m + 1),
            scaled < (quotient + 1) * len2,
            len2 > 0,
    ;
}

/// The component that [`unit_component`] computes is the unit component, and
/// it fits the fixed-point range.
pub proof fn lemma_unit_component_is_unit(d: int, len2: int)
    requires
        d * d <= len2,
        0 < len2,
    ensures
        is_unit_component(unit_component(d, len2), d, len2),
        -DIRECTION_ONE <= unit_component(d, len2) <= DIRECTION_ONE,
{
    let a = magnitude(d);
    lemma_square_of_magnitude(d);
    lemma_unit_magnitude_bounds(a, len2);
    let m = unit_magnitude_of(a, len2);
    let c = unit_component(d, len2);
    assert(DIRECTION_ONE * DIRECTION_ONE * d * d == DIRECTION_ONE * DIRECTION_ONE * (d * d))
        by (nonlinear_arith);
    if d == 0 {
        assert(m == 0) by (nonlinear_arith)
            requires
                0 <= m,
                len2 > 0,
                m * m * len2 <= DIRECTION_ONE * DIRECTION_ONE * (a * a),
                a == 0,
        ;
    }
    assert(magnitude(c) == m);
}

/// The direction that [`Direction::normalised`] computes points along the
/// vector it was computed from.
pub proof fn lemma_normalised_points_along(dx: int, dy: int)
    requires
        dx != 0 || dy != 0,
    ensures
        Direction::normalised(dx, dy).points_along(dx, dy),
        -DIRECTION_ONE <= Direction::normalised(dx, dy).x <= DIRECTION_ONE,
        -DIRECTION_ONE <= Direction::normalised(dx, dy).y <= DIRECTION_ONE,
{
    lemma_square_positive(dx);
    lemma_square_positive(dy);
    lemma_unit_component_is_unit(dx, dx * dx + dy * dy);
    lemma_unit_component_is_unit(dy, dx * dx + dy * dy);
}

/// Only one value is the unit component of a given vector: being the unit
/// component determines the value.
pub proof fn lemma_unit_component_unique(c1: int, c2: int, d: int, len2: int)
    requires
        len2 > 0,
        is_unit_component(c1, d, len2),
        is_unit_component(c2, d, len2),
    ensures
        c1 == c2,
{
    let m1 = magnitude(c1);
    let m2 = magnitude(c2);
    let a = DIRECTION_ONE * DIRECTION_ONE * d * d;
    assert(m1 == m2) by (nonlinear_arith)
        requires
            m1 >= 0,
            m2 >= 0,
            len2 > 0,
            m1 * m1 * len2 <= a,
            a < (m1 + 1) * (m1 + 1) * len2,
            m2 * m2 * len2 <= a,
            a < (m2 + 1) * (m2 + 1) * len2,
    ;
    if d == 0 {
        assert(m1 == 0) by (nonlinear_arith)
            requires
                m1 >= 0,
                len2 > 0,
                m1 * m1 * len2 <= a,
                a == 0,
        ;
    }
}

/// A normalised direction is at most one long.
pub proof fn lemma_direction_at_most_unit(d: Direction, dx: int, dy: int)
    requires
        dx != 0 || dy != 0,
        d.points_along(dx, dy),
    ensures
        d.x * d.x + d.y * d.y <= DIRECTION_ONE * DIRECTION_ONE,
{
    let len2 = dx * dx + dy * dy;
    let mx = magnitude(d.x as int);
    let my = magnitude(d.y as int);
    lemma_square_positive(dx);
    lemma_square_positive(dy);
    assert(mx * mx == d.x * d.x) by (nonlinear_arith)
        requires
            mx == d.x || mx == -d.x,
    ;
    assert(my * my == d.y * d.y) by (nonlinear_arith)
        requires
            my == d.y || my == -d.y,
    ;
    let one2 = DIRECTION_ONE * DIRECTION_ONE;
    assert(mx * mx + my * my <= one2) by (nonlinear_arith)
        requires
            len2 > 0,
            len2 == dx * dx + dy * dy,
            mx * mx * len2 <= one2 * dx * dx,
            my * my * len2 <= one2 * dy * dy,
    ;
}

/// The eight directions of keyboard movement are normalised: the table behind
/// [`Direction::of_axes`] holds the unit vectors along the axis pairs.
pub proof fn lemma_axes_are_normalised(x_axis: int, y_axis: int)
    requires
        -1 <= x_axis <= 1,
        -1 <= y_axis <= 1,
        x_axis != 0 || y_axis != 0,
    ensures
        Direction::of_axes(x_axis, y_axis) == Direction::normalised(x_axis, y_axis),
        Direction::of_axes(x_axis, y_axis).points_along(x_axis, y_axis),
{
    let len2 = x_axis * x_axis + y_axis * y_axis;
    assert(len2 == magnitude(x_axis) + magnitude(y_axis)) by (nonlinear_arith)
        requires
            -1 <= x_axis <= 1,
            -1 <= y_axis <= 1,
            len2 == x_axis * x_axis + y_axis * y_axis,
    ;
    lemma_axis_component_is_unit(x_axis, y_axis);
    lemma_axis_component_is_unit(y_axis, x_axis);
    lemma_normalised_points_along(x_axis, y_axis);
    let n = Direction::normalised(x_axis, y_axis);
    lemma_unit_component_unique(
        Direction::axis_component(x_axis, y_axis),
        n.x as int,
        x_axis,
        len2,
    );
    lemma_unit_component_unique(
        Direction::axis_component(y_axis, x_axis),
        n.y as int,
        y_axis,
        len2,
    );
}

/// One entry of the table of keyboard directions.
proof fn lemma_axis_component_is_unit(axis: int, other: int)
    requires
        -1 <= axis <= 1,
        -1 <= other <= 1,
        axis != 0 || other != 0,
    ensures
        is_unit_component(
            Direction::axis_component(axis, other),
            axis,
            magnitude(axis) + magnitude(other),
        ),
{
    let c = Direction::axis_component(axis, other);
    let m = magnitude(c);
    let len2 = magnitude(axis) + magnitude(other);
    if axis == 0 {
        assert(c == 0);
    } else if other == 0 {
        assert(m == 65_536 && len2 == 1);
        assert(m * m * len2 == 4_294_967_296) by (nonlinear_arith)
            requires
                m == 65_536,
                len2 == 1,
        ;
        assert((m + 1) * (m + 1) * len2 > 4_294_967_296) by (nonlinear_arith)
            requires
                m == 65_536,
                len2 == 1,
        ;
        assert(DIRECTION_ONE * DIRECTION_ONE * axis * axis == 4_294_967_296) by (nonlinear_arith)
            requires
                axis == 1 || axis == -1,
        ;
    } else {
        assert(m == 46_340 && len2 == 2);
        assert(m * m * len2 == 4_294_791_200) by (nonlinear_arith)
            requires
                m == 46_340,
                len2 == 2,
        ;
        assert((m + 1) * (m + 1) * len2 == 4_294_976_562) by (nonlinear_arith)
            requires
                m == 46_340,
                len2 == 2,
        ;
        assert(DIRECTION_ONE * DIRECTION_ONE * axis * axis == 4_294_967_296) by (nonlinear_arith)
            requires
                axis == 1 || axis == -1,
        ;
    }
}

/// Along a facing a body moves at exactly its speed.
pub proof fn lemma_cardinal_velocity(facing: SpriteDirection, speed: u32)
    ensures
        facing == SpriteDirection::Up ==> Direction::of_facing(facing).velocity(speed).x == 0
            && Direction::of_facing(facing).velocity(speed).y == speed,
        facing == SpriteDirection::Down ==> Direction::of_facing(facing).velocity(speed).x == 0
            && Direction::of_facing(facing).velocity(speed).y == -speed,
        facing == SpriteDirection::Left ==> Direction::of_facing(facing).velocity(speed).x
            == -speed && Direction::of_facing(facing).velocity(speed).y == 0,
        facing == SpriteDirection::Right ==> Direction::of_facing(facing).velocity(speed).x
            == speed && Direction::of_facing(facing).velocity(speed).y == 0,
{
    assert((DIRECTION_ONE * speed) / (DIRECTION_ONE as int) == speed) by (nonlinear_arith);
    assert((0 * speed) / (DIRECTION_ONE as int) == 0) by (nonlinear_arith);
}

/// No component of a velocity exceeds the speed, whatever the direction, as
/// long as the direction is at most one long.
pub proof fn lemma_velocity_within_speed(d: Direction, speed: u32)
    requires
        -DIRECTION_ONE <= d.x <= DIRECTION_ONE,
        -DIRECTION_ONE <= d.y <= DIRECTION_ONE,
    ensures
        -speed <= d.velocity(speed).x <= speed,
        -speed <= d.velocity(speed).y <= speed,
{
    lemma_scaled_within(d.x as int, speed as int);
    lemma_scaled_within(d.y as int, speed as int);
}

/// Scaling a component of at most one gives at most the speed.
proof fn lemma_scaled_within(c: int, speed: int)
    requires
        -DIRECTION_ONE <= c <= DIRECTION_ONE,
        0 <= speed,
    ensures
        -speed <= scale_component(c, speed) <= speed,
{
    let m = magnitude(c);
    assert(0 <= (m * speed) / (DIRECTION_ONE as int) <= speed) by (nonlinear_arith)
        requires
            0 <= m <= DIRECTION_ONE,
            0 <= speed,
    ;
}

} // verus!
