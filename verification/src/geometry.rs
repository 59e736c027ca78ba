//! Points, scales and transforms on the fixed-point lattice.

use vstd::prelude::*;

verus! {

/// Lattice steps per world unit.
pub const UNIT: i64 = 10_000;

/// The largest magnitude of a coordinate that the generators accept for the
/// origin of a block. It leaves room for every local offset of a block.
pub const WORLD_LIMIT: i64 = 1_000_000_000_000_000;

/// A point, or a vector, of the lattice.
#[derive(Clone, Copy, Debug, PartialEq, Eq, Structural)]
pub struct Point3 {
    pub x: i64,
    pub y: i64,
    pub z: i64,
}

impl Point3 {
    /// The componentwise sum, where it fits.
    pub open spec fn plus(self, other: Point3) -> Point3 {
        Point3 {
            x: (self.x + other.x) as i64,
            y: (self.y + other.y) as i64,
            z: (self.z + other.z) as i64,
        }
    }

    /// Every coordinate lies within `limit` of zero.
    pub open spec fn within(self, limit: int) -> bool {
        &&& -limit <= self.x <= limit
        &&& -limit <= self.y <= limit
        &&& -limit <= self.z <= limit
    }

    /// The point can be the origin of a block.
    pub open spec fn in_world(self) -> bool {
        self.within(WORLD_LIMIT as int)
    }

    pub fn new(x: i64, y: i64, z: i64) -> (p: Point3)
        ensures
            p == (Point3 { x, y, z }),
    {
        Point3 { x, y, z }
    }

    /// The same length along every axis.
    pub fn splat(v: i64) -> (p: Point3)
        ensures
            p == (Point3 { x: v, y: v, z: v }),
    {
        Point3 { x: v, y: v, z: v }
    }

    /// The point moved by `other`.
    pub fn translate(self, other: Point3) -> (p: Point3)
        requires
            i64::MIN <= self.x + other.x <= i64::MAX,
            i64::MIN <= self.y + other.y <= i64::MAX,
            i64::MIN <= self.z + other.z <= i64::MAX,
        ensures
            p == self.plus(other),
            p.x == self.x + other.x,
            p.y == self.y + other.y,
            p.z == self.z + other.z,
    {
        Point3 { x: self.x + other.x, y: self.y + other.y, z: self.z + other.z }
    }
}

/// Where an asset stands: a translation, a rotation about the vertical axis
/// in quarter turns (counter-clockwise seen from above, negative for
/// clockwise), and a scale along each axis in lattice steps per asset unit.
#[derive(Clone, Copy, Debug, PartialEq, Eq, Structural)]
pub struct Transform {
    pub translation: Point3,
    pub quarter_turns: i8,
    pub scale: Point3,
}

impl Transform {
    /// No rotation and the scale one.
    pub open spec fn at(translation: Point3) -> Transform {
        Transform {
            translation,
            quarter_turns: 0,
            scale: Point3 { x: UNIT, y: UNIT, z: UNIT },
        }
    }

    pub open spec fn scaled(self, scale: Point3) -> Transform {
        Transform { scale, ..self }
    }

    pub open spec fn turned(self, quarter_turns: i8) -> Transform {
        Transform { quarter_turns, ..self }
    }

    pub fn from_translation(translation: Point3) -> (t: Transform)
        ensures
            t == Transform::at(translation),
    {
        Transform { translation, quarter_turns: 0, scale: Point3 { x: UNIT, y: UNIT, z: UNIT } }
    }

    pub fn with_scale(self, scale: Point3) -> (t: Transform)
        ensures
            t == self.scaled(scale),
    {
        Transform { translation: self.translation, quarter_turns: self.quarter_turns, scale }
    }

    pub fn with_rotation(self, quarter_turns: i8) -> (t: Transform)
        ensures
            t == self.turned(quarter_turns),
    {
        Transform { translation: self.translation, quarter_turns, scale: self.scale }
    }
}

} // verus!
