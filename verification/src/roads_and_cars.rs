//! Road pieces, the lanes that cars follow, and the cars on them.

use crate::assets::{
    count_kind, lemma_count_append, lemma_count_push, lemma_count_uniform, AssetKind, AssetRef,
    PlacementRequest,
};
use crate::error::ConfigError;
use crate::geometry::{Point3, Transform, UNIT};
use crate::rng::{
    index_draw, random_fraction, random_index, rng_state, unit_fraction, word_draw,
};
use crate::scene::Scene;
use crate::settings_ui::Settings;
use crate::stats::SceneStats;
use rand::rngs::SmallRng;
use vstd::prelude::*;

verus! {

/// The distance between two coordinates.
pub open spec fn gap(a: i64, b: i64) -> int {
    if a <= b {
        b - a
    } else {
        a - b
    }
}

/// The step from `a` toward `b`: 1, -1, or 0 where they are equal.
pub open spec fn toward(a: i64, b: i64) -> i64 {
    if a < b {
        1i64
    } else if a > b {
        -1i64
    } else {
        0i64
    }
}

/// The two points differ, and in one coordinate only.
pub open spec fn axis_aligned(a: Point3, b: Point3) -> bool {
    ||| a.x != b.x && a.y == b.y && a.z == b.z
    ||| a.x == b.x && a.y != b.y && a.z == b.z
    ||| a.x == b.x && a.y == b.y && a.z != b.z
}

/// The sum of the distances along the three axes. Between two points that
/// are axis aligned it is the distance between them.
pub open spec fn axis_distance(a: Point3, b: Point3) -> int {
    gap(a.x, b.x) + gap(a.y, b.y) + gap(a.z, b.z)
}

/// The step from `a` toward `b` along each axis.
pub open spec fn axis_direction(a: Point3, b: Point3) -> Point3 {
    Point3 { x: toward(a.x, b.x), y: toward(a.y, b.y), z: toward(a.z, b.z) }
}

/// The square of the length of the vector from `a` to `b`.
pub open spec fn distance_squared(a: Point3, b: Point3) -> int {
    (b.x - a.x) * (b.x - a.x) + (b.y - a.y) * (b.y - a.y) + (b.z - a.z) * (b.z - a.z)
}

/// For two points that are axis aligned, the axis distance is positive and
/// is the distance between them, the axis direction has length one, and the
/// second point lies at that distance from the first along that direction.
pub proof fn lemma_axis_aligned(a: Point3, b: Point3)
    requires
        axis_aligned(a, b),
    ensures
        axis_distance(a, b) > 0,
        axis_distance(a, b) * axis_distance(a, b) == distance_squared(a, b),
        distance_squared(Point3 { x: 0, y: 0, z: 0 }, axis_direction(a, b)) == 1,
        b.x == a.x + axis_direction(a, b).x * axis_distance(a, b),
        b.y == a.y + axis_direction(a, b).y * axis_distance(a, b),
        b.z == a.z + axis_direction(a, b).z * axis_distance(a, b),
{
    let d = axis_distance(a, b);
    let dx = b.x - a.x;
    let dy = b.y - a.y;
    let dz = b.z - a.z;
    assert(d == dx || d == -dx || d == dy || d == -dy || d == dz || d == -dz);
    assert((-d) * (-d) == d * d) by (nonlinear_arith);
    assert(0 * 0 == 0 && 1 * 1 == 1 && (0 - 1) * (0 - 1) == 1) by (nonlinear_arith);
    assert(1 * d == d && (-1) * d == -d && 0 * d == 0) by (nonlinear_arith);
    if a.x != b.x {
        assert(dy == 0 && dz == 0);
        assert(dx * dx == d * d);
    } else if a.y != b.y {
        assert(dx == 0 && dz == 0);
        assert(dy * dy == d * d);
    } else {
        assert(dx == 0 && dy == 0);
        assert(dz * dz == d * d);
    }
}

/// A directed lane along one axis, from `start` to `end`. Its direction and
/// its length are derived from its ends when it is made, and it never
/// changes.
#[derive(Clone, Copy, Debug, PartialEq, Eq)]
pub struct RoadSegment {
    start: Point3,
    end: Point3,
    direction: Point3,
    length: u64,
}

impl RoadSegment {
    /// Where the segment starts.
    pub closed spec fn spec_start(self) -> Point3 {
        self.start
    }

    /// Where the segment ends.
    pub closed spec fn spec_end(self) -> Point3 {
        self.end
    }

    /// The unit vector from the start toward the end.
    pub closed spec fn spec_direction(self) -> Point3 {
        self.direction
    }

    /// The distance from the start to the end.
    pub closed spec fn spec_length(self) -> u64 {
        self.length
    }

    /// The ends are axis aligned, and the direction and the length are
    /// those between the ends.
    pub open spec fn well_formed(self) -> bool {
        &&& axis_aligned(self.spec_start(), self.spec_end())
        &&& self.spec_direction() == axis_direction(self.spec_start(), self.spec_end())
        &&& self.spec_length() == axis_distance(self.spec_start(), self.spec_end())
    }

    #[verifier::type_invariant]
    closed spec fn inv(self) -> bool {
        self.well_formed()
    }

    /// The segment between two points that are axis aligned.
    pub closed spec fn between(start: Point3, end: Point3) -> RoadSegment {
        RoadSegment {
            start,
            end,
            direction: axis_direction(start, end),
            length: axis_distance(start, end) as u64,
        }
    }

    /// What `between` holds.
    pub proof fn lemma_between(start: Point3, end: Point3)
        requires
            axis_aligned(start, end),
        ensures
            RoadSegment::between(start, end).well_formed(),
            RoadSegment::between(start, end).spec_start() == start,
            RoadSegment::between(start, end).spec_end() == end,
    {
    }

    /// Every well-formed segment has a positive length, which is the
    /// distance between its ends, and a direction of length one, along
    /// which its end lies at that length from its start.
    pub proof fn lemma_segment_invariant(self)
        requires
            self.well_formed(),
        ensures
            self.spec_length() > 0,
            self.spec_length() * self.spec_length() == distance_squared(
                self.spec_start(),
                self.spec_end(),
            ),
            distance_squared(Point3 { x: 0, y: 0, z: 0 }, self.spec_direction()) == 1,
            self.spec_end().x == self.spec_start().x + self.spec_direction().x * self.spec_length(),
            self.spec_end().y == self.spec_start().y + self.spec_direction().y * self.spec_length(),
            self.spec_end().z == self.spec_start().z + self.spec_direction().z * self.spec_length(),
            self.spec_position_at(self.spec_length()) == self.spec_end(),
            self.spec_position_at(0) == self.spec_start(),
    {
        lemma_axis_aligned(self.spec_start(), self.spec_end());
        let d = self.spec_direction();
        assert(d.x * 0 == 0 && d.y * 0 == 0 && d.z * 0 == 0) by (nonlinear_arith);
    }

    /// The point at `distance` from the start along the direction.
    pub open spec fn spec_position_at(self, distance: u64) -> Point3 {
        Point3 {
            x: (self.spec_start().x + self.spec_direction().x * distance) as i64,
            y: (self.spec_start().y + self.spec_direction().y * distance) as i64,
            z: (self.spec_start().z + self.spec_direction().z * distance) as i64,
        }
    }

    /// The segment from `start` to `end`. A segment of no length is refused,
    /// and so is one that runs along no axis.
    pub fn new(start: Point3, end: Point3) -> (r: Result<RoadSegment, ConfigError>)
        ensures
            r is Ok <==> axis_aligned(start, end),
            r matches Ok(s) ==> s == RoadSegment::between(start, end) && s.well_formed()
                && s.spec_start() == start && s.spec_end() == end,
            r == Err::<RoadSegment, ConfigError>(ConfigError::DegenerateSegment) <==> start == end,
            r == Err::<RoadSegment, ConfigError>(ConfigError::ObliqueSegment) <==> start != end
                && !axis_aligned(start, end),
    {
        let same_x = start.x == end.x;
        let same_y = start.y == end.y;
        let same_z = start.z == end.z;
        if same_x && same_y && same_z {
            return Err(ConfigError::DegenerateSegment);
        }
        let aligned = (same_x && same_y) || (same_x && same_z) || (same_y && same_z);
        if !aligned {
            return Err(ConfigError::ObliqueSegment);
        }
        Ok(RoadSegment::aligned(start, end))
    }

    /// The segment between two points that are axis aligned.
    fn aligned(start: Point3, end: Point3) -> (s: RoadSegment)
        requires
            axis_aligned(start, end),
        ensures
            s == RoadSegment::between(start, end),
            s.well_formed(),
    {
        let direction = Point3 {
            x: step_toward(start.x, end.x),
            y: step_toward(start.y, end.y),
            z: step_toward(start.z, end.z),
        };
        let length: u64 = distance_between(start.x, end.x) + distance_between(start.y, end.y)
            + distance_between(start.z, end.z);
        RoadSegment { start, end, direction, length }
    }

    /// Where the segment starts.
    pub fn start(&self) -> (p: Point3)
        ensures
            p == self.spec_start(),
            self.well_formed(),
    {
        proof {
            use_type_invariant(self);
        }
        self.start
    }

    /// Where the segment ends.
    pub fn end(&self) -> (p: Point3)
        ensures
            p == self.spec_end(),
            self.well_formed(),
    {
        proof {
            use_type_invariant(self);
        }
        self.end
    }

    /// The unit vector from the start toward the end.
    pub fn direction(&self) -> (d: Point3)
        ensures
            d == self.spec_direction(),
            self.well_formed(),
    {
        proof {
            use_type_invariant(self);
        }
        self.direction
    }

    /// The distance from the start to the end; it is positive.
    pub fn length(&self) -> (l: u64)
        ensures
            l == self.spec_length(),
            l > 0,
            self.well_formed(),
    {
        proof {
            use_type_invariant(self);
        }
        self.length
    }

    /// The point at `distance` from the start, for a distance on the segment.
    pub fn position_at(&self, distance: u64) -> (p: Point3)
        requires
            distance <= self.spec_length(),
        ensures
            p == self.spec_position_at(distance),
            p.x == self.spec_start().x + self.spec_direction().x * distance,
            p.y == self.spec_start().y + self.spec_direction().y * distance,
            p.z == self.spec_start().z + self.spec_direction().z * distance,
            self.well_formed(),
    {
        proof {
            use_type_invariant(self);
        }
        Point3 {
            x: advance(self.start.x, self.end.x, distance),
            y: advance(self.start.y, self.end.y, distance),
            z: advance(self.start.z, self.end.z, distance),
        }
    }
}

fn step_toward(a: i64, b: i64) -> (s: i64)
    ensures
        s == toward(a, b),
{
    if a < b {
        1
    } else if a > b {
        -1
    } else {
        0
    }
}

fn distance_between(a: i64, b: i64) -> (d: u64)
    ensures
        d == gap(a, b),
{
    if a <= b {
        (b as i128 - a as i128) as u64
    } else {
        (a as i128 - b as i128) as u64
    }
}

/// The coordinate at `distance` from `a` toward `b`, or `a` where the two
/// are equal.
fn advance(a: i64, b: i64, distance: u64) -> (c: i64)
    requires
        a != b ==> distance <= gap(a, b),
    ensures
        c == a + toward(a, b) * distance,
{
    assert(1 * (distance as int) == distance && (-1) * (distance as int) == -distance && 0 * (
    distance as int) == 0) by (nonlinear_arith);
    if a < b {
        (a as i128 + distance as i128) as i64
    } else if a > b {
        (a as i128 - distance as i128) as i64
    } else {
        a
    }
}


/// A car on a lane. `road_segment` is the index of its lane in the scene,
/// `speed` is in lattice steps per second, and `distance_traveled` is how far
/// from the start of the lane it stands.
#[derive(Clone, Copy, Debug, PartialEq, Eq, Structural)]
pub struct Car {
    pub road_segment: usize,
    pub speed: u32,
    pub distance_traveled: u64,
}


/// The speed of every car, in lattice steps per second: two world units.
pub const CAR_SPEED: u32 = 20_000;

/// The scale of every car.
pub const CAR_SCALE: i64 = 1_500;

/// How many slots for cars a lane along X has.
pub const X_LANE_SLOTS: usize = 9;

/// How many slots for cars a lane along Z has.
pub const Z_LANE_SLOTS: usize = 6;

/// The distance between two slots of a lane.
pub const SLOT_PITCH: i64 = 5_000;

/// How much further along its lane each next car of a lane along X starts.
pub const X_LANE_STAGGER: u64 = 5_500;

/// How much further along its lane each next car of a lane along Z starts.
pub const Z_LANE_STAGGER: u64 = 5_000;

/// A slot of a lane gets a car where the fraction drawn for it is above
/// this one: three quarters of [`crate::rng::FRACTION_ONE`].
pub const CAR_DENSITY: u32 = 12_582_912;

/// The four lanes of a block, in the order in which they are registered:
/// two along X and two along Z, each pair in opposite directions.
#[derive(Clone, Copy, Debug, PartialEq, Eq, Structural)]
pub enum Lane {
    XForward,
    XReverse,
    ZForward,
    ZReverse,
}

impl Lane {
    /// The place of the lane among the four lanes of its block.
    pub open spec fn spec_index(self) -> int {
        match self {
            Lane::XForward => 0,
            Lane::XReverse => 1,
            Lane::ZForward => 2,
            Lane::ZReverse => 3,
        }
    }

    /// Where the lane starts, in a block at `offset`.
    pub open spec fn spec_start(self, offset: Point3) -> Point3 {
        match self {
            Lane::XForward => Point3 { x: 3_000, y: 0, z: 1_500 },
            Lane::XReverse => Point3 { x: 52_000, y: 0, z: -1_500i64 },
            Lane::ZForward => Point3 { x: -1_500i64, y: 0, z: 7_500 },
            Lane::ZReverse => Point3 { x: 1_500, y: 0, z: 32_500 },
        }.plus(offset)
    }

    /// Where the lane ends, in a block at `offset`.
    pub open spec fn spec_end(self, offset: Point3) -> Point3 {
        match self {
            Lane::XForward => Point3 { x: 52_000, y: 0, z: 1_500 },
            Lane::XReverse => Point3 { x: 3_000, y: 0, z: -1_500i64 },
            Lane::ZForward => Point3 { x: -1_500i64, y: 0, z: 32_500 },
            Lane::ZReverse => Point3 { x: 1_500, y: 0, z: 7_500 },
        }.plus(offset)
    }

    /// The lane as a segment.
    pub open spec fn spec_segment(self, offset: Point3) -> RoadSegment {
        RoadSegment::between(self.spec_start(offset), self.spec_end(offset))
    }

    /// How many slots the lane has.
    pub open spec fn spec_slots(self) -> nat {
        match self {
            Lane::XForward | Lane::XReverse => X_LANE_SLOTS as nat,
            Lane::ZForward | Lane::ZReverse => Z_LANE_SLOTS as nat,
        }
    }

    /// How far along the lane the car of a slot starts.
    pub open spec fn spec_stagger(self, slot: int) -> int {
        match self {
            Lane::XForward | Lane::XReverse => slot * X_LANE_STAGGER,
            Lane::ZForward | Lane::ZReverse => slot * Z_LANE_STAGGER,
        }
    }

    /// Where the car of a slot is placed, in a block at `offset`.
    pub open spec fn spec_car_translation(self, slot: int, offset: Point3) -> Point3 {
        match self {
            Lane::XForward => Point3 { x: (7_500 + slot * SLOT_PITCH) as i64, y: 0, z: 1_500 },
            Lane::XReverse => Point3 { x: (7_500 + slot * SLOT_PITCH) as i64, y: 0, z: -1_500i64 },
            Lane::ZForward => Point3 { x: -1_500i64, y: 0, z: (7_500 + slot * SLOT_PITCH) as i64 },
            Lane::ZReverse => Point3 { x: 1_500, y: 0, z: (7_500 + slot * SLOT_PITCH) as i64 },
        }.plus(offset)
    }

    /// How a car on the lane is turned, in quarter turns.
    pub open spec fn spec_car_turns(self) -> i8 {
        match self {
            Lane::XForward => -3i8,
            Lane::XReverse => -1i8,
            Lane::ZForward => 0i8,
            Lane::ZReverse => 2i8,
        }
    }

    /// The placement of the car of a slot.
    pub open spec fn spec_car_placement(
        self,
        slot: int,
        variant: usize,
        offset: Point3,
    ) -> PlacementRequest {
        PlacementRequest {
            asset: AssetRef::Car { variant },
            transform: Transform::at(self.spec_car_translation(slot, offset)).scaled(
                Point3 { x: CAR_SCALE, y: CAR_SCALE, z: CAR_SCALE },
            ).turned(self.spec_car_turns()),
        }
    }

    /// The car of a slot, bound to the lane that `segment` is the index of.
    pub open spec fn spec_car(self, slot: int, segment: usize) -> Car {
        Car {
            road_segment: segment,
            speed: CAR_SPEED,
            distance_traveled: self.spec_stagger(slot) as u64,
        }
    }

    /// The lane as a segment, in a block at `offset`.
    pub fn segment(self, offset: Point3) -> (s: RoadSegment)
        requires
            offset.in_world(),
        ensures
            s == self.spec_segment(offset),
            s.well_formed(),
            s.spec_start() == self.spec_start(offset),
            s.spec_end() == self.spec_end(offset),
    {
        let (start, end) = match self {
            Lane::XForward => (Point3::new(3_000, 0, 1_500), Point3::new(52_000, 0, 1_500)),
            Lane::XReverse => (Point3::new(52_000, 0, -1_500), Point3::new(3_000, 0, -1_500)),
            Lane::ZForward => (Point3::new(-1_500, 0, 7_500), Point3::new(-1_500, 0, 32_500)),
            Lane::ZReverse => (Point3::new(1_500, 0, 32_500), Point3::new(1_500, 0, 7_500)),
        };
        RoadSegment::aligned(start.translate(offset), end.translate(offset))
    }

    /// The placement of the car of a slot, of the given variant.
    pub fn car_placement(self, slot: usize, variant: usize, offset: Point3) -> (p:
        PlacementRequest)
        requires
            offset.in_world(),
            slot < self.spec_slots(),
        ensures
            p == self.spec_car_placement(slot as int, variant, offset),
    {
        let along: i64 = 7_500 + (slot as i64) * SLOT_PITCH;
        let local = match self {
            Lane::XForward => Point3::new(along, 0, 1_500),
            Lane::XReverse => Point3::new(along, 0, -1_500),
            Lane::ZForward => Point3::new(-1_500, 0, along),
            Lane::ZReverse => Point3::new(1_500, 0, along),
        };
        let turns: i8 = match self {
            Lane::XForward => -3,
            Lane::XReverse => -1,
            Lane::ZForward => 0,
            Lane::ZReverse => 2,
        };
        PlacementRequest::new(
            AssetRef::Car { variant },
            Transform::from_translation(local.translate(offset)).with_scale(
                Point3::splat(CAR_SCALE),
            ).with_rotation(turns),
        )
    }

    /// The car of a slot, bound to the lane that `segment` is the index of.
    pub fn car(self, slot: usize, segment: usize) -> (c: Car)
        requires
            slot < self.spec_slots(),
        ensures
            c == self.spec_car(slot as int, segment),
    {
        let stagger: u64 = match self {
            Lane::XForward | Lane::XReverse => (slot as u64) * X_LANE_STAGGER,
            Lane::ZForward | Lane::ZReverse => (slot as u64) * Z_LANE_STAGGER,
        };
        Car { road_segment: segment, speed: CAR_SPEED, distance_traveled: stagger }
    }
}

/// A slot gets a car where the fraction drawn for it is above
/// [`CAR_DENSITY`].
pub open spec fn spec_car_spawns(fraction: u32) -> bool {
    fraction > CAR_DENSITY
}

/// Whether a slot gets a car, for the fraction drawn for it.
#[verifier::when_used_as_spec(spec_car_spawns)]
pub fn car_spawns(fraction: u32) -> (spawns: bool)
    ensures
        spawns == spec_car_spawns(fraction),
{
    fraction > CAR_DENSITY
}

/// The cars of the asset catalog. There is at least one.
#[derive(Clone, Copy, Debug, PartialEq, Eq)]
pub struct RoadsAndCarsAssets {
    cars: usize,
}

impl RoadsAndCarsAssets {
    /// How many variants of cars there are.
    pub closed spec fn spec_cars(self) -> usize {
        self.cars
    }

    #[verifier::type_invariant]
    closed spec fn inv(self) -> bool {
        self.cars > 0
    }

    /// The catalog with `cars` variants of cars. One with none is refused.
    pub fn new(cars: usize) -> (r: Result<RoadsAndCarsAssets, ConfigError>)
        ensures
            cars > 0 ==> r is Ok && r->Ok_0.spec_cars() == cars,
            cars == 0 ==> r == Err::<RoadsAndCarsAssets, ConfigError>(ConfigError::EmptyAssetPool),
    {
        if cars == 0 {
            Err(ConfigError::EmptyAssetPool)
        } else {
            Ok(RoadsAndCarsAssets { cars })
        }
    }

    /// How many variants of cars there are.
    pub fn cars(&self) -> (n: usize)
        ensures
            n == self.spec_cars(),
            n > 0,
    {
        proof {
            use_type_invariant(self);
        }
        self.cars
    }

    /// Draws a variant of car, each with the same chance.
    pub fn random_car(&self, rng: &mut SmallRng) -> (variant: usize)
        ensures
            (variant, rng_state(*final(rng))) == index_draw(
                rng_state(*old(rng)),
                self.spec_cars(),
            ),
            variant < self.spec_cars(),
    {
        proof {
            use_type_invariant(self);
        }
        random_index(rng, self.cars)
    }
}


/// The road pieces of a block at `offset`: the crossroad at its origin, the
/// straight road along X and the straight road along Z.
pub open spec fn road_placements(offset: Point3) -> Seq<PlacementRequest> {
    seq![
        PlacementRequest { asset: AssetRef::Crossroad, transform: Transform::at(offset) },
        PlacementRequest {
            asset: AssetRef::RoadStraight,
            transform: Transform::at(Point3 { x: 27_500, y: 0, z: 0 }.plus(offset)).scaled(
                Point3 { x: 45_000, y: UNIT, z: UNIT },
            ),
        },
        PlacementRequest {
            asset: AssetRef::RoadStraight,
            transform: Transform::at(Point3 { x: 0, y: 0, z: 20_000 }.plus(offset)).scaled(
                Point3 { x: 30_000, y: UNIT, z: UNIT },
            ).turned(1),
        },
    ]
}

/// The four lanes of a block at `offset`, in the order of their indices.
pub open spec fn lane_segments(offset: Point3) -> Seq<RoadSegment> {
    seq![
        Lane::XForward.spec_segment(offset),
        Lane::XReverse.spec_segment(offset),
        Lane::ZForward.spec_segment(offset),
        Lane::ZReverse.spec_segment(offset),
    ]
}

/// Two opposite lanes of a block, and the index that each is registered
/// under.
#[derive(Clone, Copy, Debug, PartialEq, Eq, Structural)]
pub struct LanePair {
    pub forward: Lane,
    pub reverse: Lane,
    pub forward_segment: usize,
    pub reverse_segment: usize,
}

impl LanePair {
    /// The lanes along X of a block whose first lane has the index
    /// `first_segment`.
    pub open spec fn along_x(first_segment: int) -> LanePair {
        LanePair {
            forward: Lane::XForward,
            reverse: Lane::XReverse,
            forward_segment: first_segment as usize,
            reverse_segment: (first_segment + 1) as usize,
        }
    }

    /// The lanes along Z of a block whose first lane has the index
    /// `first_segment`.
    pub open spec fn along_z(first_segment: int) -> LanePair {
        LanePair {
            forward: Lane::ZForward,
            reverse: Lane::ZReverse,
            forward_segment: (first_segment + 2) as usize,
            reverse_segment: (first_segment + 3) as usize,
        }
    }

    /// The two lanes are lanes of a block whose first lane has the index
    /// `first_segment`, each under its own index, and have as many slots.
    pub open spec fn of_block(self, first_segment: int) -> bool {
        &&& self.forward_segment == first_segment + self.forward.spec_index()
        &&& self.reverse_segment == first_segment + self.reverse.spec_index()
        &&& self.forward.spec_slots() == self.reverse.spec_slots()
    }
}

/// The cars that the slots of a block were given so far, and the state that
/// the generator was left in.
pub struct Traffic {
    pub placements: Seq<PlacementRequest>,
    pub cars: Seq<Car>,
    pub rng: Seq<u64>,
}

impl Traffic {
    /// No car yet, and the generator in state `rng`.
    pub open spec fn start(rng: Seq<u64>) -> Traffic {
        Traffic { placements: Seq::empty(), cars: Seq::empty(), rng }
    }

    /// The same traffic behind placements and cars that were there before.
    pub open spec fn behind(self, placed: Seq<PlacementRequest>, parked: Seq<Car>) -> Traffic {
        Traffic { placements: placed + self.placements, cars: parked + self.cars, rng: self.rng }
    }

    /// There are as many placements as cars, at most `at_most`, and every
    /// placement is that of a car.
    pub open spec fn shaped(self, at_most: int) -> bool {
        &&& self.placements.len() == self.cars.len()
        &&& self.cars.len() <= at_most
        &&& forall|i: int|
            0 <= i < self.placements.len() ==> (#[trigger] self.placements[i]).asset.kind()
                == AssetKind::Car
    }

    /// Every placement is that of a car of a variant below `variants`.
    pub open spec fn drawn_from(self, variants: usize) -> bool {
        forall|i: int|
            0 <= i < self.placements.len() ==> is_car_below(#[trigger] self.placements[i], variants)
    }
}

/// The placement is that of a car of a variant below `variants`.
pub open spec fn is_car_below(p: PlacementRequest, variants: usize) -> bool {
    p.asset matches AssetRef::Car { variant } && variant < variants
}

/// One slot of a lane is decided: a fraction is drawn, and where it is above
/// the car density a variant is drawn and the car of the slot is added,
/// bound to the lane that `segment` is the index of.
pub open spec fn lane_slot(
    t: Traffic,
    lane: Lane,
    segment: usize,
    slot: int,
    offset: Point3,
    variants: usize,
) -> Traffic {
    let (word, after_word) = word_draw(t.rng);
    if car_spawns(unit_fraction(word)) {
        let (variant, after_pick) = index_draw(after_word, variants);
        Traffic {
            placements: t.placements.push(lane.spec_car_placement(slot, variant, offset)),
            cars: t.cars.push(lane.spec_car(slot, segment)),
            rng: after_pick,
        }
    } else {
        Traffic { rng: after_word, ..t }
    }
}

/// One slot of two opposite lanes is decided, the forward lane first.
pub open spec fn pair_slot(
    t: Traffic,
    pair: LanePair,
    slot: int,
    offset: Point3,
    variants: usize,
) -> Traffic {
    lane_slot(
        lane_slot(t, pair.forward, pair.forward_segment, slot, offset, variants),
        pair.reverse,
        pair.reverse_segment,
        slot,
        offset,
        variants,
    )
}

/// The first `slots` slots of two opposite lanes are decided, slot by slot.
pub open spec fn pair_traffic(
    t: Traffic,
    pair: LanePair,
    slots: nat,
    offset: Point3,
    variants: usize,
) -> Traffic
    decreases slots,
{
    if slots == 0 {
        t
    } else {
        pair_slot(
            pair_traffic(t, pair, (slots - 1) as nat, offset, variants),
            pair,
            slots - 1,
            offset,
            variants,
        )
    }
}

/// The traffic of a block at `offset` whose first lane has the index
/// `first_segment`, from a generator in state `rng`: the slots of the lanes
/// along X, then those of the lanes along Z.
pub open spec fn block_traffic(
    rng: Seq<u64>,
    offset: Point3,
    first_segment: int,
    variants: usize,
) -> Traffic {
    pair_traffic(
        pair_traffic(
            Traffic::start(rng),
            LanePair::along_x(first_segment),
            X_LANE_SLOTS as nat,
            offset,
            variants,
        ),
        LanePair::along_z(first_segment),
        Z_LANE_SLOTS as nat,
        offset,
        variants,
    )
}

/// Deciding a slot of two lanes adds at most two cars, and only cars.
pub proof fn lemma_pair_slot_shaped(
    t: Traffic,
    pair: LanePair,
    slot: int,
    offset: Point3,
    variants: usize,
    at_most: int,
)
    requires
        t.shaped(at_most),
    ensures
        pair_slot(t, pair, slot, offset, variants).shaped(at_most + 2),
{
    let middle = lane_slot(t, pair.forward, pair.forward_segment, slot, offset, variants);
    assert(middle.shaped(at_most + 1));
}

/// Deciding `slots` slots of two lanes adds at most two cars for each slot.
pub proof fn lemma_pair_traffic_shaped(
    t: Traffic,
    pair: LanePair,
    slots: nat,
    offset: Point3,
    variants: usize,
    at_most: int,
)
    requires
        t.shaped(at_most),
    ensures
        pair_traffic(t, pair, slots, offset, variants).shaped(at_most + 2 * slots),
    decreases slots,
{
    if slots > 0 {
        let before = (slots - 1) as nat;
        lemma_pair_traffic_shaped(t, pair, before, offset, variants, at_most);
        lemma_pair_slot_shaped(
            pair_traffic(t, pair, before, offset, variants),
            pair,
            before as int,
            offset,
            variants,
            at_most + 2 * before,
        );
    }
}

/// A block gets at most thirty cars, each with its placement.
pub proof fn lemma_block_traffic_shaped(
    rng: Seq<u64>,
    offset: Point3,
    first_segment: int,
    variants: usize,
)
    ensures
        block_traffic(rng, offset, first_segment, variants).shaped(30),
{
    let x = LanePair::along_x(first_segment);
    lemma_pair_traffic_shaped(Traffic::start(rng), x, X_LANE_SLOTS as nat, offset, variants, 0);
    lemma_pair_traffic_shaped(
        pair_traffic(Traffic::start(rng), x, X_LANE_SLOTS as nat, offset, variants),
        LanePair::along_z(first_segment),
        Z_LANE_SLOTS as nat,
        offset,
        variants,
        18,
    );
}

/// Every car is bound to a lane among `lanes` and stands on it: its
/// distance is at most the length of the lane.
pub open spec fn cars_on_lanes(cars: Seq<Car>, lanes: Seq<RoadSegment>) -> bool {
    forall|i: int|
        0 <= i < cars.len() ==> (#[trigger] cars[i]).road_segment < lanes.len()
            && cars[i].distance_traveled <= lanes[cars[i].road_segment as int].spec_length()
}

/// Every car is bound to one of the four lanes of the block at `offset`,
/// whose first lane has the index `first_segment`, and stands on it.
pub open spec fn cars_on_block(cars: Seq<Car>, first_segment: int, offset: Point3) -> bool {
    forall|i: int|
        0 <= i < cars.len() ==> first_segment <= (#[trigger] cars[i]).road_segment < first_segment
            + 4 && cars[i].distance_traveled <= lane_segments(offset)[cars[i].road_segment
            - first_segment].spec_length()
}

/// The four lanes of a block are well formed; those along X are 4.9 world
/// units long and those along Z 2.5.
pub proof fn lemma_lane_lengths(offset: Point3)
    requires
        offset.in_world(),
    ensures
        lane_segments(offset).len() == 4,
        forall|j: int| 0 <= j < 4 ==> (#[trigger] lane_segments(offset)[j]).well_formed(),
        lane_segments(offset)[0].spec_length() == 49_000,
        lane_segments(offset)[1].spec_length() == 49_000,
        lane_segments(offset)[2].spec_length() == 25_000,
        lane_segments(offset)[3].spec_length() == 25_000,
{
    RoadSegment::lemma_between(Lane::XForward.spec_start(offset), Lane::XForward.spec_end(offset));
    RoadSegment::lemma_between(Lane::XReverse.spec_start(offset), Lane::XReverse.spec_end(offset));
    RoadSegment::lemma_between(Lane::ZForward.spec_start(offset), Lane::ZForward.spec_end(offset));
    RoadSegment::lemma_between(Lane::ZReverse.spec_start(offset), Lane::ZReverse.spec_end(offset));
}

/// Deciding slots of two lanes of a block keeps every car on a lane of the
/// block.
proof fn lemma_pair_traffic_on_block(
    t: Traffic,
    pair: LanePair,
    slots: nat,
    offset: Point3,
    first_segment: int,
    variants: usize,
)
    requires
        offset.in_world(),
        pair.of_block(first_segment),
        slots <= pair.forward.spec_slots(),
        0 <= first_segment <= usize::MAX - 3,
        cars_on_block(t.cars, first_segment, offset),
    ensures
        cars_on_block(
            pair_traffic(t, pair, slots, offset, variants).cars,
            first_segment,
            offset,
        ),
    decreases slots,
{
    if slots > 0 {
        let slot = (slots - 1) as nat;
        lemma_pair_traffic_on_block(t, pair, slot, offset, first_segment, variants);
        lemma_lane_lengths(offset);
        let before = pair_traffic(t, pair, slot, offset, variants);
        let middle = lane_slot(
            before,
            pair.forward,
            pair.forward_segment,
            slot as int,
            offset,
            variants,
        );
        assert(cars_on_block(middle.cars, first_segment, offset));
    }
}

/// Every car of a block is bound to one of the four lanes of the block and
/// starts on it.
pub proof fn lemma_block_traffic_on_block(
    rng: Seq<u64>,
    offset: Point3,
    first_segment: int,
    variants: usize,
)
    requires
        offset.in_world(),
        0 <= first_segment <= usize::MAX - 3,
    ensures
        cars_on_block(block_traffic(rng, offset, first_segment, variants).cars, first_segment, offset),
{
    let x = LanePair::along_x(first_segment);
    lemma_pair_traffic_on_block(
        Traffic::start(rng),
        x,
        X_LANE_SLOTS as nat,
        offset,
        first_segment,
        variants,
    );
    lemma_pair_traffic_on_block(
        pair_traffic(Traffic::start(rng), x, X_LANE_SLOTS as nat, offset, variants),
        LanePair::along_z(first_segment),
        Z_LANE_SLOTS as nat,
        offset,
        first_segment,
        variants,
    );
}

/// Cars that stand on lanes still do when a block is added whose lanes come
/// behind the others and whose cars are bound to them.
pub proof fn lemma_cars_on_lanes_extended(
    cars: Seq<Car>,
    lanes: Seq<RoadSegment>,
    offset: Point3,
    added: Seq<Car>,
)
    requires
        cars_on_lanes(cars, lanes),
        cars_on_block(added, lanes.len() as int, offset),
    ensures
        cars_on_lanes(cars + added, lanes + lane_segments(offset)),
{
    let all = cars + added;
    let roads = lanes + lane_segments(offset);
    assert forall|i: int| 0 <= i < all.len() implies (#[trigger] all[i]).road_segment < roads.len()
        && all[i].distance_traveled <= roads[all[i].road_segment as int].spec_length() by {
        if i < cars.len() {
            assert(all[i] == cars[i]);
            assert(roads[cars[i].road_segment as int] == lanes[cars[i].road_segment as int]);
        } else {
            let car = added[i - cars.len()];
            assert(all[i] == car);
            assert(roads[car.road_segment as int] == lane_segments(offset)[car.road_segment
                - lanes.len()]);
        }
    }
}

/// Of the road pieces of a block one is a crossroad and two are straight
/// roads.
pub proof fn lemma_road_placements_count(offset: Point3, kind: AssetKind)
    ensures
        count_kind(road_placements(offset), kind) == match kind {
            AssetKind::Crossroad => 1nat,
            AssetKind::RoadStraight => 2nat,
            _ => 0nat,
        },
{
    let roads = road_placements(offset);
    let none = Seq::<PlacementRequest>::empty();
    assert(roads =~= none.push(roads[0]).push(roads[1]).push(roads[2]));
    lemma_count_push(none, roads[0], kind);
    lemma_count_push(none.push(roads[0]), roads[1], kind);
    lemma_count_push(none.push(roads[0]).push(roads[1]), roads[2], kind);
}

/// Deciding a slot does not depend on what was placed before it: with
/// placements and cars in front, the same are added behind them.
proof fn lemma_lane_slot_behind(
    placed: Seq<PlacementRequest>,
    parked: Seq<Car>,
    t: Traffic,
    lane: Lane,
    segment: usize,
    slot: int,
    offset: Point3,
    variants: usize,
)
    ensures
        lane_slot(t.behind(placed, parked), lane, segment, slot, offset, variants) == lane_slot(
            t,
            lane,
            segment,
            slot,
            offset,
            variants,
        ).behind(placed, parked),
{
    let (word, after_word) = word_draw(t.rng);
    if car_spawns(unit_fraction(word)) {
        let (variant, after_pick) = index_draw(after_word, variants);
        let p = lane.spec_car_placement(slot, variant, offset);
        let c = lane.spec_car(slot, segment);
        assert((placed + t.placements).push(p) =~= placed + t.placements.push(p));
        assert((parked + t.cars).push(c) =~= parked + t.cars.push(c));
    }
}

/// Deciding slots does not depend on what was placed before them: the
/// traffic from `t` is what `t` holds, and behind it the traffic from a
/// fresh start in the state of `t`.
proof fn lemma_pair_traffic_behind(
    t: Traffic,
    pair: LanePair,
    slots: nat,
    offset: Point3,
    variants: usize,
)
    ensures
        pair_traffic(t, pair, slots, offset, variants) == pair_traffic(
            Traffic::start(t.rng),
            pair,
            slots,
            offset,
            variants,
        ).behind(t.placements, t.cars),
    decreases slots,
{
    let start = Traffic::start(t.rng);
    if slots == 0 {
        assert(t.placements + start.placements =~= t.placements);
        assert(t.cars + start.cars =~= t.cars);
    } else {
        let slot = (slots - 1) as nat;
        lemma_pair_traffic_behind(t, pair, slot, offset, variants);
        let fresh = pair_traffic(start, pair, slot, offset, variants);
        lemma_lane_slot_behind(
            t.placements,
            t.cars,
            fresh,
            pair.forward,
            pair.forward_segment,
            slot as int,
            offset,
            variants,
        );
        lemma_lane_slot_behind(
            t.placements,
            t.cars,
            lane_slot(fresh, pair.forward, pair.forward_segment, slot as int, offset, variants),
            pair.reverse,
            pair.reverse_segment,
            slot as int,
            offset,
            variants,
        );
    }
}

/// Decides one slot of a lane: draws a fraction, and where it is above the
/// car density draws a variant and spawns the car of the slot.
fn spawn_lane_slot(
    commands: &mut Scene,
    stats: &mut SceneStats,
    rng: &mut SmallRng,
    lane: Lane,
    segment: usize,
    slot: usize,
    offset: Point3,
    assets: &RoadsAndCarsAssets,
)
    requires
        offset.in_world(),
        slot < lane.spec_slots(),
        old(stats).cars_spawned < u32::MAX,
    ensures
        ({
            let before = Traffic {
                placements: old(commands).placements@,
                cars: old(commands).cars@,
                rng: rng_state(*old(rng)),
            };
            let after = lane_slot(before, lane, segment, slot as int, offset, assets.spec_cars());
            &&& final(commands).placements@ == after.placements
            &&& final(commands).cars@ == after.cars
            &&& rng_state(*final(rng)) == after.rng
            &&& final(commands).road_segments@ == old(commands).road_segments@
            &&& *final(stats) == SceneStats {
                cars_spawned: (old(stats).cars_spawned + after.cars.len() - before.cars.len()) as u32,
                ..*old(stats)
            }
            &&& forall|i: int|
                old(commands).placements@.len() <= i < after.placements.len() ==> is_car_below(
                    #[trigger] after.placements[i],
                    assets.spec_cars(),
                )
        }),
{
    let fraction = random_fraction(rng);
    if car_spawns(fraction) {
        let variant = assets.random_car(rng);
        commands.spawn_car(lane.car_placement(slot, variant, offset), lane.car(slot, segment));
        stats.cars_spawned += 1;
    }
}

/// Decides every slot of two opposite lanes, slot by slot, the forward lane
/// before the reverse lane.
fn spawn_lane_pair(
    commands: &mut Scene,
    stats: &mut SceneStats,
    rng: &mut SmallRng,
    pair: LanePair,
    offset: Point3,
    assets: &RoadsAndCarsAssets,
)
    requires
        offset.in_world(),
        pair.forward.spec_slots() == pair.reverse.spec_slots(),
        old(stats).cars_spawned + 2 * pair.forward.spec_slots() <= u32::MAX,
    ensures
        ({
            let traffic = pair_traffic(
                Traffic::start(rng_state(*old(rng))),
                pair,
                pair.forward.spec_slots(),
                offset,
                assets.spec_cars(),
            );
            &&& final(commands).placements@ == old(commands).placements@ + traffic.placements
            &&& final(commands).cars@ == old(commands).cars@ + traffic.cars
            &&& rng_state(*final(rng)) == traffic.rng
            &&& final(commands).road_segments@ == old(commands).road_segments@
            &&& *final(stats) == SceneStats {
                cars_spawned: (old(stats).cars_spawned + traffic.cars.len()) as u32,
                ..*old(stats)
            }
            &&& traffic.drawn_from(assets.spec_cars())
        }),
{
    let slots: usize = match pair.forward {
        Lane::XForward | Lane::XReverse => X_LANE_SLOTS,
        Lane::ZForward | Lane::ZReverse => Z_LANE_SLOTS,
    };
    let ghost placed = commands.placements@;
    let ghost parked = commands.cars@;
    let ghost start = Traffic::start(rng_state(*rng));
    let ghost variants = assets.spec_cars();
    let mut slot: usize = 0;
    assert(placed + start.placements =~= placed);
    assert(parked + start.cars =~= parked);
    while slot < slots
        invariant
            offset.in_world(),
            slots == pair.forward.spec_slots(),
            slots == pair.reverse.spec_slots(),
            slots <= 9,
            slot <= slots,
            variants == assets.spec_cars(),
            old(stats).cars_spawned + 2 * slots <= u32::MAX,
            commands.road_segments@ == old(commands).road_segments@,
            ({
                let traffic = pair_traffic(start, pair, slot as nat, offset, variants);
                &&& commands.placements@ == placed + traffic.placements
                &&& commands.cars@ == parked + traffic.cars
                &&& rng_state(*rng) == traffic.rng
                &&& traffic.shaped(2 * slot)
                &&& traffic.drawn_from(variants)
                &&& *stats == SceneStats {
                    cars_spawned: (old(stats).cars_spawned + traffic.cars.len()) as u32,
                    ..*old(stats)
                }
            }),
        decreases slots - slot,
    {
        let ghost before = pair_traffic(start, pair, slot as nat, offset, variants);
        let ghost middle = lane_slot(
            before,
            pair.forward,
            pair.forward_segment,
            slot as int,
            offset,
            variants,
        );
        let ghost after = pair_slot(before, pair, slot as int, offset, variants);
        proof {
            lemma_lane_slot_behind(
                placed,
                parked,
                before,
                pair.forward,
                pair.forward_segment,
                slot as int,
                offset,
                variants,
            );
            lemma_lane_slot_behind(
                placed,
                parked,
                middle,
                pair.reverse,
                pair.reverse_segment,
                slot as int,
                offset,
                variants,
            );
            lemma_pair_slot_shaped(before, pair, slot as int, offset, variants, 2 * slot);
        }
        spawn_lane_slot(
            commands,
            stats,
            rng,
            pair.forward,
            pair.forward_segment,
            slot,
            offset,
            assets,
        );
        assert(commands.placements@ == placed + middle.placements);
        assert forall|i: int| 0 <= i < middle.placements.len() implies is_car_below(
            #[trigger] middle.placements[i],
            variants,
        ) by {
            if i < before.placements.len() {
                assert(middle.placements[i] == before.placements[i]);
            } else {
                assert(middle.placements[i] == (placed + middle.placements)[placed.len() + i]);
            }
        }
        spawn_lane_slot(
            commands,
            stats,
            rng,
            pair.reverse,
            pair.reverse_segment,
            slot,
            offset,
            assets,
        );
        assert(commands.placements@ == placed + after.placements);
        assert forall|i: int| 0 <= i < after.placements.len() implies is_car_below(
            #[trigger] after.placements[i],
            variants,
        ) by {
            if i < middle.placements.len() {
                assert(after.placements[i] == middle.placements[i]);
            } else {
                assert(after.placements[i] == (placed + after.placements)[placed.len() + i]);
            }
        }
        slot += 1;
    }
}

/// Spawns the roads of the block at `offset`: the crossroad and the two
/// straight roads, the four lanes, and a car in every slot of a lane for
/// which the fraction drawn is above the car density.
pub fn spawn_roads_and_cars(
    commands: &mut Scene,
    stats: &mut SceneStats,
    rng: &mut SmallRng,
    offset: Point3,
    assets: &RoadsAndCarsAssets,
)
    requires
        offset.in_world(),
        old(stats).road_segments <= u32::MAX - 3,
        old(stats).cars_spawned <= u32::MAX - 30,
    ensures
        ({
            let traffic = block_traffic(
                rng_state(*old(rng)),
                offset,
                old(commands).road_segments@.len() as int,
                assets.spec_cars(),
            );
            let added = road_placements(offset) + traffic.placements;
            &&& final(commands).placements@ == old(commands).placements@ + added
            &&& final(commands).road_segments@ == old(commands).road_segments@ + lane_segments(
                offset,
            )
            &&& final(commands).cars@ == old(commands).cars@ + traffic.cars
            &&& rng_state(*final(rng)) == traffic.rng
            &&& final(stats).grown_by(*old(stats), added)
            &&& *final(stats) == SceneStats {
                road_segments: (old(stats).road_segments + 3) as u32,
                cars_spawned: (old(stats).cars_spawned + traffic.cars.len()) as u32,
                ..*old(stats)
            }
            &&& traffic.drawn_from(assets.spec_cars())
        }),
{
    let ghost placed = commands.placements@;
    let ghost lanes = commands.road_segments@;
    let ghost parked = commands.cars@;
    let ghost state = rng_state(*rng);
    let ghost variants = assets.spec_cars();

    commands.spawn(PlacementRequest::new(AssetRef::Crossroad, Transform::from_translation(offset)));
    stats.road_segments += 1;

    commands.spawn(
        PlacementRequest::new(
            AssetRef::RoadStraight,
            Transform::from_translation(Point3::new(27_500, 0, 0).translate(offset)).with_scale(
                Point3::new(45_000, UNIT, UNIT),
            ),
        ),
    );
    stats.road_segments += 1;

    let x_segment = commands.spawn_segment(Lane::XForward.segment(offset));
    let x_segment_reverse = commands.spawn_segment(Lane::XReverse.segment(offset));

    commands.spawn(
        PlacementRequest::new(
            AssetRef::RoadStraight,
            Transform::from_translation(Point3::new(0, 0, 20_000).translate(offset)).with_scale(
                Point3::new(30_000, UNIT, UNIT),
            ).with_rotation(1),
        ),
    );
    stats.road_segments += 1;

    let z_segment = commands.spawn_segment(Lane::ZForward.segment(offset));
    let z_segment_reverse = commands.spawn_segment(Lane::ZReverse.segment(offset));

    assert(commands.placements@ == placed + road_placements(offset));
    assert(commands.road_segments@ == lanes + lane_segments(offset));

    let along_x = LanePair {
        forward: Lane::XForward,
        reverse: Lane::XReverse,
        forward_segment: x_segment,
        reverse_segment: x_segment_reverse,
    };
    let along_z = LanePair {
        forward: Lane::ZForward,
        reverse: Lane::ZReverse,
        forward_segment: z_segment,
        reverse_segment: z_segment_reverse,
    };
    assert(along_x == LanePair::along_x(lanes.len() as int));
    assert(along_z == LanePair::along_z(lanes.len() as int));
    let ghost on_x = pair_traffic(Traffic::start(state), along_x, X_LANE_SLOTS as nat, offset, variants);
    proof {
        lemma_pair_traffic_shaped(
            Traffic::start(state),
            along_x,
            X_LANE_SLOTS as nat,
            offset,
            variants,
            0,
        );
    }
    spawn_lane_pair(commands, stats, rng, along_x, offset, assets);
    spawn_lane_pair(commands, stats, rng, along_z, offset, assets);
    proof {
        let traffic = block_traffic(state, offset, lanes.len() as int, variants);
        let on_z = pair_traffic(
            Traffic::start(on_x.rng),
            along_z,
            Z_LANE_SLOTS as nat,
            offset,
            variants,
        );
        lemma_pair_traffic_behind(on_x, along_z, Z_LANE_SLOTS as nat, offset, variants);
        lemma_block_traffic_shaped(state, offset, lanes.len() as int, variants);
        let added = road_placements(offset) + traffic.placements;
        assert(commands.placements@ == placed + added);
        assert(commands.cars@ == parked + traffic.cars);
        assert forall|i: int| 0 <= i < traffic.placements.len() implies is_car_below(
            #[trigger] traffic.placements[i],
            variants,
        ) by {
            if i < on_x.placements.len() {
                assert(traffic.placements[i] == on_x.placements[i]);
            } else {
                assert(traffic.placements[i] == on_z.placements[i - on_x.placements.len()]);
            }
        }
        lemma_count_uniform(traffic.placements, AssetKind::Car, AssetKind::Car);
        lemma_count_uniform(traffic.placements, AssetKind::Car, AssetKind::LowDensityBuilding);
        lemma_count_uniform(traffic.placements, AssetKind::Car, AssetKind::MediumDensityBuilding);
        lemma_count_uniform(traffic.placements, AssetKind::Car, AssetKind::Skyscraper);
        lemma_count_uniform(traffic.placements, AssetKind::Car, AssetKind::Crossroad);
        lemma_count_uniform(traffic.placements, AssetKind::Car, AssetKind::RoadStraight);
        lemma_count_uniform(traffic.placements, AssetKind::Car, AssetKind::Tree);
        lemma_road_placements_count(offset, AssetKind::Car);
        lemma_road_placements_count(offset, AssetKind::LowDensityBuilding);
        lemma_road_placements_count(offset, AssetKind::MediumDensityBuilding);
        lemma_road_placements_count(offset, AssetKind::Skyscraper);
        lemma_road_placements_count(offset, AssetKind::Crossroad);
        lemma_road_placements_count(offset, AssetKind::RoadStraight);
        lemma_road_placements_count(offset, AssetKind::Tree);
        lemma_count_append(road_placements(offset), traffic.placements, AssetKind::Car);
        lemma_count_append(
            road_placements(offset),
            traffic.placements,
            AssetKind::LowDensityBuilding,
        );
        lemma_count_append(
            road_placements(offset),
            traffic.placements,
            AssetKind::MediumDensityBuilding,
        );
        lemma_count_append(road_placements(offset), traffic.placements, AssetKind::Skyscraper);
        lemma_count_append(road_placements(offset), traffic.placements, AssetKind::Crossroad);
        lemma_count_append(road_placements(offset), traffic.placements, AssetKind::RoadStraight);
        lemma_count_append(road_placements(offset), traffic.placements, AssetKind::Tree);
    }
}

/// Microseconds in one second.
pub const MICROS_PER_SECOND: u64 = 1_000_000;

/// How far a car of `speed` gets in `delta_micros` microseconds, in whole
/// lattice steps.
pub open spec fn travel(speed: u32, delta_micros: u32) -> int {
    (speed * delta_micros) / (MICROS_PER_SECOND as int)
}

/// The distance of a car on a lane of `length` after `delta_micros`: what it
/// had and what it travelled, or zero where that is beyond the end of the
/// lane.
pub open spec fn advanced_distance(car: Car, length: u64, delta_micros: u32) -> u64 {
    let reached = car.distance_traveled + travel(car.speed, delta_micros);
    if reached > length {
        0
    } else {
        reached as u64
    }
}

/// The car after one tick of `delta_micros`. A car whose lane is not among
/// `segments` stays as it is.
pub open spec fn car_step(car: Car, segments: Seq<RoadSegment>, delta_micros: u32) -> Car {
    if car.road_segment < segments.len() {
        Car {
            distance_traveled: advanced_distance(
                car,
                segments[car.road_segment as int].spec_length(),
                delta_micros,
            ),
            ..car
        }
    } else {
        car
    }
}

/// Where a car stands: at its distance from the start of its lane, along
/// the lane. A car whose lane is not among `segments` has no position.
pub open spec fn car_position(car: Car, segments: Seq<RoadSegment>) -> Option<Point3> {
    if car.road_segment < segments.len() {
        Some(segments[car.road_segment as int].spec_position_at(car.distance_traveled))
    } else {
        None
    }
}

/// After a tick a car whose lane is known stands on its lane: its distance
/// is at most the length of the lane.
pub proof fn lemma_step_stays_on_lane(car: Car, segments: Seq<RoadSegment>, delta_micros: u32)
    requires
        car.road_segment < segments.len(),
    ensures
        0 <= car_step(car, segments, delta_micros).distance_traveled
            <= segments[car.road_segment as int].spec_length(),
        car_step(car, segments, delta_micros).road_segment == car.road_segment,
        car_step(car, segments, delta_micros).speed == car.speed,
{
}

/// The lane with the index `id`, where there is one.
pub fn find_segment(segments: &Vec<RoadSegment>, id: usize) -> (found: Option<&RoadSegment>)
    ensures
        id < segments@.len() ==> found == Some(&segments@[id as int]),
        id >= segments@.len() ==> found is None,
{
    if id < segments.len() {
        Some(&segments[id])
    } else {
        None
    }
}

/// Moves one car by one tick of `delta_micros` and returns where it stands
/// then. A car whose lane is not among `segments` is left as it is and has
/// no position.
pub fn advance_car(car: &mut Car, segments: &Vec<RoadSegment>, delta_micros: u32) -> (position:
    Option<Point3>)
    ensures
        *final(car) == car_step(*old(car), segments@, delta_micros),
        position == car_position(*final(car), segments@),
{
    match find_segment(segments, car.road_segment) {
        Some(segment) => {
            let length = segment.length();
            assert(car.speed * delta_micros <= u64::MAX) by (nonlinear_arith)
                requires
                    car.speed <= u32::MAX,
                    delta_micros <= u32::MAX,
            ;
            let step: u64 = (car.speed as u64 * delta_micros as u64) / MICROS_PER_SECOND;
            if car.distance_traveled > length || step > length - car.distance_traveled {
                car.distance_traveled = 0;
            } else {
                car.distance_traveled = car.distance_traveled + step;
            }
            Some(segment.position_at(car.distance_traveled))
        },
        None => None,
    }
}

/// Advances every car by one tick of `delta_micros` along its lane, and
/// returns where each stands then. With the motion of cars switched off
/// nothing moves and no position is returned.
pub fn move_cars(
    cars: &mut Vec<Car>,
    segments: &Vec<RoadSegment>,
    delta_micros: u32,
    settings: &Settings,
) -> (positions: Vec<Option<Point3>>)
    ensures
        final(cars)@.len() == old(cars)@.len(),
        positions@.len() == old(cars)@.len(),
        settings.move_cars ==> forall|i: int|
            0 <= i < old(cars)@.len() ==> #[trigger] final(cars)@[i] == car_step(
                old(cars)@[i],
                segments@,
                delta_micros,
            ) && positions@[i] == car_position(final(cars)@[i], segments@),
        !settings.move_cars ==> final(cars)@ == old(cars)@ && forall|i: int|
            0 <= i < old(cars)@.len() ==> #[trigger] positions@[i] is None,
{
    let mut positions: Vec<Option<Point3>> = Vec::new();
    let count = cars.len();
    let mut i: usize = 0;
    while i < count
        invariant
            i <= count,
            count == old(cars)@.len(),
            cars@.len() == count,
            positions@.len() == i,
            forall|k: int| i <= k < count ==> #[trigger] cars@[k] == old(cars)@[k],
            settings.move_cars ==> forall|k: int|
                0 <= k < i ==> #[trigger] cars@[k] == car_step(
                    old(cars)@[k],
                    segments@,
                    delta_micros,
                ) && positions@[k] == car_position(cars@[k], segments@),
            !settings.move_cars ==> forall|k: int|
                0 <= k < i ==> #[trigger] cars@[k] == old(cars)@[k],
            !settings.move_cars ==> forall|k: int| 0 <= k < i ==> #[trigger] positions@[k] is None,
        decreases count - i,
    {
        if settings.move_cars {
            let mut car = cars[i];
            let position = advance_car(&mut car, segments, delta_micros);
            cars.set(i, car);
            positions.push(position);
        } else {
            positions.push(None);
        }
        i += 1;
    }
    assert(!settings.move_cars ==> cars@ =~= old(cars)@);
    positions
}

} // verus!
