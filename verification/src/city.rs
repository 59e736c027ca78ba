//! The city: blocks on a square grid, each zoned by its density, with its
//! roads, its ground tile and what its zone puts on it.

use crate::assets::{
    building_draws, count_kind, lemma_building_draws_len, lemma_count_append, lemma_count_uniform,
    AssetKind, AssetRef, BuildingPick, GroundMaterial, PlacementRequest, TREE_SPECIES,
};
use crate::error::ConfigError;
use crate::geometry::{Point3, Transform};
use crate::low_density::{
    lemma_low_density_count, low_density_block, spawn_low_density, LowDensityBuildings, HOUSES,
};
use crate::medium_density::{
    lemma_medium_density_count, medium_density_block, medium_density_draws, spawn_medium_density,
    MediumDensityBuildings,
};
use crate::rng::{index_draw, random_word, rng_state, seed_from_u64, seeded_state, word_draw};
use crate::roads_and_cars::{
    block_traffic, cars_on_lanes, lane_segments, lemma_block_traffic_on_block,
    lemma_block_traffic_shaped, lemma_cars_on_lanes_extended, lemma_road_placements_count,
    road_placements, spawn_roads_and_cars, Car, RoadSegment, RoadsAndCarsAssets,
};
use crate::scene::Scene;
use crate::skyscrapers::{
    high_density_block, lemma_high_density_count, spawn_high_density, SkyscraperBuildings, TOWERS,
};
use crate::stats::{lemma_grown_twice, SceneStats};
use rand::rngs::SmallRng;
use vstd::prelude::*;

verus! {

/// The width of a block along X.
pub const BLOCK_WIDTH: i64 = 55_000;

/// The depth of a block along Z.
pub const BLOCK_DEPTH: i64 = 40_000;

/// One, for a sample of noise: samples lie between minus one and one.
pub const NOISE_ONE: i32 = 1_000_000;

/// One, for a density: densities lie between zero and one. A density has
/// twice the resolution of a sample of noise, so that the density of a
/// sample is exact.
pub const DENSITY_ONE: i64 = 2_000_000;

/// Lattice steps for each unit of the space in which noise is sampled: a
/// block at `offset` takes its sample at `offset.x / NOISE_SPAN` and
/// `offset.z / NOISE_SPAN`. Forty world units.
pub const NOISE_SPAN: i64 = 400_000;

/// Densities below this one, 0.45, are rural.
pub const RURAL_BELOW: i64 = 900_000;

/// Densities below this one, 0.60, and not rural are of low density.
pub const LOW_DENSITY_BELOW: i64 = 1_200_000;

/// Densities below this one, 0.70, and not lower are of medium density.
/// The others are of high density.
pub const MEDIUM_DENSITY_BELOW: i64 = 1_400_000;

/// The largest radius of a grid: about four million blocks.
pub const MAX_GRID_RADIUS: u32 = 1_000;

/// The seed that a city is generated from where none is given.
pub const DEFAULT_SEED: u64 = 42;

/// The radius of the grid of a city where none is given: 41 blocks along
/// each axis.
pub const DEFAULT_GRID_RADIUS: u32 = 20;

/// The zone of a block, from the emptiest to the densest.
#[derive(Clone, Copy, Debug, PartialEq, Eq, Structural)]
pub enum DensityClass {
    Rural,
    LowDensity,
    MediumDensity,
    HighDensity,
}

impl DensityClass {
    /// The place of the zone in the order of the zones.
    pub open spec fn rank(self) -> int {
        match self {
            DensityClass::Rural => 0,
            DensityClass::LowDensity => 1,
            DensityClass::MediumDensity => 2,
            DensityClass::HighDensity => 3,
        }
    }

    /// The material of the ground tile of a block of the zone: grass where
    /// the zone is rural or of low density, paved otherwise.
    pub open spec fn spec_ground(self) -> GroundMaterial {
        match self {
            DensityClass::Rural | DensityClass::LowDensity => GroundMaterial::Grass,
            DensityClass::MediumDensity | DensityClass::HighDensity => GroundMaterial::Paved,
        }
    }

    /// The material of the ground tile of a block of the zone.
    #[verifier::when_used_as_spec(spec_ground)]
    pub fn ground(self) -> (g: GroundMaterial)
        ensures
            g == self.spec_ground(),
    {
        match self {
            DensityClass::Rural | DensityClass::LowDensity => GroundMaterial::Grass,
            DensityClass::MediumDensity | DensityClass::HighDensity => GroundMaterial::Paved,
        }
    }
}

/// The density that a sample of noise stands for: the sample moved and
/// halved from between minus one and one to between zero and one.
pub open spec fn spec_density_of(noise: i32) -> i64 {
    (noise + NOISE_ONE) as i64
}

/// The density that a sample of noise stands for.
#[verifier::when_used_as_spec(spec_density_of)]
pub fn density_of(noise: i32) -> (density: i64)
    ensures
        density == spec_density_of(noise),
        density == noise + NOISE_ONE,
{
    noise as i64 + NOISE_ONE as i64
}

/// The zone of a density, by the three thresholds in ascending order.
pub open spec fn spec_classify(density: i64) -> DensityClass {
    if density < RURAL_BELOW {
        DensityClass::Rural
    } else if density < LOW_DENSITY_BELOW {
        DensityClass::LowDensity
    } else if density < MEDIUM_DENSITY_BELOW {
        DensityClass::MediumDensity
    } else {
        DensityClass::HighDensity
    }
}

/// The zone of a density. Every density has one.
#[verifier::when_used_as_spec(spec_classify)]
pub fn classify(density: i64) -> (class: DensityClass)
    ensures
        class == spec_classify(density),
{
    if density < RURAL_BELOW {
        DensityClass::Rural
    } else if density < LOW_DENSITY_BELOW {
        DensityClass::LowDensity
    } else if density < MEDIUM_DENSITY_BELOW {
        DensityClass::MediumDensity
    } else {
        DensityClass::HighDensity
    }
}

/// A density that is not lower has a zone that is not emptier, and a
/// density on a threshold belongs to the zone above it.
pub proof fn lemma_classify_monotonic(lower: i64, higher: i64)
    requires
        lower <= higher,
    ensures
        classify(lower).rank() <= classify(higher).rank(),
        classify(RURAL_BELOW) == DensityClass::LowDensity,
        classify(LOW_DENSITY_BELOW) == DensityClass::MediumDensity,
        classify(MEDIUM_DENSITY_BELOW) == DensityClass::HighDensity,
{
}

/// The asset catalog, as far as generation reads it: how many variants each
/// pool has.
#[derive(Clone, Copy, Debug, PartialEq, Eq)]
pub struct AssetCatalog {
    pub roads_and_cars: RoadsAndCarsAssets,
    pub low_density: LowDensityBuildings,
    pub medium_density: MediumDensityBuildings,
    pub skyscrapers: SkyscraperBuildings,
}

impl AssetCatalog {
    /// The catalog has the variant that the asset names.
    pub open spec fn holds(self, asset: AssetRef) -> bool {
        match asset {
            AssetRef::Car { variant } => variant < self.roads_and_cars.spec_cars(),
            AssetRef::Tree { species } => species < TREE_SPECIES,
            AssetRef::LowDensityBuilding { mesh, material } => mesh < self.low_density.spec_meshes()
                && material < self.low_density.spec_materials(),
            AssetRef::MediumDensityBuilding { mesh, material } => mesh
                < self.medium_density.spec_meshes() && material
                < self.medium_density.spec_materials(),
            AssetRef::Skyscraper { mesh, material } => mesh < self.skyscrapers.spec_meshes()
                && material < self.skyscrapers.spec_materials(),
            _ => true,
        }
    }

    /// The catalog has the variant of every placement.
    pub open spec fn holds_all(self, placements: Seq<PlacementRequest>) -> bool {
        forall|i: int| 0 <= i < placements.len() ==> self.holds((#[trigger] placements[i]).asset)
    }
}

/// The ground tile of a block at `offset` in a zone: it covers the block
/// between its roads, just below the ground. Its corner is moved by half its
/// scale, so that the tile is centred.
pub open spec fn spec_ground_placement(offset: Point3, class: DensityClass) -> PlacementRequest {
    PlacementRequest {
        asset: AssetRef::GroundTile { surface: class.ground() },
        transform: Transform::at(
            Point3 { x: 5_000, y: -5_005i64, z: 5_000 }.plus(
                Point3 { x: 22_500, y: 5_000, z: 15_000 },
            ).plus(offset),
        ).scaled(Point3 { x: 45_000, y: 10_000, z: 30_000 }),
    }
}

/// The ground tile of a block at `offset` in a zone.
pub fn ground_placement(offset: Point3, class: DensityClass) -> (p: PlacementRequest)
    requires
        offset.in_world(),
    ensures
        p == spec_ground_placement(offset, class),
{
    let scale = Point3::new(45_000, 10_000, 30_000);
    let half = Point3::new(scale.x / 2, scale.y / 2, scale.z / 2);
    PlacementRequest::new(
        AssetRef::GroundTile { surface: class.ground() },
        Transform::from_translation(
            Point3::new(5_000, -5_005, 5_000).translate(half).translate(offset),
        ).with_scale(scale),
    )
}

/// What the zone of a block puts on it, from a generator in state `rng`,
/// and the state that the generator is left in. Nothing stands on a rural
/// block.
pub open spec fn block_content(
    rng: Seq<u64>,
    offset: Point3,
    class: DensityClass,
    catalog: AssetCatalog,
) -> (Seq<PlacementRequest>, Seq<u64>) {
    match class {
        DensityClass::Rural => (Seq::empty(), rng),
        DensityClass::LowDensity => {
            let (picks, after) = building_draws(
                rng,
                catalog.low_density.spec_meshes(),
                catalog.low_density.spec_materials(),
                HOUSES as nat,
            );
            (low_density_block(offset, picks), after)
        },
        DensityClass::MediumDensity => {
            let (species, picks, after) = medium_density_draws(
                rng,
                catalog.medium_density.spec_meshes(),
                catalog.medium_density.spec_materials(),
            );
            (medium_density_block(offset, species, picks), after)
        },
        DensityClass::HighDensity => {
            let (picks, after) = building_draws(
                rng,
                catalog.skyscrapers.spec_meshes(),
                catalog.skyscrapers.spec_materials(),
                TOWERS as nat,
            );
            (high_density_block(offset, picks), after)
        },
    }
}

/// What has been generated so far, and the state of the generator.
pub struct World {
    pub placements: Seq<PlacementRequest>,
    pub road_segments: Seq<RoadSegment>,
    pub cars: Seq<Car>,
    pub rng: Seq<u64>,
}

/// Everything that is placed for the block at `offset` whose sample of
/// noise is `noise`, from a generator in state `rng`, where `first_segment`
/// lanes are registered already: the road pieces, the cars, the ground tile
/// of the zone, and what the zone puts on the block.
pub open spec fn block_placements(
    rng: Seq<u64>,
    first_segment: int,
    offset: Point3,
    noise: i32,
    catalog: AssetCatalog,
) -> Seq<PlacementRequest> {
    let traffic = block_traffic(rng, offset, first_segment, catalog.roads_and_cars.spec_cars());
    let class = classify(density_of(noise));
    road_placements(offset) + traffic.placements + seq![spec_ground_placement(offset, class)]
        + block_content(traffic.rng, offset, class, catalog).0
}

/// The world with one more block, at `offset` and with the sample `noise`.
pub open spec fn city_block(w: World, offset: Point3, noise: i32, catalog: AssetCatalog) -> World {
    let traffic = block_traffic(
        w.rng,
        offset,
        w.road_segments.len() as int,
        catalog.roads_and_cars.spec_cars(),
    );
    let class = classify(density_of(noise));
    World {
        placements: w.placements + block_placements(
            w.rng,
            w.road_segments.len() as int,
            offset,
            noise,
            catalog,
        ),
        road_segments: w.road_segments + lane_segments(offset),
        cars: w.cars + traffic.cars,
        rng: block_content(traffic.rng, offset, class, catalog).1,
    }
}

/// The world that a scene and a generator stand for.
pub open spec fn world_of(scene: Scene, rng: SmallRng) -> World {
    World {
        placements: scene.placements@,
        road_segments: scene.road_segments@,
        cars: scene.cars@,
        rng: rng_state(rng),
    }
}

/// Every block has one crossroad, two straight roads and one ground tile.
pub proof fn lemma_block_fixtures(
    rng: Seq<u64>,
    first_segment: int,
    offset: Point3,
    noise: i32,
    catalog: AssetCatalog,
    kind: AssetKind,
)
    requires
        kind == AssetKind::Crossroad || kind == AssetKind::RoadStraight || kind
            == AssetKind::GroundTile,
    ensures
        count_kind(block_placements(rng, first_segment, offset, noise, catalog), kind) == if kind
            == AssetKind::RoadStraight {
            2nat
        } else {
            1nat
        },
{
    let traffic = block_traffic(rng, offset, first_segment, catalog.roads_and_cars.spec_cars());
    let class = classify(density_of(noise));
    let ground = seq![spec_ground_placement(offset, class)];
    let content = block_content(traffic.rng, offset, class, catalog).0;
    lemma_road_placements_count(offset, kind);
    lemma_block_traffic_shaped(rng, offset, first_segment, catalog.roads_and_cars.spec_cars());
    lemma_count_uniform(traffic.placements, AssetKind::Car, kind);
    lemma_count_uniform(ground, AssetKind::GroundTile, kind);
    match class {
        DensityClass::Rural => {},
        DensityClass::LowDensity => {
            let picks = building_draws(
                traffic.rng,
                catalog.low_density.spec_meshes(),
                catalog.low_density.spec_materials(),
                HOUSES as nat,
            ).0;
            lemma_building_draws_len(
                traffic.rng,
                catalog.low_density.spec_meshes(),
                catalog.low_density.spec_materials(),
                HOUSES as nat,
            );
            lemma_low_density_count(offset, picks, kind);
        },
        DensityClass::MediumDensity => {
            let (species, picks, after) = medium_density_draws(
                traffic.rng,
                catalog.medium_density.spec_meshes(),
                catalog.medium_density.spec_materials(),
            );
            lemma_medium_density_count(offset, species, picks, kind);
        },
        DensityClass::HighDensity => {
            let picks = building_draws(
                traffic.rng,
                catalog.skyscrapers.spec_meshes(),
                catalog.skyscrapers.spec_materials(),
                TOWERS as nat,
            ).0;
            lemma_high_density_count(offset, picks, kind);
        },
    }
    lemma_count_append(road_placements(offset), traffic.placements, kind);
    lemma_count_append(road_placements(offset) + traffic.placements, ground, kind);
    lemma_count_append(road_placements(offset) + traffic.placements + ground, content, kind);
}

/// The looks of the buildings of a block are all among those of their pool.
pub open spec fn picks_within(picks: Seq<BuildingPick>, meshes: usize, materials: usize) -> bool {
    forall|k: int| 0 <= k < picks.len() ==> (#[trigger] picks[k]).within(meshes, materials)
}

/// Where the looks that were drawn for a block are among those of their
/// pool, and the species of its trees is one of the species, the catalog
/// has the variant of everything that the zone puts on the block.
proof fn lemma_content_held(rng: Seq<u64>, offset: Point3, class: DensityClass, catalog: AssetCatalog)
    requires
        class == DensityClass::LowDensity ==> picks_within(
            building_draws(
                rng,
                catalog.low_density.spec_meshes(),
                catalog.low_density.spec_materials(),
                HOUSES as nat,
            ).0,
            catalog.low_density.spec_meshes(),
            catalog.low_density.spec_materials(),
        ),
        class == DensityClass::MediumDensity ==> picks_within(
            medium_density_draws(
                rng,
                catalog.medium_density.spec_meshes(),
                catalog.medium_density.spec_materials(),
            ).1,
            catalog.medium_density.spec_meshes(),
            catalog.medium_density.spec_materials(),
        ) && medium_density_draws(
            rng,
            catalog.medium_density.spec_meshes(),
            catalog.medium_density.spec_materials(),
        ).0 < TREE_SPECIES,
        class == DensityClass::HighDensity ==> picks_within(
            building_draws(
                rng,
                catalog.skyscrapers.spec_meshes(),
                catalog.skyscrapers.spec_materials(),
                TOWERS as nat,
            ).0,
            catalog.skyscrapers.spec_meshes(),
            catalog.skyscrapers.spec_materials(),
        ),
    ensures
        catalog.holds_all(block_content(rng, offset, class, catalog).0),
{
    let content = block_content(rng, offset, class, catalog).0;
    match class {
        DensityClass::Rural => {},
        DensityClass::LowDensity => {
            let picks = building_draws(
                rng,
                catalog.low_density.spec_meshes(),
                catalog.low_density.spec_materials(),
                HOUSES as nat,
            ).0;
            let t = crate::low_density::trees(offset, 18);
            let f = crate::low_density::fences(offset, 7);
            let h = crate::low_density::houses(offset, picks);
            assert(catalog.holds_all(t));
            assert(catalog.holds_all(f));
            assert forall|i: int| 0 <= i < h.len() implies catalog.holds((#[trigger] h[i]).asset) by {
                assert(picks[i].within(
                    catalog.low_density.spec_meshes(),
                    catalog.low_density.spec_materials(),
                ));
            }
            assert(content == t + f + h);
        },
        DensityClass::MediumDensity => {
            let (species, picks, after) = medium_density_draws(
                rng,
                catalog.medium_density.spec_meshes(),
                catalog.medium_density.spec_materials(),
            );
            lemma_building_draws_len(
                index_draw(rng, TREE_SPECIES).1,
                catalog.medium_density.spec_meshes(),
                catalog.medium_density.spec_materials(),
                10,
            );
            lemma_slots_held(offset, species, picks, 5, catalog);
            assert(catalog.holds_all(crate::medium_density::path(offset, 11)));
        },
        DensityClass::HighDensity => {
            let picks = building_draws(
                rng,
                catalog.skyscrapers.spec_meshes(),
                catalog.skyscrapers.spec_materials(),
                TOWERS as nat,
            ).0;
            assert forall|i: int| 0 <= i < content.len() implies catalog.holds(
                (#[trigger] content[i]).asset,
            ) by {
                assert(picks[i].within(
                    catalog.skyscrapers.spec_meshes(),
                    catalog.skyscrapers.spec_materials(),
                ));
            }
        },
    }
}

/// The catalog has the variant of everything in the first `count` slots of
/// a medium density block, where it has the species and the looks.
proof fn lemma_slots_held(
    offset: Point3,
    species: usize,
    picks: Seq<BuildingPick>,
    count: nat,
    catalog: AssetCatalog,
)
    requires
        species < TREE_SPECIES,
        2 * count <= picks.len(),
        picks_within(
            picks,
            catalog.medium_density.spec_meshes(),
            catalog.medium_density.spec_materials(),
        ),
    ensures
        catalog.holds_all(crate::medium_density::slots(offset, species, picks, count)),
    decreases count,
{
    if count > 0 {
        lemma_slots_held(offset, species, picks, (count - 1) as nat, catalog);
        let front = picks[2 * count - 2];
        let back = picks[2 * count - 1];
        assert(front.within(
            catalog.medium_density.spec_meshes(),
            catalog.medium_density.spec_materials(),
        ));
        assert(back.within(
            catalog.medium_density.spec_meshes(),
            catalog.medium_density.spec_materials(),
        ));
        let one = crate::medium_density::slot(offset, count as int, species, front, back);
        assert(catalog.holds_all(one));
    }
}

/// Spawns the block at `offset` whose sample of noise is `noise`: its roads
/// and cars, the ground tile of its zone, and what the zone puts on it.
/// Returns the zone.
pub fn spawn_city_block(
    commands: &mut Scene,
    stats: &mut SceneStats,
    rng: &mut SmallRng,
    offset: Point3,
    noise: i32,
    catalog: &AssetCatalog,
) -> (class: DensityClass)
    requires
        offset.in_world(),
        old(stats).has_room(),
    ensures
        class == classify(density_of(noise)),
        world_of(*final(commands), *final(rng)) == city_block(
            world_of(*old(commands), *old(rng)),
            offset,
            noise,
            *catalog,
        ),
        final(stats).grown_by(
            *old(stats),
            block_placements(
                rng_state(*old(rng)),
                old(commands).road_segments@.len() as int,
                offset,
                noise,
                *catalog,
            ),
        ),
        catalog.holds_all(
            block_placements(
                rng_state(*old(rng)),
                old(commands).road_segments@.len() as int,
                offset,
                noise,
                *catalog,
            ),
        ),
        final(stats).cars_spawned <= old(stats).cars_spawned + 30,
        final(stats).low_density_buildings <= old(stats).low_density_buildings + 4,
        final(stats).medium_density_buildings <= old(stats).medium_density_buildings + 10,
        final(stats).skyscrapers <= old(stats).skyscrapers + 6,
        final(stats).road_segments == old(stats).road_segments + 3,
        final(stats).trees <= old(stats).trees + 18,
{
    let ghost before = world_of(*commands, *rng);
    let ghost first_segment = commands.road_segments@.len() as int;
    let ghost traffic = block_traffic(
        before.rng,
        offset,
        first_segment,
        catalog.roads_and_cars.spec_cars(),
    );
    let ghost roads = road_placements(offset) + traffic.placements;

    spawn_roads_and_cars(commands, stats, rng, offset, &catalog.roads_and_cars);
    proof {
        lemma_block_traffic_shaped(
            before.rng,
            offset,
            first_segment,
            catalog.roads_and_cars.spec_cars(),
        );
    }
    let ghost stats_with_roads = *stats;

    let class = classify(density_of(noise));
    commands.spawn(ground_placement(offset, class));
    let ghost ground = seq![spec_ground_placement(offset, class)];
    let ghost content = block_content(traffic.rng, offset, class, *catalog).0;

    match class {
        DensityClass::Rural => {},
        DensityClass::LowDensity => {
            spawn_low_density(commands, stats, rng, offset, &catalog.low_density);
        },
        DensityClass::MediumDensity => {
            spawn_medium_density(commands, stats, rng, offset, &catalog.medium_density);
        },
        DensityClass::HighDensity => {
            spawn_high_density(commands, stats, &catalog.skyscrapers, rng, offset);
        },
    }
    proof {
        let added = block_placements(before.rng, first_segment, offset, noise, *catalog);
        assert(added == roads + ground + content);
        assert(commands.placements@ =~= before.placements + added);
        assert(stats_with_roads.grown_by(*old(stats), roads));
        assert(stats.grown_by(stats_with_roads, ground + content)) by {
            lemma_count_uniform(ground, AssetKind::GroundTile, AssetKind::Car);
            lemma_count_uniform(ground, AssetKind::GroundTile, AssetKind::LowDensityBuilding);
            lemma_count_uniform(ground, AssetKind::GroundTile, AssetKind::MediumDensityBuilding);
            lemma_count_uniform(ground, AssetKind::GroundTile, AssetKind::Skyscraper);
            lemma_count_uniform(ground, AssetKind::GroundTile, AssetKind::Crossroad);
            lemma_count_uniform(ground, AssetKind::GroundTile, AssetKind::RoadStraight);
            lemma_count_uniform(ground, AssetKind::GroundTile, AssetKind::Tree);
            lemma_count_append(ground, content, AssetKind::Car);
            lemma_count_append(ground, content, AssetKind::LowDensityBuilding);
            lemma_count_append(ground, content, AssetKind::MediumDensityBuilding);
            lemma_count_append(ground, content, AssetKind::Skyscraper);
            lemma_count_append(ground, content, AssetKind::Crossroad);
            lemma_count_append(ground, content, AssetKind::RoadStraight);
            lemma_count_append(ground, content, AssetKind::Tree);
            if class == DensityClass::Rural {
                assert(content =~= Seq::<PlacementRequest>::empty());
            }
        }
        lemma_grown_twice(*old(stats), stats_with_roads, *stats, roads, ground + content);
        assert(roads + (ground + content) =~= added);
        assert(catalog.holds_all(roads));
        assert(catalog.holds_all(ground));
        lemma_content_held(traffic.rng, offset, class, *catalog);
    }
    class
}


/// How many blocks a grid of the given radius has along each axis.
pub open spec fn grid_side(grid_radius: u32) -> int {
    2 * grid_radius + 1
}

/// How many blocks a grid of the given radius has.
pub open spec fn grid_blocks(grid_radius: u32) -> int {
    grid_side(grid_radius) * grid_side(grid_radius)
}

/// The origin of the block at the grid coordinate `(bx, bz)`.
pub open spec fn block_offset(bx: int, bz: int) -> Point3 {
    Point3 { x: (bx * BLOCK_WIDTH) as i64, y: 0, z: (bz * BLOCK_DEPTH) as i64 }
}

/// The place of a block on the grid: how many blocks from the middle along
/// X and along Z.
#[derive(Clone, Copy, Debug, PartialEq, Eq, Structural)]
pub struct BlockCoordinate {
    pub bx: i32,
    pub bz: i32,
}

impl BlockCoordinate {
    /// The origin of the block.
    pub open spec fn spec_offset(self) -> Point3 {
        block_offset(self.bx as int, self.bz as int)
    }

    /// The point `(x, z)` of the ground lies on the block: from its origin
    /// up to, and without, the origins of the next blocks.
    pub open spec fn covers(self, x: int, z: int) -> bool {
        &&& self.bx * BLOCK_WIDTH <= x < (self.bx + 1) * BLOCK_WIDTH
        &&& self.bz * BLOCK_DEPTH <= z < (self.bz + 1) * BLOCK_DEPTH
    }

    /// The origin of the block.
    #[verifier::when_used_as_spec(spec_offset)]
    pub fn offset(self) -> (origin: Point3)
        ensures
            origin == self.spec_offset(),
            origin.x == self.bx * BLOCK_WIDTH,
            origin.y == 0,
            origin.z == self.bz * BLOCK_DEPTH,
            origin.in_world(),
    {
        Point3::new(self.bx as i64 * BLOCK_WIDTH, 0, self.bz as i64 * BLOCK_DEPTH)
    }
}

/// Blocks tile the ground without overlap: a point lies on one block at
/// most.
pub proof fn lemma_blocks_do_not_overlap(a: BlockCoordinate, b: BlockCoordinate, x: int, z: int)
    requires
        a.covers(x, z),
        b.covers(x, z),
    ensures
        a == b,
{
}

/// Blocks tile the ground without gaps: every point lies on the block whose
/// coordinate is the point divided by the size of a block, rounded down.
pub proof fn lemma_blocks_leave_no_gap(x: int, z: int)
    requires
        i32::MIN * BLOCK_WIDTH <= x < (i32::MAX + 1) * BLOCK_WIDTH,
        i32::MIN * BLOCK_DEPTH <= z < (i32::MAX + 1) * BLOCK_DEPTH,
    ensures
        i32::MIN <= x / (BLOCK_WIDTH as int) <= i32::MAX,
        i32::MIN <= z / (BLOCK_DEPTH as int) <= i32::MAX,
        (BlockCoordinate {
            bx: (x / (BLOCK_WIDTH as int)) as i32,
            bz: (z / (BLOCK_DEPTH as int)) as i32,
        }).covers(x, z),
{
}

/// The origin of block `k` of a grid, in the order of generation: the grid
/// is walked along X from `-grid_radius` to `grid_radius`, and for each X
/// along Z in the same way.
pub open spec fn block_at(grid_radius: u32, k: int) -> Point3 {
    block_offset(
        k / grid_side(grid_radius) - grid_radius,
        k % grid_side(grid_radius) - grid_radius,
    )
}

/// The seed of the noise that zones a city: the first word of the generator
/// of the city.
pub open spec fn spec_noise_seed(seed: u64) -> u32 {
    word_draw(seeded_state(seed, usize::BITS)).0
}

/// The world before the first block: nothing is placed, and the generator
/// has given the seed of the noise.
pub open spec fn seeded_world(seed: u64) -> World {
    World {
        placements: Seq::empty(),
        road_segments: Seq::empty(),
        cars: Seq::empty(),
        rng: word_draw(seeded_state(seed, usize::BITS)).1,
    }
}

/// The world after the first `blocks` blocks of a grid, where `noise` holds
/// the sample of each block in the order of generation.
pub open spec fn city_prefix(
    seed: u64,
    grid_radius: u32,
    noise: Seq<i32>,
    catalog: AssetCatalog,
    blocks: nat,
) -> World
    decreases blocks,
{
    if blocks == 0 {
        seeded_world(seed)
    } else {
        city_block(
            city_prefix(seed, grid_radius, noise, catalog, (blocks - 1) as nat),
            block_at(grid_radius, blocks - 1),
            noise[blocks - 1],
            catalog,
        )
    }
}

/// The world of a whole city.
pub open spec fn city_model(
    seed: u64,
    grid_radius: u32,
    noise: Seq<i32>,
    catalog: AssetCatalog,
) -> World {
    city_prefix(seed, grid_radius, noise, catalog, grid_blocks(grid_radius) as nat)
}

/// The zones of the blocks of a city, in the order of generation.
pub open spec fn city_zones(noise: Seq<i32>) -> Seq<DensityClass> {
    Seq::new(noise.len(), |k: int| classify(density_of(noise[k])))
}

/// A generated city: what was placed, the lanes and the cars, the counters,
/// and the zone of each block in the order of generation.
pub struct City {
    pub scene: Scene,
    pub stats: SceneStats,
    pub zones: Vec<DensityClass>,
}

impl City {
    /// The city is the one of the seed, the radius, the samples and the
    /// catalog: it holds what the model holds, in the same order, the zones
    /// are those of the samples, and the counters are those of the
    /// placements.
    pub open spec fn is_city_of(
        self,
        seed: u64,
        grid_radius: u32,
        noise: Seq<i32>,
        catalog: AssetCatalog,
    ) -> bool {
        let model = city_model(seed, grid_radius, noise, catalog);
        &&& self.scene.placements@ == model.placements
        &&& self.scene.road_segments@ == model.road_segments
        &&& self.scene.cars@ == model.cars
        &&& self.zones@ == city_zones(noise)
        &&& self.stats.counts(self.scene.placements@)
    }
}

/// Generation is a function of its arguments: two cities of the same
/// seed, radius, samples and catalog hold the same placements in the same
/// order, the same lanes and cars, the same zones and the same counters.
pub proof fn lemma_generation_deterministic(
    first: City,
    second: City,
    seed: u64,
    grid_radius: u32,
    noise: Seq<i32>,
    catalog: AssetCatalog,
)
    requires
        first.is_city_of(seed, grid_radius, noise, catalog),
        second.is_city_of(seed, grid_radius, noise, catalog),
    ensures
        first.scene.placements@ == second.scene.placements@,
        first.scene.road_segments@ == second.scene.road_segments@,
        first.scene.cars@ == second.scene.cars@,
        first.zones@ == second.zones@,
        first.stats == second.stats,
{
}

/// The seed of the noise that zones the city of a seed. The sample of each
/// block is taken from noise of this seed.
pub fn noise_seed(seed: u64) -> (word: u32)
    ensures
        word == spec_noise_seed(seed),
{
    let mut rng = seed_from_u64(seed);
    random_word(&mut rng)
}

/// The origins of the blocks of a grid, in the order of generation. A
/// radius above [`MAX_GRID_RADIUS`] is refused.
pub fn block_offsets(grid_radius: u32) -> (r: Result<Vec<Point3>, ConfigError>)
    ensures
        grid_radius <= MAX_GRID_RADIUS ==> r is Ok && r->Ok_0@ == Seq::new(
            grid_blocks(grid_radius) as nat,
            |k: int| block_at(grid_radius, k),
        ),
        grid_radius > MAX_GRID_RADIUS ==> r == Err::<Vec<Point3>, ConfigError>(
            ConfigError::GridTooLarge,
        ),
{
    if grid_radius > MAX_GRID_RADIUS {
        return Err(ConfigError::GridTooLarge);
    }
    let side: usize = 2 * (grid_radius as usize) + 1;
    let mut offsets: Vec<Point3> = Vec::new();
    let mut ix: usize = 0;
    let mut k: usize = 0;
    while ix < side
        invariant
            grid_radius <= MAX_GRID_RADIUS,
            side == grid_side(grid_radius),
            ix <= side,
            k == ix * side,
            offsets@ == Seq::new(k as nat, |j: int| block_at(grid_radius, j)),
        decreases side - ix,
    {
        let mut iz: usize = 0;
        while iz < side
            invariant
                grid_radius <= MAX_GRID_RADIUS,
                side == grid_side(grid_radius),
                ix < side,
                iz <= side,
                k == ix * side + iz,
                offsets@ == Seq::new(k as nat, |j: int| block_at(grid_radius, j)),
            decreases side - iz,
        {
            proof {
                lemma_grid_index(grid_radius, ix as int, iz as int);
            }
            offsets.push(grid_offset(grid_radius, ix, iz));
            assert(offsets@ =~= Seq::new((k + 1) as nat, |j: int| block_at(grid_radius, j)));
            iz += 1;
            k += 1;
        }
        assert(ix * side + side == (ix + 1) * side) by (nonlinear_arith);
        ix += 1;
    }
    assert(side * side == grid_blocks(grid_radius));
    Ok(offsets)
}

/// The block at place `ix` along X and `iz` along Z of a grid is block
/// `ix * side + iz` in the order of generation, and the grid has room for
/// it.
proof fn lemma_grid_index(grid_radius: u32, ix: int, iz: int)
    requires
        grid_radius <= MAX_GRID_RADIUS,
        0 <= ix < grid_side(grid_radius),
        0 <= iz < grid_side(grid_radius),
    ensures
        0 <= ix * grid_side(grid_radius) + iz < grid_blocks(grid_radius),
        grid_blocks(grid_radius) <= 4_004_001,
        block_at(grid_radius, ix * grid_side(grid_radius) + iz) == block_offset(
            ix - grid_radius,
            iz - grid_radius,
        ),
{
    let side = grid_side(grid_radius);
    assert(0 <= ix * side <= (side - 1) * side && side * side <= 2_001 * 2_001)
        by (nonlinear_arith)
        requires
            0 <= ix <= side - 1,
            0 < side <= 2_001,
    ;
    assert((side - 1) * side + side == side * side) by (nonlinear_arith);
    vstd::arithmetic::div_mod::lemma_fundamental_div_mod_converse(ix * side + iz, side, ix, iz);
}

/// The origin of the block at place `ix` along X and `iz` along Z of a
/// grid.
fn grid_offset(grid_radius: u32, ix: usize, iz: usize) -> (offset: Point3)
    requires
        grid_radius <= MAX_GRID_RADIUS,
        ix < grid_side(grid_radius),
        iz < grid_side(grid_radius),
    ensures
        offset == block_offset(ix - grid_radius, iz - grid_radius),
        offset.in_world(),
{
    let bx: i32 = ix as i32 - grid_radius as i32;
    let bz: i32 = iz as i32 - grid_radius as i32;
    BlockCoordinate { bx, bz }.offset()
}

/// Generates the city of a seed on the grid of a radius. `noise` holds one
/// sample for each block, in the order of generation; the samples decide
/// the zones. A radius above [`MAX_GRID_RADIUS`] is refused, and so is a
/// number of samples that is not the number of blocks.
///
/// The outcome is a function of the arguments: the same seed, radius,
/// samples and catalog give the same city. The counters of the city are
/// exactly those of its placements, the catalog has every variant that is
/// placed, every car starts on a lane of the city, and whatever the zones,
/// the city has one crossroad, two straight roads, one ground tile and four
/// lanes for each block.
pub fn generate_city(
    seed: u64,
    grid_radius: u32,
    noise: &Vec<i32>,
    catalog: &AssetCatalog,
) -> (r: Result<City, ConfigError>)
    ensures
        r is Ok <==> grid_radius <= MAX_GRID_RADIUS && noise@.len() == grid_blocks(grid_radius),
        r matches Ok(city) ==> {
            &&& city.is_city_of(seed, grid_radius, noise@, *catalog)
            &&& catalog.holds_all(city.scene.placements@)
            &&& cars_on_lanes(city.scene.cars@, city.scene.road_segments@)
            &&& count_kind(city.scene.placements@, AssetKind::Crossroad) == grid_blocks(
                grid_radius,
            )
            &&& count_kind(city.scene.placements@, AssetKind::RoadStraight) == 2 * grid_blocks(
                grid_radius,
            )
            &&& count_kind(city.scene.placements@, AssetKind::GroundTile) == grid_blocks(
                grid_radius,
            )
            &&& city.scene.road_segments@.len() == 4 * grid_blocks(grid_radius)
        },
        r matches Err(e) ==> e == if grid_radius > MAX_GRID_RADIUS {
            ConfigError::GridTooLarge
        } else {
            ConfigError::NoiseSampleCount
        },
{
    if grid_radius > MAX_GRID_RADIUS {
        return Err(ConfigError::GridTooLarge);
    }
    let side: usize = 2 * (grid_radius as usize) + 1;
    assert(side * side <= 4_004_001) by (nonlinear_arith)
        requires
            0 < side <= 2_001,
    ;
    let blocks: usize = side * side;
    if noise.len() != blocks {
        return Err(ConfigError::NoiseSampleCount);
    }
    let mut rng = seed_from_u64(seed);
    let _noise_seed = random_word(&mut rng);
    let mut scene = Scene::new();
    let mut stats = SceneStats::default();
    let mut zones: Vec<DensityClass> = Vec::new();

    let mut ix: usize = 0;
    let mut k: usize = 0;
    assert(zones@ =~= city_zones(noise@).take(0));
    while ix < side
        invariant
            grid_radius <= MAX_GRID_RADIUS,
            side == grid_side(grid_radius),
            blocks == grid_blocks(grid_radius),
            blocks <= 4_004_001,
            noise@.len() == blocks,
            ix <= side,
            k == ix * side,
            k <= blocks,
            world_of(scene, rng) == city_prefix(seed, grid_radius, noise@, *catalog, k as nat),
            zones@ == city_zones(noise@).take(k as int),
            stats.counts(scene.placements@),
            stats.within_blocks(k as int),
            catalog.holds_all(scene.placements@),
            cars_on_lanes(scene.cars@, scene.road_segments@),
            count_kind(scene.placements@, AssetKind::Crossroad) == k,
            count_kind(scene.placements@, AssetKind::RoadStraight) == 2 * k,
            count_kind(scene.placements@, AssetKind::GroundTile) == k,
            scene.road_segments@.len() == 4 * k,
        decreases side - ix,
    {
        let mut iz: usize = 0;
        while iz < side
            invariant
                grid_radius <= MAX_GRID_RADIUS,
                side == grid_side(grid_radius),
                blocks == grid_blocks(grid_radius),
                blocks <= 4_004_001,
                noise@.len() == blocks,
                ix < side,
                iz <= side,
                k == ix * side + iz,
                k <= blocks,
                world_of(scene, rng) == city_prefix(seed, grid_radius, noise@, *catalog, k as nat),
                zones@ == city_zones(noise@).take(k as int),
                stats.counts(scene.placements@),
                stats.within_blocks(k as int),
                catalog.holds_all(scene.placements@),
                cars_on_lanes(scene.cars@, scene.road_segments@),
                count_kind(scene.placements@, AssetKind::Crossroad) == k,
                count_kind(scene.placements@, AssetKind::RoadStraight) == 2 * k,
                count_kind(scene.placements@, AssetKind::GroundTile) == k,
                scene.road_segments@.len() == 4 * k,
            decreases side - iz,
        {
            proof {
                lemma_grid_index(grid_radius, ix as int, iz as int);
            }
            let ghost before = world_of(scene, rng);
            let ghost stats_before = stats;
            let ghost added = block_placements(
                before.rng,
                before.road_segments.len() as int,
                block_at(grid_radius, k as int),
                noise@[k as int],
                *catalog,
            );
            let offset = grid_offset(grid_radius, ix, iz);
            let class = spawn_city_block(&mut scene, &mut stats, &mut rng, offset, noise[k], catalog);
            zones.push(class);
            proof {
                lemma_grown_twice(
                    SceneStats::zero(),
                    stats_before,
                    stats,
                    before.placements,
                    added,
                );
                lemma_block_fixtures(
                    before.rng,
                    before.road_segments.len() as int,
                    offset,
                    noise@[k as int],
                    *catalog,
                    AssetKind::Crossroad,
                );
                lemma_block_fixtures(
                    before.rng,
                    before.road_segments.len() as int,
                    offset,
                    noise@[k as int],
                    *catalog,
                    AssetKind::RoadStraight,
                );
                lemma_block_fixtures(
                    before.rng,
                    before.road_segments.len() as int,
                    offset,
                    noise@[k as int],
                    *catalog,
                    AssetKind::GroundTile,
                );
                lemma_count_append(before.placements, added, AssetKind::Crossroad);
                lemma_count_append(before.placements, added, AssetKind::RoadStraight);
                lemma_count_append(before.placements, added, AssetKind::GroundTile);
                assert(zones@ =~= city_zones(noise@).take(k + 1));
                lemma_block_traffic_on_block(
                    before.rng,
                    offset,
                    before.road_segments.len() as int,
                    catalog.roads_and_cars.spec_cars(),
                );
                lemma_cars_on_lanes_extended(
                    before.cars,
                    before.road_segments,
                    offset,
                    block_traffic(
                        before.rng,
                        offset,
                        before.road_segments.len() as int,
                        catalog.roads_and_cars.spec_cars(),
                    ).cars,
                );
            }
            iz += 1;
            k += 1;
        }
        assert(ix * side + side == (ix + 1) * side) by (nonlinear_arith);
        ix += 1;
    }
    assert(zones@ =~= city_zones(noise@));
    Ok(City { scene, stats, zones })
}

} // verus!
