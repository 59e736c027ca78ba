use city_gen::assets::{AssetKind, AssetRef, PlacementRequest};
use city_gen::city::{
    block_offsets, generate_city, noise_seed, AssetCatalog, BlockCoordinate, City, DensityClass,
    BLOCK_DEPTH, BLOCK_WIDTH, DEFAULT_GRID_RADIUS, DEFAULT_SEED, MAX_GRID_RADIUS, NOISE_ONE,
    NOISE_SPAN,
};
use city_gen::error::ConfigError;
use city_gen::geometry::Point3;
use city_gen::low_density::LowDensityBuildings;
use city_gen::medium_density::MediumDensityBuildings;
use city_gen::roads_and_cars::{move_cars, RoadsAndCarsAssets};
use city_gen::settings_ui::Settings;
use city_gen::skyscrapers::SkyscraperBuildings;
use noise::{NoiseFn, OpenSimplex};
use rand::rngs::SmallRng;
use rand::{RngExt, SeedableRng};

fn catalog() -> AssetCatalog {
    AssetCatalog {
        roads_and_cars: RoadsAndCarsAssets::new(8).unwrap(),
        low_density: LowDensityBuildings::new(12, 4).unwrap(),
        medium_density: MediumDensityBuildings::new(7, 3).unwrap(),
        skyscrapers: SkyscraperBuildings::new(7, 3).unwrap(),
    }
}

fn samples(seed: u64, grid_radius: u32) -> Vec<i32> {
    let noise = OpenSimplex::new(noise_seed(seed));
    block_offsets(grid_radius)
        .unwrap()
        .iter()
        .map(|offset| {
            let n = noise.get([
                offset.x as f64 / NOISE_SPAN as f64,
                offset.z as f64 / NOISE_SPAN as f64,
                0.0,
            ]);
            (n * NOISE_ONE as f64).floor() as i32
        })
        .collect()
}

fn city(seed: u64, grid_radius: u32) -> City {
    generate_city(seed, grid_radius, &samples(seed, grid_radius), &catalog()).unwrap()
}

fn count(placements: &[PlacementRequest], kind: AssetKind) -> usize {
    placements.iter().filter(|p| p.asset.kind() == kind).count()
}

#[test]
fn the_seed_of_the_noise_is_the_first_word() {
    let mut rng = SmallRng::seed_from_u64(42);
    let first: u32 = rng.random();
    assert_eq!(noise_seed(42), first);
    assert_ne!(noise_seed(42), noise_seed(43));
    assert_ne!(noise_seed(42), 42);
}

#[test]
fn blocks_are_walked_along_x_and_then_along_z() {
    assert_eq!(block_offsets(0), Ok(vec![Point3::new(0, 0, 0)]));
    let offsets = block_offsets(1).unwrap();
    assert_eq!(
        offsets,
        vec![
            Point3::new(-55_000, 0, -40_000),
            Point3::new(-55_000, 0, 0),
            Point3::new(-55_000, 0, 40_000),
            Point3::new(0, 0, -40_000),
            Point3::new(0, 0, 0),
            Point3::new(0, 0, 40_000),
            Point3::new(55_000, 0, -40_000),
            Point3::new(55_000, 0, 0),
            Point3::new(55_000, 0, 40_000),
        ]
    );
    assert_eq!(block_offsets(20).unwrap().len(), 41 * 41);
    assert_eq!(block_offsets(MAX_GRID_RADIUS + 1), Err(ConfigError::GridTooLarge));
}

#[test]
fn a_grid_that_is_too_large_is_refused() {
    let r = generate_city(42, MAX_GRID_RADIUS + 1, &Vec::new(), &catalog());
    assert!(matches!(r, Err(ConfigError::GridTooLarge)));
    let r = generate_city(42, u32::MAX, &vec![0; 9], &catalog());
    assert!(matches!(r, Err(ConfigError::GridTooLarge)));
}

#[test]
fn samples_must_be_one_for_each_block() {
    let r = generate_city(42, 1, &vec![0; 8], &catalog());
    assert!(matches!(r, Err(ConfigError::NoiseSampleCount)));
    let r = generate_city(42, 1, &vec![0; 10], &catalog());
    assert!(matches!(r, Err(ConfigError::NoiseSampleCount)));
    let r = generate_city(42, 0, &Vec::new(), &catalog());
    assert!(matches!(r, Err(ConfigError::NoiseSampleCount)));
    assert!(generate_city(42, 1, &vec![0; 9], &catalog()).is_ok());
    assert!(generate_city(42, 0, &vec![0; 1], &catalog()).is_ok());
}

#[test]
fn three_by_three_city_of_seed_42() {
    let city = city(DEFAULT_SEED, 1);
    assert_eq!(count(&city.scene.placements, AssetKind::Crossroad), 9);
    assert_eq!(count(&city.scene.placements, AssetKind::RoadStraight), 18);
    assert_eq!(count(&city.scene.placements, AssetKind::GroundTile), 9);
    assert_eq!(city.scene.road_segments.len(), 36);
    assert_eq!(city.stats.road_segments, 27);
    assert_eq!(city.zones.len(), 9);
    for (k, offset) in block_offsets(1).unwrap().iter().enumerate() {
        assert_eq!(city.scene.road_segments[4 * k].start(), Point3::new(
            offset.x + 3_000,
            0,
            offset.z + 1_500,
        ));
    }
    assert_eq!(
        city.zones,
        vec![
            DensityClass::LowDensity,
            DensityClass::LowDensity,
            DensityClass::LowDensity,
            DensityClass::LowDensity,
            DensityClass::LowDensity,
            DensityClass::LowDensity,
            DensityClass::Rural,
            DensityClass::LowDensity,
            DensityClass::LowDensity,
        ]
    );
    assert_eq!(city.stats.trees, 8 * 18);
    assert_eq!(city.stats.low_density_buildings, 8 * 4);
    assert_eq!(city.stats.medium_density_buildings, 0);
    assert_eq!(city.stats.skyscrapers, 0);
}

#[test]
fn two_runs_give_the_same_city() {
    let first = city(42, 3);
    let second = city(42, 3);
    assert_eq!(first.scene.placements, second.scene.placements);
    assert_eq!(first.scene.road_segments, second.scene.road_segments);
    assert_eq!(first.scene.cars, second.scene.cars);
    assert_eq!(first.zones, second.zones);
    assert_eq!(first.stats, second.stats);
    let other = city(43, 3);
    assert_ne!(first.scene.placements, other.scene.placements);
}

#[test]
fn counters_are_those_of_the_placements() {
    let city = city(42, 6);
    let placements = &city.scene.placements;
    assert_eq!(city.stats.cars_spawned as usize, count(placements, AssetKind::Car));
    assert_eq!(city.stats.cars_spawned as usize, city.scene.cars.len());
    assert_eq!(
        city.stats.low_density_buildings as usize,
        count(placements, AssetKind::LowDensityBuilding)
    );
    assert_eq!(
        city.stats.medium_density_buildings as usize,
        count(placements, AssetKind::MediumDensityBuilding)
    );
    assert_eq!(city.stats.skyscrapers as usize, count(placements, AssetKind::Skyscraper));
    assert_eq!(
        city.stats.road_segments as usize,
        count(placements, AssetKind::Crossroad) + count(placements, AssetKind::RoadStraight)
    );
    assert_eq!(city.stats.trees as usize, count(placements, AssetKind::Tree));
    let uncounted = count(placements, AssetKind::GroundTile)
        + count(placements, AssetKind::Fence)
        + count(placements, AssetKind::PathStones);
    assert_eq!(city.stats.total() as usize + uncounted, placements.len());

    let zones = |zone: DensityClass| city.zones.iter().filter(|z| **z == zone).count();
    assert_eq!(city.zones.len(), 169);
    assert_eq!(city.stats.low_density_buildings as usize, 4 * zones(DensityClass::LowDensity));
    assert_eq!(
        city.stats.medium_density_buildings as usize,
        10 * zones(DensityClass::MediumDensity)
    );
    assert_eq!(city.stats.skyscrapers as usize, 6 * zones(DensityClass::HighDensity));
    assert_eq!(
        city.stats.trees as usize,
        18 * (zones(DensityClass::LowDensity) + zones(DensityClass::MediumDensity))
    );
}

#[test]
fn every_variant_is_in_the_catalog_and_every_car_on_a_lane() {
    let city = city(1234, 4);
    for placement in &city.scene.placements {
        match placement.asset {
            AssetRef::Car { variant } => assert!(variant < 8),
            AssetRef::Tree { species } => assert!(species < 2),
            AssetRef::LowDensityBuilding { mesh, material } => assert!(mesh < 12 && material < 4),
            AssetRef::MediumDensityBuilding { mesh, material } => assert!(mesh < 7 && material < 3),
            AssetRef::Skyscraper { mesh, material } => assert!(mesh < 7 && material < 3),
            _ => {}
        }
    }
    for car in &city.scene.cars {
        assert!(car.road_segment < city.scene.road_segments.len());
        assert!(car.distance_traveled <= city.scene.road_segments[car.road_segment].length());
    }
}

#[test]
fn the_cars_of_a_city_move() {
    let mut city = city(42, 2);
    let settings = Settings { move_cars: true, ..Settings::default() };
    let before = city.scene.cars.clone();
    assert!(!before.is_empty());
    let positions = move_cars(&mut city.scene.cars, &city.scene.road_segments, 10_000, &settings);
    for ((old, new), position) in before.iter().zip(&city.scene.cars).zip(&positions) {
        let lane = &city.scene.road_segments[old.road_segment];
        let reached = old.distance_traveled + 200;
        let expected = if reached > lane.length() { 0 } else { reached };
        assert_eq!(new.distance_traveled, expected);
        assert_eq!(*position, Some(lane.position_at(expected)));
    }
}

#[test]
fn zones_follow_the_samples() {
    let noise = vec![-500_000, -100_000, 0, 200_000, 300_000, 400_000, 900_000, -100_001, 199_999];
    let city = generate_city(7, 1, &noise, &catalog()).unwrap();
    assert_eq!(
        city.zones,
        vec![
            DensityClass::Rural,
            DensityClass::LowDensity,
            DensityClass::LowDensity,
            DensityClass::MediumDensity,
            DensityClass::MediumDensity,
            DensityClass::HighDensity,
            DensityClass::HighDensity,
            DensityClass::Rural,
            DensityClass::LowDensity,
        ]
    );
    assert_eq!(city.stats.low_density_buildings, 12);
    assert_eq!(city.stats.medium_density_buildings, 20);
    assert_eq!(city.stats.skyscrapers, 12);
    assert_eq!(city.stats.trees, 18 * 5);
    assert_eq!(count(&city.scene.placements, AssetKind::Fence), 21);
    assert_eq!(count(&city.scene.placements, AssetKind::PathStones), 22);
}

#[test]
fn blocks_tile_the_ground() {
    assert_eq!(BlockCoordinate { bx: 0, bz: 0 }.offset(), Point3::new(0, 0, 0));
    assert_eq!(BlockCoordinate { bx: 3, bz: -2 }.offset(), Point3::new(165_000, 0, -80_000));
    assert_eq!(
        BlockCoordinate { bx: i32::MIN, bz: i32::MAX }.offset(),
        Point3::new(i32::MIN as i64 * BLOCK_WIDTH, 0, i32::MAX as i64 * BLOCK_DEPTH)
    );
    // Neighbours start where a block ends.
    let here = BlockCoordinate { bx: -7, bz: 12 }.offset();
    let next_x = BlockCoordinate { bx: -6, bz: 12 }.offset();
    let next_z = BlockCoordinate { bx: -7, bz: 13 }.offset();
    assert_eq!(next_x.x - here.x, BLOCK_WIDTH);
    assert_eq!(next_z.z - here.z, BLOCK_DEPTH);
    assert_eq!((next_x.z, next_z.x), (here.z, here.x));
    // The block of a point is the point divided by the size of a block.
    let covers = |c: BlockCoordinate, x: i64, z: i64| {
        let o = c.offset();
        o.x <= x && x < o.x + BLOCK_WIDTH && o.z <= z && z < o.z + BLOCK_DEPTH
    };
    for (x, z) in [(0i64, 0i64), (54_999, 39_999), (55_000, 40_000), (-1, -1), (-110_001, 79_999)] {
        let c = BlockCoordinate {
            bx: x.div_euclid(BLOCK_WIDTH) as i32,
            bz: z.div_euclid(BLOCK_DEPTH) as i32,
        };
        assert!(covers(c, x, z));
        for (dx, dz) in [(1, 0), (-1, 0), (0, 1), (0, -1)] {
            assert!(!covers(BlockCoordinate { bx: c.bx + dx, bz: c.bz + dz }, x, z));
        }
    }
}

#[test]
fn the_city_of_the_default_configuration() {
    let city = city(DEFAULT_SEED, DEFAULT_GRID_RADIUS);
    assert_eq!(city.zones.len(), 41 * 41);
    assert_eq!(city.scene.road_segments.len(), 4 * 41 * 41);
    assert_eq!(city.stats.road_segments, 3 * 41 * 41);
    let zones = |zone: DensityClass| city.zones.iter().filter(|z| **z == zone).count();
    // The noise gives every zone its share of a city of this size.
    assert!(zones(DensityClass::Rural) > 0);
    assert!(zones(DensityClass::LowDensity) > 0);
    assert!(zones(DensityClass::MediumDensity) > 0);
    assert!(zones(DensityClass::HighDensity) > 0);
    // About a quarter of the thirty slots of a block hold a car.
    let cars = city.scene.cars.len();
    assert!(cars > 41 * 41 * 30 / 5 && cars < 41 * 41 * 30 / 3);
}
