use city_gen::assets::{
    draw_building, AssetKind, AssetRef, BuildingPick, GroundMaterial, PlacementRequest,
};
use city_gen::city::{
    density_of, ground_placement, spawn_city_block, AssetCatalog, DensityClass, NOISE_ONE,
};
use city_gen::error::ConfigError;
use city_gen::geometry::{Point3, Transform, UNIT};
use city_gen::low_density::{
    fence_placement, house_placement, spawn_low_density, LowDensityBuildings,
};
use city_gen::medium_density::{
    building_placement, spawn_medium_density, stone_placement, tree_pairs, MediumDensityBuildings,
};
use city_gen::roads_and_cars::{
    car_spawns, spawn_roads_and_cars, Car, Lane, RoadsAndCarsAssets, CAR_DENSITY, CAR_SPEED,
};
use city_gen::rng::{fraction_of, random_fraction, FRACTION_ONE};
use city_gen::scene::Scene;
use city_gen::skyscrapers::{spawn_high_density, tower_placement, SkyscraperBuildings};
use city_gen::stats::SceneStats;
use rand::rngs::SmallRng;
use rand::{RngExt, SeedableRng};

fn catalog() -> AssetCatalog {
    AssetCatalog {
        roads_and_cars: RoadsAndCarsAssets::new(8).unwrap(),
        low_density: LowDensityBuildings::new(12, 4).unwrap(),
        medium_density: MediumDensityBuildings::new(7, 3).unwrap(),
        skyscrapers: SkyscraperBuildings::new(7, 3).unwrap(),
    }
}

fn count(placements: &[PlacementRequest], kind: AssetKind) -> usize {
    placements.iter().filter(|p| p.asset.kind() == kind).count()
}

fn at(x: i64, y: i64, z: i64) -> Transform {
    Transform::from_translation(Point3::new(x, y, z))
}

#[test]
fn an_empty_pool_is_refused() {
    assert_eq!(RoadsAndCarsAssets::new(0), Err(ConfigError::EmptyAssetPool));
    assert_eq!(LowDensityBuildings::new(0, 4), Err(ConfigError::EmptyAssetPool));
    assert_eq!(LowDensityBuildings::new(5, 0), Err(ConfigError::EmptyAssetPool));
    assert_eq!(MediumDensityBuildings::new(0, 3), Err(ConfigError::EmptyAssetPool));
    assert_eq!(MediumDensityBuildings::new(7, 0), Err(ConfigError::EmptyAssetPool));
    assert_eq!(SkyscraperBuildings::new(0, 0), Err(ConfigError::EmptyAssetPool));
    let pool = LowDensityBuildings::new(12, 4).unwrap();
    assert_eq!(pool.meshes(), 12);
    assert_eq!(pool.materials(), 4);
    assert_eq!(RoadsAndCarsAssets::new(8).unwrap().cars(), 8);
}

#[test]
fn a_fraction_is_the_high_bits_of_a_word() {
    assert_eq!(fraction_of(0), 0);
    assert_eq!(fraction_of(255), 0);
    assert_eq!(fraction_of(256), 1);
    assert_eq!(fraction_of(u32::MAX), FRACTION_ONE - 1);
    assert_eq!(fraction_of(0xC000_0000), CAR_DENSITY);
}

#[test]
fn a_slot_gets_a_car_above_three_quarters() {
    assert_eq!(CAR_DENSITY as u64 * 4, FRACTION_ONE as u64 * 3);
    assert!(!car_spawns(0));
    assert!(!car_spawns(CAR_DENSITY));
    assert!(car_spawns(CAR_DENSITY + 1));
    assert!(car_spawns(FRACTION_ONE - 1));
}

#[test]
fn fractions_are_the_floats_that_the_generator_draws() {
    let mut ours = SmallRng::seed_from_u64(42);
    let mut theirs = SmallRng::seed_from_u64(42);
    let mut spawned = 0;
    for _ in 0..10_000 {
        let fraction = random_fraction(&mut ours);
        let float: f32 = theirs.random();
        assert_eq!(fraction as f32 / FRACTION_ONE as f32, float);
        assert_eq!(car_spawns(fraction), float > 0.75);
        if car_spawns(fraction) {
            spawned += 1;
        }
    }
    // About a quarter of the slots.
    assert!(2_300 < spawned && spawned < 2_700);
    assert_eq!(ours, theirs);
}

#[test]
fn a_building_is_a_mesh_and_then_a_material() {
    let mut ours = SmallRng::seed_from_u64(7);
    let mut theirs = SmallRng::seed_from_u64(7);
    let mut meshes_seen = [false; 12];
    let mut materials_seen = [false; 4];
    for _ in 0..500 {
        let pick = draw_building(&mut ours, 12, 4);
        let mesh: usize = theirs.random_range(0..12);
        let material: usize = theirs.random_range(0..4);
        assert_eq!(pick, BuildingPick { mesh, material });
        meshes_seen[pick.mesh] = true;
        materials_seen[pick.material] = true;
    }
    assert!(meshes_seen.iter().all(|seen| *seen));
    assert!(materials_seen.iter().all(|seen| *seen));
    assert_eq!(ours, theirs);

    let pool = MediumDensityBuildings::new(7, 3).unwrap();
    let pick = pool.random_building(&mut ours);
    assert_eq!(pick.mesh, theirs.random_range(0..7usize));
    assert_eq!(pick.material, theirs.random_range(0..3usize));
    let towers = SkyscraperBuildings::new(5, 2).unwrap();
    let pick = towers.random_building(&mut ours);
    assert_eq!(pick.mesh, theirs.random_range(0..5usize));
    assert_eq!(pick.material, theirs.random_range(0..2usize));
    let cars = RoadsAndCarsAssets::new(8).unwrap();
    assert_eq!(cars.random_car(&mut ours), theirs.random_range(0..8usize));
}

#[test]
fn roads_of_a_block() {
    let offset = Point3::new(55_000, 0, -40_000);
    let mut scene = Scene::new();
    let mut stats = SceneStats::default();
    let mut rng = SmallRng::seed_from_u64(42);
    spawn_roads_and_cars(&mut scene, &mut stats, &mut rng, offset, &catalog().roads_and_cars);

    assert_eq!(
        scene.placements[0],
        PlacementRequest { asset: AssetRef::Crossroad, transform: at(55_000, 0, -40_000) }
    );
    assert_eq!(
        scene.placements[1],
        PlacementRequest {
            asset: AssetRef::RoadStraight,
            transform: at(82_500, 0, -40_000).with_scale(Point3::new(45_000, UNIT, UNIT)),
        }
    );
    assert_eq!(
        scene.placements[2],
        PlacementRequest {
            asset: AssetRef::RoadStraight,
            transform: at(55_000, 0, -20_000)
                .with_scale(Point3::new(30_000, UNIT, UNIT))
                .with_rotation(1),
        }
    );
    assert_eq!(
        scene.road_segments,
        vec![
            Lane::XForward.segment(offset),
            Lane::XReverse.segment(offset),
            Lane::ZForward.segment(offset),
            Lane::ZReverse.segment(offset),
        ]
    );
    assert_eq!(stats.road_segments, 3);
    assert_eq!(count(&scene.placements, AssetKind::Crossroad), 1);
    assert_eq!(count(&scene.placements, AssetKind::RoadStraight), 2);
    assert_eq!(scene.placements.len(), 3 + scene.cars.len());
    assert_eq!(stats.cars_spawned as usize, scene.cars.len());
    assert!(scene.cars.len() <= 30);
    assert_eq!(stats.trees + stats.low_density_buildings + stats.skyscrapers, 0);
}

#[test]
fn cars_of_a_block_follow_the_draws() {
    let offset = Point3::new(-110_000, 0, 80_000);
    let mut scene = Scene::new();
    // Lanes registered before the block shift the indices of its own.
    scene.spawn_segment(Lane::XForward.segment(Point3::new(0, 0, 0)));
    let mut stats = SceneStats::default();
    let mut rng = SmallRng::seed_from_u64(2024);
    let mut theirs = SmallRng::seed_from_u64(2024);
    spawn_roads_and_cars(&mut scene, &mut stats, &mut rng, offset, &catalog().roads_and_cars);

    let mut placements = Vec::new();
    let mut cars = Vec::new();
    let lanes = [
        (Lane::XForward, Lane::XReverse, 9usize, 1usize, 5_500u64),
        (Lane::ZForward, Lane::ZReverse, 6, 3, 5_000),
    ];
    for (forward, reverse, slots, first, stagger) in lanes {
        for slot in 0..slots {
            for (lane, segment) in [(forward, first), (reverse, first + 1)] {
                if theirs.random::<f32>() > 0.75 {
                    let variant: usize = theirs.random_range(0..8);
                    placements.push(lane.car_placement(slot, variant, offset));
                    cars.push(Car {
                        road_segment: segment,
                        speed: CAR_SPEED,
                        distance_traveled: slot as u64 * stagger,
                    });
                }
            }
        }
    }
    assert!(!cars.is_empty());
    assert_eq!(&scene.placements[3..], &placements[..]);
    assert_eq!(scene.cars, cars);
    assert_eq!(rng, theirs);
    for car in &scene.cars {
        assert!(car.distance_traveled <= scene.road_segments[car.road_segment].length());
    }
}

#[test]
fn where_the_cars_of_the_lanes_stand() {
    let offset = Point3::new(1_000, 2_000, 3_000);
    let scale = Point3::splat(1_500);
    assert_eq!(
        Lane::XForward.car_placement(0, 5, offset),
        PlacementRequest {
            asset: AssetRef::Car { variant: 5 },
            transform: at(8_500, 2_000, 4_500).with_scale(scale).with_rotation(-3),
        }
    );
    assert_eq!(
        Lane::XReverse.car_placement(8, 0, offset),
        PlacementRequest {
            asset: AssetRef::Car { variant: 0 },
            transform: at(48_500, 2_000, 1_500).with_scale(scale).with_rotation(-1),
        }
    );
    assert_eq!(
        Lane::ZForward.car_placement(2, 1, offset),
        PlacementRequest {
            asset: AssetRef::Car { variant: 1 },
            transform: at(-500, 2_000, 20_500).with_scale(scale),
        }
    );
    assert_eq!(
        Lane::ZReverse.car_placement(5, 7, offset),
        PlacementRequest {
            asset: AssetRef::Car { variant: 7 },
            transform: at(2_500, 2_000, 35_500).with_scale(scale).with_rotation(2),
        }
    );
    assert_eq!(
        Lane::XForward.car(8, 3),
        Car { road_segment: 3, speed: 20_000, distance_traveled: 44_000 }
    );
    assert_eq!(
        Lane::ZReverse.car(5, 0),
        Car { road_segment: 0, speed: 20_000, distance_traveled: 25_000 }
    );
}

#[test]
fn low_density_block_counts_do_not_depend_on_the_seed() {
    for seed in [0u64, 1, 42, 7_777, u64::MAX] {
        let mut scene = Scene::new();
        let mut stats = SceneStats::default();
        let mut rng = SmallRng::seed_from_u64(seed);
        let class = spawn_city_block(
            &mut scene,
            &mut stats,
            &mut rng,
            Point3::new(0, 0, 0),
            0,
            &catalog(),
        );
        assert_eq!(class, DensityClass::LowDensity);
        assert_eq!(count(&scene.placements, AssetKind::Tree), 18);
        assert_eq!(count(&scene.placements, AssetKind::Fence), 7);
        assert_eq!(count(&scene.placements, AssetKind::LowDensityBuilding), 4);
        assert_eq!(count(&scene.placements, AssetKind::GroundTile), 1);
        assert_eq!(count(&scene.placements, AssetKind::Crossroad), 1);
        assert_eq!(count(&scene.placements, AssetKind::RoadStraight), 2);
        assert_eq!(count(&scene.placements, AssetKind::MediumDensityBuilding), 0);
        assert_eq!(count(&scene.placements, AssetKind::Skyscraper), 0);
        assert_eq!(count(&scene.placements, AssetKind::PathStones), 0);
        let ground = scene
            .placements
            .iter()
            .find(|p| p.asset.kind() == AssetKind::GroundTile)
            .unwrap();
        assert_eq!(ground.asset, AssetRef::GroundTile { surface: GroundMaterial::Grass });
        assert_eq!(stats.trees, 18);
        assert_eq!(stats.low_density_buildings, 4);
        assert_eq!(stats.road_segments, 3);
    }
}

#[test]
fn low_density_block_layout() {
    let offset = Point3::new(55_000, 0, 40_000);
    let mut scene = Scene::new();
    let mut stats = SceneStats::default();
    let mut rng = SmallRng::seed_from_u64(9);
    let mut theirs = SmallRng::seed_from_u64(9);
    let pool = LowDensityBuildings::new(12, 4).unwrap();
    spawn_low_density(&mut scene, &mut stats, &mut rng, offset, &pool);
    assert_eq!(scene.placements.len(), 29);
    assert!(scene.road_segments.is_empty() && scene.cars.is_empty());

    let tree = AssetRef::Tree { species: 0 };
    assert_eq!(
        scene.placements[0],
        PlacementRequest { asset: tree, transform: at(62_500, 0, 47_500) }
    );
    assert_eq!(
        scene.placements[1],
        PlacementRequest { asset: tree, transform: at(102_500, 0, 47_500) }
    );
    assert_eq!(
        scene.placements[2],
        PlacementRequest { asset: tree, transform: at(62_500, 0, 50_500) }
    );
    assert_eq!(
        scene.placements[17],
        PlacementRequest { asset: tree, transform: at(102_500, 0, 71_500) }
    );
    for i in 0..7 {
        assert_eq!(
            scene.placements[18 + i],
            PlacementRequest {
                asset: AssetRef::Fence,
                transform: at(82_500, 0, 47_500 + 4_000 * i as i64).with_rotation(1),
            }
        );
        assert_eq!(scene.placements[18 + i], fence_placement(offset, i));
    }
    let spots = [
        at(73_000, 0, 52_500),
        at(73_000, 0, 67_500).with_rotation(2),
        at(91_000, 0, 52_500),
        at(91_000, 0, 67_500).with_rotation(2),
    ];
    for (k, spot) in spots.iter().enumerate() {
        let mesh: usize = theirs.random_range(0..12);
        let material: usize = theirs.random_range(0..4);
        assert_eq!(
            scene.placements[25 + k],
            PlacementRequest {
                asset: AssetRef::LowDensityBuilding { mesh, material },
                transform: *spot,
            }
        );
        assert_eq!(
            scene.placements[25 + k],
            house_placement(offset, k, BuildingPick { mesh, material })
        );
    }
    assert_eq!(rng, theirs);
}

#[test]
fn medium_density_block_layout() {
    let offset = Point3::new(0, 0, -40_000);
    let mut scene = Scene::new();
    let mut stats = SceneStats::default();
    let mut rng = SmallRng::seed_from_u64(31);
    let mut theirs = SmallRng::seed_from_u64(31);
    let pool = MediumDensityBuildings::new(7, 3).unwrap();
    spawn_medium_density(&mut scene, &mut stats, &mut rng, offset, &pool);

    assert_eq!(scene.placements.len(), 39);
    assert_eq!(count(&scene.placements, AssetKind::MediumDensityBuilding), 10);
    assert_eq!(count(&scene.placements, AssetKind::Tree), 18);
    assert_eq!(count(&scene.placements, AssetKind::PathStones), 11);
    assert_eq!(stats.medium_density_buildings, 10);
    assert_eq!(stats.trees, 18);

    let species: usize = theirs.random_range(0..2);
    let tree = AssetRef::Tree { species };
    let mut expected = Vec::new();
    for x in 1..=5i64 {
        let mesh: usize = theirs.random_range(0..7);
        let material: usize = theirs.random_range(0..3);
        expected.push(PlacementRequest {
            asset: AssetRef::MediumDensityBuilding { mesh, material },
            transform: at(x * 9_000, 0, -30_000),
        });
        for pair in 0..2i64 {
            if x == 5 && pair == 1 {
                break;
            }
            expected.push(PlacementRequest {
                asset: tree,
                transform: at(pair * 5_000 + x * 9_000, 0, -22_500),
            });
            expected.push(PlacementRequest {
                asset: tree,
                transform: at(pair * 5_000 + x * 9_000, 0, -17_500),
            });
        }
        let mesh: usize = theirs.random_range(0..7);
        let material: usize = theirs.random_range(0..3);
        expected.push(PlacementRequest {
            asset: AssetRef::MediumDensityBuilding { mesh, material },
            transform: at(x * 9_000, 0, -10_000).with_rotation(2),
        });
    }
    for x in 0..=10i64 {
        expected.push(PlacementRequest {
            asset: AssetRef::PathStones,
            transform: at(7_500 + x * 4_000, 200, -20_000)
                .with_scale(Point3::new(10_000, 20_000, 10_000))
                .with_rotation(1),
        });
    }
    assert_eq!(scene.placements, expected);
    assert_eq!(rng, theirs);

    assert_eq!(tree_pairs(1), 2);
    assert_eq!(tree_pairs(4), 2);
    assert_eq!(tree_pairs(5), 1);
    let pick = BuildingPick { mesh: 6, material: 2 };
    assert_eq!(building_placement(offset, 3, false, pick).transform, at(27_000, 0, -30_000));
    assert_eq!(
        building_placement(offset, 3, true, pick).transform,
        at(27_000, 0, -10_000).with_rotation(2)
    );
    assert_eq!(stone_placement(offset, 10), expected[38]);
}

#[test]
fn high_density_block_layout() {
    let offset = Point3::new(-55_000, 0, 0);
    let mut scene = Scene::new();
    let mut stats = SceneStats::default();
    let mut rng = SmallRng::seed_from_u64(5);
    let mut theirs = SmallRng::seed_from_u64(5);
    let pool = SkyscraperBuildings::new(7, 3).unwrap();
    spawn_high_density(&mut scene, &mut stats, &pool, &mut rng, offset);

    let mut expected = Vec::new();
    for x in 0..3i64 {
        let mesh: usize = theirs.random_range(0..7);
        let material: usize = theirs.random_range(0..3);
        expected.push(PlacementRequest {
            asset: AssetRef::Skyscraper { mesh, material },
            transform: at(-55_000 + 12_500 + x * 15_000, 0, 12_500),
        });
        let mesh: usize = theirs.random_range(0..7);
        let material: usize = theirs.random_range(0..3);
        expected.push(PlacementRequest {
            asset: AssetRef::Skyscraper { mesh, material },
            transform: at(-55_000 + 12_500 + x * 15_000, 0, 27_500).with_rotation(2),
        });
    }
    assert_eq!(scene.placements, expected);
    assert_eq!(stats.skyscrapers, 6);
    assert_eq!(stats, SceneStats { skyscrapers: 6, ..SceneStats::default() });
    assert_eq!(rng, theirs);
    assert_eq!(
        tower_placement(offset, 5, BuildingPick { mesh: 1, material: 2 }),
        PlacementRequest {
            asset: AssetRef::Skyscraper { mesh: 1, material: 2 },
            transform: at(-12_500, 0, 27_500).with_rotation(2),
        }
    );
}

#[test]
fn ground_tile_is_centred_under_the_block() {
    let offset = Point3::new(55_000, 0, 40_000);
    assert_eq!(
        ground_placement(offset, DensityClass::Rural),
        PlacementRequest {
            asset: AssetRef::GroundTile { surface: GroundMaterial::Grass },
            transform: at(82_500, -5, 60_000).with_scale(Point3::new(45_000, 10_000, 30_000)),
        }
    );
    assert_eq!(
        ground_placement(offset, DensityClass::HighDensity).asset,
        AssetRef::GroundTile { surface: GroundMaterial::Paved }
    );
}

#[test]
fn a_block_of_each_zone() {
    let samples = [
        (-NOISE_ONE, DensityClass::Rural, 0usize),
        (-100_001, DensityClass::Rural, 0),
        (-100_000, DensityClass::LowDensity, 29),
        (199_999, DensityClass::LowDensity, 29),
        (200_000, DensityClass::MediumDensity, 39),
        (399_999, DensityClass::MediumDensity, 39),
        (400_000, DensityClass::HighDensity, 6),
        (NOISE_ONE, DensityClass::HighDensity, 6),
    ];
    for (noise, zone, content) in samples {
        let mut scene = Scene::new();
        let mut stats = SceneStats::default();
        let mut rng = SmallRng::seed_from_u64(42);
        let class = spawn_city_block(
            &mut scene,
            &mut stats,
            &mut rng,
            Point3::new(0, 0, 0),
            noise,
            &catalog(),
        );
        assert_eq!(class, zone);
        assert_eq!(class, city_gen::city::classify(density_of(noise)));
        // The roads, the cars, the ground tile, and what the zone puts there.
        assert_eq!(scene.placements.len(), 3 + scene.cars.len() + 1 + content);
        assert_eq!(scene.placements[3 + scene.cars.len()].asset.kind(), AssetKind::GroundTile);
        assert_eq!(scene.road_segments.len(), 4);
        let counted = count(&scene.placements, AssetKind::Car)
            + count(&scene.placements, AssetKind::LowDensityBuilding)
            + count(&scene.placements, AssetKind::MediumDensityBuilding)
            + count(&scene.placements, AssetKind::Skyscraper)
            + count(&scene.placements, AssetKind::Crossroad)
            + count(&scene.placements, AssetKind::RoadStraight)
            + count(&scene.placements, AssetKind::Tree);
        assert_eq!(stats.total(), counted as u64);
    }
}
