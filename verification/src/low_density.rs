//! Low density blocks: two rows of small trees, a line of fences between
//! them, and four houses.

use crate::assets::{
    building_draws, count_kind, draw_building, lemma_count_append, lemma_count_uniform, AssetKind,
    AssetRef, BuildingPick, PlacementRequest, TREE_SMALL,
};
use crate::error::ConfigError;
use crate::geometry::{Point3, Transform};
use crate::rng::rng_state;
use crate::scene::Scene;
use crate::stats::SceneStats;
use rand::rngs::SmallRng;
use vstd::prelude::*;

verus! {

/// How many trees each of the two rows has.
pub const TREE_ROWS: usize = 9;

/// How many fences the line between the rows has.
pub const FENCES: usize = 7;

/// How many houses a block has: two pairs.
pub const HOUSES: usize = 4;

/// The houses of the asset catalog: how many meshes and how many materials
/// there are. There is at least one of each.
#[derive(Clone, Copy, Debug, PartialEq, Eq)]
pub struct LowDensityBuildings {
    meshes: usize,
    materials: usize,
}

impl LowDensityBuildings {
    pub closed spec fn spec_meshes(self) -> usize {
        self.meshes
    }

    pub closed spec fn spec_materials(self) -> usize {
        self.materials
    }

    #[verifier::type_invariant]
    closed spec fn inv(self) -> bool {
        self.meshes > 0 && self.materials > 0
    }

    /// The pool of the given sizes. One without a mesh or without a material
    /// is refused.
    pub fn new(meshes: usize, materials: usize) -> (r: Result<LowDensityBuildings, ConfigError>)
        ensures
            meshes > 0 && materials > 0 ==> r is Ok && r->Ok_0.spec_meshes() == meshes
                && r->Ok_0.spec_materials() == materials,
            meshes == 0 || materials == 0 ==> r == Err::<LowDensityBuildings, ConfigError>(
                ConfigError::EmptyAssetPool,
            ),
    {
        if meshes == 0 || materials == 0 {
            Err(ConfigError::EmptyAssetPool)
        } else {
            Ok(LowDensityBuildings { meshes, materials })
        }
    }

    pub fn meshes(&self) -> (n: usize)
        ensures
            n == self.spec_meshes(),
            n > 0,
    {
        proof {
            use_type_invariant(self);
        }
        self.meshes
    }

    pub fn materials(&self) -> (n: usize)
        ensures
            n == self.spec_materials(),
            n > 0,
    {
        proof {
            use_type_invariant(self);
        }
        self.materials
    }

    /// Picks the look of a house: a mesh and a material, each on its own.
    pub fn random_building(&self, rng: &mut SmallRng) -> (pick: BuildingPick)
        ensures
            (pick, rng_state(*final(rng))) == crate::assets::building_draw(
                rng_state(*old(rng)),
                self.spec_meshes(),
                self.spec_materials(),
            ),
            pick.within(self.spec_meshes(), self.spec_materials()),
    {
        proof {
            use_type_invariant(self);
        }
        draw_building(rng, self.meshes, self.materials)
    }
}

/// The tree `k` of a block at `offset`. Trees alternate between the row on
/// the left and the row on the right, and each row runs along Z.
pub open spec fn spec_tree_placement(offset: Point3, k: int) -> PlacementRequest {
    PlacementRequest {
        asset: AssetRef::Tree { species: TREE_SMALL },
        transform: Transform::at(
            Point3 {
                x: if k % 2 == 0 {
                    7_500
                } else {
                    47_500
                },
                y: 0,
                z: (7_500 + (k / 2) * 3_000) as i64,
            }.plus(offset),
        ),
    }
}

/// The fence `i` of a block at `offset`: on the middle line, turned across.
pub open spec fn spec_fence_placement(offset: Point3, i: int) -> PlacementRequest {
    PlacementRequest {
        asset: AssetRef::Fence,
        transform: Transform::at(
            Point3 { x: 27_500, y: 0, z: (7_500 + i * 4_000) as i64 }.plus(offset),
        ).turned(1),
    }
}

/// The house `k` of a block at `offset`, with the look `pick`. Houses come
/// in pairs at one lateral slot: the first faces the block, the second
/// stands behind it and is turned half way round.
pub open spec fn spec_house_placement(offset: Point3, k: int, pick: BuildingPick) -> PlacementRequest {
    let at = Transform::at(
        Point3 {
            x: ((k / 2 + 1) * 18_000) as i64,
            y: 0,
            z: if k % 2 == 0 {
                12_500
            } else {
                27_500
            },
        }.plus(offset),
    );
    PlacementRequest {
        asset: AssetRef::LowDensityBuilding { mesh: pick.mesh, material: pick.material },
        transform: if k % 2 == 0 {
            at
        } else {
            at.turned(2)
        },
    }
}

/// The first `count` trees of a block.
pub open spec fn trees(offset: Point3, count: nat) -> Seq<PlacementRequest> {
    Seq::new(count, |k: int| spec_tree_placement(offset, k))
}

/// The first `count` fences of a block.
pub open spec fn fences(offset: Point3, count: nat) -> Seq<PlacementRequest> {
    Seq::new(count, |i: int| spec_fence_placement(offset, i))
}

/// The houses of a block, one for each look.
pub open spec fn houses(offset: Point3, picks: Seq<BuildingPick>) -> Seq<PlacementRequest> {
    Seq::new(picks.len(), |k: int| spec_house_placement(offset, k, picks[k]))
}

/// What a low density block at `offset` holds, for the looks of its four
/// houses: eighteen trees, seven fences, and the houses.
pub open spec fn low_density_block(offset: Point3, picks: Seq<BuildingPick>) -> Seq<
    PlacementRequest,
> {
    trees(offset, 2 * TREE_ROWS as nat) + fences(offset, FENCES as nat) + houses(offset, picks)
}

/// A low density block holds eighteen trees, seven fences and four houses,
/// and nothing else, whatever the looks of the houses.
pub proof fn lemma_low_density_count(offset: Point3, picks: Seq<BuildingPick>, kind: AssetKind)
    requires
        picks.len() == HOUSES,
    ensures
        count_kind(low_density_block(offset, picks), kind) == match kind {
            AssetKind::Tree => 18nat,
            AssetKind::Fence => 7nat,
            AssetKind::LowDensityBuilding => 4nat,
            _ => 0nat,
        },
{
    let t = trees(offset, 2 * TREE_ROWS as nat);
    let f = fences(offset, FENCES as nat);
    let h = houses(offset, picks);
    lemma_count_uniform(t, AssetKind::Tree, kind);
    lemma_count_uniform(f, AssetKind::Fence, kind);
    lemma_count_uniform(h, AssetKind::LowDensityBuilding, kind);
    lemma_count_append(t, f, kind);
    lemma_count_append(t + f, h, kind);
}

/// The tree `k` of a block.
pub fn tree_placement(offset: Point3, k: usize) -> (p: PlacementRequest)
    requires
        offset.in_world(),
        k < 2 * TREE_ROWS,
    ensures
        p == spec_tree_placement(offset, k as int),
{
    let x: i64 = if k % 2 == 0 {
        7_500
    } else {
        47_500
    };
    let z: i64 = 7_500 + ((k / 2) as i64) * 3_000;
    PlacementRequest::new(
        AssetRef::Tree { species: TREE_SMALL },
        Transform::from_translation(Point3::new(x, 0, z).translate(offset)),
    )
}

/// The fence `i` of a block.
pub fn fence_placement(offset: Point3, i: usize) -> (p: PlacementRequest)
    requires
        offset.in_world(),
        i < FENCES,
    ensures
        p == spec_fence_placement(offset, i as int),
{
    let z: i64 = 7_500 + (i as i64) * 4_000;
    PlacementRequest::new(
        AssetRef::Fence,
        Transform::from_translation(Point3::new(27_500, 0, z).translate(offset)).with_rotation(1),
    )
}

/// The house `k` of a block, with the look `pick`.
pub fn house_placement(offset: Point3, k: usize, pick: BuildingPick) -> (p: PlacementRequest)
    requires
        offset.in_world(),
        k < HOUSES,
    ensures
        p == spec_house_placement(offset, k as int, pick),
{
    let x: i64 = ((k / 2 + 1) as i64) * 18_000;
    let asset = AssetRef::LowDensityBuilding { mesh: pick.mesh, material: pick.material };
    if k % 2 == 0 {
        PlacementRequest::new(
            asset,
            Transform::from_translation(Point3::new(x, 0, 12_500).translate(offset)),
        )
    } else {
        PlacementRequest::new(
            asset,
            Transform::from_translation(Point3::new(x, 0, 27_500).translate(offset)).with_rotation(
                2,
            ),
        )
    }
}

/// Spawns what a low density block at `offset` holds: the two rows of trees,
/// tree by tree across the rows, the fences, and the two pairs of houses,
/// each house with a look of its own drawn from the pool.
pub fn spawn_low_density(
    commands: &mut Scene,
    stats: &mut SceneStats,
    rng: &mut SmallRng,
    offset: Point3,
    low_density_buildings: &LowDensityBuildings,
)
    requires
        offset.in_world(),
        old(stats).trees <= u32::MAX - 18,
        old(stats).low_density_buildings <= u32::MAX - 4,
    ensures
        ({
            let (picks, state) = building_draws(
                rng_state(*old(rng)),
                low_density_buildings.spec_meshes(),
                low_density_buildings.spec_materials(),
                HOUSES as nat,
            );
            let added = low_density_block(offset, picks);
            &&& final(commands).placements@ == old(commands).placements@ + added
            &&& final(commands).road_segments@ == old(commands).road_segments@
            &&& final(commands).cars@ == old(commands).cars@
            &&& rng_state(*final(rng)) == state
            &&& final(stats).grown_by(*old(stats), added)
            &&& *final(stats) == SceneStats {
                trees: (old(stats).trees + 18) as u32,
                low_density_buildings: (old(stats).low_density_buildings + 4) as u32,
                ..*old(stats)
            }
            &&& picks.len() == HOUSES
            &&& forall|k: int|
                0 <= k < picks.len() ==> (#[trigger] picks[k]).within(
                    low_density_buildings.spec_meshes(),
                    low_density_buildings.spec_materials(),
                )
        }),
{
    let ghost placed = commands.placements@;
    let ghost state = rng_state(*rng);
    let ghost meshes = low_density_buildings.spec_meshes();
    let ghost materials = low_density_buildings.spec_materials();

    let mut z: usize = 0;
    assert(placed + trees(offset, 0) =~= placed);
    while z < TREE_ROWS
        invariant
            offset.in_world(),
            z <= TREE_ROWS,
            old(stats).trees <= u32::MAX - 18,
            commands.placements@ == placed + trees(offset, 2 * z as nat),
            commands.road_segments@ == old(commands).road_segments@,
            commands.cars@ == old(commands).cars@,
            rng_state(*rng) == state,
            *stats == (SceneStats { trees: (old(stats).trees + 2 * z) as u32, ..*old(stats) }),
        decreases TREE_ROWS - z,
    {
        commands.spawn(tree_placement(offset, 2 * z));
        stats.trees += 1;
        commands.spawn(tree_placement(offset, 2 * z + 1));
        stats.trees += 1;
        assert(trees(offset, 2 * z as nat).push(spec_tree_placement(offset, 2 * z)).push(
            spec_tree_placement(offset, 2 * z + 1),
        ) =~= trees(offset, 2 * (z + 1) as nat));
        z += 1;
    }
    let ghost with_trees = placed + trees(offset, 2 * TREE_ROWS as nat);

    let mut i: usize = 0;
    assert(with_trees + fences(offset, 0) =~= with_trees);
    while i < FENCES
        invariant
            offset.in_world(),
            i <= FENCES,
            commands.placements@ == with_trees + fences(offset, i as nat),
            commands.road_segments@ == old(commands).road_segments@,
            commands.cars@ == old(commands).cars@,
            rng_state(*rng) == state,
            *stats == (SceneStats { trees: (old(stats).trees + 18) as u32, ..*old(stats) }),
        decreases FENCES - i,
    {
        commands.spawn(fence_placement(offset, i));
        assert(fences(offset, i as nat).push(spec_fence_placement(offset, i as int)) =~= fences(
            offset,
            (i + 1) as nat,
        ));
        i += 1;
    }
    let ghost with_fences = with_trees + fences(offset, FENCES as nat);

    let mut k: usize = 0;
    assert(with_fences + houses(offset, Seq::empty()) =~= with_fences);
    while k < HOUSES
        invariant
            offset.in_world(),
            k <= HOUSES,
            old(stats).low_density_buildings <= u32::MAX - 4,
            meshes == low_density_buildings.spec_meshes(),
            materials == low_density_buildings.spec_materials(),
            commands.road_segments@ == old(commands).road_segments@,
            commands.cars@ == old(commands).cars@,
            ({
                let (picks, after) = building_draws(state, meshes, materials, k as nat);
                &&& picks.len() == k
                &&& commands.placements@ == with_fences + houses(offset, picks)
                &&& rng_state(*rng) == after
                &&& forall|j: int| 0 <= j < k ==> (#[trigger] picks[j]).within(meshes, materials)
            }),
            *stats == (SceneStats {
                trees: (old(stats).trees + 18) as u32,
                low_density_buildings: (old(stats).low_density_buildings + k) as u32,
                ..*old(stats)
            }),
        decreases HOUSES - k,
    {
        let ghost picks = building_draws(state, meshes, materials, k as nat).0;
        let pick = low_density_buildings.random_building(rng);
        commands.spawn(house_placement(offset, k, pick));
        stats.low_density_buildings += 1;
        assert(houses(offset, picks).push(spec_house_placement(offset, k as int, pick)) =~= houses(
            offset,
            picks.push(pick),
        ));
        k += 1;
    }
    proof {
        let picks = building_draws(state, meshes, materials, HOUSES as nat).0;
        let added = low_density_block(offset, picks);
        assert(commands.placements@ =~= placed + added);
        lemma_low_density_count(offset, picks, AssetKind::Car);
        lemma_low_density_count(offset, picks, AssetKind::LowDensityBuilding);
        lemma_low_density_count(offset, picks, AssetKind::MediumDensityBuilding);
        lemma_low_density_count(offset, picks, AssetKind::Skyscraper);
        lemma_low_density_count(offset, picks, AssetKind::Crossroad);
        lemma_low_density_count(offset, picks, AssetKind::RoadStraight);
        lemma_low_density_count(offset, picks, AssetKind::Tree);
    }
}

} // verus!
