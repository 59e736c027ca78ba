//! High density blocks: three pairs of skyscrapers.

use crate::assets::{
    building_draws, count_kind, draw_building, lemma_count_uniform, AssetKind, AssetRef,
    BuildingPick, PlacementRequest,
};
use crate::error::ConfigError;
use crate::geometry::{Point3, Transform};
use crate::rng::rng_state;
use crate::scene::Scene;
use crate::stats::SceneStats;
use rand::rngs::SmallRng;
use vstd::prelude::*;

verus! {

/// How many skyscrapers a block has: three pairs.
pub const TOWERS: usize = 6;

/// The skyscrapers of the asset catalog: how many meshes and how many
/// materials there are. There is at least one of each.
#[derive(Clone, Copy, Debug, PartialEq, Eq)]
pub struct SkyscraperBuildings {
    meshes: usize,
    materials: usize,
}

impl SkyscraperBuildings {
    pub closed spec fn spec_meshes(self) -> usize {
        self.meshes
    }

    pub closed spec fn spec_materials(self) -> usize {
        self.materials
    }

    #[verifier::type_invariant]
    closed spec fn inv(self) -> bool {
        self.meshes > 0 && self.materials > 0
    }

    /// The pool of the given sizes. One without a mesh or without a material
    /// is refused.
    pub fn new(meshes: usize, materials: usize) -> (r: Result<SkyscraperBuildings, ConfigError>)
        ensures
            meshes > 0 && materials > 0 ==> r is Ok && r->Ok_0.spec_meshes() == meshes
                && r->Ok_0.spec_materials() == materials,
            meshes == 0 || materials == 0 ==> r == Err::<SkyscraperBuildings, ConfigError>(
                ConfigError::EmptyAssetPool,
            ),
    {
        if meshes == 0 || materials == 0 {
            Err(ConfigError::EmptyAssetPool)
        } else {
            Ok(SkyscraperBuildings { meshes, materials })
        }
    }

    pub fn meshes(&self) -> (n: usize)
        ensures
            n == self.spec_meshes(),
            n > 0,
    {
        proof {
            use_type_invariant(self);
        }
        self.meshes
    }

    pub fn materials(&self) -> (n: usize)
        ensures
            n == self.spec_materials(),
            n > 0,
    {
        proof {
            use_type_invariant(self);
        }
        self.materials
    }

    /// Picks the look of a skyscraper: a mesh and a material, each on its
    /// own.
    pub fn random_building(&self, rng: &mut SmallRng) -> (pick: BuildingPick)
        ensures
            (pick, rng_state(*final(rng))) == crate::assets::building_draw(
                rng_state(*old(rng)),
                self.spec_meshes(),
                self.spec_materials(),
            ),
            pick.within(self.spec_meshes(), self.spec_materials()),
    {
        proof {
            use_type_invariant(self);
        }
        draw_building(rng, self.meshes, self.materials)
    }
}

/// The skyscraper `k` of a block at `offset`, with the look `pick`.
/// Skyscrapers come in pairs at one slot along X: the first in front, the
/// second behind it and turned half way round.
pub open spec fn spec_tower_placement(offset: Point3, k: int, pick: BuildingPick) -> PlacementRequest {
    let at = Transform::at(
        Point3 {
            x: (12_500 + (k / 2) * 15_000) as i64,
            y: 0,
            z: if k % 2 == 0 {
                12_500
            } else {
                27_500
            },
        }.plus(offset),
    );
    PlacementRequest {
        asset: AssetRef::Skyscraper { mesh: pick.mesh, material: pick.material },
        transform: if k % 2 == 0 {
            at
        } else {
            at.turned(2)
        },
    }
}

/// What a high density block at `offset` holds: one skyscraper for each
/// look.
pub open spec fn high_density_block(offset: Point3, picks: Seq<BuildingPick>) -> Seq<
    PlacementRequest,
> {
    Seq::new(picks.len(), |k: int| spec_tower_placement(offset, k, picks[k]))
}

/// A high density block holds as many skyscrapers as looks, and nothing
/// else.
pub proof fn lemma_high_density_count(offset: Point3, picks: Seq<BuildingPick>, kind: AssetKind)
    ensures
        count_kind(high_density_block(offset, picks), kind) == if kind == AssetKind::Skyscraper {
            picks.len()
        } else {
            0
        },
{
    lemma_count_uniform(high_density_block(offset, picks), AssetKind::Skyscraper, kind);
}

/// The skyscraper `k` of a block, with the look `pick`.
pub fn tower_placement(offset: Point3, k: usize, pick: BuildingPick) -> (p: PlacementRequest)
    requires
        offset.in_world(),
        k < TOWERS,
    ensures
        p == spec_tower_placement(offset, k as int, pick),
{
    let x: i64 = 12_500 + ((k / 2) as i64) * 15_000;
    let asset = AssetRef::Skyscraper { mesh: pick.mesh, material: pick.material };
    if k % 2 == 0 {
        PlacementRequest::new(
            asset,
            Transform::from_translation(Point3::new(x, 0, 12_500).translate(offset)),
        )
    } else {
        PlacementRequest::new(
            asset,
            Transform::from_translation(Point3::new(x, 0, 27_500).translate(offset)).with_rotation(
                2,
            ),
        )
    }
}

/// Spawns what a high density block at `offset` holds: three pairs of
/// skyscrapers, each skyscraper with a look of its own drawn from the pool.
pub fn spawn_high_density(
    commands: &mut Scene,
    stats: &mut SceneStats,
    skyscrapers: &SkyscraperBuildings,
    rng: &mut SmallRng,
    offset: Point3,
)
    requires
        offset.in_world(),
        old(stats).skyscrapers <= u32::MAX - 6,
    ensures
        ({
            let (picks, state) = building_draws(
                rng_state(*old(rng)),
                skyscrapers.spec_meshes(),
                skyscrapers.spec_materials(),
                TOWERS as nat,
            );
            let added = high_density_block(offset, picks);
            &&& final(commands).placements@ == old(commands).placements@ + added
            &&& final(commands).road_segments@ == old(commands).road_segments@
            &&& final(commands).cars@ == old(commands).cars@
            &&& rng_state(*final(rng)) == state
            &&& final(stats).grown_by(*old(stats), added)
            &&& *final(stats) == SceneStats {
                skyscrapers: (old(stats).skyscrapers + 6) as u32,
                ..*old(stats)
            }
            &&& picks.len() == TOWERS
            &&& forall|k: int|
                0 <= k < picks.len() ==> (#[trigger] picks[k]).within(
                    skyscrapers.spec_meshes(),
                    skyscrapers.spec_materials(),
                )
        }),
{
    let ghost placed = commands.placements@;
    let ghost state = rng_state(*rng);
    let ghost meshes = skyscrapers.spec_meshes();
    let ghost materials = skyscrapers.spec_materials();

    let mut k: usize = 0;
    assert(placed + high_density_block(offset, Seq::empty()) =~= placed);
    while k < TOWERS
        invariant
            offset.in_world(),
            k <= TOWERS,
            old(stats).skyscrapers <= u32::MAX - 6,
            meshes == skyscrapers.spec_meshes(),
            materials == skyscrapers.spec_materials(),
            commands.road_segments@ == old(commands).road_segments@,
            commands.cars@ == old(commands).cars@,
            ({
                let (picks, after) = building_draws(state, meshes, materials, k as nat);
                &&& picks.len() == k
                &&& commands.placements@ == placed + high_density_block(offset, picks)
                &&& rng_state(*rng) == after
                &&& forall|j: int| 0 <= j < k ==> (#[trigger] picks[j]).within(meshes, materials)
            }),
            *stats == (SceneStats {
                skyscrapers: (old(stats).skyscrapers + k) as u32,
                ..*old(stats)
            }),
        decreases TOWERS - k,
    {
        let ghost picks = building_draws(state, meshes, materials, k as nat).0;
        let pick = skyscrapers.random_building(rng);
        commands.spawn(tower_placement(offset, k, pick));
        stats.skyscrapers += 1;
        assert(high_density_block(offset, picks).push(spec_tower_placement(offset, k as int, pick))
            =~= high_density_block(offset, picks.push(pick)));
        k += 1;
    }
    proof {
        let picks = building_draws(state, meshes, materials, TOWERS as nat).0;
        lemma_high_density_count(offset, picks, AssetKind::Car);
        lemma_high_density_count(offset, picks, AssetKind::LowDensityBuilding);
        lemma_high_density_count(offset, picks, AssetKind::MediumDensityBuilding);
        lemma_high_density_count(offset, picks, AssetKind::Skyscraper);
        lemma_high_density_count(offset, picks, AssetKind::Crossroad);
        lemma_high_density_count(offset, picks, AssetKind::RoadStraight);
        lemma_high_density_count(offset, picks, AssetKind::Tree);
    }
}

} // verus!
