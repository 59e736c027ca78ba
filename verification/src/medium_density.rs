//! Medium density blocks: five slots of two buildings each along an alley
//! of trees, and a path of stones down the middle.

use crate::assets::{
    building_draws, count_kind, draw_building, lemma_count_append, lemma_count_uniform, AssetKind,
    AssetRef, BuildingPick, PlacementRequest, TREE_SPECIES,
};
use crate::error::ConfigError;
use crate::geometry::{Point3, Transform};
use crate::rng::{index_draw, random_index, rng_state};
use crate::scene::Scene;
use crate::stats::SceneStats;
use rand::rngs::SmallRng;
use vstd::prelude::*;

verus! {

/// How many slots for buildings a block has along X.
pub const SLOTS: usize = 5;

/// How many stones the path has.
pub const PATH_STONES: usize = 11;

/// The distance between two slots.
pub const SLOT_PITCH: i64 = 9_000;

/// The buildings of the asset catalog for medium density: how many meshes
/// and how many materials there are. There is at least one of each.
#[derive(Clone, Copy, Debug, PartialEq, Eq)]
pub struct MediumDensityBuildings {
    meshes: usize,
    materials: usize,
}

impl MediumDensityBuildings {
    pub closed spec fn spec_meshes(self) -> usize {
        self.meshes
    }

    pub closed spec fn spec_materials(self) -> usize {
        self.materials
    }

    #[verifier::type_invariant]
    closed spec fn inv(self) -> bool {
        self.meshes > 0 && self.materials > 0
    }

    /// The pool of the given sizes. One without a mesh or without a material
    /// is refused.
    pub fn new(meshes: usize, materials: usize) -> (r: Result<MediumDensityBuildings, ConfigError>)
        ensures
            meshes > 0 && materials > 0 ==> r is Ok && r->Ok_0.spec_meshes() == meshes
                && r->Ok_0.spec_materials() == materials,
            meshes == 0 || materials == 0 ==> r == Err::<MediumDensityBuildings, ConfigError>(
                ConfigError::EmptyAssetPool,
            ),
    {
        if meshes == 0 || materials == 0 {
            Err(ConfigError::EmptyAssetPool)
        } else {
            Ok(MediumDensityBuildings { meshes, materials })
        }
    }

    pub fn meshes(&self) -> (n: usize)
        ensures
            n == self.spec_meshes(),
            n > 0,
    {
        proof {
            use_type_invariant(self);
        }
        self.meshes
    }

    pub fn materials(&self) -> (n: usize)
        ensures
            n == self.spec_materials(),
            n > 0,
    {
        proof {
            use_type_invariant(self);
        }
        self.materials
    }

    /// Picks the look of a building: a mesh and a material, each on its own.
    pub fn random_building(&self, rng: &mut SmallRng) -> (pick: BuildingPick)
        ensures
            (pick, rng_state(*final(rng))) == crate::assets::building_draw(
                rng_state(*old(rng)),
                self.spec_meshes(),
                self.spec_materials(),
            ),
            pick.within(self.spec_meshes(), self.spec_materials()),
    {
        proof {
            use_type_invariant(self);
        }
        draw_building(rng, self.meshes, self.materials)
    }
}

/// A building of slot `x`, counted from 1, of a block at `offset`: the one
/// in front, or the one at the back, which is turned half way round.
pub open spec fn spec_building_placement(
    offset: Point3,
    x: int,
    back: bool,
    pick: BuildingPick,
) -> PlacementRequest {
    let asset = AssetRef::MediumDensityBuilding { mesh: pick.mesh, material: pick.material };
    if back {
        PlacementRequest {
            asset,
            transform: Transform::at(
                Point3 { x: (x * SLOT_PITCH) as i64, y: 0, z: 30_000 }.plus(offset),
            ).turned(2),
        }
    } else {
        PlacementRequest {
            asset,
            transform: Transform::at(
                Point3 { x: (x * SLOT_PITCH) as i64, y: 0, z: 10_000 }.plus(offset),
            ),
        }
    }
}

/// How many pairs of trees stand in slot `x`: two, but one in the last
/// slot, where a second pair would hang over the end of the block.
pub open spec fn spec_tree_pairs(x: int) -> nat {
    if x == SLOTS {
        1
    } else {
        2
    }
}

/// The tree `k` of slot `x`: trees come in pairs across the alley, each
/// next pair half a world unit further along X.
pub open spec fn spec_tree_placement(offset: Point3, x: int, k: int, species: usize) -> PlacementRequest {
    PlacementRequest {
        asset: AssetRef::Tree { species },
        transform: Transform::at(
            Point3 {
                x: ((k / 2) * 5_000 + x * SLOT_PITCH) as i64,
                y: 0,
                z: if k % 2 == 0 {
                    17_500
                } else {
                    22_500
                },
            }.plus(offset),
        ),
    }
}

/// The stone `i` of the path.
pub open spec fn spec_stone_placement(offset: Point3, i: int) -> PlacementRequest {
    PlacementRequest {
        asset: AssetRef::PathStones,
        transform: Transform::at(
            Point3 { x: (7_500 + i * 4_000) as i64, y: 200, z: 20_000 }.plus(offset),
        ).scaled(Point3 { x: 10_000, y: 20_000, z: 10_000 }).turned(1),
    }
}

/// The first `count` trees of slot `x`.
pub open spec fn alley_trees(offset: Point3, x: int, species: usize, count: nat) -> Seq<
    PlacementRequest,
> {
    Seq::new(count, |k: int| spec_tree_placement(offset, x, k, species))
}

/// What slot `x` holds: the building in front, the trees of the slot, and
/// the building at the back.
pub open spec fn slot(
    offset: Point3,
    x: int,
    species: usize,
    front: BuildingPick,
    back: BuildingPick,
) -> Seq<PlacementRequest> {
    seq![spec_building_placement(offset, x, false, front)] + alley_trees(
        offset,
        x,
        species,
        2 * spec_tree_pairs(x),
    ) + seq![spec_building_placement(offset, x, true, back)]
}

/// What the first `count` slots hold. Slot `x` takes the looks `2x - 2` and
/// `2x - 1` of `picks`.
pub open spec fn slots(offset: Point3, species: usize, picks: Seq<BuildingPick>, count: nat) -> Seq<
    PlacementRequest,
>
    decreases count,
{
    if count == 0 {
        Seq::empty()
    } else {
        slots(offset, species, picks, (count - 1) as nat) + slot(
            offset,
            count as int,
            species,
            picks[2 * count - 2],
            picks[2 * count - 1],
        )
    }
}

/// The first `count` stones of the path.
pub open spec fn path(offset: Point3, count: nat) -> Seq<PlacementRequest> {
    Seq::new(count, |i: int| spec_stone_placement(offset, i))
}

/// What a medium density block at `offset` holds, for the species of its
/// trees and the looks of its ten buildings: the five slots, then the path.
pub open spec fn medium_density_block(
    offset: Point3,
    species: usize,
    picks: Seq<BuildingPick>,
) -> Seq<PlacementRequest> {
    slots(offset, species, picks, SLOTS as nat) + path(offset, PATH_STONES as nat)
}

/// The species of the trees of a block and the looks of its buildings, as a
/// generator in `state` picks them, and the state it is left in: the species
/// is drawn first.
pub open spec fn medium_density_draws(state: Seq<u64>, meshes: usize, materials: usize) -> (
    usize,
    Seq<BuildingPick>,
    Seq<u64>,
) {
    let (species, after_species) = index_draw(state, TREE_SPECIES);
    let (picks, after_picks) = building_draws(after_species, meshes, materials, 2 * SLOTS as nat);
    (species, picks, after_picks)
}

/// Slot `x` holds two buildings and its trees, and nothing else.
pub proof fn lemma_slot_count(
    offset: Point3,
    x: int,
    species: usize,
    front: BuildingPick,
    back: BuildingPick,
    kind: AssetKind,
)
    ensures
        count_kind(slot(offset, x, species, front, back), kind) == match kind {
            AssetKind::MediumDensityBuilding => 2nat,
            AssetKind::Tree => 2 * spec_tree_pairs(x),
            _ => 0nat,
        },
{
    let first = seq![spec_building_placement(offset, x, false, front)];
    let middle = alley_trees(offset, x, species, 2 * spec_tree_pairs(x));
    let last = seq![spec_building_placement(offset, x, true, back)];
    lemma_count_uniform(first, AssetKind::MediumDensityBuilding, kind);
    lemma_count_uniform(middle, AssetKind::Tree, kind);
    lemma_count_uniform(last, AssetKind::MediumDensityBuilding, kind);
    lemma_count_append(first, middle, kind);
    lemma_count_append(first + middle, last, kind);
}

/// The first `count` slots hold two buildings each and their trees, four
/// for each slot but the last, which has two.
pub proof fn lemma_slots_count(
    offset: Point3,
    species: usize,
    picks: Seq<BuildingPick>,
    count: nat,
    kind: AssetKind,
)
    requires
        count <= SLOTS,
    ensures
        count_kind(slots(offset, species, picks, count), kind) == match kind {
            AssetKind::MediumDensityBuilding => 2 * count,
            AssetKind::Tree => if count == SLOTS {
                18nat
            } else {
                4 * count
            },
            _ => 0nat,
        },
    decreases count,
{
    if count > 0 {
        let before = (count - 1) as nat;
        lemma_slots_count(offset, species, picks, before, kind);
        lemma_slot_count(
            offset,
            count as int,
            species,
            picks[2 * count - 2],
            picks[2 * count - 1],
            kind,
        );
        lemma_count_append(
            slots(offset, species, picks, before),
            slot(offset, count as int, species, picks[2 * count - 2], picks[2 * count - 1]),
            kind,
        );
    }
}

/// A medium density block holds ten buildings, eighteen trees and eleven
/// path stones, and nothing else, whatever the species and the looks.
pub proof fn lemma_medium_density_count(
    offset: Point3,
    species: usize,
    picks: Seq<BuildingPick>,
    kind: AssetKind,
)
    ensures
        count_kind(medium_density_block(offset, species, picks), kind) == match kind {
            AssetKind::MediumDensityBuilding => 10nat,
            AssetKind::Tree => 18nat,
            AssetKind::PathStones => 11nat,
            _ => 0nat,
        },
{
    lemma_slots_count(offset, species, picks, SLOTS as nat, kind);
    lemma_count_uniform(path(offset, PATH_STONES as nat), AssetKind::PathStones, kind);
    lemma_count_append(
        slots(offset, species, picks, SLOTS as nat),
        path(offset, PATH_STONES as nat),
        kind,
    );
}

/// What the first `count` slots hold depends on the first `2 * count` looks
/// alone.
proof fn lemma_slots_prefix(
    offset: Point3,
    species: usize,
    picks: Seq<BuildingPick>,
    more: Seq<BuildingPick>,
    count: nat,
)
    requires
        2 * count <= picks.len() <= more.len(),
        forall|i: int| 0 <= i < picks.len() ==> picks[i] == more[i],
    ensures
        slots(offset, species, picks, count) == slots(offset, species, more, count),
    decreases count,
{
    if count > 0 {
        lemma_slots_prefix(offset, species, picks, more, (count - 1) as nat);
    }
}

/// A building of slot `x`, counted from 1: the one in front, or the one at
/// the back.
pub fn building_placement(offset: Point3, x: usize, back: bool, pick: BuildingPick) -> (p:
    PlacementRequest)
    requires
        offset.in_world(),
        1 <= x <= SLOTS,
    ensures
        p == spec_building_placement(offset, x as int, back, pick),
{
    let along: i64 = (x as i64) * SLOT_PITCH;
    let asset = AssetRef::MediumDensityBuilding { mesh: pick.mesh, material: pick.material };
    if back {
        PlacementRequest::new(
            asset,
            Transform::from_translation(Point3::new(along, 0, 30_000).translate(offset))
                .with_rotation(2),
        )
    } else {
        PlacementRequest::new(
            asset,
            Transform::from_translation(Point3::new(along, 0, 10_000).translate(offset)),
        )
    }
}

/// How many pairs of trees stand in slot `x`.
pub fn tree_pairs(x: usize) -> (pairs: usize)
    ensures
        pairs == spec_tree_pairs(x as int),
{
    if x == SLOTS {
        1
    } else {
        2
    }
}

/// The tree `k` of slot `x`, of the given species.
pub fn tree_placement(offset: Point3, x: usize, k: usize, species: usize) -> (p: PlacementRequest)
    requires
        offset.in_world(),
        1 <= x <= SLOTS,
        k < 4,
    ensures
        p == spec_tree_placement(offset, x as int, k as int, species),
{
    let along: i64 = ((k / 2) as i64) * 5_000 + (x as i64) * SLOT_PITCH;
    let across: i64 = if k % 2 == 0 {
        17_500
    } else {
        22_500
    };
    PlacementRequest::new(
        AssetRef::Tree { species },
        Transform::from_translation(Point3::new(along, 0, across).translate(offset)),
    )
}

/// The stone `i` of the path.
pub fn stone_placement(offset: Point3, i: usize) -> (p: PlacementRequest)
    requires
        offset.in_world(),
        i < PATH_STONES,
    ensures
        p == spec_stone_placement(offset, i as int),
{
    let along: i64 = 7_500 + (i as i64) * 4_000;
    PlacementRequest::new(
        AssetRef::PathStones,
        Transform::from_translation(Point3::new(along, 200, 20_000).translate(offset)).with_scale(
            Point3::new(10_000, 20_000, 10_000),
        ).with_rotation(1),
    )
}

/// Spawns what a medium density block at `offset` holds. One species of
/// tree is drawn for the whole alley. Then each of the five slots gets a
/// building in front, its pairs of trees, and a building at the back, each
/// building with a look of its own drawn from the pool. The path of stones
/// comes last.
pub fn spawn_medium_density(
    commands: &mut Scene,
    stats: &mut SceneStats,
    rng: &mut SmallRng,
    offset: Point3,
    medium_density_buildings: &MediumDensityBuildings,
)
    requires
        offset.in_world(),
        old(stats).trees <= u32::MAX - 18,
        old(stats).medium_density_buildings <= u32::MAX - 10,
    ensures
        ({
            let (species, picks, state) = medium_density_draws(
                rng_state(*old(rng)),
                medium_density_buildings.spec_meshes(),
                medium_density_buildings.spec_materials(),
            );
            let added = medium_density_block(offset, species, picks);
            &&& final(commands).placements@ == old(commands).placements@ + added
            &&& final(commands).road_segments@ == old(commands).road_segments@
            &&& final(commands).cars@ == old(commands).cars@
            &&& rng_state(*final(rng)) == state
            &&& final(stats).grown_by(*old(stats), added)
            &&& *final(stats) == SceneStats {
                trees: (old(stats).trees + 18) as u32,
                medium_density_buildings: (old(stats).medium_density_buildings + 10) as u32,
                ..*old(stats)
            }
            &&& species < TREE_SPECIES
            &&& picks.len() == 2 * SLOTS
            &&& forall|k: int|
                0 <= k < picks.len() ==> (#[trigger] picks[k]).within(
                    medium_density_buildings.spec_meshes(),
                    medium_density_buildings.spec_materials(),
                )
        }),
{
    let ghost placed = commands.placements@;
    let ghost meshes = medium_density_buildings.spec_meshes();
    let ghost materials = medium_density_buildings.spec_materials();

    // One species for the whole alley.
    let species = random_index(rng, TREE_SPECIES);
    let ghost state = rng_state(*rng);

    let mut x: usize = 1;
    assert(placed + slots(offset, species, Seq::empty(), 0) =~= placed);
    while x <= SLOTS
        invariant
            offset.in_world(),
            1 <= x <= SLOTS + 1,
            species < TREE_SPECIES,
            old(stats).trees <= u32::MAX - 18,
            old(stats).medium_density_buildings <= u32::MAX - 10,
            meshes == medium_density_buildings.spec_meshes(),
            materials == medium_density_buildings.spec_materials(),
            commands.road_segments@ == old(commands).road_segments@,
            commands.cars@ == old(commands).cars@,
            ({
                let (picks, after) = building_draws(state, meshes, materials, (2 * (x - 1)) as nat);
                &&& picks.len() == 2 * (x - 1)
                &&& commands.placements@ == placed + slots(offset, species, picks, (x - 1) as nat)
                &&& rng_state(*rng) == after
                &&& forall|j: int|
                    0 <= j < picks.len() ==> (#[trigger] picks[j]).within(meshes, materials)
            }),
            *stats == (SceneStats {
                trees: (old(stats).trees + if x == SLOTS + 1 {
                    18
                } else {
                    4 * (x - 1)
                }) as u32,
                medium_density_buildings: (old(stats).medium_density_buildings + 2 * (x - 1)) as u32,
                ..*old(stats)
            }),
        decreases SLOTS + 1 - x,
    {
        let ghost picks = building_draws(state, meshes, materials, (2 * (x - 1)) as nat).0;
        let ghost before = placed + slots(offset, species, picks, (x - 1) as nat);
        let ghost trees_before = stats.trees;

        let front = medium_density_buildings.random_building(rng);
        commands.spawn(building_placement(offset, x, false, front));
        stats.medium_density_buildings += 1;
        let ghost with_front = before.push(spec_building_placement(offset, x as int, false, front));

        let pairs = tree_pairs(x);
        let mut pair: usize = 0;
        assert(with_front + alley_trees(offset, x as int, species, 0) =~= with_front);
        while pair < pairs
            invariant
                offset.in_world(),
                1 <= x <= SLOTS,
                pairs == spec_tree_pairs(x as int),
                pair <= pairs,
                trees_before == old(stats).trees + 4 * (x - 1),
                old(stats).trees <= u32::MAX - 18,
                commands.placements@ == with_front + alley_trees(
                    offset,
                    x as int,
                    species,
                    2 * pair as nat,
                ),
                commands.road_segments@ == old(commands).road_segments@,
                commands.cars@ == old(commands).cars@,
                rng_state(*rng) == building_draws(state, meshes, materials, (2 * x - 1) as nat).1,
                *stats == (SceneStats {
                    trees: (trees_before + 2 * pair) as u32,
                    medium_density_buildings: (old(stats).medium_density_buildings + 2 * x - 1) as u32,
                    ..*old(stats)
                }),
            decreases pairs - pair,
        {
            commands.spawn(tree_placement(offset, x, 2 * pair, species));
            stats.trees += 1;
            commands.spawn(tree_placement(offset, x, 2 * pair + 1, species));
            stats.trees += 1;
            assert(alley_trees(offset, x as int, species, 2 * pair as nat).push(
                spec_tree_placement(offset, x as int, 2 * pair, species),
            ).push(spec_tree_placement(offset, x as int, 2 * pair + 1, species)) =~= alley_trees(
                offset,
                x as int,
                species,
                2 * (pair + 1) as nat,
            ));
            pair += 1;
        }

        let back = medium_density_buildings.random_building(rng);
        commands.spawn(building_placement(offset, x, true, back));
        stats.medium_density_buildings += 1;

        proof {
            let more = picks.push(front).push(back);
            assert(building_draws(state, meshes, materials, (2 * x - 1) as nat).0 == picks.push(
                front,
            ));
            assert(building_draws(state, meshes, materials, (2 * x) as nat).0 == more);
            lemma_slots_prefix(offset, species, picks, more, (x - 1) as nat);
            assert(more[2 * x - 2] == front);
            assert(more[2 * x - 1] == back);
            assert(commands.placements@ =~= before + slot(offset, x as int, species, front, back));
            assert(commands.placements@ =~= placed + slots(offset, species, more, x as nat));
        }
        x += 1;
    }
    let ghost picks = building_draws(state, meshes, materials, 2 * SLOTS as nat).0;
    let ghost with_slots = placed + slots(offset, species, picks, SLOTS as nat);

    let mut i: usize = 0;
    assert(with_slots + path(offset, 0) =~= with_slots);
    while i < PATH_STONES
        invariant
            offset.in_world(),
            i <= PATH_STONES,
            commands.placements@ == with_slots + path(offset, i as nat),
            commands.road_segments@ == old(commands).road_segments@,
            commands.cars@ == old(commands).cars@,
            rng_state(*rng) == building_draws(state, meshes, materials, 2 * SLOTS as nat).1,
            *stats == (SceneStats {
                trees: (old(stats).trees + 18) as u32,
                medium_density_buildings: (old(stats).medium_density_buildings + 10) as u32,
                ..*old(stats)
            }),
        decreases PATH_STONES - i,
    {
        commands.spawn(stone_placement(offset, i));
        assert(path(offset, i as nat).push(spec_stone_placement(offset, i as int)) =~= path(
            offset,
            (i + 1) as nat,
        ));
        i += 1;
    }
    proof {
        let added = medium_density_block(offset, species, picks);
        assert(commands.placements@ =~= placed + added);
        lemma_medium_density_count(offset, species, picks, AssetKind::Car);
        lemma_medium_density_count(offset, species, picks, AssetKind::LowDensityBuilding);
        lemma_medium_density_count(offset, species, picks, AssetKind::MediumDensityBuilding);
        lemma_medium_density_count(offset, species, picks, AssetKind::Skyscraper);
        lemma_medium_density_count(offset, species, picks, AssetKind::Crossroad);
        lemma_medium_density_count(offset, species, picks, AssetKind::RoadStraight);
        lemma_medium_density_count(offset, species, picks, AssetKind::Tree);
    }
}

} // verus!
