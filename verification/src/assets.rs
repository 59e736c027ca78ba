//! What is placed: asset references, placement requests, and how many
//! placements of a kind a sequence holds.

use crate::geometry::Transform;
use crate::rng::{index_draw, random_index, rng_state};
use rand::rngs::SmallRng;
use vstd::prelude::*;

verus! {

/// The material of a ground tile.
#[derive(Clone, Copy, Debug, PartialEq, Eq, Structural)]
pub enum GroundMaterial {
    Grass,
    Paved,
}

/// The category of an asset, without its variant.
#[derive(Clone, Copy, Debug, PartialEq, Eq, Structural)]
pub enum AssetKind {
    Crossroad,
    RoadStraight,
    Car,
    GroundTile,
    Tree,
    Fence,
    PathStones,
    LowDensityBuilding,
    MediumDensityBuilding,
    Skyscraper,
}

/// A category of asset and the variant within it. Variants are indices into
/// the pools of the asset catalog, which resolves them.
#[derive(Clone, Copy, Debug, PartialEq, Eq, Structural)]
pub enum AssetRef {
    Crossroad,
    RoadStraight,
    Car { variant: usize },
    GroundTile { surface: GroundMaterial },
    Tree { species: usize },
    Fence,
    PathStones,
    LowDensityBuilding { mesh: usize, material: usize },
    MediumDensityBuilding { mesh: usize, material: usize },
    Skyscraper { mesh: usize, material: usize },
}

impl AssetRef {
    pub open spec fn spec_kind(self) -> AssetKind {
        match self {
            AssetRef::Crossroad => AssetKind::Crossroad,
            AssetRef::RoadStraight => AssetKind::RoadStraight,
            AssetRef::Car { .. } => AssetKind::Car,
            AssetRef::GroundTile { .. } => AssetKind::GroundTile,
            AssetRef::Tree { .. } => AssetKind::Tree,
            AssetRef::Fence => AssetKind::Fence,
            AssetRef::PathStones => AssetKind::PathStones,
            AssetRef::LowDensityBuilding { .. } => AssetKind::LowDensityBuilding,
            AssetRef::MediumDensityBuilding { .. } => AssetKind::MediumDensityBuilding,
            AssetRef::Skyscraper { .. } => AssetKind::Skyscraper,
        }
    }

    /// The category of the asset.
    #[verifier::when_used_as_spec(spec_kind)]
    pub fn kind(self) -> (k: AssetKind)
        ensures
            k == self.spec_kind(),
    {
        match self {
            AssetRef::Crossroad => AssetKind::Crossroad,
            AssetRef::RoadStraight => AssetKind::RoadStraight,
            AssetRef::Car { .. } => AssetKind::Car,
            AssetRef::GroundTile { .. } => AssetKind::GroundTile,
            AssetRef::Tree { .. } => AssetKind::Tree,
            AssetRef::Fence => AssetKind::Fence,
            AssetRef::PathStones => AssetKind::PathStones,
            AssetRef::LowDensityBuilding { .. } => AssetKind::LowDensityBuilding,
            AssetRef::MediumDensityBuilding { .. } => AssetKind::MediumDensityBuilding,
            AssetRef::Skyscraper { .. } => AssetKind::Skyscraper,
        }
    }
}

/// An instruction to put one instance of an asset at a transform.
#[derive(Clone, Copy, Debug, PartialEq, Eq, Structural)]
pub struct PlacementRequest {
    pub asset: AssetRef,
    pub transform: Transform,
}

impl PlacementRequest {
    pub fn new(asset: AssetRef, transform: Transform) -> (p: PlacementRequest)
        ensures
            p == (PlacementRequest { asset, transform }),
    {
        PlacementRequest { asset, transform }
    }
}

/// The species of tree that stands in low density blocks.
pub const TREE_SMALL: usize = 0;

/// The other species of tree.
pub const TREE_LARGE: usize = 1;

/// How many species of trees there are.
pub const TREE_SPECIES: usize = 2;

/// The look of one building: a mesh and a material of its pool.
#[derive(Clone, Copy, Debug, PartialEq, Eq, Structural)]
pub struct BuildingPick {
    pub mesh: usize,
    pub material: usize,
}

impl BuildingPick {
    /// The mesh and the material are among those of a pool of the given
    /// sizes.
    pub open spec fn within(self, meshes: usize, materials: usize) -> bool {
        self.mesh < meshes && self.material < materials
    }
}

/// The look that a generator in `state` picks from a pool of the given
/// sizes, and the state it is left in: the mesh is drawn first, then the
/// material, each on its own.
pub open spec fn building_draw(state: Seq<u64>, meshes: usize, materials: usize) -> (
    BuildingPick,
    Seq<u64>,
) {
    let (mesh, after_mesh) = index_draw(state, meshes);
    let (material, after_material) = index_draw(after_mesh, materials);
    (BuildingPick { mesh, material }, after_material)
}

/// The looks of `count` buildings picked one after the other, and the state
/// that the generator is left in.
pub open spec fn building_draws(state: Seq<u64>, meshes: usize, materials: usize, count: nat) -> (
    Seq<BuildingPick>,
    Seq<u64>,
)
    decreases count,
{
    if count == 0 {
        (Seq::empty(), state)
    } else {
        let (picks, before) = building_draws(state, meshes, materials, (count - 1) as nat);
        let (pick, after) = building_draw(before, meshes, materials);
        (picks.push(pick), after)
    }
}

/// As many looks are picked as are asked for.
pub proof fn lemma_building_draws_len(state: Seq<u64>, meshes: usize, materials: usize, count: nat)
    ensures
        building_draws(state, meshes, materials, count).0.len() == count,
    decreases count,
{
    if count > 0 {
        lemma_building_draws_len(state, meshes, materials, (count - 1) as nat);
    }
}

/// Picks the look of a building from a pool of the given sizes: a mesh, then
/// a material, each with the same chance and on its own.
pub fn draw_building(rng: &mut SmallRng, meshes: usize, materials: usize) -> (pick: BuildingPick)
    requires
        meshes > 0,
        materials > 0,
    ensures
        (pick, rng_state(*final(rng))) == building_draw(rng_state(*old(rng)), meshes, materials),
        pick.within(meshes, materials),
{
    let mesh = random_index(rng, meshes);
    let material = random_index(rng, materials);
    BuildingPick { mesh, material }
}

/// 1 where the placement is of the kind, else 0.
pub open spec fn kind_weight(p: PlacementRequest, kind: AssetKind) -> nat {
    if p.asset.kind() == kind {
        1
    } else {
        0
    }
}

/// How many placements of `kind` the sequence holds.
pub open spec fn count_kind(s: Seq<PlacementRequest>, kind: AssetKind) -> nat
    decreases s.len(),
{
    if s.len() == 0 {
        0
    } else {
        count_kind(s.drop_last(), kind) + kind_weight(s.last(), kind)
    }
}

/// One more placement adds its weight to the count.
pub proof fn lemma_count_push(s: Seq<PlacementRequest>, p: PlacementRequest, kind: AssetKind)
    ensures
        count_kind(s.push(p), kind) == count_kind(s, kind) + kind_weight(p, kind),
{
    assert(s.push(p).drop_last() =~= s);
    assert(s.push(p).last() == p);
}

/// The count of a concatenation is the sum of the counts.
pub proof fn lemma_count_append(
    a: Seq<PlacementRequest>,
    b: Seq<PlacementRequest>,
    kind: AssetKind,
)
    ensures
        count_kind(a + b, kind) == count_kind(a, kind) + count_kind(b, kind),
    decreases b.len(),
{
    if b.len() == 0 {
        assert(a + b =~= a);
    } else {
        assert((a + b).drop_last() =~= a + b.drop_last());
        assert((a + b).last() == b.last());
        lemma_count_append(a, b.drop_last(), kind);
    }
}

/// Where every placement is of one kind, that kind counts them all and
/// every other kind counts none.
pub proof fn lemma_count_uniform(s: Seq<PlacementRequest>, of: AssetKind, kind: AssetKind)
    requires
        forall|i: int| 0 <= i < s.len() ==> (#[trigger] s[i]).asset.kind() == of,
    ensures
        count_kind(s, kind) == if kind == of {
            s.len()
        } else {
            0
        },
    decreases s.len(),
{
    if s.len() > 0 {
        lemma_count_uniform(s.drop_last(), of, kind);
    }
}

} // verus!
