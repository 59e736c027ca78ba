//! Counters of what a scene holds.

use crate::assets::{count_kind, lemma_count_append, AssetKind, PlacementRequest};
use vstd::prelude::*;

verus! {

/// How many cars, buildings of each density, road pieces and trees were
/// placed. Fences, path stones and ground tiles are not counted.
#[derive(Clone, Copy, Debug, PartialEq, Eq, Structural)]
pub struct SceneStats {
    pub cars_spawned: u32,
    pub low_density_buildings: u32,
    pub medium_density_buildings: u32,
    pub skyscrapers: u32,
    pub road_segments: u32,
    pub trees: u32,
}

impl SceneStats {
    /// All counters at zero.
    pub open spec fn zero() -> SceneStats {
        SceneStats {
            cars_spawned: 0,
            low_density_buildings: 0,
            medium_density_buildings: 0,
            skyscrapers: 0,
            road_segments: 0,
            trees: 0,
        }
    }

    /// Each counter of `self` is that of `before` and one more for every
    /// placement in `added` that it counts. Crossroads and straight roads
    /// both count as road pieces.
    pub open spec fn grown_by(self, before: SceneStats, added: Seq<PlacementRequest>) -> bool {
        &&& self.cars_spawned == before.cars_spawned + count_kind(added, AssetKind::Car)
        &&& self.low_density_buildings == before.low_density_buildings + count_kind(
            added,
            AssetKind::LowDensityBuilding,
        )
        &&& self.medium_density_buildings == before.medium_density_buildings + count_kind(
            added,
            AssetKind::MediumDensityBuilding,
        )
        &&& self.skyscrapers == before.skyscrapers + count_kind(added, AssetKind::Skyscraper)
        &&& self.road_segments == before.road_segments + count_kind(added, AssetKind::Crossroad)
            + count_kind(added, AssetKind::RoadStraight)
        &&& self.trees == before.trees + count_kind(added, AssetKind::Tree)
    }

    /// The counters are exactly those of the placements.
    pub open spec fn counts(self, placements: Seq<PlacementRequest>) -> bool {
        self.grown_by(SceneStats::zero(), placements)
    }

    /// Every counter can take what one more block may add to it.
    pub open spec fn has_room(self) -> bool {
        &&& self.cars_spawned <= u32::MAX - 30
        &&& self.low_density_buildings <= u32::MAX - 4
        &&& self.medium_density_buildings <= u32::MAX - 10
        &&& self.skyscrapers <= u32::MAX - 6
        &&& self.road_segments <= u32::MAX - 3
        &&& self.trees <= u32::MAX - 18
    }

    /// No counter is above `blocks` times what one block may add to it.
    pub open spec fn within_blocks(self, blocks: int) -> bool {
        &&& self.cars_spawned <= 30 * blocks
        &&& self.low_density_buildings <= 4 * blocks
        &&& self.medium_density_buildings <= 10 * blocks
        &&& self.skyscrapers <= 6 * blocks
        &&& self.road_segments <= 3 * blocks
        &&& self.trees <= 18 * blocks
    }

    /// The sum of all counters.
    pub open spec fn spec_total(self) -> int {
        self.cars_spawned + self.low_density_buildings + self.medium_density_buildings
            + self.skyscrapers + self.road_segments + self.trees
    }

    /// The sum of all counters.
    pub fn total(&self) -> (t: u64)
        ensures
            t == self.spec_total(),
    {
        let cars: u64 = self.cars_spawned as u64;
        let low: u64 = self.low_density_buildings as u64;
        let medium: u64 = self.medium_density_buildings as u64;
        let high: u64 = self.skyscrapers as u64;
        let roads: u64 = self.road_segments as u64;
        let trees: u64 = self.trees as u64;
        cars + low + medium + high + roads + trees
    }
}

impl Default for SceneStats {
    fn default() -> (s: SceneStats)
        ensures
            s == SceneStats::zero(),
    {
        SceneStats {
            cars_spawned: 0,
            low_density_buildings: 0,
            medium_density_buildings: 0,
            skyscrapers: 0,
            road_segments: 0,
            trees: 0,
        }
    }
}

/// Where the counters are those of the placements, their sum is the number
/// of placements of the kinds that are counted.
pub proof fn lemma_total_counts(stats: SceneStats, placements: Seq<PlacementRequest>)
    requires
        stats.counts(placements),
    ensures
        stats.spec_total() == count_kind(placements, AssetKind::Car) + count_kind(
            placements,
            AssetKind::LowDensityBuilding,
        ) + count_kind(placements, AssetKind::MediumDensityBuilding) + count_kind(
            placements,
            AssetKind::Skyscraper,
        ) + count_kind(placements, AssetKind::Crossroad) + count_kind(
            placements,
            AssetKind::RoadStraight,
        ) + count_kind(placements, AssetKind::Tree),
{
}

/// Growth composes: what grew by `first` and then by `second` grew by both.
pub proof fn lemma_grown_twice(
    start: SceneStats,
    middle: SceneStats,
    end: SceneStats,
    first: Seq<PlacementRequest>,
    second: Seq<PlacementRequest>,
)
    requires
        middle.grown_by(start, first),
        end.grown_by(middle, second),
    ensures
        end.grown_by(start, first + second),
{
    lemma_count_append(first, second, AssetKind::Car);
    lemma_count_append(first, second, AssetKind::LowDensityBuilding);
    lemma_count_append(first, second, AssetKind::MediumDensityBuilding);
    lemma_count_append(first, second, AssetKind::Skyscraper);
    lemma_count_append(first, second, AssetKind::Crossroad);
    lemma_count_append(first, second, AssetKind::RoadStraight);
    lemma_count_append(first, second, AssetKind::Tree);
}

} // verus!
