//! The sink that placements, lanes and cars are spawned into.

use crate::assets::PlacementRequest;
use crate::roads_and_cars::{Car, RoadSegment};
use vstd::prelude::*;

verus! {

/// What was spawned so far, each kind in the order in which it came.
/// Nothing is ever merged or dropped. A lane is known by its index in
/// `road_segments`.
pub struct Scene {
    pub placements: Vec<PlacementRequest>,
    pub road_segments: Vec<RoadSegment>,
    pub cars: Vec<Car>,
}

impl Scene {
    /// The scene that holds nothing.
    pub fn new() -> (scene: Scene)
        ensures
            scene.placements@ == Seq::<PlacementRequest>::empty(),
            scene.road_segments@ == Seq::<RoadSegment>::empty(),
            scene.cars@ == Seq::<Car>::empty(),
    {
        Scene { placements: Vec::new(), road_segments: Vec::new(), cars: Vec::new() }
    }

    /// Adds one placement.
    pub fn spawn(&mut self, placement: PlacementRequest)
        ensures
            final(self).placements@ == old(self).placements@.push(placement),
            final(self).road_segments@ == old(self).road_segments@,
            final(self).cars@ == old(self).cars@,
    {
        self.placements.push(placement);
    }

    /// Registers a lane and returns the index that it is known by.
    pub fn spawn_segment(&mut self, segment: RoadSegment) -> (id: usize)
        ensures
            id == old(self).road_segments@.len(),
            final(self).road_segments@ == old(self).road_segments@.push(segment),
            final(self).placements@ == old(self).placements@,
            final(self).cars@ == old(self).cars@,
    {
        let id = self.road_segments.len();
        self.road_segments.push(segment);
        id
    }

    /// Adds a car: its placement, and its state on its lane.
    pub fn spawn_car(&mut self, placement: PlacementRequest, car: Car)
        ensures
            final(self).placements@ == old(self).placements@.push(placement),
            final(self).cars@ == old(self).cars@.push(car),
            final(self).road_segments@ == old(self).road_segments@,
    {
        self.placements.push(placement);
        self.cars.push(car);
    }
}

} // verus!
