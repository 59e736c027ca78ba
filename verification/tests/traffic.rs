use city_gen::error::ConfigError;
use city_gen::geometry::Point3;
use city_gen::roads_and_cars::{
    advance_car, find_segment, move_cars, Car, Lane, RoadSegment, CAR_SPEED,
};
use city_gen::settings_ui::Settings;

fn lane_along_x() -> RoadSegment {
    RoadSegment::new(Point3::new(3_000, 0, 1_500), Point3::new(52_000, 0, 1_500)).unwrap()
}

fn moving() -> Settings {
    Settings { move_cars: true, wireframe_enabled: false, shadow_maps_enabled: false }
}

#[test]
fn segment_has_the_length_between_its_ends_and_a_unit_direction() {
    let segment = lane_along_x();
    assert_eq!(segment.start(), Point3::new(3_000, 0, 1_500));
    assert_eq!(segment.end(), Point3::new(52_000, 0, 1_500));
    assert_eq!(segment.length(), 49_000);
    assert_eq!(segment.direction(), Point3::new(1, 0, 0));

    let back = RoadSegment::new(Point3::new(1_500, 0, 32_500), Point3::new(1_500, 0, 7_500))
        .unwrap();
    assert_eq!(back.length(), 25_000);
    assert_eq!(back.direction(), Point3::new(0, 0, -1));

    let up = RoadSegment::new(Point3::new(0, -7, 0), Point3::new(0, 5, 0)).unwrap();
    assert_eq!(up.length(), 12);
    assert_eq!(up.direction(), Point3::new(0, 1, 0));
}

#[test]
fn segment_spans_the_whole_range_of_coordinates() {
    let segment = RoadSegment::new(Point3::new(i64::MIN, 0, 0), Point3::new(i64::MAX, 0, 0))
        .unwrap();
    assert_eq!(segment.length(), u64::MAX);
    assert_eq!(segment.position_at(0), Point3::new(i64::MIN, 0, 0));
    assert_eq!(segment.position_at(u64::MAX), Point3::new(i64::MAX, 0, 0));
}

#[test]
fn segment_of_no_length_is_refused() {
    let p = Point3::new(4, 5, 6);
    assert_eq!(RoadSegment::new(p, p), Err(ConfigError::DegenerateSegment));
}

#[test]
fn segment_along_no_axis_is_refused() {
    assert_eq!(
        RoadSegment::new(Point3::new(0, 0, 0), Point3::new(1, 0, 1)),
        Err(ConfigError::ObliqueSegment)
    );
    assert_eq!(
        RoadSegment::new(Point3::new(0, 0, 0), Point3::new(1, 1, 1)),
        Err(ConfigError::ObliqueSegment)
    );
}

#[test]
fn position_is_derived_from_the_distance() {
    let segment = lane_along_x();
    assert_eq!(segment.position_at(0), Point3::new(3_000, 0, 1_500));
    assert_eq!(segment.position_at(12_345), Point3::new(15_345, 0, 1_500));
    assert_eq!(segment.position_at(49_000), Point3::new(52_000, 0, 1_500));
    let reverse = Lane::XReverse.segment(Point3::new(55_000, 0, -40_000));
    assert_eq!(reverse.position_at(1_000), Point3::new(106_000, 0, -41_500));
}

#[test]
fn the_four_lanes_of_a_block() {
    let offset = Point3::new(110_000, 0, -80_000);
    let xf = Lane::XForward.segment(offset);
    assert_eq!(xf.start(), Point3::new(113_000, 0, -78_500));
    assert_eq!(xf.end(), Point3::new(162_000, 0, -78_500));
    let xr = Lane::XReverse.segment(offset);
    assert_eq!(xr.start(), Point3::new(162_000, 0, -81_500));
    assert_eq!(xr.end(), Point3::new(113_000, 0, -81_500));
    let zf = Lane::ZForward.segment(offset);
    assert_eq!(zf.start(), Point3::new(108_500, 0, -72_500));
    assert_eq!(zf.end(), Point3::new(108_500, 0, -47_500));
    let zr = Lane::ZReverse.segment(offset);
    assert_eq!(zr.start(), Point3::new(111_500, 0, -47_500));
    assert_eq!(zr.end(), Point3::new(111_500, 0, -72_500));
    assert_eq!(xf.length(), 49_000);
    assert_eq!(zr.length(), 25_000);
}

#[test]
fn traffic_wrap() {
    // Speed 2.0, length 4.9, distance 4.85, a tick of 0.1 s.
    let segments = vec![lane_along_x()];
    let mut car = Car { road_segment: 0, speed: 20_000, distance_traveled: 48_500 };
    let position = advance_car(&mut car, &segments, 100_000);
    assert_eq!(car.distance_traveled, 0);
    assert_eq!(position, Some(Point3::new(3_000, 0, 1_500)));
}

#[test]
fn a_car_advances_by_speed_times_time() {
    let segments = vec![lane_along_x()];
    let mut car = Car { road_segment: 0, speed: CAR_SPEED, distance_traveled: 11_000 };
    // 20 000 steps per second for 16 667 microseconds: 333 whole steps.
    let position = advance_car(&mut car, &segments, 16_667);
    assert_eq!(car.distance_traveled, 11_333);
    assert_eq!(position, Some(Point3::new(14_333, 0, 1_500)));
    assert_eq!(car.speed, CAR_SPEED);
    assert_eq!(car.road_segment, 0);
}

#[test]
fn a_car_may_stand_at_the_very_end_of_its_lane() {
    let segments = vec![lane_along_x()];
    let mut car = Car { road_segment: 0, speed: 20_000, distance_traveled: 47_000 };
    let position = advance_car(&mut car, &segments, 100_000);
    assert_eq!(car.distance_traveled, 49_000);
    assert_eq!(position, Some(Point3::new(52_000, 0, 1_500)));
    let position = advance_car(&mut car, &segments, 1_000);
    assert_eq!(car.distance_traveled, 0);
    assert_eq!(position, Some(Point3::new(3_000, 0, 1_500)));
}

#[test]
fn a_car_beyond_its_lane_goes_back_to_the_start() {
    let segments = vec![lane_along_x()];
    let mut car = Car { road_segment: 0, speed: 0, distance_traveled: u64::MAX };
    assert_eq!(advance_car(&mut car, &segments, u32::MAX), Some(Point3::new(3_000, 0, 1_500)));
    assert_eq!(car.distance_traveled, 0);
    let mut fast = Car { road_segment: 0, speed: u32::MAX, distance_traveled: 1 };
    advance_car(&mut fast, &segments, u32::MAX);
    assert_eq!(fast.distance_traveled, 0);
}

#[test]
fn a_car_without_its_lane_is_skipped() {
    let segments = vec![lane_along_x()];
    let mut car = Car { road_segment: 1, speed: 20_000, distance_traveled: 500 };
    assert_eq!(advance_car(&mut car, &segments, 100_000), None);
    assert_eq!(car, Car { road_segment: 1, speed: 20_000, distance_traveled: 500 });
    assert!(find_segment(&segments, 1).is_none());
    assert_eq!(find_segment(&segments, 0), Some(&segments[0]));
}

#[test]
fn move_cars_moves_every_car_whose_lane_is_known() {
    let segments = vec![lane_along_x(), Lane::ZReverse.segment(Point3::new(0, 0, 0))];
    let mut cars = vec![
        Car { road_segment: 0, speed: 20_000, distance_traveled: 0 },
        Car { road_segment: 1, speed: 20_000, distance_traveled: 24_000 },
        Car { road_segment: 7, speed: 20_000, distance_traveled: 3 },
        Car { road_segment: 1, speed: 10_000, distance_traveled: 5_000 },
    ];
    let positions = move_cars(&mut cars, &segments, 100_000, &moving());
    assert_eq!(
        cars,
        vec![
            Car { road_segment: 0, speed: 20_000, distance_traveled: 2_000 },
            Car { road_segment: 1, speed: 20_000, distance_traveled: 0 },
            Car { road_segment: 7, speed: 20_000, distance_traveled: 3 },
            Car { road_segment: 1, speed: 10_000, distance_traveled: 6_000 },
        ]
    );
    assert_eq!(
        positions,
        vec![
            Some(Point3::new(5_000, 0, 1_500)),
            Some(Point3::new(1_500, 0, 32_500)),
            None,
            Some(Point3::new(1_500, 0, 26_500)),
        ]
    );
}

#[test]
fn move_cars_does_nothing_when_switched_off() {
    let segments = vec![lane_along_x()];
    let mut cars = vec![Car { road_segment: 0, speed: 20_000, distance_traveled: 100 }];
    let positions = move_cars(&mut cars, &segments, 100_000, &Settings::default());
    assert_eq!(cars, vec![Car { road_segment: 0, speed: 20_000, distance_traveled: 100 }]);
    assert_eq!(positions, vec![None]);
}

#[test]
fn distance_stays_on_the_lane_tick_after_tick() {
    let segments = vec![lane_along_x()];
    let mut cars = vec![Car { road_segment: 0, speed: 20_000, distance_traveled: 0 }];
    let mut laps = 0;
    for _ in 0..1_000 {
        let before = cars[0].distance_traveled;
        move_cars(&mut cars, &segments, 16_667, &moving());
        assert!(cars[0].distance_traveled <= 49_000);
        if cars[0].distance_traveled < before {
            assert_eq!(cars[0].distance_traveled, 0);
            laps += 1;
        }
    }
    assert_eq!(laps, 6);
}

#[test]
fn settings_start_switched_off() {
    let settings = Settings::default();
    assert!(!settings.move_cars);
    assert!(!settings.wireframe_enabled);
    assert!(!settings.shadow_maps_enabled);
}
