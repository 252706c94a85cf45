use gpx_loader::error::Error;
use gpx_loader::track::{fill_speed_on_missing, speed_fill_plan, Point, Segment, Timestamp};

fn point(lat: f64, lon: f64, seconds: Option<i64>, speed: Option<f64>) -> Point {
    Point {
        latitude: lat.to_bits(),
        longitude: lon.to_bits(),
        elevation: None,
        speed: speed.map(f64::to_bits),
        time: seconds.map(|s| Timestamp { seconds: s, nanos: 0 }),
        geoidheight: None,
        comment: None,
        description: None,
        source: None,
        symbol: None,
        hdop: None,
        vdop: None,
        pdop: None,
        sat: None,
    }
}

/// The driver-side speed computation: geodesic distance in meters over
/// elapsed seconds, scaled to km/h.
fn compute_speed(req: &gpx_loader::track::SpeedRequest) -> f64 {
    let prev = geoutils::Location::new(
        f64::from_bits(req.prev_latitude),
        f64::from_bits(req.prev_longitude),
    );
    let next = geoutils::Location::new(
        f64::from_bits(req.next_latitude),
        f64::from_bits(req.next_longitude),
    );
    let distance = next.distance_to(&prev).unwrap().meters();
    let dt = (req.next_time.seconds - req.prev_time.seconds) as f64
        + (req.next_time.nanos as f64 - req.prev_time.nanos as f64) / 1_000_000_000.0;
    distance / dt * 3.6
}

fn fill(segment: &mut Segment) -> Result<(), Error> {
    let plan = speed_fill_plan(segment)?;
    let mut computed: Vec<u64> = Vec::new();
    for req in &plan {
        computed.push(compute_speed(req).to_bits());
    }
    fill_speed_on_missing(segment, &computed);
    Ok(())
}

#[test]
fn fill_empty_segment_succeeds_and_changes_nothing() {
    let mut seg = Segment { points: Vec::new() };
    let plan = speed_fill_plan(&seg).unwrap();
    assert_eq!(plan.len(), 0);
    fill_speed_on_missing(&mut seg, &Vec::new());
    assert_eq!(seg.points.len(), 0);
}

#[test]
fn single_point_keeps_absent_speed() {
    let mut seg = Segment { points: vec![point(47.0, -122.0, Some(100), None)] };
    fill(&mut seg).unwrap();
    assert!(seg.points[0].speed.is_none());
}

#[test]
fn single_point_keeps_existing_speed() {
    let mut seg = Segment { points: vec![point(47.0, -122.0, None, Some(12.5))] };
    fill(&mut seg).unwrap();
    assert_eq!(seg.points[0].speed, Some(12.5f64.to_bits()));
}

#[test]
fn two_points_all_speeds_filled_and_first_mirrors_second() {
    let mut seg = Segment {
        points: vec![
            point(47.0, -122.0, Some(1000), None),
            point(47.001, -122.0, Some(1010), None),
        ],
    };
    fill(&mut seg).unwrap();
    assert!(seg.points.iter().all(|p| p.speed.is_some()));
    assert_eq!(seg.points[0].speed, seg.points[1].speed);

    // About 111 m in 10 s: the filled speed is close to 40 km/h.
    let kmh = f64::from_bits(seg.points[1].speed.unwrap());
    assert!(kmh > 35.0 && kmh < 45.0, "unexpected speed: {kmh}");
}

#[test]
fn longer_segment_fills_every_missing_speed() {
    let mut seg = Segment {
        points: vec![
            point(47.0, -122.0, Some(0), None),
            point(47.001, -122.0, Some(10), None),
            point(47.002, -122.0, Some(20), None),
            point(47.003, -122.0, Some(30), None),
        ],
    };
    fill(&mut seg).unwrap();
    assert!(seg.points.iter().all(|p| p.speed.is_some()));
    assert_eq!(seg.points[0].speed, seg.points[1].speed);
}

#[test]
fn existing_speeds_are_never_overwritten() {
    let preset = 99.0f64.to_bits();
    let mut seg = Segment {
        points: vec![
            point(47.0, -122.0, Some(0), None),
            point(47.001, -122.0, Some(10), Some(99.0)),
            point(47.002, -122.0, Some(20), None),
        ],
    };
    let plan = speed_fill_plan(&seg).unwrap();
    // Only the point at index 2 needs a computed speed.
    assert_eq!(plan.len(), 1);
    assert_eq!(plan[0].index, 2);
    fill(&mut seg).unwrap();
    assert_eq!(seg.points[1].speed, Some(preset));
    // The first point mirrors the second, even though the second was preset.
    assert_eq!(seg.points[0].speed, Some(preset));
}

#[test]
fn plan_carries_the_inputs_of_the_computation() {
    let seg = Segment {
        points: vec![
            point(47.0, -122.5, Some(5), Some(1.0)),
            point(47.1, -122.25, Some(15), None),
        ],
    };
    let plan = speed_fill_plan(&seg).unwrap();
    assert_eq!(plan.len(), 1);
    let req = &plan[0];
    assert_eq!(req.index, 1);
    assert_eq!(req.prev_latitude, 47.0f64.to_bits());
    assert_eq!(req.prev_longitude, (-122.5f64).to_bits());
    assert_eq!(req.next_latitude, 47.1f64.to_bits());
    assert_eq!(req.next_longitude, (-122.25f64).to_bits());
    assert_eq!(req.prev_time, Timestamp { seconds: 5, nanos: 0 });
    assert_eq!(req.next_time, Timestamp { seconds: 15, nanos: 0 });
}

#[test]
fn missing_timestamp_is_a_fatal_error() {
    let seg = Segment {
        points: vec![
            point(47.0, -122.0, Some(0), None),
            point(47.001, -122.0, None, None),
        ],
    };
    assert!(matches!(speed_fill_plan(&seg), Err(Error::TimestampNotPresent)));

    // The previous point's timestamp is read too.
    let seg = Segment {
        points: vec![
            point(47.0, -122.0, None, None),
            point(47.001, -122.0, Some(10), None),
        ],
    };
    assert!(matches!(speed_fill_plan(&seg), Err(Error::TimestampNotPresent)));
}

#[test]
fn present_speeds_need_no_timestamps() {
    let mut seg = Segment {
        points: vec![
            point(47.0, -122.0, None, Some(3.0)),
            point(47.001, -122.0, None, Some(4.0)),
        ],
    };
    fill(&mut seg).unwrap();
    assert_eq!(seg.points[0].speed, Some(4.0f64.to_bits()));
    assert_eq!(seg.points[1].speed, Some(4.0f64.to_bits()));
}
