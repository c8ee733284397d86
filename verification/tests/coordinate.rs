use shapechangeable_display::coordinate::{
    estimate, placement_can_be_extended, try_estimate, GlobalLocation, MAX_DEPTH,
    PARENT_COMPONENT_MAX, PARENT_COMPONENT_MIN,
};
use shapechangeable_display::localnet::LocalNetworkLocation;

#[test]
fn estimate_from_origin_up_left() {
    let (coordinate, location) =
        estimate((0, 0), &GlobalLocation::origin(), LocalNetworkLocation::UpLeft);
    assert_eq!(coordinate, (0, 1));
    assert_eq!(location.path(), vec![LocalNetworkLocation::UpLeft]);
}

#[test]
fn estimate_from_origin_down_left() {
    let (coordinate, location) =
        estimate((0, 0), &GlobalLocation::origin(), LocalNetworkLocation::DownLeft);
    assert_eq!(coordinate, (0, 0));
    assert_eq!(location.path(), vec![LocalNetworkLocation::DownLeft]);
}

#[test]
fn estimate_from_origin_down_right() {
    let (coordinate, location) =
        estimate((0, 0), &GlobalLocation::origin(), LocalNetworkLocation::DownRight);
    assert_eq!(coordinate, (1, 0));
    assert_eq!(location.path(), vec![LocalNetworkLocation::DownRight]);
}

#[test]
fn estimate_from_origin_up_right() {
    let (coordinate, _) =
        estimate((0, 0), &GlobalLocation::origin(), LocalNetworkLocation::UpRight);
    assert_eq!(coordinate, (1, 1));
}

#[test]
fn estimate_doubles_and_steps_and_extends_the_path() {
    let parent = GlobalLocation::from_path(vec![
        LocalNetworkLocation::DownLeft,
        LocalNetworkLocation::UpLeft,
    ])
    .unwrap();
    let (coordinate, location) = estimate((3, 2), &parent, LocalNetworkLocation::UpRight);
    assert_eq!(coordinate, (7, 5));
    assert_eq!(
        location.path(),
        vec![
            LocalNetworkLocation::DownLeft,
            LocalNetworkLocation::UpLeft,
            LocalNetworkLocation::UpRight
        ]
    );
    assert_eq!(location.depth(), parent.depth() + 1);
}

#[test]
fn estimate_of_negative_coordinates() {
    let (coordinate, _) =
        estimate((-3, -1), &GlobalLocation::origin(), LocalNetworkLocation::UpRight);
    assert_eq!(coordinate, (-5, -1));
}

#[test]
fn estimate_at_the_bounds_of_the_coordinate_range() {
    let origin = GlobalLocation::origin();
    let (high, _) = estimate(
        (PARENT_COMPONENT_MAX, PARENT_COMPONENT_MAX),
        &origin,
        LocalNetworkLocation::UpRight,
    );
    assert_eq!(high, (i16::MAX, i16::MAX));
    let (low, _) = estimate(
        (PARENT_COMPONENT_MIN, PARENT_COMPONENT_MIN),
        &origin,
        LocalNetworkLocation::DownLeft,
    );
    assert_eq!(low, (i16::MIN, i16::MIN));
}

#[test]
fn try_estimate_agrees_with_estimate() {
    let origin = GlobalLocation::origin();
    let placement = try_estimate((3, 2), &origin, LocalNetworkLocation::UpRight).unwrap();
    assert_eq!(placement.0, (7, 5));
    assert_eq!(placement.1.path(), vec![LocalNetworkLocation::UpRight]);
}

#[test]
fn try_estimate_refuses_a_coordinate_that_cannot_be_doubled() {
    let origin = GlobalLocation::origin();
    assert!(try_estimate((16384, 0), &origin, LocalNetworkLocation::DownLeft).is_none());
    assert!(try_estimate((0, 16384), &origin, LocalNetworkLocation::DownLeft).is_none());
    assert!(try_estimate((-16385, 0), &origin, LocalNetworkLocation::DownLeft).is_none());
    assert!(try_estimate((0, -16385), &origin, LocalNetworkLocation::DownLeft).is_none());
    assert!(try_estimate((16383, -16384), &origin, LocalNetworkLocation::UpRight).is_some());
    assert!(!placement_can_be_extended((i16::MAX, 0), &origin));
    assert!(placement_can_be_extended((0, 0), &origin));
}

#[test]
fn try_estimate_refuses_a_full_path() {
    let full = GlobalLocation::from_path(vec![LocalNetworkLocation::DownLeft; MAX_DEPTH]).unwrap();
    assert!(try_estimate((0, 0), &full, LocalNetworkLocation::DownLeft).is_none());
    let almost =
        GlobalLocation::from_path(vec![LocalNetworkLocation::DownLeft; MAX_DEPTH - 1]).unwrap();
    let placement = try_estimate((0, 0), &almost, LocalNetworkLocation::UpLeft).unwrap();
    assert_eq!(placement.1.depth(), MAX_DEPTH);
    assert_eq!(placement.1.step(MAX_DEPTH - 1), Some(LocalNetworkLocation::UpLeft));
}

#[test]
fn origin_is_the_empty_path() {
    let origin = GlobalLocation::origin();
    assert_eq!(origin.depth(), 0);
    assert_eq!(origin.path(), vec![]);
    assert_eq!(origin.step(0), None);
}

#[test]
fn from_path_refuses_a_path_that_is_too_long() {
    assert!(GlobalLocation::from_path(vec![LocalNetworkLocation::UpLeft; MAX_DEPTH]).is_some());
    assert!(GlobalLocation::from_path(vec![LocalNetworkLocation::UpLeft; MAX_DEPTH + 1]).is_none());
}

#[test]
fn extended_appends_one_step() {
    let one = GlobalLocation::origin().extended(LocalNetworkLocation::UpRight);
    let two = one.extended(LocalNetworkLocation::DownRight);
    assert_eq!(one.path(), vec![LocalNetworkLocation::UpRight]);
    assert_eq!(
        two.path(),
        vec![LocalNetworkLocation::UpRight, LocalNetworkLocation::DownRight]
    );
    assert_eq!(two.step(0), Some(LocalNetworkLocation::UpRight));
    assert_eq!(two.step(1), Some(LocalNetworkLocation::DownRight));
    assert_eq!(two.step(2), None);
}

#[test]
fn clone_of_a_global_location_is_equal() {
    let location = GlobalLocation::from_path(vec![
        LocalNetworkLocation::UpRight,
        LocalNetworkLocation::DownLeft,
    ])
    .unwrap();
    assert_eq!(location.clone(), location);
}

#[test]
fn estimates_of_neighbouring_blocks_do_not_collide() {
    let origin = GlobalLocation::origin();
    let locations = [
        LocalNetworkLocation::UpLeft,
        LocalNetworkLocation::UpRight,
        LocalNetworkLocation::DownLeft,
        LocalNetworkLocation::DownRight,
    ];
    let mut seen = Vec::new();
    for x in -3i16..=3 {
        for y in -3i16..=3 {
            for location in locations {
                let (coordinate, _) = estimate((x, y), &origin, location);
                assert!(!seen.contains(&coordinate));
                seen.push(coordinate);
            }
        }
    }
    assert_eq!(seen.len(), 7 * 7 * 4);
}
