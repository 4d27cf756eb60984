use clutter::actor;
use clutter::actor::allocation;
use clutter::constraint::bind::Coordinate;
use clutter::scaling::Filter;

#[test]
fn actor_flags_codes() {
    assert_eq!(actor::Flags::Mapped.to_raw(), 2);
    assert_eq!(actor::Flags::Realized.to_raw(), 4);
    assert_eq!(actor::Flags::Reactive.to_raw(), 8);
    assert_eq!(actor::Flags::Visible.to_raw(), 16);
    assert_eq!(actor::Flags::NoLayout.to_raw(), 32);
}

#[test]
fn actor_flags_round_trip() {
    let all = [
        actor::Flags::Mapped,
        actor::Flags::Realized,
        actor::Flags::Reactive,
        actor::Flags::Visible,
        actor::Flags::NoLayout,
    ];
    for flag in all {
        assert_eq!(actor::Flags::from_raw(flag.to_raw()), Some(flag));
    }
    assert_eq!(actor::Flags::from_raw(0), None);
    assert_eq!(actor::Flags::from_raw(3), None);
    assert_eq!(actor::Flags::from_raw(64), None);
}

#[test]
fn actor_flags_in_word() {
    let word = 2 | 16;
    assert!(actor::Flags::Mapped.is_set_in(word));
    assert!(actor::Flags::Visible.is_set_in(word));
    assert!(!actor::Flags::Realized.is_set_in(word));
    assert!(!actor::Flags::Reactive.is_set_in(word));
    assert!(!actor::Flags::NoLayout.is_set_in(word));
}

#[test]
fn allocation_flags_codes() {
    assert_eq!(allocation::Flags::NoFlags.to_raw(), 0);
    assert_eq!(allocation::Flags::AbsoluteOriginChanged.to_raw(), 2);
    assert_eq!(allocation::Flags::DelegateLayout.to_raw(), 4);
    let all = [
        allocation::Flags::NoFlags,
        allocation::Flags::AbsoluteOriginChanged,
        allocation::Flags::DelegateLayout,
    ];
    for flag in all {
        assert_eq!(allocation::Flags::from_raw(flag.to_raw()), Some(flag));
    }
    assert_eq!(allocation::Flags::from_raw(1), None);
    assert_eq!(allocation::Flags::from_raw(6), None);
}

#[test]
fn coordinate_codes() {
    let all = [
        Coordinate::X,
        Coordinate::Y,
        Coordinate::Width,
        Coordinate::Height,
        Coordinate::Position,
        Coordinate::Size,
        Coordinate::All,
    ];
    for (index, coordinate) in all.iter().enumerate() {
        assert_eq!(coordinate.to_raw(), index as i32);
        assert_eq!(Coordinate::from_raw(index as i32), Some(*coordinate));
    }
    assert_eq!(Coordinate::from_raw(7), None);
    assert_eq!(Coordinate::from_raw(-1), None);
}

#[test]
fn filter_codes() {
    assert_eq!(Filter::Linear.to_raw(), 0);
    assert_eq!(Filter::Nearest.to_raw(), 1);
    assert_eq!(Filter::Trilinear.to_raw(), 2);
    for filter in [Filter::Linear, Filter::Nearest, Filter::Trilinear] {
        assert_eq!(Filter::from_raw(filter.to_raw()), Some(filter));
    }
    assert_eq!(Filter::from_raw(3), None);
    assert_eq!(Filter::from_raw(-1), None);
}
