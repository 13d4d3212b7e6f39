use flow::time::{millis_to_timestamp, offset_timestamp, timestamp_to_millis, SkipType, TimeBase, TimeMarker};

#[test]
fn conversions_round_down() {
    let tb = TimeBase::new(1, 44100);
    assert_eq!(timestamp_to_millis(tb, 44100), 1000);
    assert_eq!(timestamp_to_millis(tb, 44099), 999);
    assert_eq!(millis_to_timestamp(tb, 1000), 44100);
    assert_eq!(millis_to_timestamp(tb, 1), 44);
    let coarse = TimeBase::new(1, 1000);
    assert_eq!(timestamp_to_millis(coarse, 5), 5);
    assert_eq!(timestamp_to_millis(TimeBase::new(u32::MAX, 1), u64::MAX), u64::MAX);
    assert_eq!(millis_to_timestamp(TimeBase::new(1, u32::MAX), u64::MAX), u64::MAX);
}

#[test]
fn marker_moves_and_saturates() {
    let mut m = TimeMarker::new(TimeBase::new(1, 1000));
    assert_eq!(m.get_timestamp(), 0);
    m.add_time(2500, SkipType::Forward);
    assert_eq!(m.get_timestamp(), 2500);
    assert_eq!(m.get_time_in_millis(), 2500);
    m.add_time(1000, SkipType::Backward);
    assert_eq!(m.get_timestamp(), 1500);
    m.add_time(5000, SkipType::Backward);
    assert_eq!(m.get_timestamp(), 0);
    m.go_to(u64::MAX - 1);
    m.add_time(10, SkipType::Forward);
    assert_eq!(m.get_timestamp(), u64::MAX);
}

#[test]
fn offset_is_a_pure_function() {
    let tb = TimeBase::new(1, 48000);
    assert_eq!(offset_timestamp(tb, 1000, 20, SkipType::Forward), 1960);
    assert_eq!(offset_timestamp(tb, 1000, 20, SkipType::Forward), offset_timestamp(tb, 1000, 20, SkipType::Forward));
    assert_eq!(offset_timestamp(tb, 1000, 20, SkipType::Backward), 40);
    assert_eq!(offset_timestamp(tb, 1000, 0, SkipType::Backward), 1000);
}
