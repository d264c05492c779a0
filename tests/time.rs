use kernel_core::time::{
    counter_value_to_duration, duration_to_counter_value, max_duration, Duration, TimeManager,
};

const RPI_FREQ: u32 = 62_500_000;

#[test]
fn resolution_is_one_tick() {
    let t = TimeManager::new(RPI_FREQ);
    assert_eq!(t.frequency(), RPI_FREQ);
    assert_eq!(t.resolution().as_nanos(), 16);
    assert_eq!(TimeManager::new(3).resolution().as_nanos(), 333_333_333);
}

#[test]
fn uptime_converts_ticks() {
    let t = TimeManager::new(RPI_FREQ);
    let d = t.uptime(125_000_000);
    assert_eq!((d.as_secs(), d.subsec_nanos()), (2, 0));
    let d = t.uptime(62_500_001);
    assert_eq!((d.as_secs(), d.subsec_nanos()), (1, 16));
    assert_eq!(t.uptime(0).as_nanos(), 0);
}

#[test]
fn counter_to_duration_rounds_down() {
    let d = counter_value_to_duration(10, 3);
    assert_eq!((d.as_secs(), d.subsec_nanos()), (3, 333_333_333));
    let m = max_duration(1);
    assert_eq!((m.as_secs(), m.subsec_nanos()), (u64::MAX, 0));
}

#[test]
fn duration_to_counter_value_cases() {
    assert_eq!(duration_to_counter_value(Duration::new(1, 500_000_000), RPI_FREQ), Ok(93_750_000));
    // Below one tick.
    assert_eq!(duration_to_counter_value(Duration::new(0, 10), RPI_FREQ), Ok(0));
    assert_eq!(duration_to_counter_value(Duration::zero(), RPI_FREQ), Ok(0));
    // The longest span converts back to the counter's largest value.
    assert_eq!(duration_to_counter_value(max_duration(1), 1), Ok(u64::MAX));
    assert_eq!(
        duration_to_counter_value(Duration::new(u64::MAX, 1), 1),
        Err("Conversion error. Duration too big")
    );
    assert_eq!(
        duration_to_counter_value(Duration::new(300_000_000_000, 0), RPI_FREQ),
        Err("Conversion error. Duration too big")
    );
}

#[test]
fn spin_for_target_wraps() {
    let t = TimeManager::new(10);
    assert_eq!(t.spin_for(Duration::new(1, 0), 100), Ok(110));
    assert_eq!(t.spin_for(Duration::new(1, 0), u64::MAX - 5), Ok(4));
    assert!(t.spin_for(Duration::new(u64::MAX, 0), 0).is_err());
}

#[test]
fn duration_new_carries_whole_seconds() {
    let d = Duration::new(1, 2_500_000_000);
    assert_eq!((d.as_secs(), d.subsec_nanos()), (3, 500_000_000));
    assert_eq!(d.as_nanos(), 3_500_000_000);
}
