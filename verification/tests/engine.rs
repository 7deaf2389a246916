use ddns_sandbox::engine::{
    configured_engine, on_epoch_deadline, DeadlineUpdate, MissedTicks, ENGINE_CLOCK_MISSED_TICKS,
    EPOCH_MILLIS, GC_MISSED_TICKS,
};

#[test]
fn guest_yields_for_one_tick() {
    assert_eq!(on_epoch_deadline(), DeadlineUpdate::Yield(1));
    assert_eq!(EPOCH_MILLIS, 25);
}

#[test]
fn engine_is_set_up_for_cooperative_guests() {
    let settings = configured_engine();
    assert!(settings.async_support);
    assert!(settings.epoch_interruption);
    assert!(!settings.consume_fuel);
    assert!(settings.wasm_backtrace);
    assert!(!settings.wasm_backtrace_details);
    assert!(settings.parallel_compilation);
    assert!(!settings.profiling);
    assert!(settings.optimize_for_speed);
    assert!(!settings.pooling.async_stack_zeroing);
    assert!(!settings.pooling.memory_protection_keys);
    assert_eq!(settings.pooling.max_memory_protection_keys, 0);
    assert_eq!(settings.pooling.max_unused_warm_slots, 256);
}

#[test]
fn clocks_that_fall_behind() {
    assert_eq!(ENGINE_CLOCK_MISSED_TICKS, MissedTicks::Delay);
    assert_eq!(GC_MISSED_TICKS, MissedTicks::Skip);
}
