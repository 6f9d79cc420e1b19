use flash_algo::lifecycle::{init_step, teardown_step, Function, HwState};

fn running_state() -> HwState {
    HwState { cache_enabled: true, interrupts_enabled: true, peripherals_powered: false }
}

#[test]
fn init_disables_cache_and_interrupts() {
    let (hw, plan) = init_step(running_state(), true, 0, 48_000_000, Function::Erase).unwrap();
    assert!(!hw.cache_enabled);
    assert!(!hw.interrupts_enabled);
    assert!(hw.peripherals_powered);
    assert!(plan.run_power_setup);
}

#[test]
fn init_accepts_every_requested_function() {
    for function in [Function::Erase, Function::Program, Function::Verify] {
        assert!(init_step(running_state(), true, 0, 0, function).is_ok());
        assert!(init_step(running_state(), false, 0x1000, 1, function).is_ok());
    }
}

#[test]
fn init_skips_power_setup_when_peripherals_already_owned() {
    let first = init_step(running_state(), true, 0, 0, Function::Program).unwrap();
    // A second pass no longer acquires the peripheral block: setup is
    // not replayed, the state does not change, and init still succeeds.
    let second = init_step(first.0, false, 0, 0, Function::Program).unwrap();
    assert!(!second.1.run_power_setup);
    assert_eq!(second.0, first.0);
}

#[test]
fn teardown_reenables_cache_and_interrupts() {
    let hw = teardown_step(HwState {
        cache_enabled: false,
        interrupts_enabled: false,
        peripherals_powered: true,
    });
    assert!(hw.cache_enabled);
    assert!(hw.interrupts_enabled);
    assert!(hw.peripherals_powered);
}

#[test]
fn lifecycle_round_trip_restores_flags() {
    // Cache and interrupt flags after init -> operations -> teardown
    // equal their values before init; operations never touch them.
    let before = running_state();
    let (active, _) = init_step(before, true, 0, 0, Function::Erase).unwrap();
    let after = teardown_step(active);
    assert_eq!(after.cache_enabled, before.cache_enabled);
    assert_eq!(after.interrupts_enabled, before.interrupts_enabled);
}
